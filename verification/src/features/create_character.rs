//! Creating a character: the name must be unused in the project.
use vstd::prelude::*;
use vstd::string::*;
use crate::common::{
    UserData, ErrorBody, ErrorModel, body, concat2, concat3, or_empty, res_view, unit_res,
    unwrap_or_empty, database_error_body, access_denied_body, validation_error_body, make_body,
    make_database_error_body, make_access_denied_body, make_validation_error_body, validation_error_message,
};
use crate::db::{CypherQuery, ParamModel, QueryParam, int_param, new_entity_id, pm, text_param};
use crate::model::{Character, CharacterModel};
use crate::validation::{ValidationErrors, ViolationModel, range_rule, length_rule, opt_length_rule, violations_text};

verus! {

/// Body of the create request. `attributes` is JSON text.
#[derive(Debug)]
pub struct CreateCharacterRequest {
    pub project_id: u64,
    pub name: String,
    pub description: Option<String>,
    pub attributes: Option<String>,
}

/// The reply to a created character.
#[derive(Debug)]
pub struct CreateCharacterResponse {
    pub id: String,
    pub project_id: u64,
    pub name: String,
    pub description: Option<String>,
}

#[derive(Debug)]
pub enum CreateCharacterError {
    DatabaseError(String),
    CharacterAlreadyExists(String),
    AccessDenied,
    ProjectNotFound,
}

impl View for CreateCharacterError {
    type V = ErrorModel;

    open spec fn view(&self) -> ErrorModel {
        match self {
            CreateCharacterError::DatabaseError(m) => ErrorModel::Database(m@),
            CreateCharacterError::CharacterAlreadyExists(n) => ErrorModel::AlreadyExists(n@),
            CreateCharacterError::AccessDenied => ErrorModel::AccessDenied,
            CreateCharacterError::ProjectNotFound => ErrorModel::ProjectNotFound,
        }
    }
}

#[derive(Debug)]
pub enum CreateCharacterErrorResponse {
    CreateCharacterError(CreateCharacterError),
    ValidationError(ValidationErrors),
}

pub open spec fn create_character_error_text(e: ErrorModel) -> Seq<char> {
    match e {
        ErrorModel::Database(x) => "database error: "@ + x,
        ErrorModel::AlreadyExists(n) => "character with name '"@ + n + "' already exists in project"@,
        ErrorModel::AccessDenied => "access denied to project"@,
        _ => "project not found"@,
    }
}

impl CreateCharacterError {
    pub fn error_message(&self) -> (m: String)
        ensures
            m@ == create_character_error_text(self@),
    {
        match self {
            CreateCharacterError::DatabaseError(e) => concat2("database error: ", e.as_str()),
            CreateCharacterError::CharacterAlreadyExists(n) => concat3("character with name '", n.as_str(), "' already exists in project"),
            CreateCharacterError::AccessDenied => String::from_str("access denied to project"),
            CreateCharacterError::ProjectNotFound => String::from_str("project not found"),
        }
    }
}

/// The reply to each failure of the creation.
pub open spec fn create_character_body(e: ErrorModel) -> crate::common::ErrorBodyModel {
    match e {
        ErrorModel::Database(_) => database_error_body(),
        ErrorModel::AlreadyExists(n) => body(409, "CHARACTER_ALREADY_EXISTS"@,
            "Character with name '"@ + n + "' already exists in this project."@),
        ErrorModel::AccessDenied => access_denied_body(),
        _ => body(404, "PROJECT_NOT_FOUND"@, "The specified project does not exist."@),
    }
}

impl CreateCharacterErrorResponse {
    /// The reply sent for this error.
    pub fn error_response(&self) -> (b: ErrorBody)
        ensures
            b@ == match self {
                CreateCharacterErrorResponse::CreateCharacterError(e) => create_character_body(e@),
                CreateCharacterErrorResponse::ValidationError(v) => validation_error_body(v@),
            },
    {
        match self {
            CreateCharacterErrorResponse::CreateCharacterError(e) => match e {
                CreateCharacterError::DatabaseError(_) => make_database_error_body(),
                CreateCharacterError::CharacterAlreadyExists(n) => make_body(409, "CHARACTER_ALREADY_EXISTS",
                    concat3("Character with name '", n.as_str(), "' already exists in this project.")),
                CreateCharacterError::AccessDenied => make_access_denied_body(),
                CreateCharacterError::ProjectNotFound => make_body(404, "PROJECT_NOT_FOUND",
                    String::from_str("The specified project does not exist.")),
            },
            CreateCharacterErrorResponse::ValidationError(v) => make_validation_error_body(v),
        }
    }

    /// The full message of this error.
    pub fn error_message(&self) -> (m: String)
        ensures
            m@ == match self {
                CreateCharacterErrorResponse::CreateCharacterError(e) => "Failed to create character: "@ + create_character_error_text(e@),
                CreateCharacterErrorResponse::ValidationError(v) => "Validation error: "@ + violations_text(v@),
            },
    {
        match self {
            CreateCharacterErrorResponse::CreateCharacterError(e) => {
                let inner = e.error_message();
                concat2("Failed to create character: ", inner.as_str())
            },
            CreateCharacterErrorResponse::ValidationError(v) => validation_error_message(v),
        }
    }
}

/// The rules of the body: `project_id` at least 1, `name` of 1 to 200
/// characters, `description` (when given) at most 1000 characters.
pub open spec fn create_character_violations(r: CreateCharacterRequest) -> Seq<ViolationModel> {
    range_rule(r.project_id as nat, Some(1), None, "project_id"@)
        + length_rule(r.name@, Some(1), Some(200), "name"@)
        + opt_length_rule(r.description.deep_view(), None, Some(1000), "description"@)
}

pub fn validate_create_character(r: &CreateCharacterRequest) -> (res: Result<(), ValidationErrors>)
    ensures
        res is Ok <==> create_character_violations(*r).len() == 0,
        res matches Err(e) ==> e@ == create_character_violations(*r),
{
    let mut errs = ValidationErrors::new();
    errs.check_range(r.project_id, Some(1), None, "project_id");
    errs.check_len(&r.name, Some(1), Some(200), "name");
    errs.check_opt_len(&r.description, None, Some(1000), "description");
    assert(errs@ =~= create_character_violations(*r));
    errs.into_result()
}

/// What the handler checks before creating: the body's rules, then access to
/// the project of the path.
pub fn create_character_precheck(user: &UserData, project_id: u64, r: &CreateCharacterRequest)
    -> (res: Result<(), CreateCharacterErrorResponse>)
    ensures
        res is Ok <==> create_character_violations(*r).len() == 0 && user.projects_list@.contains(project_id),
        create_character_violations(*r).len() != 0 ==> (res matches Err(CreateCharacterErrorResponse::ValidationError(v)) && v@ == create_character_violations(*r)),
        create_character_violations(*r).len() == 0 && !user.projects_list@.contains(project_id)
            ==> res matches Err(CreateCharacterErrorResponse::CreateCharacterError(CreateCharacterError::AccessDenied)),
{
    match validate_create_character(r) {
        Err(v) => return Err(CreateCharacterErrorResponse::ValidationError(v)),
        Ok(()) => {},
    }
    if !user.has_access(project_id) {
        return Err(CreateCharacterErrorResponse::CreateCharacterError(CreateCharacterError::AccessDenied));
    }
    Ok(())
}

pub open spec fn character_check_text() -> Seq<char> {
    "MATCH (c:Character {project_id: $project_id, name: $name}) RETURN c"@
}

pub open spec fn character_create_text() -> Seq<char> {
    "CREATE (c:Character {\n            id: $id,\n            project_id: $project_id,\n            name: $name,\n            description: $description,\n            created_by: $created_by,\n            created_at: datetime()\n        })\n        RETURN c"@
}

/// Parameters of the create query: the attributes' text is bound only when given.
pub open spec fn character_create_params(user_id: u64, r: CreateCharacterRequest, project_id: u64, id: Seq<char>)
    -> Seq<(Seq<char>, ParamModel)>
{
    seq![
        pm("id"@, ParamModel::Text(id)),
        pm("project_id"@, ParamModel::Int(project_id as i64 as int)),
        pm("name"@, ParamModel::Text(r.name@)),
        pm("description"@, ParamModel::Text(or_empty(r.description.deep_view()))),
        pm("created_by"@, ParamModel::Int(user_id as i64 as int)),
    ] + match r.attributes {
        Some(a) => seq![pm("attributes"@, ParamModel::Text(a@))],
        None => Seq::empty(),
    }
}

/// Starts the creation: a fresh id for the character and the query that looks
/// for a character of the same name in the project (its rows are only counted).
pub fn create_character_begin(project_id: u64, r: &CreateCharacterRequest) -> (res: (String, CypherQuery))
    ensures
        res.0@.len() == 36,
        res.1@.text == character_check_text(),
        res.1@.params == seq![
            pm("project_id"@, ParamModel::Int(project_id as i64 as int)),
            pm("name"@, ParamModel::Text(r.name@)),
        ],
{
    let id = new_entity_id();
    let mut params: Vec<QueryParam> = Vec::new();
    params.push(int_param("project_id", project_id as i64));
    params.push(text_param("name", r.name.clone()));
    let q = CypherQuery {
        text: String::from_str("MATCH (c:Character {project_id: $project_id, name: $name}) RETURN c"),
        params,
    };
    assert(q@.params =~= seq![
        pm("project_id"@, ParamModel::Int(project_id as i64 as int)),
        pm("name"@, ParamModel::Text(r.name@)),
    ]);
    (id, q)
}

/// After the name check (whether a row came back): a failed query is a
/// database error, a taken name is a conflict, otherwise the create query runs.
pub fn create_character_after_check(user_id: u64, r: &CreateCharacterRequest, project_id: u64, id: &String, found: &Result<bool, String>)
    -> (res: Result<CypherQuery, CreateCharacterError>)
    ensures
        match found {
            Err(e) => res matches Err(x) && x@ == ErrorModel::Database(e@),
            Ok(true) => res matches Err(x) && x@ == ErrorModel::AlreadyExists(r.name@),
            Ok(false) => res matches Ok(q) && q@.text == character_create_text()
                && q@.params == character_create_params(user_id, *r, project_id, id@),
        },
{
    match found {
        Err(e) => Err(CreateCharacterError::DatabaseError(e.clone())),
        Ok(true) => Err(CreateCharacterError::CharacterAlreadyExists(r.name.clone())),
        Ok(false) => {
            let mut params: Vec<QueryParam> = Vec::new();
            params.push(text_param("id", id.clone()));
            params.push(int_param("project_id", project_id as i64));
            params.push(text_param("name", r.name.clone()));
            params.push(text_param("description", unwrap_or_empty(&r.description)));
            params.push(int_param("created_by", user_id as i64));
            match &r.attributes {
                Some(a) => params.push(text_param("attributes", a.clone())),
                None => {},
            }
            let q = CypherQuery {
                text: String::from_str("CREATE (c:Character {\n            id: $id,\n            project_id: $project_id,\n            name: $name,\n            description: $description,\n            created_by: $created_by,\n            created_at: datetime()\n        })\n        RETURN c"),
                params,
            };
            assert(q@.params =~= character_create_params(user_id, *r, project_id, id@));
            Ok(q)
        },
    }
}

/// The character that the creation stores.
pub open spec fn created_character(r: CreateCharacterRequest, project_id: u64, id: Seq<char>) -> CharacterModel {
    CharacterModel {
        id,
        project_id,
        name: r.name@,
        description: r.description.deep_view(),
        attributes: r.attributes.deep_view(),
    }
}

/// After the create query: the stored character, or the database error.
pub fn create_character_after_create(r: CreateCharacterRequest, project_id: u64, id: String, ran: &Result<(), String>)
    -> (res: Result<Character, CreateCharacterError>)
    ensures
        res_view(res) == match unit_res(*ran) {
            Err(e) => Err(ErrorModel::Database(e)),
            Ok(_) => Ok(created_character(r, project_id, id@)),
        },
{
    match ran {
        Err(e) => Err(CreateCharacterError::DatabaseError(e.clone())),
        Ok(()) => Ok(Character {
            id,
            project_id,
            name: r.name,
            description: r.description,
            attributes: r.attributes,
        }),
    }
}

/// The reply to a created character: 201, with the path's project id.
pub fn create_character_response(c: Character, project_id: u64) -> (res: (u16, CreateCharacterResponse))
    ensures
        res.0 == 201,
        res.1.id@ == c.id@,
        res.1.project_id == project_id,
        res.1.name@ == c.name@,
        res.1.description.deep_view() == c.description.deep_view(),
{
    (201, CreateCharacterResponse { id: c.id, project_id, name: c.name, description: c.description })
}

} // verus!
