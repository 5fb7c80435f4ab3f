//! Creating a relation template: the name must be unused in the project.
use vstd::prelude::*;
use vstd::string::*;
use crate::common::{
    UserData, ErrorBody, ErrorModel, body, concat2, concat3, or_empty, res_view, unit_res,
    unwrap_or_empty, database_error_body, access_denied_body, validation_error_body, make_body,
    make_database_error_body, make_access_denied_body, make_validation_error_body, validation_error_message,
};
use crate::db::{CypherQuery, ParamModel, QueryParam, int_param, new_entity_id, opt_text_param, pm, text_param};
use crate::model::{Relation, RelationModel};
use crate::validation::{ValidationErrors, ViolationModel, length_rule, opt_length_rule, violations_text};

verus! {

/// Body of the create request. `relation_type` is the logical category, such as
/// `TRANSFER` or `MAIN_ROLE`; `attributes` is JSON text.
#[derive(Debug)]
pub struct CreateRelationRequest {
    pub name: String,
    pub relation_type: String,
    pub description: Option<String>,
    pub attributes: Option<String>,
}

#[derive(Debug)]
pub struct CreateRelationResponse {
    pub id: String,
    pub project_id: u64,
    pub name: String,
    pub relation_type: String,
    pub description: Option<String>,
}

#[derive(Debug)]
pub enum CreateRelationError {
    DatabaseError(String),
    AccessDenied,
    RelationAlreadyExists(String),
}

impl View for CreateRelationError {
    type V = ErrorModel;

    open spec fn view(&self) -> ErrorModel {
        match self {
            CreateRelationError::DatabaseError(m) => ErrorModel::Database(m@),
            CreateRelationError::AccessDenied => ErrorModel::AccessDenied,
            CreateRelationError::RelationAlreadyExists(n) => ErrorModel::AlreadyExists(n@),
        }
    }
}

#[derive(Debug)]
pub enum CreateRelationErrorResponse {
    CreateRelationError(CreateRelationError),
    ValidationError(ValidationErrors),
}

pub open spec fn create_relation_error_text(e: ErrorModel) -> Seq<char> {
    match e {
        ErrorModel::Database(x) => "database error: "@ + x,
        ErrorModel::AlreadyExists(n) => "relation with name '"@ + n + "' already exists in project"@,
        _ => "access denied to project"@,
    }
}

impl CreateRelationError {
    pub fn error_message(&self) -> (m: String)
        ensures
            m@ == create_relation_error_text(self@),
    {
        match self {
            CreateRelationError::DatabaseError(e) => concat2("database error: ", e.as_str()),
            CreateRelationError::AccessDenied => String::from_str("access denied to project"),
            CreateRelationError::RelationAlreadyExists(n) => concat3("relation with name '", n.as_str(), "' already exists in project"),
        }
    }
}

pub open spec fn create_relation_body(e: ErrorModel) -> crate::common::ErrorBodyModel {
    match e {
        ErrorModel::Database(_) => database_error_body(),
        ErrorModel::AlreadyExists(n) => body(409, "RELATION_ALREADY_EXISTS"@,
            "Relation with name '"@ + n + "' already exists in this project."@),
        _ => access_denied_body(),
    }
}

impl CreateRelationErrorResponse {
    /// The reply sent for this error.
    pub fn error_response(&self) -> (b: ErrorBody)
        ensures
            b@ == match self {
                CreateRelationErrorResponse::CreateRelationError(e) => create_relation_body(e@),
                CreateRelationErrorResponse::ValidationError(v) => validation_error_body(v@),
            },
    {
        match self {
            CreateRelationErrorResponse::CreateRelationError(e) => match e {
                CreateRelationError::DatabaseError(_) => make_database_error_body(),
                CreateRelationError::AccessDenied => make_access_denied_body(),
                CreateRelationError::RelationAlreadyExists(n) => make_body(409, "RELATION_ALREADY_EXISTS",
                    concat3("Relation with name '", n.as_str(), "' already exists in this project.")),
            },
            CreateRelationErrorResponse::ValidationError(v) => make_validation_error_body(v),
        }
    }

    /// The full message of this error.
    pub fn error_message(&self) -> (m: String)
        ensures
            m@ == match self {
                CreateRelationErrorResponse::CreateRelationError(e) => "Failed to create relation: "@ + create_relation_error_text(e@),
                CreateRelationErrorResponse::ValidationError(v) => "Validation error: "@ + violations_text(v@),
            },
    {
        match self {
            CreateRelationErrorResponse::CreateRelationError(e) => {
                let inner = e.error_message();
                concat2("Failed to create relation: ", inner.as_str())
            },
            CreateRelationErrorResponse::ValidationError(v) => validation_error_message(v),
        }
    }
}

/// The rules of the body: `name` of 1 to 200 characters, `relation_type` of 1
/// to 100, `description` at most 2000.
pub open spec fn create_relation_violations(r: CreateRelationRequest) -> Seq<ViolationModel> {
    length_rule(r.name@, Some(1), Some(200), "name"@)
        + length_rule(r.relation_type@, Some(1), Some(100), "relation_type"@)
        + opt_length_rule(r.description.deep_view(), None, Some(2000), "description"@)
}

pub fn validate_create_relation(r: &CreateRelationRequest) -> (res: Result<(), ValidationErrors>)
    ensures
        res is Ok <==> create_relation_violations(*r).len() == 0,
        res matches Err(e) ==> e@ == create_relation_violations(*r),
{
    let mut errs = ValidationErrors::new();
    errs.check_len(&r.name, Some(1), Some(200), "name");
    errs.check_len(&r.relation_type, Some(1), Some(100), "relation_type");
    errs.check_opt_len(&r.description, None, Some(2000), "description");
    assert(errs@ =~= create_relation_violations(*r));
    errs.into_result()
}

/// What the handler checks before creating: the body's rules, then access to
/// the project of the path.
pub fn create_relation_precheck(user: &UserData, project_id: u64, r: &CreateRelationRequest)
    -> (res: Result<(), CreateRelationErrorResponse>)
    ensures
        res is Ok <==> create_relation_violations(*r).len() == 0 && user.projects_list@.contains(project_id),
        create_relation_violations(*r).len() != 0 ==> (res matches Err(CreateRelationErrorResponse::ValidationError(v)) && v@ == create_relation_violations(*r)),
        create_relation_violations(*r).len() == 0 && !user.projects_list@.contains(project_id)
            ==> res matches Err(CreateRelationErrorResponse::CreateRelationError(CreateRelationError::AccessDenied)),
{
    match validate_create_relation(r) {
        Err(v) => return Err(CreateRelationErrorResponse::ValidationError(v)),
        Ok(()) => {},
    }
    if !user.has_access(project_id) {
        return Err(CreateRelationErrorResponse::CreateRelationError(CreateRelationError::AccessDenied));
    }
    Ok(())
}

pub open spec fn relation_check_text() -> Seq<char> {
    "MATCH (r:Relation {project_id: $project_id, name: $name})\n         RETURN r LIMIT 1"@
}

pub open spec fn relation_create_text() -> Seq<char> {
    "CREATE (r:Relation {\n            id: $id,\n            project_id: $project_id,\n            name: $name,\n            relation_type: $relation_type,\n            description: $description,\n            attributes: $attributes,\n            created_by: $created_by,\n            created_at: datetime()\n        })"@
}

pub open spec fn relation_create_params(user_id: u64, r: CreateRelationRequest, project_id: u64, id: Seq<char>)
    -> Seq<(Seq<char>, ParamModel)>
{
    seq![
        pm("id"@, ParamModel::Text(id)),
        pm("project_id"@, ParamModel::Int(project_id as i64 as int)),
        pm("name"@, ParamModel::Text(r.name@)),
        pm("relation_type"@, ParamModel::Text(r.relation_type@)),
        pm("description"@, ParamModel::OptText(r.description.deep_view())),
        pm("attributes"@, ParamModel::Text(or_empty(r.attributes.deep_view()))),
        pm("created_by"@, ParamModel::Int(user_id as i64 as int)),
    ]
}

/// Starts the creation: the query that looks for a relation of the same name
/// in the project (its rows are only counted).
pub fn create_relation_begin(project_id: u64, r: &CreateRelationRequest) -> (q: CypherQuery)
    ensures
        q@.text == relation_check_text(),
        q@.params == seq![
            pm("project_id"@, ParamModel::Int(project_id as i64 as int)),
            pm("name"@, ParamModel::Text(r.name@)),
        ],
{
    let mut params: Vec<QueryParam> = Vec::new();
    params.push(int_param("project_id", project_id as i64));
    params.push(text_param("name", r.name.clone()));
    let q = CypherQuery {
        text: String::from_str("MATCH (r:Relation {project_id: $project_id, name: $name})\n         RETURN r LIMIT 1"),
        params,
    };
    assert(q@.params =~= seq![
        pm("project_id"@, ParamModel::Int(project_id as i64 as int)),
        pm("name"@, ParamModel::Text(r.name@)),
    ]);
    q
}

/// The create query of a relation with the given id.
pub fn create_relation_query(user_id: u64, r: &CreateRelationRequest, project_id: u64, id: &String) -> (q: CypherQuery)
    ensures
        q@.text == relation_create_text(),
        q@.params == relation_create_params(user_id, *r, project_id, id@),
{
    let mut params: Vec<QueryParam> = Vec::new();
    params.push(text_param("id", id.clone()));
    params.push(int_param("project_id", project_id as i64));
    params.push(text_param("name", r.name.clone()));
    params.push(text_param("relation_type", r.relation_type.clone()));
    params.push(opt_text_param("description", crate::common::clone_opt(&r.description)));
    params.push(text_param("attributes", unwrap_or_empty(&r.attributes)));
    params.push(int_param("created_by", user_id as i64));
    let q = CypherQuery {
        text: String::from_str("CREATE (r:Relation {\n            id: $id,\n            project_id: $project_id,\n            name: $name,\n            relation_type: $relation_type,\n            description: $description,\n            attributes: $attributes,\n            created_by: $created_by,\n            created_at: datetime()\n        })"),
        params,
    };
    assert(q@.params =~= relation_create_params(user_id, *r, project_id, id@));
    q
}

/// After the name check: a failed query is a database error, a taken name is a
/// conflict, otherwise a fresh id and the create query that stores the relation.
pub fn create_relation_after_check(user_id: u64, r: &CreateRelationRequest, project_id: u64, found: &Result<bool, String>)
    -> (res: Result<(String, CypherQuery), CreateRelationError>)
    ensures
        match found {
            Err(e) => res matches Err(x) && x@ == ErrorModel::Database(e@),
            Ok(true) => res matches Err(x) && x@ == ErrorModel::AlreadyExists(r.name@),
            Ok(false) => res matches Ok((id, q)) && id@.len() == 36 && q@.text == relation_create_text()
                && q@.params == relation_create_params(user_id, *r, project_id, id@),
        },
{
    match found {
        Err(e) => Err(CreateRelationError::DatabaseError(e.clone())),
        Ok(true) => Err(CreateRelationError::RelationAlreadyExists(r.name.clone())),
        Ok(false) => {
            let id = new_entity_id();
            let q = create_relation_query(user_id, r, project_id, &id);
            Ok((id, q))
        },
    }
}

pub open spec fn created_relation(r: CreateRelationRequest, project_id: u64, id: Seq<char>) -> RelationModel {
    RelationModel {
        id,
        project_id,
        name: r.name@,
        relation_type: r.relation_type@,
        description: r.description.deep_view(),
        attributes: r.attributes.deep_view(),
    }
}

/// After the create query: the stored relation, or the database error.
pub fn create_relation_after_create(r: CreateRelationRequest, project_id: u64, id: String, ran: &Result<(), String>)
    -> (res: Result<Relation, CreateRelationError>)
    ensures
        res_view(res) == match unit_res(*ran) {
            Err(e) => Err(ErrorModel::Database(e)),
            Ok(_) => Ok(created_relation(r, project_id, id@)),
        },
{
    match ran {
        Err(e) => Err(CreateRelationError::DatabaseError(e.clone())),
        Ok(()) => Ok(Relation {
            id,
            project_id,
            name: r.name,
            relation_type: r.relation_type,
            description: r.description,
            attributes: r.attributes,
        }),
    }
}

/// The reply to a created relation: 201 with the stored fields.
pub fn create_relation_response(rel: Relation) -> (res: (u16, CreateRelationResponse))
    ensures
        res.0 == 201,
        res.1.id@ == rel.id@,
        res.1.project_id == rel.project_id,
        res.1.name@ == rel.name@,
        res.1.relation_type@ == rel.relation_type@,
        res.1.description.deep_view() == rel.description.deep_view(),
{
    (201, CreateRelationResponse {
        id: rel.id,
        project_id: rel.project_id,
        name: rel.name,
        relation_type: rel.relation_type,
        description: rel.description,
    })
}

} // verus!
