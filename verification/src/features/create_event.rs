//! Creating an event: the name must be unused in the project.
use vstd::prelude::*;
use vstd::string::*;
use crate::common::{
    UserData, ErrorBody, ErrorModel, body, concat2, concat3, or_empty, res_view, unit_res,
    unwrap_or_empty, database_error_body, access_denied_body, validation_error_body, make_body,
    make_database_error_body, make_access_denied_body, make_validation_error_body, validation_error_message,
};
use crate::db::{CypherQuery, ParamModel, QueryParam, int_param, new_entity_id, opt_text_param, pm, text_param};
use crate::model::{Event, EventModel};
use crate::validation::{ValidationErrors, ViolationModel, range_rule, length_rule, opt_length_rule, violations_text};

verus! {

/// Body of the create request. `timestamp` is date-time text such as
/// `2024-01-15T10:00:00Z`; `attributes` is JSON text.
#[derive(Debug)]
pub struct CreateEventRequest {
    pub project_id: u64,
    pub name: String,
    pub location: Option<String>,
    pub description: Option<String>,
    pub timestamp: Option<String>,
    pub attributes: Option<String>,
}

#[derive(Debug)]
pub struct CreateEventResponse {
    pub id: String,
    pub project_id: u64,
    pub name: String,
    pub location: Option<String>,
    pub description: Option<String>,
    pub timestamp: Option<String>,
}

#[derive(Debug)]
pub enum CreateEventError {
    DatabaseError(String),
    AccessDenied,
    EventAlreadyExists(String),
}

impl View for CreateEventError {
    type V = ErrorModel;

    open spec fn view(&self) -> ErrorModel {
        match self {
            CreateEventError::DatabaseError(m) => ErrorModel::Database(m@),
            CreateEventError::AccessDenied => ErrorModel::AccessDenied,
            CreateEventError::EventAlreadyExists(n) => ErrorModel::AlreadyExists(n@),
        }
    }
}

#[derive(Debug)]
pub enum CreateEventErrorResponse {
    CreateEventError(CreateEventError),
    ValidationError(ValidationErrors),
}

pub open spec fn create_event_error_text(e: ErrorModel) -> Seq<char> {
    match e {
        ErrorModel::Database(x) => "database error: "@ + x,
        ErrorModel::AlreadyExists(n) => "event with name '"@ + n + "' already exists in project"@,
        _ => "access denied to project"@,
    }
}

impl CreateEventError {
    pub fn error_message(&self) -> (m: String)
        ensures
            m@ == create_event_error_text(self@),
    {
        match self {
            CreateEventError::DatabaseError(e) => concat2("database error: ", e.as_str()),
            CreateEventError::AccessDenied => String::from_str("access denied to project"),
            CreateEventError::EventAlreadyExists(n) => concat3("event with name '", n.as_str(), "' already exists in project"),
        }
    }
}

pub open spec fn create_event_body(e: ErrorModel) -> crate::common::ErrorBodyModel {
    match e {
        ErrorModel::Database(_) => database_error_body(),
        ErrorModel::AlreadyExists(n) => body(409, "EVENT_ALREADY_EXISTS"@,
            "Event with name '"@ + n + "' already exists in this project."@),
        _ => access_denied_body(),
    }
}

impl CreateEventErrorResponse {
    /// The reply sent for this error.
    pub fn error_response(&self) -> (b: ErrorBody)
        ensures
            b@ == match self {
                CreateEventErrorResponse::CreateEventError(e) => create_event_body(e@),
                CreateEventErrorResponse::ValidationError(v) => validation_error_body(v@),
            },
    {
        match self {
            CreateEventErrorResponse::CreateEventError(e) => match e {
                CreateEventError::DatabaseError(_) => make_database_error_body(),
                CreateEventError::AccessDenied => make_access_denied_body(),
                CreateEventError::EventAlreadyExists(n) => make_body(409, "EVENT_ALREADY_EXISTS",
                    concat3("Event with name '", n.as_str(), "' already exists in this project.")),
            },
            CreateEventErrorResponse::ValidationError(v) => make_validation_error_body(v),
        }
    }

    /// The full message of this error.
    pub fn error_message(&self) -> (m: String)
        ensures
            m@ == match self {
                CreateEventErrorResponse::CreateEventError(e) => "Failed to create event: "@ + create_event_error_text(e@),
                CreateEventErrorResponse::ValidationError(v) => "Validation error: "@ + violations_text(v@),
            },
    {
        match self {
            CreateEventErrorResponse::CreateEventError(e) => {
                let inner = e.error_message();
                concat2("Failed to create event: ", inner.as_str())
            },
            CreateEventErrorResponse::ValidationError(v) => validation_error_message(v),
        }
    }
}

/// The rules of the body: `project_id` at least 1, `name` of 1 to 200
/// characters, `location` at most 500, `description` at most 2000.
pub open spec fn create_event_violations(r: CreateEventRequest) -> Seq<ViolationModel> {
    range_rule(r.project_id as nat, Some(1), None, "project_id"@)
        + length_rule(r.name@, Some(1), Some(200), "name"@)
        + opt_length_rule(r.location.deep_view(), None, Some(500), "location"@)
        + opt_length_rule(r.description.deep_view(), None, Some(2000), "description"@)
}

pub fn validate_create_event(r: &CreateEventRequest) -> (res: Result<(), ValidationErrors>)
    ensures
        res is Ok <==> create_event_violations(*r).len() == 0,
        res matches Err(e) ==> e@ == create_event_violations(*r),
{
    let mut errs = ValidationErrors::new();
    errs.check_range(r.project_id, Some(1), None, "project_id");
    errs.check_len(&r.name, Some(1), Some(200), "name");
    errs.check_opt_len(&r.location, None, Some(500), "location");
    errs.check_opt_len(&r.description, None, Some(2000), "description");
    assert(errs@ =~= create_event_violations(*r));
    errs.into_result()
}

/// What the handler checks before creating: the body's rules, then access to
/// the project of the path.
pub fn create_event_precheck(user: &UserData, project_id: u64, r: &CreateEventRequest)
    -> (res: Result<(), CreateEventErrorResponse>)
    ensures
        res is Ok <==> create_event_violations(*r).len() == 0 && user.projects_list@.contains(project_id),
        create_event_violations(*r).len() != 0 ==> (res matches Err(CreateEventErrorResponse::ValidationError(v)) && v@ == create_event_violations(*r)),
        create_event_violations(*r).len() == 0 && !user.projects_list@.contains(project_id)
            ==> res matches Err(CreateEventErrorResponse::CreateEventError(CreateEventError::AccessDenied)),
{
    match validate_create_event(r) {
        Err(v) => return Err(CreateEventErrorResponse::ValidationError(v)),
        Ok(()) => {},
    }
    if !user.has_access(project_id) {
        return Err(CreateEventErrorResponse::CreateEventError(CreateEventError::AccessDenied));
    }
    Ok(())
}

pub open spec fn event_check_text() -> Seq<char> {
    "MATCH (e:Event {project_id: $project_id, name: $name})\n         RETURN e LIMIT 1"@
}

pub open spec fn event_create_text() -> Seq<char> {
    "CREATE (e:Event {\n            id: $id,\n            project_id: $project_id,\n            name: $name,\n            location: $location,\n            description: $description,\n            timestamp: $timestamp,\n            attributes: $attributes,\n            created_by: $created_by,\n            created_at: datetime()\n        })"@
}

pub open spec fn event_create_params(user_id: u64, r: CreateEventRequest, project_id: u64, id: Seq<char>)
    -> Seq<(Seq<char>, ParamModel)>
{
    seq![
        pm("id"@, ParamModel::Text(id)),
        pm("project_id"@, ParamModel::Int(project_id as i64 as int)),
        pm("name"@, ParamModel::Text(r.name@)),
        pm("location"@, ParamModel::OptText(r.location.deep_view())),
        pm("description"@, ParamModel::OptText(r.description.deep_view())),
        pm("timestamp"@, ParamModel::OptText(r.timestamp.deep_view())),
        pm("attributes"@, ParamModel::Text(or_empty(r.attributes.deep_view()))),
        pm("created_by"@, ParamModel::Int(user_id as i64 as int)),
    ]
}

/// Starts the creation: the query that looks for an event of the same name in
/// the project (its rows are only counted).
pub fn create_event_begin(project_id: u64, r: &CreateEventRequest) -> (q: CypherQuery)
    ensures
        q@.text == event_check_text(),
        q@.params == seq![
            pm("project_id"@, ParamModel::Int(project_id as i64 as int)),
            pm("name"@, ParamModel::Text(r.name@)),
        ],
{
    let mut params: Vec<QueryParam> = Vec::new();
    params.push(int_param("project_id", project_id as i64));
    params.push(text_param("name", r.name.clone()));
    let q = CypherQuery {
        text: String::from_str("MATCH (e:Event {project_id: $project_id, name: $name})\n         RETURN e LIMIT 1"),
        params,
    };
    assert(q@.params =~= seq![
        pm("project_id"@, ParamModel::Int(project_id as i64 as int)),
        pm("name"@, ParamModel::Text(r.name@)),
    ]);
    q
}

/// The create query of an event with the given id.
pub fn create_event_query(user_id: u64, r: &CreateEventRequest, project_id: u64, id: &String) -> (q: CypherQuery)
    ensures
        q@.text == event_create_text(),
        q@.params == event_create_params(user_id, *r, project_id, id@),
{
    let mut params: Vec<QueryParam> = Vec::new();
    params.push(text_param("id", id.clone()));
    params.push(int_param("project_id", project_id as i64));
    params.push(text_param("name", r.name.clone()));
    params.push(opt_text_param("location", crate::common::clone_opt(&r.location)));
    params.push(opt_text_param("description", crate::common::clone_opt(&r.description)));
    params.push(opt_text_param("timestamp", crate::common::clone_opt(&r.timestamp)));
    params.push(text_param("attributes", unwrap_or_empty(&r.attributes)));
    params.push(int_param("created_by", user_id as i64));
    let q = CypherQuery {
        text: String::from_str("CREATE (e:Event {\n            id: $id,\n            project_id: $project_id,\n            name: $name,\n            location: $location,\n            description: $description,\n            timestamp: $timestamp,\n            attributes: $attributes,\n            created_by: $created_by,\n            created_at: datetime()\n        })"),
        params,
    };
    assert(q@.params =~= event_create_params(user_id, *r, project_id, id@));
    q
}

/// After the name check: a failed query is a database error, a taken name is a
/// conflict, otherwise a fresh id and the create query that stores the event.
pub fn create_event_after_check(user_id: u64, r: &CreateEventRequest, project_id: u64, found: &Result<bool, String>)
    -> (res: Result<(String, CypherQuery), CreateEventError>)
    ensures
        match found {
            Err(e) => res matches Err(x) && x@ == ErrorModel::Database(e@),
            Ok(true) => res matches Err(x) && x@ == ErrorModel::AlreadyExists(r.name@),
            Ok(false) => res matches Ok((id, q)) && id@.len() == 36 && q@.text == event_create_text()
                && q@.params == event_create_params(user_id, *r, project_id, id@),
        },
{
    match found {
        Err(e) => Err(CreateEventError::DatabaseError(e.clone())),
        Ok(true) => Err(CreateEventError::EventAlreadyExists(r.name.clone())),
        Ok(false) => {
            let id = new_entity_id();
            let q = create_event_query(user_id, r, project_id, &id);
            Ok((id, q))
        },
    }
}

pub open spec fn created_event(r: CreateEventRequest, project_id: u64, id: Seq<char>) -> EventModel {
    EventModel {
        id,
        project_id,
        name: r.name@,
        location: r.location.deep_view(),
        description: r.description.deep_view(),
        timestamp: r.timestamp.deep_view(),
        attributes: r.attributes.deep_view(),
    }
}

/// After the create query: the stored event, or the database error.
pub fn create_event_after_create(r: CreateEventRequest, project_id: u64, id: String, ran: &Result<(), String>)
    -> (res: Result<Event, CreateEventError>)
    ensures
        res_view(res) == match unit_res(*ran) {
            Err(e) => Err(ErrorModel::Database(e)),
            Ok(_) => Ok(created_event(r, project_id, id@)),
        },
{
    match ran {
        Err(e) => Err(CreateEventError::DatabaseError(e.clone())),
        Ok(()) => Ok(Event {
            id,
            project_id,
            name: r.name,
            location: r.location,
            description: r.description,
            timestamp: r.timestamp,
            attributes: r.attributes,
        }),
    }
}

/// The reply to a created event: 201 with the stored fields.
pub fn create_event_response(e: Event) -> (res: (u16, CreateEventResponse))
    ensures
        res.0 == 201,
        res.1.id@ == e.id@,
        res.1.project_id == e.project_id,
        res.1.name@ == e.name@,
        res.1.location.deep_view() == e.location.deep_view(),
        res.1.description.deep_view() == e.description.deep_view(),
        res.1.timestamp.deep_view() == e.timestamp.deep_view(),
{
    (201, CreateEventResponse {
        id: e.id,
        project_id: e.project_id,
        name: e.name,
        location: e.location,
        description: e.description,
        timestamp: e.timestamp,
    })
}

} // verus!
