//! Importing a whole project graph from an uploaded JSON file: characters,
//! events, relation templates and connections are merged by id, in that order.
use vstd::prelude::*;
use vstd::string::*;
use crate::common::{
    UserData, ErrorBody, ErrorModel, body, concat2, or_empty, unwrap_or_empty,
    database_error_body, access_denied_body, make_body, make_database_error_body, make_access_denied_body,
};
use crate::db::{CypherQuery, ParamModel, QueryParam, int_param, new_entity_id, pm, text_param};

verus! {

/// A character to import; without an id a fresh one is made.
#[derive(Debug)]
pub struct ImportCharacterDto {
    pub id: Option<String>,
    pub name: String,
    pub description: Option<String>,
    pub attributes: Option<String>,
}

/// An event to import; without an id a fresh one is made.
#[derive(Debug)]
pub struct ImportEventDto {
    pub id: Option<String>,
    pub name: String,
    pub location: Option<String>,
    pub description: Option<String>,
    pub timestamp: Option<String>,
    pub attributes: Option<String>,
}

/// A relation template to import; without an id a fresh one is made.
#[derive(Debug)]
pub struct ImportRelationDto {
    pub id: Option<String>,
    pub name: String,
    pub relation_type: String,
    pub description: Option<String>,
    pub attributes: Option<String>,
}

/// A connection to import; without an id a fresh one is made.
#[derive(Debug)]
pub struct ImportConnectionDto {
    pub id: Option<String>,
    pub from_id: String,
    pub to_id: String,
    pub relation_id: String,
    pub attributes: Option<String>,
}

/// The uploaded file's content. `attributes` fields are JSON text.
#[derive(Debug)]
pub struct ImportProjectGraphRequest {
    pub project_id: u64,
    pub characters: Vec<ImportCharacterDto>,
    pub events: Vec<ImportEventDto>,
    pub relations: Vec<ImportRelationDto>,
    pub connections: Vec<ImportConnectionDto>,
}

#[derive(Debug)]
pub enum ImportGraphError {
    DatabaseError(String),
    AccessDenied,
    InvalidMultipart,
    FileFieldMissing,
    FileReadError,
    JsonParseError(String),
}

impl View for ImportGraphError {
    type V = ErrorModel;

    open spec fn view(&self) -> ErrorModel {
        match self {
            ImportGraphError::DatabaseError(m) => ErrorModel::Database(m@),
            ImportGraphError::AccessDenied => ErrorModel::AccessDenied,
            ImportGraphError::InvalidMultipart => ErrorModel::InvalidMultipart,
            ImportGraphError::FileFieldMissing => ErrorModel::FileFieldMissing,
            ImportGraphError::FileReadError => ErrorModel::FileReadError,
            ImportGraphError::JsonParseError(m) => ErrorModel::JsonParse(m@),
        }
    }
}

#[derive(Debug)]
pub enum ImportGraphErrorResponse {
    ImportGraphError(ImportGraphError),
}

pub open spec fn import_error_text(e: ErrorModel) -> Seq<char> {
    match e {
        ErrorModel::Database(x) => "database error: "@ + x,
        ErrorModel::AccessDenied => "access denied to project"@,
        ErrorModel::InvalidMultipart => "invalid multipart data"@,
        ErrorModel::FileFieldMissing => "missing file field 'file' in form-data"@,
        ErrorModel::FileReadError => "failed to read uploaded file"@,
        ErrorModel::JsonParse(x) => "failed to parse JSON: "@ + x,
        _ => Seq::empty(),
    }
}

impl ImportGraphError {
    pub fn error_message(&self) -> (m: String)
        ensures
            m@ == import_error_text(self@),
    {
        match self {
            ImportGraphError::DatabaseError(e) => concat2("database error: ", e.as_str()),
            ImportGraphError::AccessDenied => String::from_str("access denied to project"),
            ImportGraphError::InvalidMultipart => String::from_str("invalid multipart data"),
            ImportGraphError::FileFieldMissing => String::from_str("missing file field 'file' in form-data"),
            ImportGraphError::FileReadError => String::from_str("failed to read uploaded file"),
            ImportGraphError::JsonParseError(e) => concat2("failed to parse JSON: ", e.as_str()),
        }
    }
}

pub open spec fn import_body(e: ErrorModel) -> crate::common::ErrorBodyModel {
    match e {
        ErrorModel::Database(_) => database_error_body(),
        ErrorModel::AccessDenied => access_denied_body(),
        ErrorModel::InvalidMultipart => body(400, "INVALID_MULTIPART"@, "Invalid multipart/form-data payload."@),
        ErrorModel::FileFieldMissing => body(400, "FILE_FIELD_MISSING"@, "Missing 'file' field in multipart/form-data."@),
        ErrorModel::FileReadError => body(400, "FILE_READ_ERROR"@, "Failed to read uploaded file."@),
        ErrorModel::JsonParse(x) => body(400, "JSON_PARSE_ERROR"@, "Failed to parse JSON: "@ + x),
        _ => database_error_body(),
    }
}

impl ImportGraphErrorResponse {
    /// The reply sent for this error.
    pub fn error_response(&self) -> (b: ErrorBody)
        ensures
            b@ == match self {
                ImportGraphErrorResponse::ImportGraphError(e) => import_body(e@),
            },
    {
        match self {
            ImportGraphErrorResponse::ImportGraphError(e) => match e {
                ImportGraphError::DatabaseError(_) => make_database_error_body(),
                ImportGraphError::AccessDenied => make_access_denied_body(),
                ImportGraphError::InvalidMultipart => make_body(400, "INVALID_MULTIPART",
                    String::from_str("Invalid multipart/form-data payload.")),
                ImportGraphError::FileFieldMissing => make_body(400, "FILE_FIELD_MISSING",
                    String::from_str("Missing 'file' field in multipart/form-data.")),
                ImportGraphError::FileReadError => make_body(400, "FILE_READ_ERROR",
                    String::from_str("Failed to read uploaded file.")),
                ImportGraphError::JsonParseError(x) => make_body(400, "JSON_PARSE_ERROR",
                    concat2("Failed to parse JSON: ", x.as_str())),
            },
        }
    }

    /// The full message of this error.
    pub fn error_message(&self) -> (m: String)
        ensures
            m@ == match self {
                ImportGraphErrorResponse::ImportGraphError(e) => "Failed to import graph: "@ + import_error_text(e@),
            },
    {
        match self {
            ImportGraphErrorResponse::ImportGraphError(e) => {
                let inner = e.error_message();
                concat2("Failed to import graph: ", inner.as_str())
            },
        }
    }
}

/// Whether a form-data field is the uploaded file: its name is `file`.
pub fn is_file_field(name: &Option<String>) -> (r: bool)
    ensures
        r == (name.deep_view() == Some("file"@)),
{
    match name {
        Some(n) => {
            let file = String::from_str("file");
            *n == file
        },
        None => false,
    }
}

/// The uploaded file's bytes, or the error for a form without the file field.
pub fn require_file(file: Option<Vec<u8>>) -> (r: Result<Vec<u8>, ImportGraphError>)
    ensures
        match file {
            Some(b) => r matches Ok(x) && x@ == b@,
            None => r matches Err(ImportGraphError::FileFieldMissing),
        },
{
    match file {
        Some(b) => Ok(b),
        None => Err(ImportGraphError::FileFieldMissing),
    }
}

/// What the handler checks once the file is parsed: access to the file's project.
pub fn import_project_precheck(user: &UserData, r: &ImportProjectGraphRequest) -> (res: Result<(), ImportGraphErrorResponse>)
    ensures
        res is Ok <==> user.projects_list@.contains(r.project_id),
        res matches Err(e) ==> e matches ImportGraphErrorResponse::ImportGraphError(ImportGraphError::AccessDenied),
{
    if !user.has_access(r.project_id) {
        return Err(ImportGraphErrorResponse::ImportGraphError(ImportGraphError::AccessDenied));
    }
    Ok(())
}

/// An item's id is the one it was given, or else a fresh one of 36 characters.
pub open spec fn id_rule(given: Option<Seq<char>>, chosen: Seq<char>) -> bool {
    match given {
        Some(g) => chosen == g,
        None => chosen.len() == 36,
    }
}

fn choose_id(given: &Option<String>) -> (id: String)
    ensures
        id_rule(given.deep_view(), id@),
{
    match given {
        Some(g) => g.clone(),
        None => new_entity_id(),
    }
}

/// One merge query of the import, with the id of the item it stores.
#[derive(Debug)]
pub struct ImportStep {
    pub id: String,
    pub query: CypherQuery,
}

pub open spec fn character_merge_text() -> Seq<char> {
    "MERGE (c:Character {id: $id, project_id: $project_id})\n             ON CREATE SET c.name = $name,\n                           c.description = $description,\n                           c.attributes = $attributes,\n                           c.created_by = $created_by,\n                           c.created_at = datetime()\n             ON MATCH SET  c.name = $name,\n                           c.description = $description,\n                           c.attributes = $attributes,\n                           c.updated_at = datetime()"@
}

pub open spec fn event_merge_text() -> Seq<char> {
    "MERGE (e:Event {id: $id, project_id: $project_id})\n             ON CREATE SET e.name = $name,\n                           e.location = $location,\n                           e.description = $description,\n                           e.timestamp = $timestamp,\n                           e.attributes = $attributes,\n                           e.created_by = $created_by,\n                           e.created_at = datetime()\n             ON MATCH SET  e.name = $name,\n                           e.location = $location,\n                           e.description = $description,\n                           e.timestamp = $timestamp,\n                           e.attributes = $attributes,\n                           e.updated_at = datetime()"@
}

pub open spec fn relation_merge_text() -> Seq<char> {
    "MERGE (r:Relation {id: $id, project_id: $project_id})\n             ON CREATE SET r.name = $name,\n                           r.relation_type = $relation_type,\n                           r.description = $description,\n                           r.attributes = $attributes,\n                           r.created_by = $created_by,\n                           r.created_at = datetime()\n             ON MATCH SET  r.name = $name,\n                           r.relation_type = $relation_type,\n                           r.description = $description,\n                           r.attributes = $attributes,\n                           r.updated_at = datetime()"@
}

pub open spec fn connection_merge_text() -> Seq<char> {
    "MATCH (from {id: $from_id, project_id: $project_id}),\n                   (to   {id: $to_id,   project_id: $project_id}),\n                   (r:Relation {id: $relation_id, project_id: $project_id})\n             MERGE (from)-[c:CONNECTION {id: $id, project_id: $project_id}]->(to)\n             ON CREATE SET\n                 c.from_id       = $from_id,\n                 c.to_id         = $to_id,\n                 c.relation_id   = $relation_id,\n                 c.relation_type = r.relation_type,\n                 c.attributes    = $attributes,\n                 c.created_by    = $created_by,\n                 c.created_at    = datetime()\n             ON MATCH SET\n                 c.from_id       = $from_id,\n                 c.to_id         = $to_id,\n                 c.relation_id   = $relation_id,\n                 c.relation_type = r.relation_type,\n                 c.attributes    = $attributes,\n                 c.updated_at    = datetime()"@
}

pub open spec fn character_merge_params(user_id: u64, project_id: u64, c: ImportCharacterDto, id: Seq<char>) -> Seq<(Seq<char>, ParamModel)> {
    seq![
        pm("id"@, ParamModel::Text(id)),
        pm("project_id"@, ParamModel::Int(project_id as i64 as int)),
        pm("name"@, ParamModel::Text(c.name@)),
        pm("description"@, ParamModel::Text(or_empty(c.description.deep_view()))),
        pm("attributes"@, ParamModel::Text(or_empty(c.attributes.deep_view()))),
        pm("created_by"@, ParamModel::Int(user_id as i64 as int)),
    ]
}

pub open spec fn event_merge_params(user_id: u64, project_id: u64, e: ImportEventDto, id: Seq<char>) -> Seq<(Seq<char>, ParamModel)> {
    seq![
        pm("id"@, ParamModel::Text(id)),
        pm("project_id"@, ParamModel::Int(project_id as i64 as int)),
        pm("name"@, ParamModel::Text(e.name@)),
        pm("location"@, ParamModel::Text(or_empty(e.location.deep_view()))),
        pm("description"@, ParamModel::Text(or_empty(e.description.deep_view()))),
        pm("timestamp"@, ParamModel::Text(or_empty(e.timestamp.deep_view()))),
        pm("attributes"@, ParamModel::Text(or_empty(e.attributes.deep_view()))),
        pm("created_by"@, ParamModel::Int(user_id as i64 as int)),
    ]
}

pub open spec fn relation_merge_params(user_id: u64, project_id: u64, r: ImportRelationDto, id: Seq<char>) -> Seq<(Seq<char>, ParamModel)> {
    seq![
        pm("id"@, ParamModel::Text(id)),
        pm("project_id"@, ParamModel::Int(project_id as i64 as int)),
        pm("name"@, ParamModel::Text(r.name@)),
        pm("relation_type"@, ParamModel::Text(r.relation_type@)),
        pm("description"@, ParamModel::Text(or_empty(r.description.deep_view()))),
        pm("attributes"@, ParamModel::Text(or_empty(r.attributes.deep_view()))),
        pm("created_by"@, ParamModel::Int(user_id as i64 as int)),
    ]
}

pub open spec fn connection_merge_params(user_id: u64, project_id: u64, c: ImportConnectionDto, id: Seq<char>) -> Seq<(Seq<char>, ParamModel)> {
    seq![
        pm("id"@, ParamModel::Text(id)),
        pm("project_id"@, ParamModel::Int(project_id as i64 as int)),
        pm("from_id"@, ParamModel::Text(c.from_id@)),
        pm("to_id"@, ParamModel::Text(c.to_id@)),
        pm("relation_id"@, ParamModel::Text(c.relation_id@)),
        pm("attributes"@, ParamModel::Text(or_empty(c.attributes.deep_view()))),
        pm("created_by"@, ParamModel::Int(user_id as i64 as int)),
    ]
}

/// Step `k` of the import merges, in order, every character, then every event,
/// every relation template and every connection, each under its chosen id.
pub open spec fn import_step_ok(user_id: u64, r: ImportProjectGraphRequest, k: int, s: ImportStep) -> bool {
    let nc = r.characters@.len() as int;
    let ne = r.events@.len() as int;
    let nr = r.relations@.len() as int;
    if k < nc {
        let c = r.characters@[k];
        &&& id_rule(c.id.deep_view(), s.id@)
        &&& s.query@.text == character_merge_text()
        &&& s.query@.params == character_merge_params(user_id, r.project_id, c, s.id@)
    } else if k < nc + ne {
        let e = r.events@[k - nc];
        &&& id_rule(e.id.deep_view(), s.id@)
        &&& s.query@.text == event_merge_text()
        &&& s.query@.params == event_merge_params(user_id, r.project_id, e, s.id@)
    } else if k < nc + ne + nr {
        let x = r.relations@[k - nc - ne];
        &&& id_rule(x.id.deep_view(), s.id@)
        &&& s.query@.text == relation_merge_text()
        &&& s.query@.params == relation_merge_params(user_id, r.project_id, x, s.id@)
    } else {
        let c = r.connections@[k - nc - ne - nr];
        &&& id_rule(c.id.deep_view(), s.id@)
        &&& s.query@.text == connection_merge_text()
        &&& s.query@.params == connection_merge_params(user_id, r.project_id, c, s.id@)
    }
}

/// The merge queries of the import, in the order they run; the import stops at
/// the first that fails.
pub fn import_project_graph_plan(user_id: u64, r: &ImportProjectGraphRequest) -> (steps: Vec<ImportStep>)
    ensures
        steps@.len() == r.characters@.len() + r.events@.len() + r.relations@.len() + r.connections@.len(),
        forall|k: int| 0 <= k < steps@.len() ==> import_step_ok(user_id, *r, k, #[trigger] steps@[k]),
{
    let mut steps: Vec<ImportStep> = Vec::new();
    let pid = r.project_id as i64;
    let nc = r.characters.len();
    for i in 0..nc
        invariant
            nc == r.characters@.len(),
            pid == r.project_id as i64,
            steps@.len() == i,
            forall|k: int| 0 <= k < steps@.len() ==> import_step_ok(user_id, *r, k, #[trigger] steps@[k]),
    {
        let c = &r.characters[i];
        let id = choose_id(&c.id);
        let mut params: Vec<QueryParam> = Vec::new();
        params.push(text_param("id", id.clone()));
        params.push(int_param("project_id", pid));
        params.push(text_param("name", c.name.clone()));
        params.push(text_param("description", unwrap_or_empty(&c.description)));
        params.push(text_param("attributes", unwrap_or_empty(&c.attributes)));
        params.push(int_param("created_by", user_id as i64));
        let query = CypherQuery { text: String::from_str("MERGE (c:Character {id: $id, project_id: $project_id})\n             ON CREATE SET c.name = $name,\n                           c.description = $description,\n                           c.attributes = $attributes,\n                           c.created_by = $created_by,\n                           c.created_at = datetime()\n             ON MATCH SET  c.name = $name,\n                           c.description = $description,\n                           c.attributes = $attributes,\n                           c.updated_at = datetime()"), params };
        assert(query@.params =~= character_merge_params(user_id, r.project_id, *c, id@));
        steps.push(ImportStep { id, query });
    }
    let ne = r.events.len();
    for i in 0..ne
        invariant
            nc == r.characters@.len(),
            ne == r.events@.len(),
            pid == r.project_id as i64,
            steps@.len() == nc + i,
            forall|k: int| 0 <= k < steps@.len() ==> import_step_ok(user_id, *r, k, #[trigger] steps@[k]),
    {
        let e = &r.events[i];
        let id = choose_id(&e.id);
        let mut params: Vec<QueryParam> = Vec::new();
        params.push(text_param("id", id.clone()));
        params.push(int_param("project_id", pid));
        params.push(text_param("name", e.name.clone()));
        params.push(text_param("location", unwrap_or_empty(&e.location)));
        params.push(text_param("description", unwrap_or_empty(&e.description)));
        params.push(text_param("timestamp", unwrap_or_empty(&e.timestamp)));
        params.push(text_param("attributes", unwrap_or_empty(&e.attributes)));
        params.push(int_param("created_by", user_id as i64));
        let query = CypherQuery { text: String::from_str("MERGE (e:Event {id: $id, project_id: $project_id})\n             ON CREATE SET e.name = $name,\n                           e.location = $location,\n                           e.description = $description,\n                           e.timestamp = $timestamp,\n                           e.attributes = $attributes,\n                           e.created_by = $created_by,\n                           e.created_at = datetime()\n             ON MATCH SET  e.name = $name,\n                           e.location = $location,\n                           e.description = $description,\n                           e.timestamp = $timestamp,\n                           e.attributes = $attributes,\n                           e.updated_at = datetime()"), params };
        assert(query@.params =~= event_merge_params(user_id, r.project_id, *e, id@));
        steps.push(ImportStep { id, query });
    }
    let nr = r.relations.len();
    for i in 0..nr
        invariant
            nc == r.characters@.len(),
            ne == r.events@.len(),
            nr == r.relations@.len(),
            pid == r.project_id as i64,
            steps@.len() == nc + ne + i,
            forall|k: int| 0 <= k < steps@.len() ==> import_step_ok(user_id, *r, k, #[trigger] steps@[k]),
    {
        let x = &r.relations[i];
        let id = choose_id(&x.id);
        let mut params: Vec<QueryParam> = Vec::new();
        params.push(text_param("id", id.clone()));
        params.push(int_param("project_id", pid));
        params.push(text_param("name", x.name.clone()));
        params.push(text_param("relation_type", x.relation_type.clone()));
        params.push(text_param("description", unwrap_or_empty(&x.description)));
        params.push(text_param("attributes", unwrap_or_empty(&x.attributes)));
        params.push(int_param("created_by", user_id as i64));
        let query = CypherQuery { text: String::from_str("MERGE (r:Relation {id: $id, project_id: $project_id})\n             ON CREATE SET r.name = $name,\n                           r.relation_type = $relation_type,\n                           r.description = $description,\n                           r.attributes = $attributes,\n                           r.created_by = $created_by,\n                           r.created_at = datetime()\n             ON MATCH SET  r.name = $name,\n                           r.relation_type = $relation_type,\n                           r.description = $description,\n                           r.attributes = $attributes,\n                           r.updated_at = datetime()"), params };
        assert(query@.params =~= relation_merge_params(user_id, r.project_id, *x, id@));
        steps.push(ImportStep { id, query });
    }
    let nn = r.connections.len();
    for i in 0..nn
        invariant
            nc == r.characters@.len(),
            ne == r.events@.len(),
            nr == r.relations@.len(),
            nn == r.connections@.len(),
            pid == r.project_id as i64,
            steps@.len() == nc + ne + nr + i,
            forall|k: int| 0 <= k < steps@.len() ==> import_step_ok(user_id, *r, k, #[trigger] steps@[k]),
    {
        let c = &r.connections[i];
        let id = choose_id(&c.id);
        let mut params: Vec<QueryParam> = Vec::new();
        params.push(text_param("id", id.clone()));
        params.push(int_param("project_id", pid));
        params.push(text_param("from_id", c.from_id.clone()));
        params.push(text_param("to_id", c.to_id.clone()));
        params.push(text_param("relation_id", c.relation_id.clone()));
        params.push(text_param("attributes", unwrap_or_empty(&c.attributes)));
        params.push(int_param("created_by", user_id as i64));
        let query = CypherQuery { text: String::from_str("MATCH (from {id: $from_id, project_id: $project_id}),\n                   (to   {id: $to_id,   project_id: $project_id}),\n                   (r:Relation {id: $relation_id, project_id: $project_id})\n             MERGE (from)-[c:CONNECTION {id: $id, project_id: $project_id}]->(to)\n             ON CREATE SET\n                 c.from_id       = $from_id,\n                 c.to_id         = $to_id,\n                 c.relation_id   = $relation_id,\n                 c.relation_type = r.relation_type,\n                 c.attributes    = $attributes,\n                 c.created_by    = $created_by,\n                 c.created_at    = datetime()\n             ON MATCH SET\n                 c.from_id       = $from_id,\n                 c.to_id         = $to_id,\n                 c.relation_id   = $relation_id,\n                 c.relation_type = r.relation_type,\n                 c.attributes    = $attributes,\n                 c.updated_at    = datetime()"), params };
        assert(query@.params =~= connection_merge_params(user_id, r.project_id, *c, id@));
        steps.push(ImportStep { id, query });
    }
    steps
}

/// The outcome of an import step: a failed merge ends the import with a database error.
pub fn import_step_outcome(ran: &Result<(), String>) -> (r: Result<(), ImportGraphError>)
    ensures
        match ran {
            Ok(_) => r is Ok,
            Err(e) => r matches Err(x) && x@ == ErrorModel::Database(e@),
        },
{
    match ran {
        Ok(()) => Ok(()),
        Err(e) => Err(ImportGraphError::DatabaseError(e.clone())),
    }
}

} // verus!
