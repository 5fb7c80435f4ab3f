//! Creating a connection between two entities of a project from a relation
//! template: both ends and the template must exist, and the same connection
//! must not exist yet.
use vstd::prelude::*;
use vstd::string::*;
use crate::common::{
    UserData, ErrorBody, ErrorModel, body, concat2, concat3, or_empty, res_view, unit_res,
    unwrap_or_empty, database_error_body, access_denied_body, decode_error_body_with, validation_error_body, make_body,
    make_database_error_body, make_access_denied_body, make_decode_error_body_with, make_validation_error_body,
    validation_error_message,
};
use crate::db::{
    CellKind, CellModel, Column, CypherQuery, ParamModel, QueryParam, ReadQuery, Row, cell_fault, check_row, column,
    int_param, lemma_no_fault_cells, new_entity_id, pm, row_fault, text_at, text_param,
};
use crate::model::{Connection, ConnectionModel};
use crate::paging::first_model;
use crate::validation::{ValidationErrors, ViolationModel, length_rule, violations_text};

verus! {

/// Body of the create request. `attributes` is the JSON text of the
/// connection's own properties.
#[derive(Debug)]
pub struct CreateConnectionRequest {
    pub from_entity_id: String,
    pub to_entity_id: String,
    pub relation_id: String,
    pub attributes: Option<String>,
}

#[derive(Debug)]
pub struct CreateConnectionResponse {
    pub id: String,
    pub project_id: u64,
    pub from_entity_id: String,
    pub to_entity_id: String,
    pub relation_id: String,
    pub relation_type: String,
}

#[derive(Debug)]
pub enum CreateConnectionError {
    DatabaseError(String),
    AccessDenied,
    EntityNotFound(String),
    RelationNotFound,
    DecodeError(String),
    ConnectionAlreadyExists,
}

impl View for CreateConnectionError {
    type V = ErrorModel;

    open spec fn view(&self) -> ErrorModel {
        match self {
            CreateConnectionError::DatabaseError(m) => ErrorModel::Database(m@),
            CreateConnectionError::AccessDenied => ErrorModel::AccessDenied,
            CreateConnectionError::EntityNotFound(id) => ErrorModel::EntityNotFound(id@),
            CreateConnectionError::RelationNotFound => ErrorModel::RelationNotFound,
            CreateConnectionError::DecodeError(m) => ErrorModel::Decode(m@),
            CreateConnectionError::ConnectionAlreadyExists => ErrorModel::ConnectionAlreadyExists,
        }
    }
}

#[derive(Debug)]
pub enum CreateConnectionErrorResponse {
    CreateConnectionError(CreateConnectionError),
    ValidationError(ValidationErrors),
}

pub open spec fn create_connection_error_text(e: ErrorModel) -> Seq<char> {
    match e {
        ErrorModel::Database(x) => "database error: "@ + x,
        ErrorModel::AccessDenied => "access denied to project"@,
        ErrorModel::EntityNotFound(id) => "entity not found: "@ + id,
        ErrorModel::RelationNotFound => "relation not found"@,
        ErrorModel::Decode(x) => "decode error: "@ + x,
        _ => "connection already exists between entities"@,
    }
}

impl CreateConnectionError {
    pub fn error_message(&self) -> (m: String)
        ensures
            m@ == create_connection_error_text(self@),
    {
        match self {
            CreateConnectionError::DatabaseError(e) => concat2("database error: ", e.as_str()),
            CreateConnectionError::AccessDenied => String::from_str("access denied to project"),
            CreateConnectionError::EntityNotFound(id) => concat2("entity not found: ", id.as_str()),
            CreateConnectionError::RelationNotFound => String::from_str("relation not found"),
            CreateConnectionError::DecodeError(e) => concat2("decode error: ", e.as_str()),
            CreateConnectionError::ConnectionAlreadyExists => String::from_str("connection already exists between entities"),
        }
    }
}

pub open spec fn create_connection_body(e: ErrorModel) -> crate::common::ErrorBodyModel {
    match e {
        ErrorModel::Database(_) => database_error_body(),
        ErrorModel::AccessDenied => access_denied_body(),
        ErrorModel::EntityNotFound(id) => body(404, "ENTITY_NOT_FOUND"@,
            "Entity with id '"@ + id + "' not found in this project."@),
        ErrorModel::RelationNotFound => body(404, "RELATION_NOT_FOUND"@, "Relation template not found in this project."@),
        ErrorModel::Decode(m) => decode_error_body_with(m),
        _ => body(409, "CONNECTION_ALREADY_EXISTS"@,
            "Connection between these entities with this relation already exists."@),
    }
}

impl CreateConnectionErrorResponse {
    /// The reply sent for this error.
    pub fn error_response(&self) -> (b: ErrorBody)
        ensures
            b@ == match self {
                CreateConnectionErrorResponse::CreateConnectionError(e) => create_connection_body(e@),
                CreateConnectionErrorResponse::ValidationError(v) => validation_error_body(v@),
            },
    {
        match self {
            CreateConnectionErrorResponse::CreateConnectionError(e) => match e {
                CreateConnectionError::DatabaseError(_) => make_database_error_body(),
                CreateConnectionError::AccessDenied => make_access_denied_body(),
                CreateConnectionError::EntityNotFound(id) => make_body(404, "ENTITY_NOT_FOUND",
                    concat3("Entity with id '", id.as_str(), "' not found in this project.")),
                CreateConnectionError::RelationNotFound => make_body(404, "RELATION_NOT_FOUND",
                    String::from_str("Relation template not found in this project.")),
                CreateConnectionError::ConnectionAlreadyExists => make_body(409, "CONNECTION_ALREADY_EXISTS",
                    String::from_str("Connection between these entities with this relation already exists.")),
                CreateConnectionError::DecodeError(m) => make_decode_error_body_with(m),
            },
            CreateConnectionErrorResponse::ValidationError(v) => make_validation_error_body(v),
        }
    }

    /// The full message of this error.
    pub fn error_message(&self) -> (m: String)
        ensures
            m@ == match self {
                CreateConnectionErrorResponse::CreateConnectionError(e) => "Failed to create connection: "@ + create_connection_error_text(e@),
                CreateConnectionErrorResponse::ValidationError(v) => "Validation error: "@ + violations_text(v@),
            },
    {
        match self {
            CreateConnectionErrorResponse::CreateConnectionError(e) => {
                let inner = e.error_message();
                concat2("Failed to create connection: ", inner.as_str())
            },
            CreateConnectionErrorResponse::ValidationError(v) => validation_error_message(v),
        }
    }
}

/// The rules of the body: the two entity ids and the template id are not empty.
pub open spec fn create_connection_violations(r: CreateConnectionRequest) -> Seq<ViolationModel> {
    length_rule(r.from_entity_id@, Some(1), None, "from_entity_id"@)
        + length_rule(r.to_entity_id@, Some(1), None, "to_entity_id"@)
        + length_rule(r.relation_id@, Some(1), None, "relation_id"@)
}

pub fn validate_create_connection(r: &CreateConnectionRequest) -> (res: Result<(), ValidationErrors>)
    ensures
        res is Ok <==> create_connection_violations(*r).len() == 0,
        res matches Err(e) ==> e@ == create_connection_violations(*r),
{
    let mut errs = ValidationErrors::new();
    errs.check_len(&r.from_entity_id, Some(1), None, "from_entity_id");
    errs.check_len(&r.to_entity_id, Some(1), None, "to_entity_id");
    errs.check_len(&r.relation_id, Some(1), None, "relation_id");
    assert(errs@ =~= create_connection_violations(*r));
    errs.into_result()
}

/// What the handler checks before creating: the body's rules, then access to
/// the project of the path.
pub fn create_connection_precheck(user: &UserData, project_id: u64, r: &CreateConnectionRequest)
    -> (res: Result<(), CreateConnectionErrorResponse>)
    ensures
        res is Ok <==> create_connection_violations(*r).len() == 0 && user.projects_list@.contains(project_id),
        create_connection_violations(*r).len() != 0 ==> (res matches Err(CreateConnectionErrorResponse::ValidationError(v)) && v@ == create_connection_violations(*r)),
        create_connection_violations(*r).len() == 0 && !user.projects_list@.contains(project_id)
            ==> res matches Err(CreateConnectionErrorResponse::CreateConnectionError(CreateConnectionError::AccessDenied)),
{
    match validate_create_connection(r) {
        Err(v) => return Err(CreateConnectionErrorResponse::ValidationError(v)),
        Ok(()) => {},
    }
    if !user.has_access(project_id) {
        return Err(CreateConnectionErrorResponse::CreateConnectionError(CreateConnectionError::AccessDenied));
    }
    Ok(())
}

pub open spec fn entity_check_text() -> Seq<char> {
    "MATCH (n {id: $id, project_id: $project_id}) RETURN n LIMIT 1"@
}

pub open spec fn entity_check_params(id: Seq<char>, project_id: u64) -> Seq<(Seq<char>, ParamModel)> {
    seq![pm("id"@, ParamModel::Text(id)), pm("project_id"@, ParamModel::Int(project_id as i64 as int))]
}

pub open spec fn relation_lookup_text() -> Seq<char> {
    "MATCH (r:Relation {id: $relation_id, project_id: $project_id})\n         RETURN r.relation_type as relation_type"@
}

pub open spec fn duplicate_check_text() -> Seq<char> {
    "MATCH (from {id: $from_id, project_id: $project_id})\n               -[c:CONNECTION {relation_id: $relation_id}]->\n              (to {id: $to_id, project_id: $project_id})\n         RETURN c LIMIT 1"@
}

pub open spec fn duplicate_check_params(r: CreateConnectionRequest, project_id: u64) -> Seq<(Seq<char>, ParamModel)> {
    seq![
        pm("from_id"@, ParamModel::Text(r.from_entity_id@)),
        pm("to_id"@, ParamModel::Text(r.to_entity_id@)),
        pm("relation_id"@, ParamModel::Text(r.relation_id@)),
        pm("project_id"@, ParamModel::Int(project_id as i64 as int)),
    ]
}

pub open spec fn connection_create_text() -> Seq<char> {
    "MATCH (from {id: $from_id, project_id: $project_id}),\n               (to   {id: $to_id,   project_id: $project_id})\n         CREATE (from)-[c:CONNECTION {\n                    id: $id,\n                    project_id: $project_id,\n                    from_id: $from_id,\n                    to_id: $to_id,\n                    relation_id: $relation_id,\n                    relation_type: $relation_type,\n                    attributes: $attributes,\n                    created_by: $created_by,\n                    created_at: datetime()\n                }]->(to)"@
}

pub open spec fn connection_create_params(user_id: u64, r: CreateConnectionRequest, project_id: u64, id: Seq<char>, relation_type: Seq<char>)
    -> Seq<(Seq<char>, ParamModel)>
{
    seq![
        pm("id"@, ParamModel::Text(id)),
        pm("project_id"@, ParamModel::Int(project_id as i64 as int)),
        pm("from_id"@, ParamModel::Text(r.from_entity_id@)),
        pm("to_id"@, ParamModel::Text(r.to_entity_id@)),
        pm("relation_id"@, ParamModel::Text(r.relation_id@)),
        pm("relation_type"@, ParamModel::Text(relation_type)),
        pm("attributes"@, ParamModel::Text(or_empty(r.attributes.deep_view()))),
        pm("created_by"@, ParamModel::Int(user_id as i64 as int)),
    ]
}

fn entity_check_query(id: &String, project_id: u64) -> (q: CypherQuery)
    ensures
        q@.text == entity_check_text(),
        q@.params == entity_check_params(id@, project_id),
{
    let mut params: Vec<QueryParam> = Vec::new();
    params.push(text_param("id", id.clone()));
    params.push(int_param("project_id", project_id as i64));
    let q = CypherQuery {
        text: String::from_str("MATCH (n {id: $id, project_id: $project_id}) RETURN n LIMIT 1"),
        params,
    };
    assert(q@.params =~= entity_check_params(id@, project_id));
    q
}

/// Starts the creation: the query that looks for the start entity in the project.
pub fn create_connection_begin(project_id: u64, r: &CreateConnectionRequest) -> (q: CypherQuery)
    ensures
        q@.text == entity_check_text(),
        q@.params == entity_check_params(r.from_entity_id@, project_id),
{
    entity_check_query(&r.from_entity_id, project_id)
}

/// After looking for the start entity: a failed query is a database error, a
/// missing entity is reported with its id, otherwise the end entity is looked for.
pub fn create_connection_after_from(project_id: u64, r: &CreateConnectionRequest, found: &Result<bool, String>)
    -> (res: Result<CypherQuery, CreateConnectionError>)
    ensures
        match found {
            Err(e) => res matches Err(x) && x@ == ErrorModel::Database(e@),
            Ok(false) => res matches Err(x) && x@ == ErrorModel::EntityNotFound(r.from_entity_id@),
            Ok(true) => res matches Ok(q) && q@.text == entity_check_text()
                && q@.params == entity_check_params(r.to_entity_id@, project_id),
        },
{
    match found {
        Err(e) => Err(CreateConnectionError::DatabaseError(e.clone())),
        Ok(false) => Err(CreateConnectionError::EntityNotFound(r.from_entity_id.clone())),
        Ok(true) => Ok(entity_check_query(&r.to_entity_id, project_id)),
    }
}

/// After looking for the end entity: a failed query is a database error, a
/// missing entity is reported with its id, otherwise the template is read
/// (one string column, `relation_type`).
pub fn create_connection_after_to(project_id: u64, r: &CreateConnectionRequest, found: &Result<bool, String>)
    -> (res: Result<ReadQuery, CreateConnectionError>)
    ensures
        match found {
            Err(e) => res matches Err(x) && x@ == ErrorModel::Database(e@),
            Ok(false) => res matches Err(x) && x@ == ErrorModel::EntityNotFound(r.to_entity_id@),
            Ok(true) => res matches Ok(q) && q.query@.text == relation_lookup_text()
                && q.query@.params == seq![
                    pm("relation_id"@, ParamModel::Text(r.relation_id@)),
                    pm("project_id"@, ParamModel::Int(project_id as i64 as int)),
                ]
                && q.columns@.map_values(|c: Column| c@) == seq![("relation_type"@, CellKind::Text)],
        },
{
    match found {
        Err(e) => Err(CreateConnectionError::DatabaseError(e.clone())),
        Ok(false) => Err(CreateConnectionError::EntityNotFound(r.to_entity_id.clone())),
        Ok(true) => {
            let mut params: Vec<QueryParam> = Vec::new();
            params.push(text_param("relation_id", r.relation_id.clone()));
            params.push(int_param("project_id", project_id as i64));
            let query = CypherQuery {
                text: String::from_str("MATCH (r:Relation {id: $relation_id, project_id: $project_id})\n         RETURN r.relation_type as relation_type"),
                params,
            };
            let mut columns: Vec<Column> = Vec::new();
            columns.push(column("relation_type", CellKind::Text));
            assert(query@.params =~= seq![
                pm("relation_id"@, ParamModel::Text(r.relation_id@)),
                pm("project_id"@, ParamModel::Int(project_id as i64 as int)),
            ]);
            assert(columns@.map_values(|c: Column| c@) =~= seq![("relation_type"@, CellKind::Text)]);
            Ok(ReadQuery { query, columns })
        },
    }
}

/// The template's type read from its first row: a failed query is a database
/// error, no row means the template is missing, an undecodable column is a
/// decoding error.
pub open spec fn relation_type_outcome(first: Result<Option<Seq<CellModel>>, Seq<char>>) -> Result<Seq<char>, ErrorModel> {
    match first {
        Err(e) => Err(ErrorModel::Database(e)),
        Ok(None) => Err(ErrorModel::RelationNotFound),
        Ok(Some(row)) => match row_fault(row, seq![CellKind::Text]) {
            Some(m) => Err(ErrorModel::Decode(m)),
            None => Ok(row[0]->Text_0),
        },
    }
}

/// After reading the template: its type and the query that looks for the same
/// connection; or the failure.
pub fn create_connection_after_relation(project_id: u64, r: &CreateConnectionRequest, first: &Result<Option<Row>, String>)
    -> (res: Result<(String, CypherQuery), CreateConnectionError>)
    ensures
        match relation_type_outcome(first_model(*first)) {
            Err(e) => res matches Err(x) && x@ == e,
            Ok(t) => res matches Ok((rt, q)) && rt@ == t && q@.text == duplicate_check_text()
                && q@.params == duplicate_check_params(*r, project_id),
        },
{
    let relation_type = match first {
        Err(e) => return Err(CreateConnectionError::DatabaseError(e.clone())),
        Ok(None) => return Err(CreateConnectionError::RelationNotFound),
        Ok(Some(row)) => {
            let kinds: Vec<CellKind> = vec![CellKind::Text];
            assert(kinds@ =~= seq![CellKind::Text]);
            match check_row(row, &kinds) {
                Some(m) => return Err(CreateConnectionError::DecodeError(m)),
                None => {},
            }
            proof {
                lemma_no_fault_cells(row@, kinds@, 0);
                assert(cell_fault(row@[0], kinds@[0]) is None);
            }
            text_at(row, 0)
        },
    };
    let mut params: Vec<QueryParam> = Vec::new();
    params.push(text_param("from_id", r.from_entity_id.clone()));
    params.push(text_param("to_id", r.to_entity_id.clone()));
    params.push(text_param("relation_id", r.relation_id.clone()));
    params.push(int_param("project_id", project_id as i64));
    let q = CypherQuery {
        text: String::from_str("MATCH (from {id: $from_id, project_id: $project_id})\n               -[c:CONNECTION {relation_id: $relation_id}]->\n              (to {id: $to_id, project_id: $project_id})\n         RETURN c LIMIT 1"),
        params,
    };
    assert(q@.params =~= duplicate_check_params(*r, project_id));
    Ok((relation_type, q))
}

/// The create query of a connection with the given id and type.
pub fn create_connection_query(user_id: u64, r: &CreateConnectionRequest, project_id: u64, id: &String, relation_type: &String)
    -> (q: CypherQuery)
    ensures
        q@.text == connection_create_text(),
        q@.params == connection_create_params(user_id, *r, project_id, id@, relation_type@),
{
    let mut params: Vec<QueryParam> = Vec::new();
    params.push(text_param("id", id.clone()));
    params.push(int_param("project_id", project_id as i64));
    params.push(text_param("from_id", r.from_entity_id.clone()));
    params.push(text_param("to_id", r.to_entity_id.clone()));
    params.push(text_param("relation_id", r.relation_id.clone()));
    params.push(text_param("relation_type", relation_type.clone()));
    params.push(text_param("attributes", unwrap_or_empty(&r.attributes)));
    params.push(int_param("created_by", user_id as i64));
    let q = CypherQuery {
        text: String::from_str("MATCH (from {id: $from_id, project_id: $project_id}),\n               (to   {id: $to_id,   project_id: $project_id})\n         CREATE (from)-[c:CONNECTION {\n                    id: $id,\n                    project_id: $project_id,\n                    from_id: $from_id,\n                    to_id: $to_id,\n                    relation_id: $relation_id,\n                    relation_type: $relation_type,\n                    attributes: $attributes,\n                    created_by: $created_by,\n                    created_at: datetime()\n                }]->(to)"),
        params,
    };
    assert(q@.params =~= connection_create_params(user_id, *r, project_id, id@, relation_type@));
    q
}

/// After looking for the same connection: a failed query is a database error,
/// an existing connection is a conflict, otherwise a fresh id and the create query.
pub fn create_connection_after_duplicate_check(user_id: u64, r: &CreateConnectionRequest, project_id: u64, relation_type: &String, found: &Result<bool, String>)
    -> (res: Result<(String, CypherQuery), CreateConnectionError>)
    ensures
        match found {
            Err(e) => res matches Err(x) && x@ == ErrorModel::Database(e@),
            Ok(true) => res matches Err(x) && x@ == ErrorModel::ConnectionAlreadyExists,
            Ok(false) => res matches Ok((id, q)) && id@.len() == 36 && q@.text == connection_create_text()
                && q@.params == connection_create_params(user_id, *r, project_id, id@, relation_type@),
        },
{
    match found {
        Err(e) => Err(CreateConnectionError::DatabaseError(e.clone())),
        Ok(true) => Err(CreateConnectionError::ConnectionAlreadyExists),
        Ok(false) => {
            let id = new_entity_id();
            let q = create_connection_query(user_id, r, project_id, &id, relation_type);
            Ok((id, q))
        },
    }
}

pub open spec fn created_connection(r: CreateConnectionRequest, project_id: u64, id: Seq<char>, relation_type: Seq<char>) -> ConnectionModel {
    ConnectionModel {
        id,
        project_id,
        from_id: r.from_entity_id@,
        to_id: r.to_entity_id@,
        relation_id: r.relation_id@,
        relation_type,
        attributes: r.attributes.deep_view(),
    }
}

/// After the create query: the stored connection, or the database error.
pub fn create_connection_after_create(r: CreateConnectionRequest, project_id: u64, id: String, relation_type: String, ran: &Result<(), String>)
    -> (res: Result<Connection, CreateConnectionError>)
    ensures
        res_view(res) == match unit_res(*ran) {
            Err(e) => Err(ErrorModel::Database(e)),
            Ok(_) => Ok(created_connection(r, project_id, id@, relation_type@)),
        },
{
    match ran {
        Err(e) => Err(CreateConnectionError::DatabaseError(e.clone())),
        Ok(()) => Ok(Connection {
            id,
            project_id,
            from_id: r.from_entity_id,
            to_id: r.to_entity_id,
            relation_id: r.relation_id,
            relation_type,
            attributes: r.attributes,
        }),
    }
}

/// The reply to a created connection: 201 with the stored fields.
pub fn create_connection_response(c: Connection) -> (res: (u16, CreateConnectionResponse))
    ensures
        res.0 == 201,
        res.1.id@ == c.id@,
        res.1.project_id == c.project_id,
        res.1.from_entity_id@ == c.from_id@,
        res.1.to_entity_id@ == c.to_id@,
        res.1.relation_id@ == c.relation_id@,
        res.1.relation_type@ == c.relation_type@,
{
    (201, CreateConnectionResponse {
        id: c.id,
        project_id: c.project_id,
        from_entity_id: c.from_id,
        to_entity_id: c.to_id,
        relation_id: c.relation_id,
        relation_type: c.relation_type,
    })
}

} // verus!
