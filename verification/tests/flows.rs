use entities_service::common::ErrorBody;
use entities_service::db::{new_entity_id, to_neo4rs_query, Cell, CypherQuery, ParamValue, Row};
use entities_service::features::create_character::{
    create_character_after_check, create_character_after_create, create_character_begin,
    create_character_response, CreateCharacterError, CreateCharacterErrorResponse, CreateCharacterRequest,
};
use entities_service::features::create_connection::{
    create_connection_after_duplicate_check, create_connection_after_from, create_connection_after_relation,
    create_connection_after_to, create_connection_begin, CreateConnectionError, CreateConnectionErrorResponse,
    CreateConnectionRequest,
};
use entities_service::features::create_event::{
    create_event_after_check, create_event_after_create, create_event_begin, create_event_response,
    CreateEventError, CreateEventErrorResponse, CreateEventRequest,
};
use entities_service::features::create_relation::{
    create_relation_after_check, create_relation_begin, CreateRelationError, CreateRelationErrorResponse,
    CreateRelationRequest,
};
use entities_service::features::import_project::{
    import_project_graph_plan, import_project_precheck, import_step_outcome, is_file_field, require_file,
    ImportCharacterDto, ImportConnectionDto, ImportEventDto, ImportGraphError, ImportGraphErrorResponse,
    ImportProjectGraphRequest, ImportRelationDto,
};
use entities_service::common::UserData;

fn param<'a>(q: &'a CypherQuery, name: &str) -> Option<&'a ParamValue> {
    q.params.iter().find(|p| p.name == name).map(|p| &p.value)
}

fn names(q: &CypherQuery) -> Vec<String> {
    q.params.iter().map(|p| p.name.clone()).collect()
}

fn text(v: Option<&ParamValue>) -> String {
    match v {
        Some(ParamValue::Text(s)) => s.clone(),
        other => panic!("not a text parameter: {:?}", other),
    }
}

fn int_value(v: Option<&ParamValue>) -> i64 {
    match v {
        Some(ParamValue::Int(i)) => *i,
        other => panic!("not an integer parameter: {:?}", other),
    }
}

fn check(b: &ErrorBody, status: u16, error: &str, message: &str) {
    assert_eq!((b.status, b.error.as_str(), b.message.as_str()), (status, error, message));
}

fn character_request() -> CreateCharacterRequest {
    CreateCharacterRequest {
        project_id: 1,
        name: "Alice".to_string(),
        description: None,
        attributes: Some("{\"age\":30}".to_string()),
    }
}

#[test]
fn fresh_ids_are_hyphenated_uuids() {
    let a = new_entity_id();
    let b = new_entity_id();
    assert_eq!(a.chars().count(), 36);
    assert_eq!(a.chars().nth(14), Some('4'));
    assert_ne!(a, b);
}

#[test]
fn character_creation_queries() {
    let req = character_request();
    let (id, check_q) = create_character_begin(5, &req);
    assert_eq!(id.len(), 36);
    assert_eq!(check_q.text, "MATCH (c:Character {project_id: $project_id, name: $name}) RETURN c");
    assert_eq!(names(&check_q), vec!["project_id", "name"]);
    assert_eq!(int_value(param(&check_q, "project_id")), 5);
    assert_eq!(text(param(&check_q, "name")), "Alice");

    let create = create_character_after_check(11, &req, 5, &id, &Ok(false)).unwrap();
    assert!(create.text.starts_with("CREATE (c:Character {"));
    assert_eq!(names(&create), vec!["id", "project_id", "name", "description", "created_by", "attributes"]);
    assert_eq!(text(param(&create, "id")), id);
    assert_eq!(text(param(&create, "description")), "");
    assert_eq!(int_value(param(&create, "created_by")), 11);
    assert_eq!(text(param(&create, "attributes")), "{\"age\":30}");

    let mut no_attrs = character_request();
    no_attrs.attributes = None;
    let create = create_character_after_check(11, &no_attrs, 5, &id, &Ok(false)).unwrap();
    assert_eq!(names(&create), vec!["id", "project_id", "name", "description", "created_by"]);
}

#[test]
fn taken_character_name_is_a_conflict() {
    let req = character_request();
    let err = create_character_after_check(1, &req, 5, &"x".to_string(), &Ok(true)).unwrap_err();
    match &err {
        CreateCharacterError::CharacterAlreadyExists(n) => assert_eq!(n, "Alice"),
        _ => panic!("expected a conflict"),
    }
    let resp = CreateCharacterErrorResponse::CreateCharacterError(err);
    check(&resp.error_response(), 409, "CHARACTER_ALREADY_EXISTS", "Character with name 'Alice' already exists in this project.");
    assert_eq!(resp.error_message(), "Failed to create character: character with name 'Alice' already exists in project");
}

#[test]
fn database_failures_are_500_without_details() {
    let req = character_request();
    let err = create_character_after_check(1, &req, 5, &"x".to_string(), &Err("connection reset".to_string())).unwrap_err();
    let resp = CreateCharacterErrorResponse::CreateCharacterError(err);
    check(&resp.error_response(), 500, "DATABASE_ERROR", "An internal database error occurred. Please try again later.");
    assert_eq!(resp.error_message(), "Failed to create character: database error: connection reset");
    let b = CreateCharacterErrorResponse::CreateCharacterError(CreateCharacterError::ProjectNotFound).error_response();
    check(&b, 404, "PROJECT_NOT_FOUND", "The specified project does not exist.");
}

#[test]
fn created_character_and_reply() {
    let req = character_request();
    let c = create_character_after_create(req, 5, "id-1".to_string(), &Ok(())).unwrap();
    assert_eq!((c.id.as_str(), c.project_id, c.name.as_str()), ("id-1", 5, "Alice"));
    assert_eq!(c.attributes.as_deref(), Some("{\"age\":30}"));
    let (status, body) = create_character_response(c, 5);
    assert_eq!((status, body.id.as_str(), body.project_id, body.description.clone()), (201, "id-1", 5, None));
    let failed = create_character_after_create(character_request(), 5, "id".to_string(), &Err("down".to_string()));
    assert!(matches!(failed, Err(CreateCharacterError::DatabaseError(m)) if m == "down"));
}

#[test]
fn event_creation_flow() {
    let req = CreateEventRequest {
        project_id: 1,
        name: "Battle".to_string(),
        location: Some("Hill".to_string()),
        description: None,
        timestamp: Some("2024-01-15T10:00:00Z".to_string()),
        attributes: None,
    };
    let q = create_event_begin(3, &req);
    assert_eq!(q.text, "MATCH (e:Event {project_id: $project_id, name: $name})\n         RETURN e LIMIT 1");
    let (id, create) = create_event_after_check(2, &req, 3, &Ok(false)).unwrap();
    assert_eq!(names(&create), vec!["id", "project_id", "name", "location", "description", "timestamp", "attributes", "created_by"]);
    assert_eq!(text(param(&create, "id")), id);
    assert!(matches!(param(&create, "description"), Some(ParamValue::OptText(None))));
    assert_eq!(text(param(&create, "attributes")), "");
    let ev = create_event_after_create(req, 3, id.clone(), &Ok(())).unwrap();
    let (status, body) = create_event_response(ev);
    assert_eq!((status, body.id, body.project_id, body.location), (201, id, 3, Some("Hill".to_string())));

    let req2 = CreateEventRequest {
        project_id: 1, name: "Battle".to_string(), location: None, description: None, timestamp: None, attributes: None,
    };
    let err = create_event_after_check(2, &req2, 3, &Ok(true)).unwrap_err();
    assert!(matches!(&err, CreateEventError::EventAlreadyExists(n) if n == "Battle"));
    let b = CreateEventErrorResponse::CreateEventError(err).error_response();
    check(&b, 409, "EVENT_ALREADY_EXISTS", "Event with name 'Battle' already exists in this project.");
}

#[test]
fn relation_creation_flow() {
    let req = CreateRelationRequest {
        name: "Mentor".to_string(),
        relation_type: "MAIN_ROLE".to_string(),
        description: Some("teaches".to_string()),
        attributes: Some("[1]".to_string()),
    };
    let q = create_relation_begin(8, &req);
    assert_eq!(int_value(param(&q, "project_id")), 8);
    let (_, create) = create_relation_after_check(4, &req, 8, &Ok(false)).unwrap();
    assert_eq!(names(&create), vec!["id", "project_id", "name", "relation_type", "description", "attributes", "created_by"]);
    assert_eq!(text(param(&create, "relation_type")), "MAIN_ROLE");
    assert_eq!(text(param(&create, "attributes")), "[1]");
    let err = create_relation_after_check(4, &req, 8, &Ok(true)).unwrap_err();
    assert!(matches!(&err, CreateRelationError::RelationAlreadyExists(n) if n == "Mentor"));
    let r = CreateRelationErrorResponse::CreateRelationError(err);
    check(&r.error_response(), 409, "RELATION_ALREADY_EXISTS", "Relation with name 'Mentor' already exists in this project.");
    assert_eq!(r.error_message(), "Failed to create relation: relation with name 'Mentor' already exists in project");
}

fn connection_request() -> CreateConnectionRequest {
    CreateConnectionRequest {
        from_entity_id: "a".to_string(),
        to_entity_id: "b".to_string(),
        relation_id: "r".to_string(),
        attributes: None,
    }
}

#[test]
fn connection_creation_flow() {
    let req = connection_request();
    let q = create_connection_begin(6, &req);
    assert_eq!(q.text, "MATCH (n {id: $id, project_id: $project_id}) RETURN n LIMIT 1");
    assert_eq!(text(param(&q, "id")), "a");
    let err = create_connection_after_from(6, &req, &Ok(false)).unwrap_err();
    assert!(matches!(&err, CreateConnectionError::EntityNotFound(id) if id == "a"));
    let b = CreateConnectionErrorResponse::CreateConnectionError(err).error_response();
    check(&b, 404, "ENTITY_NOT_FOUND", "Entity with id 'a' not found in this project.");

    let q2 = create_connection_after_from(6, &req, &Ok(true)).unwrap();
    assert_eq!(text(param(&q2, "id")), "b");
    let err = create_connection_after_to(6, &req, &Ok(false)).unwrap_err();
    assert!(matches!(&err, CreateConnectionError::EntityNotFound(id) if id == "b"));

    let rq = create_connection_after_to(6, &req, &Ok(true)).unwrap();
    assert_eq!(rq.columns.len(), 1);
    assert_eq!(rq.columns[0].name, "relation_type");
    let err = create_connection_after_relation(6, &req, &Ok(None)).unwrap_err();
    let b = CreateConnectionErrorResponse::CreateConnectionError(err).error_response();
    check(&b, 404, "RELATION_NOT_FOUND", "Relation template not found in this project.");
    let bad = Row { cells: vec![Cell::Failed("null".to_string())] };
    let err = create_connection_after_relation(6, &req, &Ok(Some(bad))).unwrap_err();
    let b = CreateConnectionErrorResponse::CreateConnectionError(err).error_response();
    check(&b, 500, "DECODE_ERROR", "An error occurred while decoding data: null");

    let good = Row { cells: vec![Cell::Text("MAIN_ROLE".to_string())] };
    let (rt, dup) = create_connection_after_relation(6, &req, &Ok(Some(good))).unwrap();
    assert_eq!(rt, "MAIN_ROLE");
    assert_eq!(names(&dup), vec!["from_id", "to_id", "relation_id", "project_id"]);
    let err = create_connection_after_duplicate_check(1, &req, 6, &rt, &Ok(true)).unwrap_err();
    let b = CreateConnectionErrorResponse::CreateConnectionError(err).error_response();
    check(&b, 409, "CONNECTION_ALREADY_EXISTS", "Connection between these entities with this relation already exists.");
    let (id, create) = create_connection_after_duplicate_check(1, &req, 6, &rt, &Ok(false)).unwrap();
    assert_eq!(text(param(&create, "id")), id);
    assert_eq!(text(param(&create, "relation_type")), "MAIN_ROLE");
}

#[test]
fn driver_query_carries_every_parameter() {
    let req = connection_request();
    let (_, create) = create_connection_after_duplicate_check(1, &req, 6, &"T".to_string(), &Ok(false)).unwrap();
    let q = to_neo4rs_query(&create);
    for n in ["id", "project_id", "from_id", "to_id", "relation_id", "relation_type", "attributes", "created_by"] {
        assert!(q.has_param_key(n), "missing {}", n);
    }
    assert!(!q.has_param_key("entity_id"));
}

fn import_request() -> ImportProjectGraphRequest {
    ImportProjectGraphRequest {
        project_id: 2,
        characters: vec![
            ImportCharacterDto { id: Some("c1".to_string()), name: "A".to_string(), description: None, attributes: None },
            ImportCharacterDto { id: None, name: "B".to_string(), description: Some("d".to_string()), attributes: None },
        ],
        events: vec![ImportEventDto {
            id: None, name: "E".to_string(), location: None, description: None, timestamp: None, attributes: None,
        }],
        relations: vec![ImportRelationDto {
            id: Some("r1".to_string()), name: "R".to_string(), relation_type: "T".to_string(), description: None, attributes: None,
        }],
        connections: vec![ImportConnectionDto {
            id: None, from_id: "c1".to_string(), to_id: "c2".to_string(), relation_id: "r1".to_string(), attributes: Some("{}".to_string()),
        }],
    }
}

#[test]
fn import_merges_in_order_with_ids() {
    let steps = import_project_graph_plan(9, &import_request());
    assert_eq!(steps.len(), 5);
    assert_eq!(steps[0].id, "c1");
    assert_eq!(steps[1].id.len(), 36);
    assert!(steps[0].query.text.starts_with("MERGE (c:Character"));
    assert!(steps[1].query.text.starts_with("MERGE (c:Character"));
    assert!(steps[2].query.text.starts_with("MERGE (e:Event"));
    assert_eq!(steps[3].id, "r1");
    assert!(steps[3].query.text.starts_with("MERGE (r:Relation"));
    assert!(steps[4].query.text.starts_with("MATCH (from {id: $from_id"));
    assert_eq!(text(param(&steps[1].query, "description")), "d");
    assert_eq!(text(param(&steps[2].query, "location")), "");
    assert_eq!(text(param(&steps[4].query, "attributes")), "{}");
    assert_eq!(int_value(param(&steps[4].query, "created_by")), 9);
}

#[test]
fn import_errors_and_file_field() {
    assert!(is_file_field(&Some("file".to_string())));
    assert!(!is_file_field(&Some("files".to_string())));
    assert!(!is_file_field(&None));
    let err = require_file(None).unwrap_err();
    let b = ImportGraphErrorResponse::ImportGraphError(err).error_response();
    check(&b, 400, "FILE_FIELD_MISSING", "Missing 'file' field in multipart/form-data.");
    assert_eq!(require_file(Some(vec![1, 2])).unwrap(), vec![1, 2]);
    let r = ImportGraphErrorResponse::ImportGraphError(ImportGraphError::JsonParseError("EOF".to_string()));
    check(&r.error_response(), 400, "JSON_PARSE_ERROR", "Failed to parse JSON: EOF");
    assert_eq!(r.error_message(), "Failed to import graph: failed to parse JSON: EOF");
    let u = UserData { id: 1, role: "x".to_string(), projects_list: vec![3] };
    let denied = import_project_precheck(&u, &import_request()).unwrap_err();
    check(&denied.error_response(), 403, "ACCESS_DENIED", "You don't have access to this project.");
    assert!(matches!(import_step_outcome(&Err("boom".to_string())), Err(ImportGraphError::DatabaseError(m)) if m == "boom"));
    assert!(import_step_outcome(&Ok(())).is_ok());
}

#[test]
fn duplicate_check_asks_for_the_key_the_create_stores() {
    let req = connection_request();
    let good = Row { cells: vec![Cell::Text("MAIN_ROLE".to_string())] };
    let (rt, dup) = create_connection_after_relation(6, &req, &Ok(Some(good))).unwrap();
    let (_, create) = create_connection_after_duplicate_check(1, &req, 6, &rt, &Ok(false)).unwrap();
    for n in ["from_id", "to_id", "relation_id"] {
        assert_eq!(text(param(&dup, n)), text(param(&create, n)));
    }
    assert_eq!(int_value(param(&dup, "project_id")), int_value(param(&create, "project_id")));
    assert!(create_connection_after_duplicate_check(1, &req, 6, &rt, &Ok(true)).is_err());
}

#[test]
fn import_with_every_id_given_sends_the_same_merges_twice() {
    let mut req = import_request();
    req.characters[1].id = Some("c2".to_string());
    req.events[0].id = Some("e1".to_string());
    req.connections[0].id = Some("x1".to_string());
    let first = import_project_graph_plan(9, &req);
    let second = import_project_graph_plan(9, &req);
    assert_eq!(first.len(), second.len());
    for (a, b) in first.iter().zip(second.iter()) {
        assert_eq!(a.id, b.id);
        assert_eq!(a.query.text, b.query.text);
        assert_eq!(format!("{:?}", a.query.params), format!("{:?}", b.query.params));
    }
    let ids: Vec<&str> = first.iter().map(|s| s.id.as_str()).collect();
    assert_eq!(ids, vec!["c1", "c2", "e1", "r1", "x1"]);
}
