use entities_service::auth::{authorize, bearer_token, JWTClaims};
use entities_service::common::{test_user_data, UserData};
use entities_service::features::create_character::{
    create_character_precheck, validate_create_character, CreateCharacterError,
    CreateCharacterErrorResponse, CreateCharacterRequest,
};
use entities_service::features::create_connection::{validate_create_connection, CreateConnectionRequest};
use entities_service::features::create_event::{validate_create_event, CreateEventRequest};
use entities_service::features::create_relation::{validate_create_relation, CreateRelationRequest};
use entities_service::features::get_events::{get_events_precheck, validate_get_events_pagination, GetEventsErrorResponse, GetEventsPagination};
use entities_service::features::get_project_graph::{get_project_graph_precheck, GetProjectGraphQuery};
use entities_service::validation::ValidationErrors;

fn user(projects: Vec<u64>) -> UserData {
    UserData { id: 7, role: "editor".to_string(), projects_list: projects }
}

fn character(project_id: u64, name: &str, description: Option<&str>) -> CreateCharacterRequest {
    CreateCharacterRequest {
        project_id,
        name: name.to_string(),
        description: description.map(|d| d.to_string()),
        attributes: None,
    }
}

fn fields(e: &ValidationErrors) -> Vec<(String, String)> {
    e.violations.iter().map(|v| (v.field.clone(), v.code.clone())).collect()
}

#[test]
fn has_access_only_to_listed_projects() {
    let u = user(vec![3, 5]);
    assert!(u.has_access(3));
    assert!(u.has_access(5));
    assert!(!u.has_access(4));
    assert!(!user(vec![]).has_access(1));
}

#[test]
fn test_user_is_admin_of_first_three_projects() {
    let u = test_user_data();
    assert_eq!(u.id, 1);
    assert_eq!(u.role, "admin");
    assert_eq!(u.projects_list, vec![1, 2, 3]);
}

#[test]
fn character_name_length_counts_characters() {
    assert!(validate_create_character(&character(1, "Анна", None)).is_ok());
    let long = "я".repeat(200);
    assert!(validate_create_character(&character(1, &long, None)).is_ok());
    let too_long = "я".repeat(201);
    let e = validate_create_character(&character(1, &too_long, None)).unwrap_err();
    assert_eq!(fields(&e), vec![("name".to_string(), "length".to_string())]);
}

#[test]
fn character_violations_in_field_order() {
    let desc = "d".repeat(1001);
    let e = validate_create_character(&character(0, "", Some(&desc))).unwrap_err();
    assert_eq!(
        fields(&e),
        vec![
            ("project_id".to_string(), "range".to_string()),
            ("name".to_string(), "length".to_string()),
            ("description".to_string(), "length".to_string()),
        ]
    );
    assert_eq!(
        e.message(),
        format!(
            "project_id: Validation error: range [{{\"min\": Number(1), \"value\": Number(0)}}]\n\
             name: Validation error: length [{{\"min\": Number(1), \"max\": Number(200), \"value\": String(\"\")}}]\n\
             description: Validation error: length [{{\"max\": Number(1000), \"value\": String(\"{}\")}}]",
            desc
        )
    );
}

#[test]
fn validation_comes_before_access() {
    let u = user(vec![2]);
    match create_character_precheck(&u, 9, &character(1, "", None)) {
        Err(CreateCharacterErrorResponse::ValidationError(e)) => {
            assert_eq!(fields(&e), vec![("name".to_string(), "length".to_string())]);
        }
        _ => panic!("expected a validation error"),
    }
    match create_character_precheck(&u, 9, &character(1, "Bob", None)) {
        Err(CreateCharacterErrorResponse::CreateCharacterError(CreateCharacterError::AccessDenied)) => {}
        _ => panic!("expected access denied"),
    }
    assert!(create_character_precheck(&u, 2, &character(1, "Bob", None)).is_ok());
}

#[test]
fn refused_request_answers_403() {
    let u = user(vec![1]);
    let err = create_character_precheck(&u, 2, &character(1, "Bob", None)).unwrap_err();
    let b = err.error_response();
    assert_eq!(b.status, 403);
    assert_eq!(b.error, "ACCESS_DENIED");
    assert_eq!(b.message, "You don't have access to this project.");
    assert_eq!(err.error_message(), "Failed to create character: access denied to project");
}

#[test]
fn pagination_rules_of_event_listing() {
    let u = user(vec![1]);
    let bad = GetEventsPagination { page: 0, per_page: 101, search: None };
    match get_events_precheck(&u, 1, &bad) {
        Err(GetEventsErrorResponse::ValidationError(e)) => {
            assert_eq!(
                fields(&e),
                vec![("page".to_string(), "range".to_string()), ("per_page".to_string(), "range".to_string())]
            );
            let b = GetEventsErrorResponse::ValidationError(e).error_response();
            assert_eq!(b.status, 400);
            assert_eq!(b.error, "VALIDATION_ERROR");
        }
        _ => panic!("expected a validation error"),
    }
    let ok = GetEventsPagination { page: 1, per_page: 100, search: None };
    assert!(get_events_precheck(&u, 1, &ok).is_ok());
}

#[test]
fn graph_query_string_always_validates() {
    let q = GetProjectGraphQuery { max_nodes: Some(0), relation_types: None };
    assert!(get_project_graph_precheck(&user(vec![4]), 4, &q).is_ok());
    assert!(get_project_graph_precheck(&user(vec![4]), 5, &q).is_err());
}

#[test]
fn other_bodies_rules() {
    let ev = CreateEventRequest {
        project_id: 1,
        name: "Battle".to_string(),
        location: Some("x".repeat(501)),
        description: Some("y".repeat(2000)),
        timestamp: Some("2024-01-15T10:00:00Z".to_string()),
        attributes: None,
    };
    let e = validate_create_event(&ev).unwrap_err();
    assert_eq!(fields(&e), vec![("location".to_string(), "length".to_string())]);

    let rel = CreateRelationRequest {
        name: "Mentor".to_string(),
        relation_type: "t".repeat(101),
        description: None,
        attributes: None,
    };
    let e = validate_create_relation(&rel).unwrap_err();
    assert_eq!(fields(&e), vec![("relation_type".to_string(), "length".to_string())]);

    let conn = CreateConnectionRequest {
        from_entity_id: String::new(),
        to_entity_id: "b".to_string(),
        relation_id: String::new(),
        attributes: None,
    };
    let e = validate_create_connection(&conn).unwrap_err();
    assert_eq!(
        fields(&e),
        vec![("from_entity_id".to_string(), "length".to_string()), ("relation_id".to_string(), "length".to_string())]
    );
}

#[test]
fn bearer_header_cases() {
    let e = bearer_token(&None).unwrap_err();
    assert_eq!((e.status, e.error.as_str()), (401, "NO_TOKEN"));
    assert_eq!(e.message, "Authorization header not found");
    let e = bearer_token(&Some("Basic abc".to_string())).unwrap_err();
    assert_eq!((e.status, e.error.as_str()), (401, "INVALID_FORMAT"));
    let e = bearer_token(&Some(String::new())).unwrap_err();
    assert_eq!(e.error, "INVALID_FORMAT");
    assert_eq!(bearer_token(&Some("Bearer abc.def".to_string())).unwrap(), "abc.def");
    assert_eq!(bearer_token(&Some("Bearer ".to_string())).unwrap(), "");
}

#[test]
fn bearer_header_round_trip() {
    for t in ["", "x", "токен", "a.b.c"] {
        let header = format!("Bearer {}", t);
        assert_eq!(bearer_token(&Some(header)).unwrap(), t);
    }
}

#[test]
fn claims_become_the_user() {
    let claims = JWTClaims { sub: 42, iat: 0, exp: 10, role: "admin".to_string(), projects: vec![8, 9] };
    let u = authorize(Ok(claims)).unwrap();
    assert_eq!((u.id, u.role.as_str(), u.projects_list.clone()), (42, "admin", vec![8, 9]));
    let e = authorize(Err("expired".to_string())).unwrap_err();
    assert_eq!((e.status, e.error.as_str(), e.message.as_str()), (401, "INVALID_TOKEN", "Token validation failed"));
}

#[test]
fn validation_message_escapes_string_values() {
    let name = "\"q\"\\".repeat(51);
    let e = validate_create_character(&character(1, &name, None)).unwrap_err();
    assert_eq!(
        e.message(),
        format!("name: Validation error: length [{{\"min\": Number(1), \"max\": Number(200), \"value\": String({:?})}}]", name)
    );
    assert!(e.message().contains("\\\"q\\\""));
}

#[test]
fn validation_message_prints_numbers_in_decimal() {
    let p = GetEventsPagination { page: 0, per_page: 1234, search: None };
    let e = validate_get_events_pagination(&p).unwrap_err();
    assert_eq!(
        e.message(),
        "page: Validation error: range [{\"min\": Number(1), \"value\": Number(0)}]\n\
         per_page: Validation error: range [{\"min\": Number(1), \"max\": Number(100), \"value\": Number(1234)}]"
    );
}
