use entities_service::config::{parse_port, ConfigError, EnvVars, Environment};
use entities_service::db::{Cell, ParamValue, Row};
use entities_service::features::get_connections::{
    connections_where_clause, get_connections_after_count, get_connections_count_query, get_connections_finish,
    GetConnectionsError, GetConnectionsErrorResponse, GetConnectionsPagination, GetConnectionsRequest,
};
use entities_service::features::get_events::{
    get_events_after_count, get_events_count_query, get_events_finish, GetEventsError, GetEventsErrorResponse,
    GetEventsPagination,
};
use entities_service::features::get_project_graph::{
    build_project_graph, get_project_graph_finish, get_project_graph_query, GetProjectGraphError, GetProjectGraphQuery,
};
use entities_service::features::get_relations::{
    get_relations_after_count, get_relations_count_query, get_relations_finish, GetRelationsPagination,
};
use entities_service::features::list_characters::{
    list_characters_after_count, list_characters_count_query, list_characters_finish,
};
use entities_service::paging::{has_more_after, offset_of, read_total};

fn t(s: &str) -> Cell {
    Cell::Text(s.to_string())
}

fn ot(s: Option<&str>) -> Cell {
    Cell::OptText(s.map(|x| x.to_string()))
}

fn count_row(n: i64) -> Result<Option<Row>, String> {
    Ok(Some(Row { cells: vec![Cell::Int(n)] }))
}

#[test]
fn page_offsets_and_more() {
    assert_eq!(offset_of(1, 20), 0);
    assert_eq!(offset_of(3, 20), 40);
    assert!(has_more_after(1, 10, 11));
    assert!(!has_more_after(2, 10, 20));
    // a negative total wraps to a large 32-bit number
    assert!(has_more_after(1, 10, -5));
    // the total is kept in 32 bits
    assert!(!has_more_after(1, 10, (1i64 << 32) + 5));
}

#[test]
fn consecutive_pages_tile() {
    for page in 1u32..6 {
        assert_eq!(offset_of(page + 1, 7), offset_of(page, 7) + 7);
    }
}

#[test]
fn totals_from_count_rows() {
    assert_eq!(read_total(&count_row(12)).ok(), Some(12));
    assert_eq!(read_total(&Ok(None)).ok(), Some(0));
    assert!(read_total(&Ok(Some(Row { cells: vec![Cell::Failed("bad".to_string())] }))).is_err());
    assert!(read_total(&Err("down".to_string())).is_err());
}

fn event_row(id: &str) -> Row {
    Row { cells: vec![t(id), t("Battle"), ot(Some("Hill")), ot(None), ot(Some("2024-01-15T10:00:00Z")), ot(None)] }
}

#[test]
fn event_listing() {
    let p = GetEventsPagination { page: 2, per_page: 2, search: Some("Bat".to_string()) };
    let cq = get_events_count_query(4, &p);
    assert!(cq.query.text.contains("WHERE e.name CONTAINS $search"));
    assert!(cq.query.text.ends_with("RETURN count(e) as total"));
    let (total, lq) = get_events_after_count(4, &p, &count_row(5)).unwrap();
    assert_eq!(total, 5);
    let names: Vec<&str> = lq.query.params.iter().map(|x| x.name.as_str()).collect();
    assert_eq!(names, vec!["project_id", "search", "offset", "limit"]);
    assert!(matches!(lq.query.params[2].value, ParamValue::Int(2)));
    assert_eq!(lq.columns.len(), 6);
    let page = get_events_finish(&p, total, &vec![event_row("e1"), event_row("e2")], &Ok(())).unwrap();
    assert_eq!(page.items.len(), 2);
    assert_eq!(page.items[1].id, "e2");
    assert_eq!(page.items[0].location.as_deref(), Some("Hill"));
    assert_eq!((page.page, page.per_page, page.total, page.has_more), (2, 2, 5, true));

    let no_search = GetEventsPagination { page: 1, per_page: 10, search: None };
    let cq = get_events_count_query(4, &no_search);
    assert_eq!(cq.query.text, "MATCH (e:Event {project_id: $project_id})\n             RETURN count(e) as total");
    assert_eq!(cq.query.params.len(), 1);
}

#[test]
fn event_listing_failures() {
    let p = GetEventsPagination { page: 1, per_page: 10, search: None };
    let bad = Row { cells: vec![t("e1"), Cell::Failed("name is null".to_string()), ot(None), ot(None), ot(None), ot(None)] };
    let err = get_events_finish(&p, 3, &vec![event_row("e0"), bad], &Err("late".to_string())).unwrap_err();
    assert!(matches!(&err, GetEventsError::DecodeError(m) if m == "name is null"));
    let b = GetEventsErrorResponse::GetEventsError(err).error_response();
    assert_eq!((b.status, b.error.as_str()), (500, "DECODE_ERROR"));
    assert_eq!(b.message, "An error occurred while decoding data: name is null");
    let err = get_events_finish(&p, 3, &vec![event_row("e0")], &Err("late".to_string())).unwrap_err();
    assert!(matches!(err, GetEventsError::DatabaseError(m) if m == "late"));
    let err = get_events_after_count(4, &p, &Err("down".to_string())).unwrap_err();
    assert!(matches!(err, GetEventsError::DatabaseError(_)));
}

#[test]
fn relation_listing() {
    let p = GetRelationsPagination { page: 1, per_page: 1, search: None };
    let cq = get_relations_count_query(2, &p);
    assert_eq!(cq.query.text, "MATCH (r:Relation {project_id: $project_id})\n             RETURN count(r) as total");
    let (total, lq) = get_relations_after_count(2, &p, &count_row(3)).unwrap();
    assert!(lq.query.text.contains("r.relation_type as relation_type"));
    let row = Row { cells: vec![t("r1"), t("Mentor"), t("MAIN_ROLE"), ot(None), ot(Some("2024"))] };
    let page = get_relations_finish(&p, total, &vec![row], &Ok(())).unwrap();
    assert_eq!(page.items[0].relation_type, "MAIN_ROLE");
    assert!(page.has_more);
}

#[test]
fn character_listing_defaults() {
    let cq = list_characters_count_query(1, &Some("Al".to_string()));
    assert!(cq.query.text.contains("WHERE c.name CONTAINS $search OR c.description CONTAINS $search"));
    let (total, lq) = list_characters_after_count(1, 3, 10, &None, &Ok(Some(Row { cells: vec![Cell::Failed("x".to_string())] }))).unwrap();
    assert_eq!(total, 0);
    assert!(matches!(lq.query.params[1].value, ParamValue::Int(20)));
    let rows = vec![
        Row { cells: vec![t("c1"), t("Alice"), t("hero"), t("2024")] },
        Row { cells: vec![Cell::Failed("null".to_string()), t("Bob"), Cell::Failed("null".to_string()), t("2025")] },
    ];
    let page = list_characters_finish(3, 10, 25, &rows, &Ok(())).unwrap();
    assert_eq!(page.characters.len(), 2);
    assert_eq!(page.characters[1].id, "");
    assert_eq!(page.characters[1].description, None);
    assert_eq!(page.characters[0].description.as_deref(), Some("hero"));
    assert_eq!((page.total, page.limit, page.offset, page.has_more), (25, 10, 20, false));
    assert!(list_characters_finish(1, 10, 25, &rows, &Err("x".to_string())).is_err());
}

#[test]
fn connection_filters() {
    let all = GetConnectionsRequest {
        project_id: 1,
        entity_id: Some("e".to_string()),
        relation_id: Some("r".to_string()),
        relation_type: Some("T".to_string()),
    };
    assert_eq!(
        connections_where_clause(&all),
        "WHERE c.project_id = $project_id AND (from.id = $entity_id OR to.id = $entity_id) AND c.relation_id = $relation_id AND c.relation_type = $relation_type"
    );
    let only_type = GetConnectionsRequest { project_id: 1, entity_id: None, relation_id: None, relation_type: Some("T".to_string()) };
    assert_eq!(connections_where_clause(&only_type), "WHERE c.project_id = $project_id AND c.relation_type = $relation_type");
    let cq = get_connections_count_query(&only_type, 6);
    assert_eq!(
        cq.query.text,
        "MATCH (from)-[c:CONNECTION]->(to)\n         WHERE c.project_id = $project_id AND c.relation_type = $relation_type\n         RETURN count(c) as total"
    );
    let names: Vec<&str> = cq.query.params.iter().map(|x| x.name.as_str()).collect();
    assert_eq!(names, vec!["project_id", "relation_type"]);
    let p = GetConnectionsPagination { page: 1, per_page: 5 };
    let (_, lq) = get_connections_after_count(&all, &p, 6, &count_row(1)).unwrap();
    let names: Vec<&str> = lq.query.params.iter().map(|x| x.name.as_str()).collect();
    assert_eq!(names, vec!["project_id", "offset", "limit", "entity_id", "relation_id", "relation_type"]);
    let row = Row {
        cells: vec![t("c"), t("a"), t("b"), t("r"), t("T"), ot(None), t("Alice"), t("Battle"), t("Character"), t("Event")],
    };
    let page = get_connections_finish(&p, 1, &vec![row], &Ok(())).unwrap();
    assert_eq!(page.items[0].to_type, "Event");
    assert!(!page.has_more);
    let short = Row { cells: vec![t("c")] };
    let err = get_connections_finish(&p, 1, &vec![short], &Ok(())).unwrap_err();
    let b = GetConnectionsErrorResponse::GetConnectionsError(err).error_response();
    assert_eq!((b.status, b.error.as_str(), b.message.as_str()), (500, "DECODE_ERROR", "Failed to decode database row."));
    assert!(matches!(GetConnectionsErrorResponse::GetConnectionsError(GetConnectionsError::AccessDenied).error_response().status, 403));
}

fn graph_row(edge: &str, from: &str, to: &str) -> Row {
    Row {
        cells: vec![
            t(edge), t(from), t(to), t("KNOWS"),
            t(from), t(&format!("{} label", from)), t("Character"),
            t(to), t(&format!("{} label", to)), t("Character"),
        ],
    }
}

#[test]
fn graph_nodes_are_distinct_and_edges_follow_rows() {
    let rows = vec![graph_row("e1", "a", "b"), graph_row("e2", "b", "c"), graph_row("e3", "a", "c")];
    let g = build_project_graph(&rows, &Ok(()), 500).unwrap();
    let ids: Vec<&str> = g.nodes.iter().map(|n| n.id.as_str()).collect();
    assert_eq!(ids, vec!["a", "b", "c"]);
    let edges: Vec<&str> = g.edges.iter().map(|e| e.id.as_str()).collect();
    assert_eq!(edges, vec!["e1", "e2", "e3"]);
    assert_eq!(g.edges[1].edge_type, "KNOWS");
}

#[test]
fn graph_node_limit_stops_reading() {
    let rows = vec![graph_row("e1", "a", "b"), graph_row("e2", "c", "d"), graph_row("e3", "a", "b")];
    let g = build_project_graph(&rows, &Err("late".to_string()), 3).unwrap();
    let ids: Vec<&str> = g.nodes.iter().map(|n| n.id.as_str()).collect();
    assert_eq!(ids, vec!["a", "b", "c"]);
    assert_eq!(g.edges.len(), 1);
    let g = build_project_graph(&rows, &Ok(()), 0).unwrap();
    assert!(g.nodes.is_empty() && g.edges.is_empty());
    let err = build_project_graph(&rows, &Err("late".to_string()), 10).unwrap_err();
    assert!(matches!(err, GetProjectGraphError::DatabaseError(m) if m == "late"));
    let mut bad = graph_row("e9", "x", "y");
    bad.cells[3] = Cell::Failed("type is null".to_string());
    let err = build_project_graph(&vec![bad], &Ok(()), 10).unwrap_err();
    assert!(matches!(err, GetProjectGraphError::DecodeError(m) if m == "type is null"));
}

#[test]
fn graph_query_filters_by_types() {
    let q = GetProjectGraphQuery { max_nodes: None, relation_types: Some(vec!["A".to_string(), "B".to_string()]) };
    let rq = get_project_graph_query(&q, 3);
    assert!(rq.query.text.contains("WHERE c.project_id = $project_id AND c.relation_type IN $relation_types\n"));
    assert!(matches!(&rq.query.params[1].value, ParamValue::TextList(v) if v == &vec!["A".to_string(), "B".to_string()]));
    assert_eq!(rq.columns.len(), 10);
    let q = GetProjectGraphQuery { max_nodes: None, relation_types: None };
    let rq = get_project_graph_query(&q, 3);
    assert!(rq.query.text.contains("WHERE c.project_id = $project_id\n"));
    assert_eq!(rq.query.params.len(), 1);
}

fn vars() -> EnvVars {
    EnvVars {
        token_secret: Some("s".repeat(32)),
        neo4j_uri: None,
        neo4j_user: None,
        neo4j_password: Some("pw".to_string()),
        neo4j_database: None,
        app_address: None,
        app_port: None,
        test_user_data: None,
    }
}

#[test]
fn environment_defaults() {
    let env = Environment::load_env(vars()).unwrap();
    assert_eq!(env.neo4j_uri, "bolt://localhost:7687");
    assert_eq!(env.neo4j_user, "neo4j");
    assert_eq!(env.app_address, "127.0.0.1");
    assert_eq!(env.app_port, 4000);
    assert!(!env.test_user_data);
    assert_eq!(env.neo4j_database, None);
}

#[test]
fn environment_errors() {
    let mut v = vars();
    v.token_secret = None;
    assert!(matches!(Environment::load_env(v), Err(ConfigError::MissingTokenSecret)));
    let mut v = vars();
    v.token_secret = Some("é".repeat(16));
    assert!(Environment::load_env(v).is_ok());
    let mut v = vars();
    v.token_secret = Some("é".repeat(15));
    let e = Environment::load_env(v).unwrap_err();
    assert_eq!(e.message(), "TOKEN_SECRET must be at least 32 bytes");
    let mut v = vars();
    v.neo4j_password = None;
    assert!(matches!(Environment::load_env(v), Err(ConfigError::MissingNeo4jPassword)));
    let mut v = vars();
    v.app_port = Some("70000".to_string());
    assert_eq!(Environment::load_env(v).unwrap_err().message(), "Invalid APP_PORT");
    let mut v = vars();
    v.test_user_data = Some("true".to_string());
    v.app_port = Some("+8080".to_string());
    let env = Environment::load_env(v).unwrap();
    assert!(env.test_user_data);
    assert_eq!(env.app_port, 8080);
}

#[test]
fn ports_read_as_the_standard_library_does() {
    for s in ["0", "80", "+443", "65535", "007", "", "+", "-1", "65536", "8o", " 80", "99999999999"] {
        assert_eq!(parse_port(s), s.parse::<u16>().ok(), "{:?}", s);
    }
}

#[test]
fn graph_node_limit_defaults_to_500() {
    let rows: Vec<Row> = (0..300).map(|i| graph_row(&format!("e{}", i), &format!("a{}", i), &format!("b{}", i))).collect();
    let q = GetProjectGraphQuery { max_nodes: None, relation_types: None };
    let g = get_project_graph_finish(&q, &rows, &Ok(())).unwrap();
    assert_eq!(g.nodes.len(), 500);
    assert_eq!(g.edges.len(), 250);
    let q = GetProjectGraphQuery { max_nodes: Some(4), relation_types: None };
    let g = get_project_graph_finish(&q, &rows, &Ok(())).unwrap();
    assert_eq!((g.nodes.len(), g.edges.len()), (4, 2));
}

#[test]
fn pages_cover_every_match_once() {
    // seven matches, three per page: pages 1 to 3 are [0,3), [3,6), [6,7)
    let total: i64 = 7;
    let per_page: u32 = 3;
    let all: Vec<u32> = (0..7).collect();
    let mut seen: Vec<u32> = Vec::new();
    let mut page: u32 = 1;
    loop {
        let offset = offset_of(page, per_page) as usize;
        let end = std::cmp::min(offset + per_page as usize, all.len());
        seen.extend_from_slice(&all[offset.min(all.len())..end]);
        if !has_more_after(page, per_page, total) {
            break;
        }
        page += 1;
    }
    assert_eq!(page, 3);
    assert_eq!(seen, all);
}
