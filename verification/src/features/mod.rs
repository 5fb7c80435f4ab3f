pub mod get_project_graph;
pub mod get_events;
pub mod get_relations;
pub mod list_characters;
pub mod get_connections;
pub mod create_character;
pub mod create_event;
pub mod create_relation;
pub mod create_connection;
pub mod import_project;
