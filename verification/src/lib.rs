//! Verified core of the story-entities service: request validation, access
//! control, the Cypher queries each feature sends to the graph database, the
//! decisions taken on what the database answers, and the HTTP error bodies.
pub mod auth;
pub mod common;
pub mod config;
pub mod db;
pub mod features;
pub mod laws;
pub mod model;
pub mod paging;
pub mod provenance;
pub mod store;
pub mod validation;
