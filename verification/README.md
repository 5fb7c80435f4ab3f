# entities_service

HTTP service that keeps the characters, events, relation templates and
connections of story projects in a Neo4j graph.

- `src/` is the verified library: request rules, access checks, the Cypher
  queries of every feature (as plain text and parameters), the decisions taken
  on each database reply, the project-graph builder, paging, error replies,
  access-token header checks and the settings. `src/store.rs` models how the
  database answers those queries (connection keys, `SKIP`/`LIMIT` windows,
  merges), and `src/laws.rs` states the properties proved over that model.
- `app/` is the program around it: environment and HTTP server, the database
  driver calls, and the serde forms of requests and replies.
- `tests/` exercises the library on concrete values.
