//! Where the values the service reports and sends come from: each listed item
//! field is the query column of the same name, each graph edge and node is read
//! from the graph query's named columns, and each created or imported entity
//! carries the values its query binds under the same names.
use vstd::prelude::*;
use crate::db::{
    BoltModel, CellKind, CellModel, row_fault, ParamModel, bolt_value, column_index, lemma_column_index,
    lemma_param_map_concat, lemma_param_map_last_binding, lemma_param_map_single, named_cell, param_map, pm,
};
use crate::common::or_empty;
use crate::features::create_character::{CreateCharacterRequest, character_create_params, created_character};
use crate::features::create_connection::{CreateConnectionRequest, connection_create_params, created_connection};
use crate::features::create_event::{CreateEventRequest, event_create_params, created_event};
use crate::features::create_relation::{CreateRelationRequest, relation_create_params, created_relation};
use crate::features::import_project::{ImportProjectGraphRequest, ImportStep, import_step_ok};
use crate::features::get_connections::{
    GetConnectionsPagination, GetConnectionsRequest, connection_columns, connections_count_params, connections_list_params,
    connections_outcome, filter_params,
};
use crate::paging::{page_params, search_params};
use crate::features::get_project_graph::{
    GraphAcc, GraphNodeModel, add_node, edge_of, from_node_of, graph_columns, graph_fold, graph_kinds, graph_outcome,
    graph_row, node_ids, to_node_of,
};
use crate::features::get_events::{event_columns, events_outcome};
use crate::features::get_relations::{relation_columns, relations_outcome};
use crate::features::list_characters::{character_columns, characters_outcome, text_or_default, text_or_none};

verus! {

/// The bindings of a connection's create query, read by name.
proof fn lemma_params_conn_create(s: Seq<(Seq<char>, ParamModel)>)
    requires
        s.len() == 8,
        s[0].0 == "id"@,
        s[1].0 == "project_id"@,
        s[2].0 == "from_id"@,
        s[3].0 == "to_id"@,
        s[4].0 == "relation_id"@,
        s[5].0 == "relation_type"@,
        s[6].0 == "attributes"@,
        s[7].0 == "created_by"@,
    ensures
        param_map(s)["id"@] == bolt_value(s[0].1),
        param_map(s)["project_id"@] == bolt_value(s[1].1),
        param_map(s)["from_id"@] == bolt_value(s[2].1),
        param_map(s)["to_id"@] == bolt_value(s[3].1),
        param_map(s)["relation_id"@] == bolt_value(s[4].1),
        param_map(s)["relation_type"@] == bolt_value(s[5].1),
        param_map(s)["attributes"@] == bolt_value(s[6].1),
        param_map(s)["created_by"@] == bolt_value(s[7].1),
{
    reveal_strlit("id");
    reveal_strlit("project_id");
    reveal_strlit("from_id");
    reveal_strlit("to_id");
    reveal_strlit("relation_id");
    reveal_strlit("relation_type");
    reveal_strlit("attributes");
    reveal_strlit("created_by");
    assert("id"@.len() == 2);
    assert("project_id"@.len() == 10);
    assert("from_id"@.len() == 7);
    assert("to_id"@.len() == 5);
    assert("relation_id"@.len() == 11);
    assert("relation_type"@.len() == 13);
    assert("attributes"@.len() == 10);
    assert("created_by"@.len() == 10);
    assert("id"@ != "project_id"@);
    assert("id"@ != "from_id"@);
    assert("id"@ != "to_id"@);
    assert("id"@ != "relation_id"@);
    assert("id"@ != "relation_type"@);
    assert("id"@ != "attributes"@);
    assert("id"@ != "created_by"@);
    assert("project_id"@ != "from_id"@);
    assert("project_id"@ != "to_id"@);
    assert("project_id"@ != "relation_id"@);
    assert("project_id"@ != "relation_type"@);
    assert("project_id"@[0] != "attributes"@[0]);
    assert("project_id"@ != "attributes"@);
    assert("project_id"@[0] != "created_by"@[0]);
    assert("project_id"@ != "created_by"@);
    assert("from_id"@ != "to_id"@);
    assert("from_id"@ != "relation_id"@);
    assert("from_id"@ != "relation_type"@);
    assert("from_id"@ != "attributes"@);
    assert("from_id"@ != "created_by"@);
    assert("to_id"@ != "relation_id"@);
    assert("to_id"@ != "relation_type"@);
    assert("to_id"@ != "attributes"@);
    assert("to_id"@ != "created_by"@);
    assert("relation_id"@ != "relation_type"@);
    assert("relation_id"@ != "attributes"@);
    assert("relation_id"@ != "created_by"@);
    assert("relation_type"@ != "attributes"@);
    assert("relation_type"@ != "created_by"@);
    assert("attributes"@[0] != "created_by"@[0]);
    assert("attributes"@ != "created_by"@);
    assert forall|j: int| 0 < j < s.len() implies (#[trigger] s[j]).0 != s[0].0 by { if j == 1 {} else if j == 2 {} else if j == 3 {} else if j == 4 {} else if j == 5 {} else if j == 6 {} else {} }
    lemma_param_map_last_binding(s, 0);
    assert forall|j: int| 1 < j < s.len() implies (#[trigger] s[j]).0 != s[1].0 by { if j == 2 {} else if j == 3 {} else if j == 4 {} else if j == 5 {} else if j == 6 {} else {} }
    lemma_param_map_last_binding(s, 1);
    assert forall|j: int| 2 < j < s.len() implies (#[trigger] s[j]).0 != s[2].0 by { if j == 3 {} else if j == 4 {} else if j == 5 {} else if j == 6 {} else {} }
    lemma_param_map_last_binding(s, 2);
    assert forall|j: int| 3 < j < s.len() implies (#[trigger] s[j]).0 != s[3].0 by { if j == 4 {} else if j == 5 {} else if j == 6 {} else {} }
    lemma_param_map_last_binding(s, 3);
    assert forall|j: int| 4 < j < s.len() implies (#[trigger] s[j]).0 != s[4].0 by { if j == 5 {} else if j == 6 {} else {} }
    lemma_param_map_last_binding(s, 4);
    assert forall|j: int| 5 < j < s.len() implies (#[trigger] s[j]).0 != s[5].0 by { if j == 6 {} else {} }
    lemma_param_map_last_binding(s, 5);
    assert forall|j: int| 6 < j < s.len() implies (#[trigger] s[j]).0 != s[6].0 by { {} }
    lemma_param_map_last_binding(s, 6);
    lemma_param_map_last_binding(s, 7);
}

/// The bindings of an event's create or merge query, read by name.
proof fn lemma_params_event(s: Seq<(Seq<char>, ParamModel)>)
    requires
        s.len() == 8,
        s[0].0 == "id"@,
        s[1].0 == "project_id"@,
        s[2].0 == "name"@,
        s[3].0 == "location"@,
        s[4].0 == "description"@,
        s[5].0 == "timestamp"@,
        s[6].0 == "attributes"@,
        s[7].0 == "created_by"@,
    ensures
        param_map(s)["id"@] == bolt_value(s[0].1),
        param_map(s)["project_id"@] == bolt_value(s[1].1),
        param_map(s)["name"@] == bolt_value(s[2].1),
        param_map(s)["location"@] == bolt_value(s[3].1),
        param_map(s)["description"@] == bolt_value(s[4].1),
        param_map(s)["timestamp"@] == bolt_value(s[5].1),
        param_map(s)["attributes"@] == bolt_value(s[6].1),
        param_map(s)["created_by"@] == bolt_value(s[7].1),
{
    reveal_strlit("id");
    reveal_strlit("project_id");
    reveal_strlit("name");
    reveal_strlit("location");
    reveal_strlit("description");
    reveal_strlit("timestamp");
    reveal_strlit("attributes");
    reveal_strlit("created_by");
    assert("id"@.len() == 2);
    assert("project_id"@.len() == 10);
    assert("name"@.len() == 4);
    assert("location"@.len() == 8);
    assert("description"@.len() == 11);
    assert("timestamp"@.len() == 9);
    assert("attributes"@.len() == 10);
    assert("created_by"@.len() == 10);
    assert("id"@ != "project_id"@);
    assert("id"@ != "name"@);
    assert("id"@ != "location"@);
    assert("id"@ != "description"@);
    assert("id"@ != "timestamp"@);
    assert("id"@ != "attributes"@);
    assert("id"@ != "created_by"@);
    assert("project_id"@ != "name"@);
    assert("project_id"@ != "location"@);
    assert("project_id"@ != "description"@);
    assert("project_id"@ != "timestamp"@);
    assert("project_id"@[0] != "attributes"@[0]);
    assert("project_id"@ != "attributes"@);
    assert("project_id"@[0] != "created_by"@[0]);
    assert("project_id"@ != "created_by"@);
    assert("name"@ != "location"@);
    assert("name"@ != "description"@);
    assert("name"@ != "timestamp"@);
    assert("name"@ != "attributes"@);
    assert("name"@ != "created_by"@);
    assert("location"@ != "description"@);
    assert("location"@ != "timestamp"@);
    assert("location"@ != "attributes"@);
    assert("location"@ != "created_by"@);
    assert("description"@ != "timestamp"@);
    assert("description"@ != "attributes"@);
    assert("description"@ != "created_by"@);
    assert("timestamp"@ != "attributes"@);
    assert("timestamp"@ != "created_by"@);
    assert("attributes"@[0] != "created_by"@[0]);
    assert("attributes"@ != "created_by"@);
    assert forall|j: int| 0 < j < s.len() implies (#[trigger] s[j]).0 != s[0].0 by { if j == 1 {} else if j == 2 {} else if j == 3 {} else if j == 4 {} else if j == 5 {} else if j == 6 {} else {} }
    lemma_param_map_last_binding(s, 0);
    assert forall|j: int| 1 < j < s.len() implies (#[trigger] s[j]).0 != s[1].0 by { if j == 2 {} else if j == 3 {} else if j == 4 {} else if j == 5 {} else if j == 6 {} else {} }
    lemma_param_map_last_binding(s, 1);
    assert forall|j: int| 2 < j < s.len() implies (#[trigger] s[j]).0 != s[2].0 by { if j == 3 {} else if j == 4 {} else if j == 5 {} else if j == 6 {} else {} }
    lemma_param_map_last_binding(s, 2);
    assert forall|j: int| 3 < j < s.len() implies (#[trigger] s[j]).0 != s[3].0 by { if j == 4 {} else if j == 5 {} else if j == 6 {} else {} }
    lemma_param_map_last_binding(s, 3);
    assert forall|j: int| 4 < j < s.len() implies (#[trigger] s[j]).0 != s[4].0 by { if j == 5 {} else if j == 6 {} else {} }
    lemma_param_map_last_binding(s, 4);
    assert forall|j: int| 5 < j < s.len() implies (#[trigger] s[j]).0 != s[5].0 by { if j == 6 {} else {} }
    lemma_param_map_last_binding(s, 5);
    assert forall|j: int| 6 < j < s.len() implies (#[trigger] s[j]).0 != s[6].0 by { {} }
    lemma_param_map_last_binding(s, 6);
    lemma_param_map_last_binding(s, 7);
}

/// The bindings of a relation template's create or merge query, read by name.
proof fn lemma_params_relation(s: Seq<(Seq<char>, ParamModel)>)
    requires
        s.len() == 7,
        s[0].0 == "id"@,
        s[1].0 == "project_id"@,
        s[2].0 == "name"@,
        s[3].0 == "relation_type"@,
        s[4].0 == "description"@,
        s[5].0 == "attributes"@,
        s[6].0 == "created_by"@,
    ensures
        param_map(s)["id"@] == bolt_value(s[0].1),
        param_map(s)["project_id"@] == bolt_value(s[1].1),
        param_map(s)["name"@] == bolt_value(s[2].1),
        param_map(s)["relation_type"@] == bolt_value(s[3].1),
        param_map(s)["description"@] == bolt_value(s[4].1),
        param_map(s)["attributes"@] == bolt_value(s[5].1),
        param_map(s)["created_by"@] == bolt_value(s[6].1),
{
    reveal_strlit("id");
    reveal_strlit("project_id");
    reveal_strlit("name");
    reveal_strlit("relation_type");
    reveal_strlit("description");
    reveal_strlit("attributes");
    reveal_strlit("created_by");
    assert("id"@.len() == 2);
    assert("project_id"@.len() == 10);
    assert("name"@.len() == 4);
    assert("relation_type"@.len() == 13);
    assert("description"@.len() == 11);
    assert("attributes"@.len() == 10);
    assert("created_by"@.len() == 10);
    assert("id"@ != "project_id"@);
    assert("id"@ != "name"@);
    assert("id"@ != "relation_type"@);
    assert("id"@ != "description"@);
    assert("id"@ != "attributes"@);
    assert("id"@ != "created_by"@);
    assert("project_id"@ != "name"@);
    assert("project_id"@ != "relation_type"@);
    assert("project_id"@ != "description"@);
    assert("project_id"@[0] != "attributes"@[0]);
    assert("project_id"@ != "attributes"@);
    assert("project_id"@[0] != "created_by"@[0]);
    assert("project_id"@ != "created_by"@);
    assert("name"@ != "relation_type"@);
    assert("name"@ != "description"@);
    assert("name"@ != "attributes"@);
    assert("name"@ != "created_by"@);
    assert("relation_type"@ != "description"@);
    assert("relation_type"@ != "attributes"@);
    assert("relation_type"@ != "created_by"@);
    assert("description"@ != "attributes"@);
    assert("description"@ != "created_by"@);
    assert("attributes"@[0] != "created_by"@[0]);
    assert("attributes"@ != "created_by"@);
    assert forall|j: int| 0 < j < s.len() implies (#[trigger] s[j]).0 != s[0].0 by { if j == 1 {} else if j == 2 {} else if j == 3 {} else if j == 4 {} else if j == 5 {} else {} }
    lemma_param_map_last_binding(s, 0);
    assert forall|j: int| 1 < j < s.len() implies (#[trigger] s[j]).0 != s[1].0 by { if j == 2 {} else if j == 3 {} else if j == 4 {} else if j == 5 {} else {} }
    lemma_param_map_last_binding(s, 1);
    assert forall|j: int| 2 < j < s.len() implies (#[trigger] s[j]).0 != s[2].0 by { if j == 3 {} else if j == 4 {} else if j == 5 {} else {} }
    lemma_param_map_last_binding(s, 2);
    assert forall|j: int| 3 < j < s.len() implies (#[trigger] s[j]).0 != s[3].0 by { if j == 4 {} else if j == 5 {} else {} }
    lemma_param_map_last_binding(s, 3);
    assert forall|j: int| 4 < j < s.len() implies (#[trigger] s[j]).0 != s[4].0 by { if j == 5 {} else {} }
    lemma_param_map_last_binding(s, 4);
    assert forall|j: int| 5 < j < s.len() implies (#[trigger] s[j]).0 != s[5].0 by { {} }
    lemma_param_map_last_binding(s, 5);
    lemma_param_map_last_binding(s, 6);
}

/// The bindings of a character's create query without attributes, read by name.
proof fn lemma_params_character_create(s: Seq<(Seq<char>, ParamModel)>)
    requires
        s.len() == 5,
        s[0].0 == "id"@,
        s[1].0 == "project_id"@,
        s[2].0 == "name"@,
        s[3].0 == "description"@,
        s[4].0 == "created_by"@,
    ensures
        param_map(s)["id"@] == bolt_value(s[0].1),
        param_map(s)["project_id"@] == bolt_value(s[1].1),
        param_map(s)["name"@] == bolt_value(s[2].1),
        param_map(s)["description"@] == bolt_value(s[3].1),
        param_map(s)["created_by"@] == bolt_value(s[4].1),
{
    reveal_strlit("id");
    reveal_strlit("project_id");
    reveal_strlit("name");
    reveal_strlit("description");
    reveal_strlit("created_by");
    assert("id"@.len() == 2);
    assert("project_id"@.len() == 10);
    assert("name"@.len() == 4);
    assert("description"@.len() == 11);
    assert("created_by"@.len() == 10);
    assert("id"@ != "project_id"@);
    assert("id"@ != "name"@);
    assert("id"@ != "description"@);
    assert("id"@ != "created_by"@);
    assert("project_id"@ != "name"@);
    assert("project_id"@ != "description"@);
    assert("project_id"@[0] != "created_by"@[0]);
    assert("project_id"@ != "created_by"@);
    assert("name"@ != "description"@);
    assert("name"@ != "created_by"@);
    assert("description"@ != "created_by"@);
    assert forall|j: int| 0 < j < s.len() implies (#[trigger] s[j]).0 != s[0].0 by { if j == 1 {} else if j == 2 {} else if j == 3 {} else {} }
    lemma_param_map_last_binding(s, 0);
    assert forall|j: int| 1 < j < s.len() implies (#[trigger] s[j]).0 != s[1].0 by { if j == 2 {} else if j == 3 {} else {} }
    lemma_param_map_last_binding(s, 1);
    assert forall|j: int| 2 < j < s.len() implies (#[trigger] s[j]).0 != s[2].0 by { if j == 3 {} else {} }
    lemma_param_map_last_binding(s, 2);
    assert forall|j: int| 3 < j < s.len() implies (#[trigger] s[j]).0 != s[3].0 by { {} }
    lemma_param_map_last_binding(s, 3);
    lemma_param_map_last_binding(s, 4);
}

/// The bindings of a character's create query with attributes, read by name.
proof fn lemma_params_character_create_attrs(s: Seq<(Seq<char>, ParamModel)>)
    requires
        s.len() == 6,
        s[0].0 == "id"@,
        s[1].0 == "project_id"@,
        s[2].0 == "name"@,
        s[3].0 == "description"@,
        s[4].0 == "created_by"@,
        s[5].0 == "attributes"@,
    ensures
        param_map(s)["id"@] == bolt_value(s[0].1),
        param_map(s)["project_id"@] == bolt_value(s[1].1),
        param_map(s)["name"@] == bolt_value(s[2].1),
        param_map(s)["description"@] == bolt_value(s[3].1),
        param_map(s)["created_by"@] == bolt_value(s[4].1),
        param_map(s)["attributes"@] == bolt_value(s[5].1),
{
    reveal_strlit("id");
    reveal_strlit("project_id");
    reveal_strlit("name");
    reveal_strlit("description");
    reveal_strlit("created_by");
    reveal_strlit("attributes");
    assert("id"@.len() == 2);
    assert("project_id"@.len() == 10);
    assert("name"@.len() == 4);
    assert("description"@.len() == 11);
    assert("created_by"@.len() == 10);
    assert("attributes"@.len() == 10);
    assert("id"@ != "project_id"@);
    assert("id"@ != "name"@);
    assert("id"@ != "description"@);
    assert("id"@ != "created_by"@);
    assert("id"@ != "attributes"@);
    assert("project_id"@ != "name"@);
    assert("project_id"@ != "description"@);
    assert("project_id"@[0] != "created_by"@[0]);
    assert("project_id"@ != "created_by"@);
    assert("project_id"@[0] != "attributes"@[0]);
    assert("project_id"@ != "attributes"@);
    assert("name"@ != "description"@);
    assert("name"@ != "created_by"@);
    assert("name"@ != "attributes"@);
    assert("description"@ != "created_by"@);
    assert("description"@ != "attributes"@);
    assert("created_by"@[0] != "attributes"@[0]);
    assert("created_by"@ != "attributes"@);
    assert forall|j: int| 0 < j < s.len() implies (#[trigger] s[j]).0 != s[0].0 by { if j == 1 {} else if j == 2 {} else if j == 3 {} else if j == 4 {} else {} }
    lemma_param_map_last_binding(s, 0);
    assert forall|j: int| 1 < j < s.len() implies (#[trigger] s[j]).0 != s[1].0 by { if j == 2 {} else if j == 3 {} else if j == 4 {} else {} }
    lemma_param_map_last_binding(s, 1);
    assert forall|j: int| 2 < j < s.len() implies (#[trigger] s[j]).0 != s[2].0 by { if j == 3 {} else if j == 4 {} else {} }
    lemma_param_map_last_binding(s, 2);
    assert forall|j: int| 3 < j < s.len() implies (#[trigger] s[j]).0 != s[3].0 by { if j == 4 {} else {} }
    lemma_param_map_last_binding(s, 3);
    assert forall|j: int| 4 < j < s.len() implies (#[trigger] s[j]).0 != s[4].0 by { {} }
    lemma_param_map_last_binding(s, 4);
    lemma_param_map_last_binding(s, 5);
}

/// The bindings of a character's merge query, read by name.
proof fn lemma_params_character_merge(s: Seq<(Seq<char>, ParamModel)>)
    requires
        s.len() == 6,
        s[0].0 == "id"@,
        s[1].0 == "project_id"@,
        s[2].0 == "name"@,
        s[3].0 == "description"@,
        s[4].0 == "attributes"@,
        s[5].0 == "created_by"@,
    ensures
        param_map(s)["id"@] == bolt_value(s[0].1),
        param_map(s)["project_id"@] == bolt_value(s[1].1),
        param_map(s)["name"@] == bolt_value(s[2].1),
        param_map(s)["description"@] == bolt_value(s[3].1),
        param_map(s)["attributes"@] == bolt_value(s[4].1),
        param_map(s)["created_by"@] == bolt_value(s[5].1),
{
    reveal_strlit("id");
    reveal_strlit("project_id");
    reveal_strlit("name");
    reveal_strlit("description");
    reveal_strlit("attributes");
    reveal_strlit("created_by");
    assert("id"@.len() == 2);
    assert("project_id"@.len() == 10);
    assert("name"@.len() == 4);
    assert("description"@.len() == 11);
    assert("attributes"@.len() == 10);
    assert("created_by"@.len() == 10);
    assert("id"@ != "project_id"@);
    assert("id"@ != "name"@);
    assert("id"@ != "description"@);
    assert("id"@ != "attributes"@);
    assert("id"@ != "created_by"@);
    assert("project_id"@ != "name"@);
    assert("project_id"@ != "description"@);
    assert("project_id"@[0] != "attributes"@[0]);
    assert("project_id"@ != "attributes"@);
    assert("project_id"@[0] != "created_by"@[0]);
    assert("project_id"@ != "created_by"@);
    assert("name"@ != "description"@);
    assert("name"@ != "attributes"@);
    assert("name"@ != "created_by"@);
    assert("description"@ != "attributes"@);
    assert("description"@ != "created_by"@);
    assert("attributes"@[0] != "created_by"@[0]);
    assert("attributes"@ != "created_by"@);
    assert forall|j: int| 0 < j < s.len() implies (#[trigger] s[j]).0 != s[0].0 by { if j == 1 {} else if j == 2 {} else if j == 3 {} else if j == 4 {} else {} }
    lemma_param_map_last_binding(s, 0);
    assert forall|j: int| 1 < j < s.len() implies (#[trigger] s[j]).0 != s[1].0 by { if j == 2 {} else if j == 3 {} else if j == 4 {} else {} }
    lemma_param_map_last_binding(s, 1);
    assert forall|j: int| 2 < j < s.len() implies (#[trigger] s[j]).0 != s[2].0 by { if j == 3 {} else if j == 4 {} else {} }
    lemma_param_map_last_binding(s, 2);
    assert forall|j: int| 3 < j < s.len() implies (#[trigger] s[j]).0 != s[3].0 by { if j == 4 {} else {} }
    lemma_param_map_last_binding(s, 3);
    assert forall|j: int| 4 < j < s.len() implies (#[trigger] s[j]).0 != s[4].0 by { {} }
    lemma_param_map_last_binding(s, 4);
    lemma_param_map_last_binding(s, 5);
}

/// The bindings of a connection's merge query, read by name.
proof fn lemma_params_connection_merge(s: Seq<(Seq<char>, ParamModel)>)
    requires
        s.len() == 7,
        s[0].0 == "id"@,
        s[1].0 == "project_id"@,
        s[2].0 == "from_id"@,
        s[3].0 == "to_id"@,
        s[4].0 == "relation_id"@,
        s[5].0 == "attributes"@,
        s[6].0 == "created_by"@,
    ensures
        param_map(s)["id"@] == bolt_value(s[0].1),
        param_map(s)["project_id"@] == bolt_value(s[1].1),
        param_map(s)["from_id"@] == bolt_value(s[2].1),
        param_map(s)["to_id"@] == bolt_value(s[3].1),
        param_map(s)["relation_id"@] == bolt_value(s[4].1),
        param_map(s)["attributes"@] == bolt_value(s[5].1),
        param_map(s)["created_by"@] == bolt_value(s[6].1),
{
    reveal_strlit("id");
    reveal_strlit("project_id");
    reveal_strlit("from_id");
    reveal_strlit("to_id");
    reveal_strlit("relation_id");
    reveal_strlit("attributes");
    reveal_strlit("created_by");
    assert("id"@.len() == 2);
    assert("project_id"@.len() == 10);
    assert("from_id"@.len() == 7);
    assert("to_id"@.len() == 5);
    assert("relation_id"@.len() == 11);
    assert("attributes"@.len() == 10);
    assert("created_by"@.len() == 10);
    assert("id"@ != "project_id"@);
    assert("id"@ != "from_id"@);
    assert("id"@ != "to_id"@);
    assert("id"@ != "relation_id"@);
    assert("id"@ != "attributes"@);
    assert("id"@ != "created_by"@);
    assert("project_id"@ != "from_id"@);
    assert("project_id"@ != "to_id"@);
    assert("project_id"@ != "relation_id"@);
    assert("project_id"@[0] != "attributes"@[0]);
    assert("project_id"@ != "attributes"@);
    assert("project_id"@[0] != "created_by"@[0]);
    assert("project_id"@ != "created_by"@);
    assert("from_id"@ != "to_id"@);
    assert("from_id"@ != "relation_id"@);
    assert("from_id"@ != "attributes"@);
    assert("from_id"@ != "created_by"@);
    assert("to_id"@ != "relation_id"@);
    assert("to_id"@ != "attributes"@);
    assert("to_id"@ != "created_by"@);
    assert("relation_id"@ != "attributes"@);
    assert("relation_id"@ != "created_by"@);
    assert("attributes"@[0] != "created_by"@[0]);
    assert("attributes"@ != "created_by"@);
    assert forall|j: int| 0 < j < s.len() implies (#[trigger] s[j]).0 != s[0].0 by { if j == 1 {} else if j == 2 {} else if j == 3 {} else if j == 4 {} else if j == 5 {} else {} }
    lemma_param_map_last_binding(s, 0);
    assert forall|j: int| 1 < j < s.len() implies (#[trigger] s[j]).0 != s[1].0 by { if j == 2 {} else if j == 3 {} else if j == 4 {} else if j == 5 {} else {} }
    lemma_param_map_last_binding(s, 1);
    assert forall|j: int| 2 < j < s.len() implies (#[trigger] s[j]).0 != s[2].0 by { if j == 3 {} else if j == 4 {} else if j == 5 {} else {} }
    lemma_param_map_last_binding(s, 2);
    assert forall|j: int| 3 < j < s.len() implies (#[trigger] s[j]).0 != s[3].0 by { if j == 4 {} else if j == 5 {} else {} }
    lemma_param_map_last_binding(s, 3);
    assert forall|j: int| 4 < j < s.len() implies (#[trigger] s[j]).0 != s[4].0 by { if j == 5 {} else {} }
    lemma_param_map_last_binding(s, 4);
    assert forall|j: int| 5 < j < s.len() implies (#[trigger] s[j]).0 != s[5].0 by { {} }
    lemma_param_map_last_binding(s, 5);
    lemma_param_map_last_binding(s, 6);
}

/// Where each column of the graph query stands.
proof fn lemma_graph_columns(cols: Seq<(Seq<char>, CellKind)>)
    requires
        cols.len() == 10,
        cols[0].0 == "edge_id"@,
        cols[1].0 == "from_id"@,
        cols[2].0 == "to_id"@,
        cols[3].0 == "relation_type"@,
        cols[4].0 == "from_node_id"@,
        cols[5].0 == "from_label"@,
        cols[6].0 == "from_type"@,
        cols[7].0 == "to_node_id"@,
        cols[8].0 == "to_label"@,
        cols[9].0 == "to_type"@,
    ensures
        column_index(cols, "edge_id"@) == 0,
        column_index(cols, "from_id"@) == 1,
        column_index(cols, "to_id"@) == 2,
        column_index(cols, "relation_type"@) == 3,
        column_index(cols, "from_node_id"@) == 4,
        column_index(cols, "from_label"@) == 5,
        column_index(cols, "from_type"@) == 6,
        column_index(cols, "to_node_id"@) == 7,
        column_index(cols, "to_label"@) == 8,
        column_index(cols, "to_type"@) == 9,
{
    reveal_strlit("edge_id");
    reveal_strlit("from_id");
    reveal_strlit("to_id");
    reveal_strlit("relation_type");
    reveal_strlit("from_node_id");
    reveal_strlit("from_label");
    reveal_strlit("from_type");
    reveal_strlit("to_node_id");
    reveal_strlit("to_label");
    reveal_strlit("to_type");
    assert("edge_id"@.len() == 7);
    assert("from_id"@.len() == 7);
    assert("to_id"@.len() == 5);
    assert("relation_type"@.len() == 13);
    assert("from_node_id"@.len() == 12);
    assert("from_label"@.len() == 10);
    assert("from_type"@.len() == 9);
    assert("to_node_id"@.len() == 10);
    assert("to_label"@.len() == 8);
    assert("to_type"@.len() == 7);
    assert("edge_id"@[0] != "from_id"@[0]);
    assert("edge_id"@ != "from_id"@);
    assert("edge_id"@ != "to_id"@);
    assert("edge_id"@ != "relation_type"@);
    assert("edge_id"@ != "from_node_id"@);
    assert("edge_id"@ != "from_label"@);
    assert("edge_id"@ != "from_type"@);
    assert("edge_id"@ != "to_node_id"@);
    assert("edge_id"@ != "to_label"@);
    assert("edge_id"@[0] != "to_type"@[0]);
    assert("edge_id"@ != "to_type"@);
    assert("from_id"@ != "to_id"@);
    assert("from_id"@ != "relation_type"@);
    assert("from_id"@ != "from_node_id"@);
    assert("from_id"@ != "from_label"@);
    assert("from_id"@ != "from_type"@);
    assert("from_id"@ != "to_node_id"@);
    assert("from_id"@ != "to_label"@);
    assert("from_id"@[0] != "to_type"@[0]);
    assert("from_id"@ != "to_type"@);
    assert("to_id"@ != "relation_type"@);
    assert("to_id"@ != "from_node_id"@);
    assert("to_id"@ != "from_label"@);
    assert("to_id"@ != "from_type"@);
    assert("to_id"@ != "to_node_id"@);
    assert("to_id"@ != "to_label"@);
    assert("to_id"@ != "to_type"@);
    assert("relation_type"@ != "from_node_id"@);
    assert("relation_type"@ != "from_label"@);
    assert("relation_type"@ != "from_type"@);
    assert("relation_type"@ != "to_node_id"@);
    assert("relation_type"@ != "to_label"@);
    assert("relation_type"@ != "to_type"@);
    assert("from_node_id"@ != "from_label"@);
    assert("from_node_id"@ != "from_type"@);
    assert("from_node_id"@ != "to_node_id"@);
    assert("from_node_id"@ != "to_label"@);
    assert("from_node_id"@ != "to_type"@);
    assert("from_label"@ != "from_type"@);
    assert("from_label"@[0] != "to_node_id"@[0]);
    assert("from_label"@ != "to_node_id"@);
    assert("from_label"@ != "to_label"@);
    assert("from_label"@ != "to_type"@);
    assert("from_type"@ != "to_node_id"@);
    assert("from_type"@ != "to_label"@);
    assert("from_type"@ != "to_type"@);
    assert("to_node_id"@ != "to_label"@);
    assert("to_node_id"@ != "to_type"@);
    assert("to_label"@ != "to_type"@);
    lemma_column_index(cols, 0);
    assert forall|j: int| 0 <= j < 1 implies (#[trigger] cols[j]).0 != cols[1].0 by { {} }
    lemma_column_index(cols, 1);
    assert forall|j: int| 0 <= j < 2 implies (#[trigger] cols[j]).0 != cols[2].0 by { if j == 0 {} else {} }
    lemma_column_index(cols, 2);
    assert forall|j: int| 0 <= j < 3 implies (#[trigger] cols[j]).0 != cols[3].0 by { if j == 0 {} else if j == 1 {} else {} }
    lemma_column_index(cols, 3);
    assert forall|j: int| 0 <= j < 4 implies (#[trigger] cols[j]).0 != cols[4].0 by { if j == 0 {} else if j == 1 {} else if j == 2 {} else {} }
    lemma_column_index(cols, 4);
    assert forall|j: int| 0 <= j < 5 implies (#[trigger] cols[j]).0 != cols[5].0 by { if j == 0 {} else if j == 1 {} else if j == 2 {} else if j == 3 {} else {} }
    lemma_column_index(cols, 5);
    assert forall|j: int| 0 <= j < 6 implies (#[trigger] cols[j]).0 != cols[6].0 by { if j == 0 {} else if j == 1 {} else if j == 2 {} else if j == 3 {} else if j == 4 {} else {} }
    lemma_column_index(cols, 6);
    assert forall|j: int| 0 <= j < 7 implies (#[trigger] cols[j]).0 != cols[7].0 by { if j == 0 {} else if j == 1 {} else if j == 2 {} else if j == 3 {} else if j == 4 {} else if j == 5 {} else {} }
    lemma_column_index(cols, 7);
    assert forall|j: int| 0 <= j < 8 implies (#[trigger] cols[j]).0 != cols[8].0 by { if j == 0 {} else if j == 1 {} else if j == 2 {} else if j == 3 {} else if j == 4 {} else if j == 5 {} else if j == 6 {} else {} }
    lemma_column_index(cols, 8);
    assert forall|j: int| 0 <= j < 9 implies (#[trigger] cols[j]).0 != cols[9].0 by { if j == 0 {} else if j == 1 {} else if j == 2 {} else if j == 3 {} else if j == 4 {} else if j == 5 {} else if j == 6 {} else if j == 7 {} else {} }
    lemma_column_index(cols, 9);
}

/// Where each column of the connection listing stands.
proof fn lemma_connection_columns(cols: Seq<(Seq<char>, CellKind)>)
    requires
        cols.len() == 10,
        cols[0].0 == "id"@,
        cols[1].0 == "from_id"@,
        cols[2].0 == "to_id"@,
        cols[3].0 == "relation_id"@,
        cols[4].0 == "relation_type"@,
        cols[5].0 == "created_at"@,
        cols[6].0 == "from_name"@,
        cols[7].0 == "to_name"@,
        cols[8].0 == "from_type"@,
        cols[9].0 == "to_type"@,
    ensures
        column_index(cols, "id"@) == 0,
        column_index(cols, "from_id"@) == 1,
        column_index(cols, "to_id"@) == 2,
        column_index(cols, "relation_id"@) == 3,
        column_index(cols, "relation_type"@) == 4,
        column_index(cols, "created_at"@) == 5,
        column_index(cols, "from_name"@) == 6,
        column_index(cols, "to_name"@) == 7,
        column_index(cols, "from_type"@) == 8,
        column_index(cols, "to_type"@) == 9,
{
    reveal_strlit("id");
    reveal_strlit("from_id");
    reveal_strlit("to_id");
    reveal_strlit("relation_id");
    reveal_strlit("relation_type");
    reveal_strlit("created_at");
    reveal_strlit("from_name");
    reveal_strlit("to_name");
    reveal_strlit("from_type");
    reveal_strlit("to_type");
    assert("id"@.len() == 2);
    assert("from_id"@.len() == 7);
    assert("to_id"@.len() == 5);
    assert("relation_id"@.len() == 11);
    assert("relation_type"@.len() == 13);
    assert("created_at"@.len() == 10);
    assert("from_name"@.len() == 9);
    assert("to_name"@.len() == 7);
    assert("from_type"@.len() == 9);
    assert("to_type"@.len() == 7);
    assert("id"@ != "from_id"@);
    assert("id"@ != "to_id"@);
    assert("id"@ != "relation_id"@);
    assert("id"@ != "relation_type"@);
    assert("id"@ != "created_at"@);
    assert("id"@ != "from_name"@);
    assert("id"@ != "to_name"@);
    assert("id"@ != "from_type"@);
    assert("id"@ != "to_type"@);
    assert("from_id"@ != "to_id"@);
    assert("from_id"@ != "relation_id"@);
    assert("from_id"@ != "relation_type"@);
    assert("from_id"@ != "created_at"@);
    assert("from_id"@ != "from_name"@);
    assert("from_id"@[0] != "to_name"@[0]);
    assert("from_id"@ != "to_name"@);
    assert("from_id"@ != "from_type"@);
    assert("from_id"@[0] != "to_type"@[0]);
    assert("from_id"@ != "to_type"@);
    assert("to_id"@ != "relation_id"@);
    assert("to_id"@ != "relation_type"@);
    assert("to_id"@ != "created_at"@);
    assert("to_id"@ != "from_name"@);
    assert("to_id"@ != "to_name"@);
    assert("to_id"@ != "from_type"@);
    assert("to_id"@ != "to_type"@);
    assert("relation_id"@ != "relation_type"@);
    assert("relation_id"@ != "created_at"@);
    assert("relation_id"@ != "from_name"@);
    assert("relation_id"@ != "to_name"@);
    assert("relation_id"@ != "from_type"@);
    assert("relation_id"@ != "to_type"@);
    assert("relation_type"@ != "created_at"@);
    assert("relation_type"@ != "from_name"@);
    assert("relation_type"@ != "to_name"@);
    assert("relation_type"@ != "from_type"@);
    assert("relation_type"@ != "to_type"@);
    assert("created_at"@ != "from_name"@);
    assert("created_at"@ != "to_name"@);
    assert("created_at"@ != "from_type"@);
    assert("created_at"@ != "to_type"@);
    assert("from_name"@ != "to_name"@);
    assert("from_name"@[5] != "from_type"@[5]);
    assert("from_name"@ != "from_type"@);
    assert("from_name"@ != "to_type"@);
    assert("to_name"@ != "from_type"@);
    assert("to_name"@[3] != "to_type"@[3]);
    assert("to_name"@ != "to_type"@);
    assert("from_type"@ != "to_type"@);
    lemma_column_index(cols, 0);
    assert forall|j: int| 0 <= j < 1 implies (#[trigger] cols[j]).0 != cols[1].0 by { {} }
    lemma_column_index(cols, 1);
    assert forall|j: int| 0 <= j < 2 implies (#[trigger] cols[j]).0 != cols[2].0 by { if j == 0 {} else {} }
    lemma_column_index(cols, 2);
    assert forall|j: int| 0 <= j < 3 implies (#[trigger] cols[j]).0 != cols[3].0 by { if j == 0 {} else if j == 1 {} else {} }
    lemma_column_index(cols, 3);
    assert forall|j: int| 0 <= j < 4 implies (#[trigger] cols[j]).0 != cols[4].0 by { if j == 0 {} else if j == 1 {} else if j == 2 {} else {} }
    lemma_column_index(cols, 4);
    assert forall|j: int| 0 <= j < 5 implies (#[trigger] cols[j]).0 != cols[5].0 by { if j == 0 {} else if j == 1 {} else if j == 2 {} else if j == 3 {} else {} }
    lemma_column_index(cols, 5);
    assert forall|j: int| 0 <= j < 6 implies (#[trigger] cols[j]).0 != cols[6].0 by { if j == 0 {} else if j == 1 {} else if j == 2 {} else if j == 3 {} else if j == 4 {} else {} }
    lemma_column_index(cols, 6);
    assert forall|j: int| 0 <= j < 7 implies (#[trigger] cols[j]).0 != cols[7].0 by { if j == 0 {} else if j == 1 {} else if j == 2 {} else if j == 3 {} else if j == 4 {} else if j == 5 {} else {} }
    lemma_column_index(cols, 7);
    assert forall|j: int| 0 <= j < 8 implies (#[trigger] cols[j]).0 != cols[8].0 by { if j == 0 {} else if j == 1 {} else if j == 2 {} else if j == 3 {} else if j == 4 {} else if j == 5 {} else if j == 6 {} else {} }
    lemma_column_index(cols, 8);
    assert forall|j: int| 0 <= j < 9 implies (#[trigger] cols[j]).0 != cols[9].0 by { if j == 0 {} else if j == 1 {} else if j == 2 {} else if j == 3 {} else if j == 4 {} else if j == 5 {} else if j == 6 {} else if j == 7 {} else {} }
    lemma_column_index(cols, 9);
}

/// Where each column of the event listing stands.
proof fn lemma_event_columns(cols: Seq<(Seq<char>, CellKind)>)
    requires
        cols.len() == 6,
        cols[0].0 == "id"@,
        cols[1].0 == "name"@,
        cols[2].0 == "location"@,
        cols[3].0 == "description"@,
        cols[4].0 == "timestamp"@,
        cols[5].0 == "created_at"@,
    ensures
        column_index(cols, "id"@) == 0,
        column_index(cols, "name"@) == 1,
        column_index(cols, "location"@) == 2,
        column_index(cols, "description"@) == 3,
        column_index(cols, "timestamp"@) == 4,
        column_index(cols, "created_at"@) == 5,
{
    reveal_strlit("id");
    reveal_strlit("name");
    reveal_strlit("location");
    reveal_strlit("description");
    reveal_strlit("timestamp");
    reveal_strlit("created_at");
    assert("id"@.len() == 2);
    assert("name"@.len() == 4);
    assert("location"@.len() == 8);
    assert("description"@.len() == 11);
    assert("timestamp"@.len() == 9);
    assert("created_at"@.len() == 10);
    assert("id"@ != "name"@);
    assert("id"@ != "location"@);
    assert("id"@ != "description"@);
    assert("id"@ != "timestamp"@);
    assert("id"@ != "created_at"@);
    assert("name"@ != "location"@);
    assert("name"@ != "description"@);
    assert("name"@ != "timestamp"@);
    assert("name"@ != "created_at"@);
    assert("location"@ != "description"@);
    assert("location"@ != "timestamp"@);
    assert("location"@ != "created_at"@);
    assert("description"@ != "timestamp"@);
    assert("description"@ != "created_at"@);
    assert("timestamp"@ != "created_at"@);
    lemma_column_index(cols, 0);
    assert forall|j: int| 0 <= j < 1 implies (#[trigger] cols[j]).0 != cols[1].0 by { {} }
    lemma_column_index(cols, 1);
    assert forall|j: int| 0 <= j < 2 implies (#[trigger] cols[j]).0 != cols[2].0 by { if j == 0 {} else {} }
    lemma_column_index(cols, 2);
    assert forall|j: int| 0 <= j < 3 implies (#[trigger] cols[j]).0 != cols[3].0 by { if j == 0 {} else if j == 1 {} else {} }
    lemma_column_index(cols, 3);
    assert forall|j: int| 0 <= j < 4 implies (#[trigger] cols[j]).0 != cols[4].0 by { if j == 0 {} else if j == 1 {} else if j == 2 {} else {} }
    lemma_column_index(cols, 4);
    assert forall|j: int| 0 <= j < 5 implies (#[trigger] cols[j]).0 != cols[5].0 by { if j == 0 {} else if j == 1 {} else if j == 2 {} else if j == 3 {} else {} }
    lemma_column_index(cols, 5);
}

/// Where each column of the relation listing stands.
proof fn lemma_relation_columns(cols: Seq<(Seq<char>, CellKind)>)
    requires
        cols.len() == 5,
        cols[0].0 == "id"@,
        cols[1].0 == "name"@,
        cols[2].0 == "relation_type"@,
        cols[3].0 == "description"@,
        cols[4].0 == "created_at"@,
    ensures
        column_index(cols, "id"@) == 0,
        column_index(cols, "name"@) == 1,
        column_index(cols, "relation_type"@) == 2,
        column_index(cols, "description"@) == 3,
        column_index(cols, "created_at"@) == 4,
{
    reveal_strlit("id");
    reveal_strlit("name");
    reveal_strlit("relation_type");
    reveal_strlit("description");
    reveal_strlit("created_at");
    assert("id"@.len() == 2);
    assert("name"@.len() == 4);
    assert("relation_type"@.len() == 13);
    assert("description"@.len() == 11);
    assert("created_at"@.len() == 10);
    assert("id"@ != "name"@);
    assert("id"@ != "relation_type"@);
    assert("id"@ != "description"@);
    assert("id"@ != "created_at"@);
    assert("name"@ != "relation_type"@);
    assert("name"@ != "description"@);
    assert("name"@ != "created_at"@);
    assert("relation_type"@ != "description"@);
    assert("relation_type"@ != "created_at"@);
    assert("description"@ != "created_at"@);
    lemma_column_index(cols, 0);
    assert forall|j: int| 0 <= j < 1 implies (#[trigger] cols[j]).0 != cols[1].0 by { {} }
    lemma_column_index(cols, 1);
    assert forall|j: int| 0 <= j < 2 implies (#[trigger] cols[j]).0 != cols[2].0 by { if j == 0 {} else {} }
    lemma_column_index(cols, 2);
    assert forall|j: int| 0 <= j < 3 implies (#[trigger] cols[j]).0 != cols[3].0 by { if j == 0 {} else if j == 1 {} else {} }
    lemma_column_index(cols, 3);
    assert forall|j: int| 0 <= j < 4 implies (#[trigger] cols[j]).0 != cols[4].0 by { if j == 0 {} else if j == 1 {} else if j == 2 {} else {} }
    lemma_column_index(cols, 4);
}

/// Where each column of the character listing stands.
proof fn lemma_character_columns(cols: Seq<(Seq<char>, CellKind)>)
    requires
        cols.len() == 4,
        cols[0].0 == "id"@,
        cols[1].0 == "name"@,
        cols[2].0 == "description"@,
        cols[3].0 == "created_at"@,
    ensures
        column_index(cols, "id"@) == 0,
        column_index(cols, "name"@) == 1,
        column_index(cols, "description"@) == 2,
        column_index(cols, "created_at"@) == 3,
{
    reveal_strlit("id");
    reveal_strlit("name");
    reveal_strlit("description");
    reveal_strlit("created_at");
    assert("id"@.len() == 2);
    assert("name"@.len() == 4);
    assert("description"@.len() == 11);
    assert("created_at"@.len() == 10);
    assert("id"@ != "name"@);
    assert("id"@ != "description"@);
    assert("id"@ != "created_at"@);
    assert("name"@ != "description"@);
    assert("name"@ != "created_at"@);
    assert("description"@ != "created_at"@);
    lemma_column_index(cols, 0);
    assert forall|j: int| 0 <= j < 1 implies (#[trigger] cols[j]).0 != cols[1].0 by { {} }
    lemma_column_index(cols, 1);
    assert forall|j: int| 0 <= j < 2 implies (#[trigger] cols[j]).0 != cols[2].0 by { if j == 0 {} else {} }
    lemma_column_index(cols, 2);
    assert forall|j: int| 0 <= j < 3 implies (#[trigger] cols[j]).0 != cols[3].0 by { if j == 0 {} else if j == 1 {} else {} }
    lemma_column_index(cols, 3);
}

/// The string the column called `name` holds in a row.
pub open spec fn text_column(row: Seq<CellModel>, cols: Seq<(Seq<char>, CellKind)>, name: Seq<char>) -> Seq<char> {
    named_cell(row, cols, name)->Text_0
}

/// The optional string the column called `name` holds in a row.
pub open spec fn opt_text_column(row: Seq<CellModel>, cols: Seq<(Seq<char>, CellKind)>, name: Seq<char>) -> Option<Seq<char>> {
    named_cell(row, cols, name)->OptText_0
}

/// Every listed connection is its row read by column name: `id`, the ends'
/// ids from `from_id` and `to_id`, the template's id and type, `created_at`,
/// and the ends' names and types from `from_name`, `to_name`, `from_type` and
/// `to_type`.
pub proof fn law_connection_items_follow_named_columns(rows: Seq<Seq<CellModel>>, end: Result<(), Seq<char>>, total: i64, page: u32, per_page: u32)
    ensures
        connections_outcome(rows, end, total, page, per_page) is Ok ==> {
            let items = connections_outcome(rows, end, total, page, per_page)->Ok_0.items;
            &&& items.len() == rows.len()
            &&& forall|k: int| 0 <= k < rows.len() ==> {
                let c = connection_columns();
                &&& (#[trigger] items[k]).id == text_column(rows[k], c, "id"@)
                &&& items[k].from_entity_id == text_column(rows[k], c, "from_id"@)
                &&& items[k].to_entity_id == text_column(rows[k], c, "to_id"@)
                &&& items[k].relation_id == text_column(rows[k], c, "relation_id"@)
                &&& items[k].relation_type == text_column(rows[k], c, "relation_type"@)
                &&& items[k].created_at == opt_text_column(rows[k], c, "created_at"@)
                &&& items[k].from_name == text_column(rows[k], c, "from_name"@)
                &&& items[k].to_name == text_column(rows[k], c, "to_name"@)
                &&& items[k].from_type == text_column(rows[k], c, "from_type"@)
                &&& items[k].to_type == text_column(rows[k], c, "to_type"@)
            }
        },
{
    lemma_connection_columns(connection_columns());
}

/// Every listed event is its row read by column name: `id`, `name`,
/// `location`, `description`, `timestamp` and `created_at`.
pub proof fn law_event_items_follow_named_columns(rows: Seq<Seq<CellModel>>, end: Result<(), Seq<char>>, total: i64, page: u32, per_page: u32)
    ensures
        events_outcome(rows, end, total, page, per_page) is Ok ==> {
            let items = events_outcome(rows, end, total, page, per_page)->Ok_0.items;
            &&& items.len() == rows.len()
            &&& forall|k: int| 0 <= k < rows.len() ==> {
                let c = event_columns();
                &&& (#[trigger] items[k]).id == text_column(rows[k], c, "id"@)
                &&& items[k].name == text_column(rows[k], c, "name"@)
                &&& items[k].location == opt_text_column(rows[k], c, "location"@)
                &&& items[k].description == opt_text_column(rows[k], c, "description"@)
                &&& items[k].timestamp == opt_text_column(rows[k], c, "timestamp"@)
                &&& items[k].created_at == opt_text_column(rows[k], c, "created_at"@)
            }
        },
{
    lemma_event_columns(event_columns());
}

/// Every listed relation template is its row read by column name: `id`,
/// `name`, `relation_type`, `description` and `created_at`.
pub proof fn law_relation_items_follow_named_columns(rows: Seq<Seq<CellModel>>, end: Result<(), Seq<char>>, total: i64, page: u32, per_page: u32)
    ensures
        relations_outcome(rows, end, total, page, per_page) is Ok ==> {
            let items = relations_outcome(rows, end, total, page, per_page)->Ok_0.items;
            &&& items.len() == rows.len()
            &&& forall|k: int| 0 <= k < rows.len() ==> {
                let c = relation_columns();
                &&& (#[trigger] items[k]).id == text_column(rows[k], c, "id"@)
                &&& items[k].name == text_column(rows[k], c, "name"@)
                &&& items[k].relation_type == text_column(rows[k], c, "relation_type"@)
                &&& items[k].description == opt_text_column(rows[k], c, "description"@)
                &&& items[k].created_at == opt_text_column(rows[k], c, "created_at"@)
            }
        },
{
    lemma_relation_columns(relation_columns());
}

/// Every listed character is its row read by column name (`id`, `name`,
/// `description`, `created_at`), a column that did not decode reading as empty
/// or absent.
pub proof fn law_character_items_follow_named_columns(rows: Seq<Seq<CellModel>>, end: Result<(), Seq<char>>, total: i64, page: u32, per_page: u32)
    ensures
        characters_outcome(rows, end, total, page, per_page) is Ok ==> {
            let items = characters_outcome(rows, end, total, page, per_page)->Ok_0.characters;
            &&& items.len() == rows.len()
            &&& forall|k: int| 0 <= k < rows.len() ==> {
                let c = character_columns();
                &&& (#[trigger] items[k]).id == text_or_default(rows[k], column_index(c, "id"@))
                &&& items[k].name == text_or_default(rows[k], column_index(c, "name"@))
                &&& items[k].description == text_or_none(rows[k], column_index(c, "description"@))
                &&& items[k].created_at == text_or_none(rows[k], column_index(c, "created_at"@))
            }
        },
{
    lemma_character_columns(character_columns());
}

/// The Bolt form of an optional string: the string, or null.
pub open spec fn opt_bolt(o: Option<Seq<char>>) -> BoltModel {
    match o {
        Some(t) => BoltModel::Text(t),
        None => BoltModel::Null,
    }
}

/// The connection reported as created is the one the create query stores:
/// each of its fields is the value the query binds under the same name.
pub proof fn law_created_connection_is_what_the_query_binds(
    user_id: u64,
    r: CreateConnectionRequest,
    project_id: u64,
    id: Seq<char>,
    relation_type: Seq<char>,
)
    ensures
        ({
            let m = param_map(connection_create_params(user_id, r, project_id, id, relation_type));
            let c = created_connection(r, project_id, id, relation_type);
            &&& m["id"@] == BoltModel::Text(c.id)
            &&& m["project_id"@] == BoltModel::Integer(c.project_id as i64 as int)
            &&& m["from_id"@] == BoltModel::Text(c.from_id)
            &&& m["to_id"@] == BoltModel::Text(c.to_id)
            &&& m["relation_id"@] == BoltModel::Text(c.relation_id)
            &&& m["relation_type"@] == BoltModel::Text(c.relation_type)
            &&& m["attributes"@] == BoltModel::Text(or_empty(c.attributes))
        }),
{
    lemma_params_conn_create(connection_create_params(user_id, r, project_id, id, relation_type));
}

/// The event reported as created is the one the create query stores: each of
/// its fields is the value the query binds under the same name.
pub proof fn law_created_event_is_what_the_query_binds(user_id: u64, r: CreateEventRequest, project_id: u64, id: Seq<char>)
    ensures
        ({
            let m = param_map(event_create_params(user_id, r, project_id, id));
            let e = created_event(r, project_id, id);
            &&& m["id"@] == BoltModel::Text(e.id)
            &&& m["project_id"@] == BoltModel::Integer(e.project_id as i64 as int)
            &&& m["name"@] == BoltModel::Text(e.name)
            &&& m["location"@] == opt_bolt(e.location)
            &&& m["description"@] == opt_bolt(e.description)
            &&& m["timestamp"@] == opt_bolt(e.timestamp)
            &&& m["attributes"@] == BoltModel::Text(or_empty(e.attributes))
        }),
{
    lemma_params_event(event_create_params(user_id, r, project_id, id));
}

/// The relation template reported as created is the one the create query
/// stores: each of its fields is the value the query binds under the same name.
pub proof fn law_created_relation_is_what_the_query_binds(user_id: u64, r: CreateRelationRequest, project_id: u64, id: Seq<char>)
    ensures
        ({
            let m = param_map(relation_create_params(user_id, r, project_id, id));
            let x = created_relation(r, project_id, id);
            &&& m["id"@] == BoltModel::Text(x.id)
            &&& m["project_id"@] == BoltModel::Integer(x.project_id as i64 as int)
            &&& m["name"@] == BoltModel::Text(x.name)
            &&& m["relation_type"@] == BoltModel::Text(x.relation_type)
            &&& m["description"@] == opt_bolt(x.description)
            &&& m["attributes"@] == BoltModel::Text(or_empty(x.attributes))
        }),
{
    lemma_params_relation(relation_create_params(user_id, r, project_id, id));
}

/// The character reported as created is the one the create query stores: each
/// of its fields is the value the query binds under the same name (attributes
/// are bound only when given).
pub proof fn law_created_character_is_what_the_query_binds(user_id: u64, r: CreateCharacterRequest, project_id: u64, id: Seq<char>)
    ensures
        ({
            let m = param_map(character_create_params(user_id, r, project_id, id));
            let c = created_character(r, project_id, id);
            &&& m["id"@] == BoltModel::Text(c.id)
            &&& m["project_id"@] == BoltModel::Integer(c.project_id as i64 as int)
            &&& m["name"@] == BoltModel::Text(c.name)
            &&& m["description"@] == BoltModel::Text(or_empty(c.description))
            &&& (c.attributes matches Some(a) ==> m["attributes"@] == BoltModel::Text(a))
        }),
{
    let s = character_create_params(user_id, r, project_id, id);
    if r.attributes is Some {
        lemma_params_character_create_attrs(s);
    } else {
        lemma_params_character_create(s);
    }
}

/// Each merge query of an import binds every field of the item it stores
/// under the field's own name: a character's, event's or relation template's
/// name, description, attributes (and location and timestamp, or
/// relation_type), a connection's ends and template; and the item's id and the
/// project.
pub proof fn law_import_merges_bind_item_fields(user_id: u64, r: ImportProjectGraphRequest, k: int, s: ImportStep)
    requires
        0 <= k < r.characters@.len() + r.events@.len() + r.relations@.len() + r.connections@.len(),
        import_step_ok(user_id, r, k, s),
    ensures
        ({
            let m = param_map(s.query@.params);
            let nc = r.characters@.len() as int;
            let ne = r.events@.len() as int;
            let nr = r.relations@.len() as int;
            &&& m["id"@] == BoltModel::Text(s.id@)
            &&& m["project_id"@] == BoltModel::Integer(r.project_id as i64 as int)
            &&& m["created_by"@] == BoltModel::Integer(user_id as i64 as int)
            &&& (k < nc ==> {
                let c = r.characters@[k];
                &&& m["name"@] == BoltModel::Text(c.name@)
                &&& m["description"@] == BoltModel::Text(or_empty(c.description.deep_view()))
                &&& m["attributes"@] == BoltModel::Text(or_empty(c.attributes.deep_view()))
            })
            &&& (nc <= k < nc + ne ==> {
                let e = r.events@[k - nc];
                &&& m["name"@] == BoltModel::Text(e.name@)
                &&& m["location"@] == BoltModel::Text(or_empty(e.location.deep_view()))
                &&& m["description"@] == BoltModel::Text(or_empty(e.description.deep_view()))
                &&& m["timestamp"@] == BoltModel::Text(or_empty(e.timestamp.deep_view()))
                &&& m["attributes"@] == BoltModel::Text(or_empty(e.attributes.deep_view()))
            })
            &&& (nc + ne <= k < nc + ne + nr ==> {
                let x = r.relations@[k - nc - ne];
                &&& m["name"@] == BoltModel::Text(x.name@)
                &&& m["relation_type"@] == BoltModel::Text(x.relation_type@)
                &&& m["description"@] == BoltModel::Text(or_empty(x.description.deep_view()))
                &&& m["attributes"@] == BoltModel::Text(or_empty(x.attributes.deep_view()))
            })
            &&& (nc + ne + nr <= k ==> {
                let c = r.connections@[k - nc - ne - nr];
                &&& m["from_id"@] == BoltModel::Text(c.from_id@)
                &&& m["to_id"@] == BoltModel::Text(c.to_id@)
                &&& m["relation_id"@] == BoltModel::Text(c.relation_id@)
                &&& m["attributes"@] == BoltModel::Text(or_empty(c.attributes.deep_view()))
            })
        }),
{
    let nc = r.characters@.len() as int;
    let ne = r.events@.len() as int;
    let nr = r.relations@.len() as int;
    if k < nc {
        lemma_params_character_merge(s.query@.params);
    } else if k < nc + ne {
        lemma_params_event(s.query@.params);
    } else if k < nc + ne + nr {
        lemma_params_relation(s.query@.params);
    } else {
        lemma_params_connection_merge(s.query@.params);
    }
}

/// Adding a node keeps every node and id already there and makes its id present.
proof fn lemma_add_node(nodes: Seq<GraphNodeModel>, n: GraphNodeModel)
    ensures
        node_ids(add_node(nodes, n)).contains(n.id),
        forall|id: Seq<char>| node_ids(nodes).contains(id) ==> #[trigger] node_ids(add_node(nodes, n)).contains(id),
        add_node(nodes, n).len() >= nodes.len(),
        forall|i: int| 0 <= i < nodes.len() ==> #[trigger] add_node(nodes, n)[i] == nodes[i],
        forall|i: int| nodes.len() <= i < add_node(nodes, n).len() ==> #[trigger] add_node(nodes, n)[i] == n,
{
    if !node_ids(nodes).contains(n.id) {
        let ns = nodes.push(n);
        assert(node_ids(ns) =~= node_ids(nodes).push(n.id));
        assert(node_ids(ns)[nodes.len() as int] == n.id);
        assert forall|id: Seq<char>| node_ids(nodes).contains(id) implies #[trigger] node_ids(ns).contains(id) by {
            let j = choose|j: int| 0 <= j < node_ids(nodes).len() && node_ids(nodes)[j] == id;
            assert(node_ids(ns)[j] == id);
        }
    }
}

/// A graph node as a row reads it: the start node from `from_node_id`,
/// `from_label` and `from_type`, or the end node from `to_node_id`, `to_label`
/// and `to_type`.
pub open spec fn node_read_from(n: GraphNodeModel, row: Seq<CellModel>) -> bool {
    let c = graph_columns();
    ||| (n.id == text_column(row, c, "from_node_id"@) && n.label == text_column(row, c, "from_label"@)
        && n.node_type == text_column(row, c, "from_type"@))
    ||| (n.id == text_column(row, c, "to_node_id"@) && n.label == text_column(row, c, "to_label"@)
        && n.node_type == text_column(row, c, "to_type"@))
}

/// Edge `k` of `acc` is row `k`'s edge, and both its end nodes are among the nodes.
pub open spec fn graph_edges_sourced(acc: GraphAcc, rows: Seq<Seq<CellModel>>) -> bool {
    forall|k: int| 0 <= k < acc.edges.len() ==> {
        &&& (#[trigger] acc.edges[k]) == edge_of(graph_row(rows[k]))
        &&& node_ids(acc.nodes).contains(graph_row(rows[k]).from_node_id)
        &&& node_ids(acc.nodes).contains(graph_row(rows[k]).to_node_id)
    }
}

/// Every node of `acc` is the start or end node of one of the rows.
pub open spec fn graph_nodes_sourced(acc: GraphAcc, rows: Seq<Seq<CellModel>>) -> bool {
    forall|i: int| 0 <= i < acc.nodes.len() ==> exists|k: int| 0 <= k < rows.len() && {
        ||| #[trigger] acc.nodes[i] == from_node_of(graph_row(rows[k]))
        ||| acc.nodes[i] == to_node_of(graph_row(rows[k]))
    }
}

/// What reading graph rows keeps: edge `k` is row `k`'s edge and both its end
/// nodes are among the nodes; every node is an end node of a row read.
proof fn lemma_graph_fold_sources(rows: Seq<Seq<CellModel>>, max: nat)
    ensures
        graph_fold(rows, max).edges.len() <= rows.len(),
        !graph_fold(rows, max).stopped && graph_fold(rows, max).fault is None ==> graph_fold(rows, max).edges.len() == rows.len(),
        graph_edges_sourced(graph_fold(rows, max), rows),
        graph_nodes_sourced(graph_fold(rows, max), rows),
    decreases rows.len(),
{
    if rows.len() > 0 {
        let t = rows.drop_last();
        lemma_graph_fold_sources(t, max);
        let acc = graph_fold(t, max);
        let row = rows.last();
        let last = rows.len() - 1;
        assert(row == rows[last]);
        assert forall|k: int| 0 <= k < t.len() implies t[k] == rows[k] by {}
        if !(acc.stopped || acc.fault is Some) && row_fault(row, graph_kinds()) is None && acc.nodes.len() < max {
            let r = graph_row(row);
            let nodes1 = add_node(acc.nodes, from_node_of(r));
            lemma_add_node(acc.nodes, from_node_of(r));
            if nodes1.len() < max {
                lemma_add_node(nodes1, to_node_of(r));
                let nodes2 = add_node(nodes1, to_node_of(r));
                assert(graph_fold(rows, max).nodes == nodes2);
                assert(graph_fold(rows, max).edges == acc.edges.push(edge_of(r)));
                assert(acc.edges.len() == t.len());
                assert forall|k: int| 0 <= k < graph_fold(rows, max).edges.len() implies {
                    &&& (#[trigger] graph_fold(rows, max).edges[k]) == edge_of(graph_row(rows[k]))
                    &&& node_ids(graph_fold(rows, max).nodes).contains(graph_row(rows[k]).from_node_id)
                    &&& node_ids(graph_fold(rows, max).nodes).contains(graph_row(rows[k]).to_node_id)
                } by {
                    if k < acc.edges.len() {
                        assert(t[k] == rows[k]);
                        assert(acc.edges[k] == edge_of(graph_row(t[k])));
                        assert(node_ids(acc.nodes).contains(graph_row(t[k]).from_node_id));
                        assert(node_ids(acc.nodes).contains(graph_row(t[k]).to_node_id));
                        assert(node_ids(nodes1).contains(graph_row(t[k]).from_node_id));
                        assert(node_ids(nodes1).contains(graph_row(t[k]).to_node_id));
                    } else {
                        assert(k == last);
                        assert(node_ids(nodes1).contains(r.from_node_id));
                    }
                }
                assert forall|i: int| 0 <= i < graph_fold(rows, max).nodes.len() implies exists|k: int| 0 <= k < rows.len() && {
                    ||| #[trigger] graph_fold(rows, max).nodes[i] == from_node_of(graph_row(rows[k]))
                    ||| graph_fold(rows, max).nodes[i] == to_node_of(graph_row(rows[k]))
                } by {
                    if i < acc.nodes.len() {
                        let k = choose|k: int| 0 <= k < t.len() && {
                            ||| #[trigger] acc.nodes[i] == from_node_of(graph_row(t[k]))
                            ||| acc.nodes[i] == to_node_of(graph_row(t[k]))
                        };
                        assert(t[k] == rows[k]);
                    } else if i < nodes1.len() {
                        assert(graph_fold(rows, max).nodes[i] == from_node_of(graph_row(rows[last])));
                    } else {
                        assert(graph_fold(rows, max).nodes[i] == to_node_of(graph_row(rows[last])));
                    }
                }
            assert(graph_edges_sourced(graph_fold(rows, max), rows));
            assert(graph_nodes_sourced(graph_fold(rows, max), rows));
            } else {
                assert(graph_fold(rows, max).nodes == nodes1);
                assert(graph_fold(rows, max).edges == acc.edges);
                assert forall|k: int| 0 <= k < graph_fold(rows, max).edges.len() implies {
                    &&& (#[trigger] graph_fold(rows, max).edges[k]) == edge_of(graph_row(rows[k]))
                    &&& node_ids(graph_fold(rows, max).nodes).contains(graph_row(rows[k]).from_node_id)
                    &&& node_ids(graph_fold(rows, max).nodes).contains(graph_row(rows[k]).to_node_id)
                } by {
                    assert(t[k] == rows[k]);
                    assert(acc.edges[k] == edge_of(graph_row(t[k])));
                    assert(node_ids(acc.nodes).contains(graph_row(t[k]).from_node_id));
                    assert(node_ids(acc.nodes).contains(graph_row(t[k]).to_node_id));
                }
                assert forall|i: int| 0 <= i < graph_fold(rows, max).nodes.len() implies exists|k: int| 0 <= k < rows.len() && {
                    ||| #[trigger] graph_fold(rows, max).nodes[i] == from_node_of(graph_row(rows[k]))
                    ||| graph_fold(rows, max).nodes[i] == to_node_of(graph_row(rows[k]))
                } by {
                    if i < acc.nodes.len() {
                        let k = choose|k: int| 0 <= k < t.len() && {
                            ||| #[trigger] acc.nodes[i] == from_node_of(graph_row(t[k]))
                            ||| acc.nodes[i] == to_node_of(graph_row(t[k]))
                        };
                        assert(t[k] == rows[k]);
                    } else {
                        assert(graph_fold(rows, max).nodes[i] == from_node_of(graph_row(rows[last])));
                    }
                }
            }
            assert(graph_edges_sourced(graph_fold(rows, max), rows));
            assert(graph_nodes_sourced(graph_fold(rows, max), rows));
        } else {
            assert(graph_fold(rows, max).nodes == acc.nodes);
            assert(graph_fold(rows, max).edges == acc.edges);
            assert forall|k: int| 0 <= k < graph_fold(rows, max).edges.len() implies {
                &&& (#[trigger] graph_fold(rows, max).edges[k]) == edge_of(graph_row(rows[k]))
                &&& node_ids(graph_fold(rows, max).nodes).contains(graph_row(rows[k]).from_node_id)
                &&& node_ids(graph_fold(rows, max).nodes).contains(graph_row(rows[k]).to_node_id)
            } by {
                assert(t[k] == rows[k]);
                assert(acc.edges[k] == edge_of(graph_row(t[k])));
            }
            assert forall|i: int| 0 <= i < graph_fold(rows, max).nodes.len() implies exists|k: int| 0 <= k < rows.len() && {
                ||| #[trigger] graph_fold(rows, max).nodes[i] == from_node_of(graph_row(rows[k]))
                ||| graph_fold(rows, max).nodes[i] == to_node_of(graph_row(rows[k]))
            } by {
                let k = choose|k: int| 0 <= k < t.len() && {
                    ||| #[trigger] acc.nodes[i] == from_node_of(graph_row(t[k]))
                    ||| acc.nodes[i] == to_node_of(graph_row(t[k]))
                };
                assert(t[k] == rows[k]);
            }
            assert(graph_edges_sourced(graph_fold(rows, max), rows));
            assert(graph_nodes_sourced(graph_fold(rows, max), rows));
        }
    }
}

/// The graph is read from the graph query's columns by name. Edge `k` is row
/// `k`'s connection: its id from `edge_id`, its start from `from_id`, its end
/// from `to_id` and its type from `relation_type`; both its end nodes (ids
/// `from_node_id` and `to_node_id`) are in the graph; and every node is the
/// start or end node of a row read, with its id, label and type from that
/// end's columns.
pub proof fn law_graph_follows_named_columns(rows: Seq<Seq<CellModel>>, end: Result<(), Seq<char>>, max: nat)
    ensures
        graph_outcome(rows, end, max) is Ok ==> {
            let nodes = graph_outcome(rows, end, max)->Ok_0.0;
            let edges = graph_outcome(rows, end, max)->Ok_0.1;
            let c = graph_columns();
            &&& edges.len() <= rows.len()
            &&& forall|k: int| 0 <= k < edges.len() ==> {
                &&& (#[trigger] edges[k]).id == text_column(rows[k], c, "edge_id"@)
                &&& edges[k].from == text_column(rows[k], c, "from_id"@)
                &&& edges[k].to == text_column(rows[k], c, "to_id"@)
                &&& edges[k].edge_type == text_column(rows[k], c, "relation_type"@)
                &&& node_ids(nodes).contains(text_column(rows[k], c, "from_node_id"@))
                &&& node_ids(nodes).contains(text_column(rows[k], c, "to_node_id"@))
            }
            &&& forall|i: int| 0 <= i < nodes.len() ==>
                exists|k: int| 0 <= k < rows.len() && node_read_from(#[trigger] nodes[i], rows[k])
        },
{
    lemma_graph_columns(graph_columns());
    lemma_graph_fold_sources(rows, max);
    let g = graph_fold(rows, max);
    if graph_outcome(rows, end, max) is Ok {
        assert forall|i: int| 0 <= i < g.nodes.len() implies
            exists|k: int| 0 <= k < rows.len() && node_read_from(#[trigger] g.nodes[i], rows[k]) by {
            let k = choose|k: int| 0 <= k < rows.len() && {
                ||| #[trigger] g.nodes[i] == from_node_of(graph_row(rows[k]))
                ||| g.nodes[i] == to_node_of(graph_row(rows[k]))
            };
            assert(node_read_from(g.nodes[i], rows[k]));
        }
    }
}

/// The names the listing queries bind are all different.
proof fn lemma_listing_param_names()
    ensures
        "project_id"@ != "offset"@,
        "project_id"@ != "limit"@,
        "project_id"@ != "search"@,
        "project_id"@ != "entity_id"@,
        "project_id"@ != "relation_id"@,
        "project_id"@ != "relation_type"@,
        "offset"@ != "limit"@,
        "offset"@ != "search"@,
        "offset"@ != "entity_id"@,
        "offset"@ != "relation_id"@,
        "offset"@ != "relation_type"@,
        "limit"@ != "search"@,
        "limit"@ != "entity_id"@,
        "limit"@ != "relation_id"@,
        "limit"@ != "relation_type"@,
        "entity_id"@ != "relation_id"@,
        "entity_id"@ != "relation_type"@,
        "relation_id"@ != "relation_type"@,
{
    reveal_strlit("project_id");
    reveal_strlit("offset");
    reveal_strlit("limit");
    reveal_strlit("search");
    reveal_strlit("entity_id");
    reveal_strlit("relation_id");
    reveal_strlit("relation_type");
    assert("project_id"@.len() == 10);
    assert("offset"@.len() == 6);
    assert("limit"@.len() == 5);
    assert("search"@.len() == 6);
    assert("entity_id"@.len() == 9);
    assert("relation_id"@.len() == 11);
    assert("relation_type"@.len() == 13);
    assert("offset"@[0] != "search"@[0]);
}

/// The parameters of an optional single binding.
proof fn lemma_optional_binding(name: Seq<char>, o: Option<Seq<char>>)
    ensures
        ({
            let s = match o { Some(x) => seq![pm(name, ParamModel::Text(x))], None => Seq::<(Seq<char>, ParamModel)>::empty() };
            &&& (o matches Some(x) ==> param_map(s) == Map::<Seq<char>, BoltModel>::empty().insert(name, BoltModel::Text(x)))
            &&& (o is None ==> param_map(s) == Map::<Seq<char>, BoltModel>::empty())
        }),
{
    if let Some(x) = o {
        lemma_param_map_single(pm(name, ParamModel::Text(x)));
    }
}

/// The query of a listing page (events, relation templates, characters) binds
/// the project, the search text only when one is given, the offset
/// `(page - 1) * per_page` and the limit `per_page`, each under its own name.
pub proof fn law_page_query_binds_its_page(project_id: u64, search: Option<Seq<char>>, page: u32, per_page: u32)
    ensures
        ({
            let m = param_map(page_params(project_id, search, page, per_page));
            &&& m["project_id"@] == BoltModel::Integer(project_id as i64 as int)
            &&& m["offset"@] == BoltModel::Integer((page - 1) * per_page)
            &&& m["limit"@] == BoltModel::Integer(per_page as int)
            &&& (search matches Some(t) ==> m["search"@] == BoltModel::Text(t))
            &&& (search is None ==> !m.dom().contains("search"@))
        }),
{
    lemma_listing_param_names();
    let p = pm("project_id"@, ParamModel::Int(project_id as i64 as int));
    let o = pm("offset"@, ParamModel::Int((page - 1) * per_page));
    let l = pm("limit"@, ParamModel::Int(per_page as int));
    let srch = match search { Some(x) => seq![pm("search"@, ParamModel::Text(x))], None => Seq::<(Seq<char>, ParamModel)>::empty() };
    assert(search_params(project_id, search) == seq![p] + srch);
    assert(page_params(project_id, search, page, per_page) == (seq![p] + srch) + (seq![o] + seq![l])) by {
        assert(seq![o, l] =~= seq![o] + seq![l]);
    }
    lemma_param_map_concat(seq![p] + srch, seq![o] + seq![l]);
    lemma_param_map_concat(seq![p], srch);
    lemma_param_map_concat(seq![o], seq![l]);
    lemma_param_map_single(p);
    lemma_param_map_single(o);
    lemma_param_map_single(l);
    lemma_optional_binding("search"@, search);
}

/// The filters bound in both connection queries: each given filter under its
/// own name, and no other.
proof fn lemma_filter_bindings(r: GetConnectionsRequest)
    ensures
        ({
            let f = param_map(filter_params(r));
            &&& (r.entity_id matches Some(x) ==> f.dom().contains("entity_id"@) && f["entity_id"@] == BoltModel::Text(x@))
            &&& (r.relation_id matches Some(x) ==> f.dom().contains("relation_id"@) && f["relation_id"@] == BoltModel::Text(x@))
            &&& (r.relation_type matches Some(x) ==> f.dom().contains("relation_type"@) && f["relation_type"@] == BoltModel::Text(x@))
            &&& (r.entity_id is None ==> !f.dom().contains("entity_id"@))
            &&& (r.relation_id is None ==> !f.dom().contains("relation_id"@))
            &&& (r.relation_type is None ==> !f.dom().contains("relation_type"@))
            &&& !f.dom().contains("project_id"@)
            &&& !f.dom().contains("offset"@)
            &&& !f.dom().contains("limit"@)
        }),
{
    lemma_listing_param_names();
    let e = match r.entity_id { Some(x) => seq![pm("entity_id"@, ParamModel::Text(x@))], None => Seq::<(Seq<char>, ParamModel)>::empty() };
    let ri = match r.relation_id { Some(x) => seq![pm("relation_id"@, ParamModel::Text(x@))], None => Seq::<(Seq<char>, ParamModel)>::empty() };
    let rt = match r.relation_type { Some(x) => seq![pm("relation_type"@, ParamModel::Text(x@))], None => Seq::<(Seq<char>, ParamModel)>::empty() };
    assert(filter_params(r) == (e + ri) + rt);
    lemma_param_map_concat(e + ri, rt);
    lemma_param_map_concat(e, ri);
    lemma_optional_binding("entity_id"@, r.entity_id.deep_view());
    lemma_optional_binding("relation_id"@, r.relation_id.deep_view());
    lemma_optional_binding("relation_type"@, r.relation_type.deep_view());
}

/// Both connection queries bind the project and each given filter (the entity
/// at either end, the template, the type) under its own name, and no filter
/// that was not given; the list query also binds the offset
/// `(page - 1) * per_page` and the limit `per_page`.
pub proof fn law_connection_queries_bind_filters(r: GetConnectionsRequest, p: GetConnectionsPagination, project_id: u64)
    ensures
        ({
            let c = param_map(connections_count_params(r, project_id));
            let m = param_map(connections_list_params(r, p, project_id));
            &&& c["project_id"@] == BoltModel::Integer(project_id as i64 as int)
            &&& m["project_id"@] == BoltModel::Integer(project_id as i64 as int)
            &&& m["offset"@] == BoltModel::Integer((p.page - 1) * p.per_page)
            &&& m["limit"@] == BoltModel::Integer(p.per_page as int)
            &&& (r.entity_id matches Some(x) ==> c["entity_id"@] == BoltModel::Text(x@) && m["entity_id"@] == BoltModel::Text(x@))
            &&& (r.relation_id matches Some(x) ==> c["relation_id"@] == BoltModel::Text(x@) && m["relation_id"@] == BoltModel::Text(x@))
            &&& (r.relation_type matches Some(x) ==> c["relation_type"@] == BoltModel::Text(x@) && m["relation_type"@] == BoltModel::Text(x@))
            &&& (r.entity_id is None ==> !c.dom().contains("entity_id"@) && !m.dom().contains("entity_id"@))
            &&& (r.relation_id is None ==> !c.dom().contains("relation_id"@) && !m.dom().contains("relation_id"@))
            &&& (r.relation_type is None ==> !c.dom().contains("relation_type"@) && !m.dom().contains("relation_type"@))
        }),
{
    lemma_listing_param_names();
    lemma_filter_bindings(r);
    let pp = pm("project_id"@, ParamModel::Int(project_id as i64 as int));
    let o = pm("offset"@, ParamModel::Int((p.page - 1) * p.per_page));
    let l = pm("limit"@, ParamModel::Int(p.per_page as int));
    lemma_param_map_concat(seq![pp], filter_params(r));
    lemma_param_map_single(pp);
    let base = seq![pp, o, l];
    assert(base =~= (seq![pp] + seq![o]) + seq![l]);
    lemma_param_map_concat(seq![pp] + seq![o], seq![l]);
    lemma_param_map_concat(seq![pp], seq![o]);
    lemma_param_map_single(o);
    lemma_param_map_single(l);
    lemma_param_map_concat(base, filter_params(r));
}

/// A created entity is the one requested: the project of the path, the fresh
/// id, and every field of the request in the field of the same name (a
/// connection's ends and template from the request, its type from the
/// template).
pub proof fn law_created_entities_are_the_requested_ones(
    project_id: u64,
    id: Seq<char>,
    relation_type: Seq<char>,
    ch: CreateCharacterRequest,
    ev: CreateEventRequest,
    rel: CreateRelationRequest,
    conn: CreateConnectionRequest,
)
    ensures
        created_character(ch, project_id, id).id == id,
        created_character(ch, project_id, id).project_id == project_id,
        created_character(ch, project_id, id).name == ch.name@,
        created_character(ch, project_id, id).description == ch.description.deep_view(),
        created_character(ch, project_id, id).attributes == ch.attributes.deep_view(),
        created_event(ev, project_id, id).id == id,
        created_event(ev, project_id, id).project_id == project_id,
        created_event(ev, project_id, id).name == ev.name@,
        created_event(ev, project_id, id).location == ev.location.deep_view(),
        created_event(ev, project_id, id).description == ev.description.deep_view(),
        created_event(ev, project_id, id).timestamp == ev.timestamp.deep_view(),
        created_event(ev, project_id, id).attributes == ev.attributes.deep_view(),
        created_relation(rel, project_id, id).id == id,
        created_relation(rel, project_id, id).project_id == project_id,
        created_relation(rel, project_id, id).name == rel.name@,
        created_relation(rel, project_id, id).relation_type == rel.relation_type@,
        created_relation(rel, project_id, id).description == rel.description.deep_view(),
        created_relation(rel, project_id, id).attributes == rel.attributes.deep_view(),
        created_connection(conn, project_id, id, relation_type).id == id,
        created_connection(conn, project_id, id, relation_type).project_id == project_id,
        created_connection(conn, project_id, id, relation_type).from_id == conn.from_entity_id@,
        created_connection(conn, project_id, id, relation_type).to_id == conn.to_entity_id@,
        created_connection(conn, project_id, id, relation_type).relation_id == conn.relation_id@,
        created_connection(conn, project_id, id, relation_type).relation_type == relation_type,
        created_connection(conn, project_id, id, relation_type).attributes == conn.attributes.deep_view(),
{
}

} // verus!
