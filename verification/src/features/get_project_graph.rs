//! The project graph: every connection of a project as an edge, and the
//! characters and events it links as nodes, up to a node limit.
use vstd::prelude::*;
use vstd::string::*;
use crate::common::{
    UserData, ErrorBody, ErrorModel, concat2, clone_strings, res_view, unit_res,
    database_error_body, access_denied_body, decode_error_body, validation_error_body,
    make_database_error_body, make_access_denied_body, make_decode_error_body,
    make_validation_error_body, validation_error_message,
};
use crate::db::{
    CellKind, CellModel, Column, CypherQuery, ParamModel, ParamValue, QueryParam, ReadQuery, Row,
    cell_fault, check_row, column, int_param, lemma_no_fault_cells, pm, row_fault, rows_model, text_at,
};
use crate::validation::{ValidationErrors, violations_text};

verus! {

/// A node of the graph: a character or an event.
#[derive(Debug)]
pub struct GraphNode {
    pub id: String,
    pub label: String,
    pub node_type: String,
}

pub struct GraphNodeModel {
    pub id: Seq<char>,
    pub label: Seq<char>,
    pub node_type: Seq<char>,
}

impl View for GraphNode {
    type V = GraphNodeModel;

    open spec fn view(&self) -> GraphNodeModel {
        GraphNodeModel { id: self.id@, label: self.label@, node_type: self.node_type@ }
    }
}

/// An edge of the graph: one connection.
#[derive(Debug)]
pub struct GraphEdge {
    pub id: String,
    pub from: String,
    pub to: String,
    pub edge_type: String,
}

pub struct GraphEdgeModel {
    pub id: Seq<char>,
    pub from: Seq<char>,
    pub to: Seq<char>,
    pub edge_type: Seq<char>,
}

impl View for GraphEdge {
    type V = GraphEdgeModel;

    open spec fn view(&self) -> GraphEdgeModel {
        GraphEdgeModel { id: self.id@, from: self.from@, to: self.to@, edge_type: self.edge_type@ }
    }
}

#[derive(Debug)]
pub struct ProjectGraphResponse {
    pub nodes: Vec<GraphNode>,
    pub edges: Vec<GraphEdge>,
}

impl View for ProjectGraphResponse {
    type V = (Seq<GraphNodeModel>, Seq<GraphEdgeModel>);

    open spec fn view(&self) -> (Seq<GraphNodeModel>, Seq<GraphEdgeModel>) {
        (self.nodes@.map_values(|n: GraphNode| n@), self.edges@.map_values(|e: GraphEdge| e@))
    }
}

/// Query string of the graph request.
#[derive(Debug)]
pub struct GetProjectGraphQuery {
    /// Most nodes to return (500 when absent).
    pub max_nodes: Option<u32>,
    /// Only connections of these types, when given.
    pub relation_types: Option<Vec<String>>,
}

#[derive(Debug)]
pub enum GetProjectGraphError {
    DatabaseError(String),
    DecodeError(String),
    AccessDenied,
}

impl View for GetProjectGraphError {
    type V = ErrorModel;

    open spec fn view(&self) -> ErrorModel {
        match self {
            GetProjectGraphError::DatabaseError(m) => ErrorModel::Database(m@),
            GetProjectGraphError::DecodeError(m) => ErrorModel::Decode(m@),
            GetProjectGraphError::AccessDenied => ErrorModel::AccessDenied,
        }
    }
}

#[derive(Debug)]
pub enum GetProjectGraphErrorResponse {
    GetProjectGraphError(GetProjectGraphError),
    ValidationError(ValidationErrors),
}

impl GetProjectGraphError {
    /// The error's own message.
    pub fn error_message(&self) -> (m: String)
        ensures
            m@ == match self@ {
                ErrorModel::Database(e) => "database error: "@ + e,
                ErrorModel::Decode(e) => "decode error: "@ + e,
                _ => "access denied to project"@,
            },
    {
        match self {
            GetProjectGraphError::DatabaseError(e) => concat2("database error: ", e.as_str()),
            GetProjectGraphError::DecodeError(e) => concat2("decode error: ", e.as_str()),
            GetProjectGraphError::AccessDenied => String::from_str("access denied to project"),
        }
    }
}

impl GetProjectGraphErrorResponse {
    /// The reply sent for this error.
    pub fn error_response(&self) -> (b: ErrorBody)
        ensures
            b@ == match self {
                GetProjectGraphErrorResponse::GetProjectGraphError(e) => match e@ {
                    ErrorModel::Database(_) => database_error_body(),
                    ErrorModel::Decode(_) => decode_error_body(),
                    _ => access_denied_body(),
                },
                GetProjectGraphErrorResponse::ValidationError(v) => validation_error_body(v@),
            },
    {
        match self {
            GetProjectGraphErrorResponse::GetProjectGraphError(e) => match e {
                GetProjectGraphError::DatabaseError(_) => make_database_error_body(),
                GetProjectGraphError::DecodeError(_) => make_decode_error_body(),
                GetProjectGraphError::AccessDenied => make_access_denied_body(),
            },
            GetProjectGraphErrorResponse::ValidationError(v) => make_validation_error_body(v),
        }
    }

    /// The full message of this error, as logged.
    pub fn error_message(&self) -> (m: String)
        ensures
            m@ == match self {
                GetProjectGraphErrorResponse::GetProjectGraphError(e) => "Failed to get project graph: "@ + match e@ {
                    ErrorModel::Database(x) => "database error: "@ + x,
                    ErrorModel::Decode(x) => "decode error: "@ + x,
                    _ => "access denied to project"@,
                },
                GetProjectGraphErrorResponse::ValidationError(v) => "Validation error: "@ + violations_text(v@),
            },
    {
        match self {
            GetProjectGraphErrorResponse::GetProjectGraphError(e) => {
                let inner = e.error_message();
                concat2("Failed to get project graph: ", inner.as_str())
            },
            GetProjectGraphErrorResponse::ValidationError(v) => validation_error_message(v),
        }
    }
}

/// The graph query string has no field rules: it always validates.
pub fn validate_get_project_graph_query(q: &GetProjectGraphQuery) -> (r: Result<(), ValidationErrors>)
    ensures
        r is Ok,
{
    ValidationErrors::new().into_result()
}

/// What the handler checks before reading the graph: the query string's rules,
/// then that the caller may see the project.
pub fn get_project_graph_precheck(user: &UserData, project_id: u64, q: &GetProjectGraphQuery) -> (r: Result<(), GetProjectGraphErrorResponse>)
    ensures
        r is Ok <==> user.projects_list@.contains(project_id),
        r matches Err(e) ==> e matches GetProjectGraphErrorResponse::GetProjectGraphError(GetProjectGraphError::AccessDenied),
{
    match validate_get_project_graph_query(q) {
        Err(v) => return Err(GetProjectGraphErrorResponse::ValidationError(v)),
        Ok(()) => {},
    }
    if !user.has_access(project_id) {
        return Err(GetProjectGraphErrorResponse::GetProjectGraphError(GetProjectGraphError::AccessDenied));
    }
    Ok(())
}

/// The node limit used when the query gives none.
pub open spec fn effective_max_nodes(q: Option<u32>) -> nat {
    match q {
        Some(m) => m as nat,
        None => 500,
    }
}

/// Text of the graph query, filtered by relation types or not.
pub open spec fn graph_query_text(filtered: bool) -> Seq<char> {
    "MATCH (from)-[c:CONNECTION]->(to)\n         WHERE "@ + "c.project_id = $project_id"@
        + (if filtered { " AND c.relation_type IN $relation_types"@ } else { Seq::empty() })
        + "\n         RETURN\n           c.id            AS edge_id,\n           c.from_id       AS from_id,\n           c.to_id         AS to_id,\n           c.relation_type AS relation_type,\n           from.id         AS from_node_id,\n           from.name       AS from_label,\n           labels(from)[0] AS from_type,\n           to.id           AS to_node_id,\n           to.name         AS to_label,\n           labels(to)[0]   AS to_type\n        "@
}

/// The columns of each graph row, all required strings.
pub open spec fn graph_columns() -> Seq<(Seq<char>, CellKind)> {
    seq![
        ("edge_id"@, CellKind::Text), ("from_id"@, CellKind::Text), ("to_id"@, CellKind::Text),
        ("relation_type"@, CellKind::Text), ("from_node_id"@, CellKind::Text), ("from_label"@, CellKind::Text),
        ("from_type"@, CellKind::Text), ("to_node_id"@, CellKind::Text), ("to_label"@, CellKind::Text),
        ("to_type"@, CellKind::Text),
    ]
}

pub open spec fn graph_kinds() -> Seq<CellKind> {
    Seq::new(10, |i: int| CellKind::Text)
}

/// The graph query: connections of the project, optionally of the given types.
pub fn get_project_graph_query(q: &GetProjectGraphQuery, project_id: u64) -> (r: ReadQuery)
    ensures
        r.query@.text == graph_query_text(q.relation_types is Some),
        r.query@.params == (match q.relation_types {
            Some(t) => seq![pm("project_id"@, ParamModel::Int(project_id as i64 as int)), pm("relation_types"@, ParamModel::TextList(t.deep_view()))],
            None => seq![pm("project_id"@, ParamModel::Int(project_id as i64 as int))],
        }),
        r.columns@.map_values(|c: Column| c@) == graph_columns(),
{
    let mut where_edge = String::from_str("c.project_id = $project_id");
    if q.relation_types.is_some() {
        where_edge.append(" AND c.relation_type IN $relation_types");
    }
    let mut text = String::from_str("MATCH (from)-[c:CONNECTION]->(to)\n         WHERE ");
    text.append(where_edge.as_str());
    text.append("\n         RETURN\n           c.id            AS edge_id,\n           c.from_id       AS from_id,\n           c.to_id         AS to_id,\n           c.relation_type AS relation_type,\n           from.id         AS from_node_id,\n           from.name       AS from_label,\n           labels(from)[0] AS from_type,\n           to.id           AS to_node_id,\n           to.name         AS to_label,\n           labels(to)[0]   AS to_type\n        ");
    assert(text@ =~= graph_query_text(q.relation_types is Some));
    let mut params: Vec<QueryParam> = Vec::new();
    params.push(int_param("project_id", project_id as i64));
    match &q.relation_types {
        Some(t) => {
            let list = clone_strings(t);
            params.push(QueryParam { name: String::from_str("relation_types"), value: ParamValue::TextList(list) });
            assert(list@.map_values(|s: String| s@) =~= t.deep_view());
        },
        None => {},
    }
    let query = CypherQuery { text, params };
    let mut columns: Vec<Column> = Vec::new();
    columns.push(column("edge_id", CellKind::Text));
    columns.push(column("from_id", CellKind::Text));
    columns.push(column("to_id", CellKind::Text));
    columns.push(column("relation_type", CellKind::Text));
    columns.push(column("from_node_id", CellKind::Text));
    columns.push(column("from_label", CellKind::Text));
    columns.push(column("from_type", CellKind::Text));
    columns.push(column("to_node_id", CellKind::Text));
    columns.push(column("to_label", CellKind::Text));
    columns.push(column("to_type", CellKind::Text));
    assert(query@.params =~= (match q.relation_types {
        Some(t) => seq![pm("project_id"@, ParamModel::Int(project_id as i64 as int)), pm("relation_types"@, ParamModel::TextList(t.deep_view()))],
        None => seq![pm("project_id"@, ParamModel::Int(project_id as i64 as int))],
    }));
    assert(columns@.map_values(|c: Column| c@) =~= graph_columns());
    ReadQuery { query, columns }
}

/// The ten strings of a graph row.
pub struct GraphRowModel {
    pub edge_id: Seq<char>,
    pub from_id: Seq<char>,
    pub to_id: Seq<char>,
    pub relation_type: Seq<char>,
    pub from_node_id: Seq<char>,
    pub from_label: Seq<char>,
    pub from_type: Seq<char>,
    pub to_node_id: Seq<char>,
    pub to_label: Seq<char>,
    pub to_type: Seq<char>,
}

/// The strings of a row that has no fault.
pub open spec fn graph_row(row: Seq<CellModel>) -> GraphRowModel {
    GraphRowModel {
        edge_id: row[0]->Text_0,
        from_id: row[1]->Text_0,
        to_id: row[2]->Text_0,
        relation_type: row[3]->Text_0,
        from_node_id: row[4]->Text_0,
        from_label: row[5]->Text_0,
        from_type: row[6]->Text_0,
        to_node_id: row[7]->Text_0,
        to_label: row[8]->Text_0,
        to_type: row[9]->Text_0,
    }
}

/// The edge a row yields.
pub open spec fn edge_of(r: GraphRowModel) -> GraphEdgeModel {
    GraphEdgeModel { id: r.edge_id, from: r.from_id, to: r.to_id, edge_type: r.relation_type }
}

pub open spec fn from_node_of(r: GraphRowModel) -> GraphNodeModel {
    GraphNodeModel { id: r.from_node_id, label: r.from_label, node_type: r.from_type }
}

pub open spec fn to_node_of(r: GraphRowModel) -> GraphNodeModel {
    GraphNodeModel { id: r.to_node_id, label: r.to_label, node_type: r.to_type }
}

pub open spec fn node_ids(nodes: Seq<GraphNodeModel>) -> Seq<Seq<char>> {
    nodes.map_values(|n: GraphNodeModel| n.id)
}

/// Adds a node unless a node with its id is already there.
pub open spec fn add_node(nodes: Seq<GraphNodeModel>, n: GraphNodeModel) -> Seq<GraphNodeModel> {
    if node_ids(nodes).contains(n.id) { nodes } else { nodes.push(n) }
}

/// Where the reading of graph rows stands: the nodes and edges so far, the rows
/// that gave the edges, whether the node limit stopped the reading, and the
/// first decoding fault.
pub struct GraphAcc {
    pub nodes: Seq<GraphNodeModel>,
    pub edges: Seq<GraphEdgeModel>,
    pub sources: Seq<GraphRowModel>,
    pub stopped: bool,
    pub fault: Option<Seq<char>>,
}

/// Reads one more row. Once stopped or faulty nothing changes. A row with a
/// fault records it. The reading stops when the node count has reached the
/// limit before the row's first node, or after it; otherwise both nodes are
/// added (each once) and the row's edge is appended.
pub open spec fn graph_step(acc: GraphAcc, row: Seq<CellModel>, max: nat) -> GraphAcc {
    if acc.stopped || acc.fault is Some {
        acc
    } else if row_fault(row, graph_kinds()) is Some {
        GraphAcc { fault: row_fault(row, graph_kinds()), ..acc }
    } else {
        let r = graph_row(row);
        if acc.nodes.len() >= max {
            GraphAcc { stopped: true, ..acc }
        } else {
            let nodes1 = add_node(acc.nodes, from_node_of(r));
            if nodes1.len() >= max {
                GraphAcc { nodes: nodes1, stopped: true, ..acc }
            } else {
                GraphAcc {
                    nodes: add_node(nodes1, to_node_of(r)),
                    edges: acc.edges.push(edge_of(r)),
                    sources: acc.sources.push(r),
                    stopped: false,
                    fault: None,
                }
            }
        }
    }
}

pub open spec fn graph_init() -> GraphAcc {
    GraphAcc { nodes: Seq::empty(), edges: Seq::empty(), sources: Seq::empty(), stopped: false, fault: None }
}

/// The state after reading `rows` in order.
pub open spec fn graph_fold(rows: Seq<Seq<CellModel>>, max: nat) -> GraphAcc
    decreases rows.len(),
{
    if rows.len() == 0 {
        graph_init()
    } else {
        graph_step(graph_fold(rows.drop_last(), max), rows.last(), max)
    }
}

/// The graph built from the rows read before the stream ended with `end`: a
/// decoding fault wins; a stream failure counts only if the node limit did not
/// stop the reading first.
pub open spec fn graph_outcome(rows: Seq<Seq<CellModel>>, end: Result<(), Seq<char>>, max: nat)
    -> Result<(Seq<GraphNodeModel>, Seq<GraphEdgeModel>), ErrorModel>
{
    let acc = graph_fold(rows, max);
    match acc.fault {
        Some(m) => Err(ErrorModel::Decode(m)),
        None => if !acc.stopped && end is Err {
            Err(ErrorModel::Database(end->Err_0))
        } else {
            Ok((acc.nodes, acc.edges))
        },
    }
}

proof fn lemma_fold_absorbs(rows: Seq<Seq<CellModel>>, max: nat, i: int)
    requires
        0 <= i <= rows.len(),
        graph_fold(rows.take(i), max).stopped || graph_fold(rows.take(i), max).fault is Some,
    ensures
        graph_fold(rows, max) == graph_fold(rows.take(i), max),
    decreases rows.len() - i,
{
    if i < rows.len() {
        assert(rows.take(i + 1).drop_last() =~= rows.take(i));
        lemma_fold_absorbs(rows, max, i + 1);
    } else {
        assert(rows.take(i) =~= rows);
    }
}

fn find_node(nodes: &Vec<GraphNode>, id: &String) -> (r: bool)
    ensures
        r == node_ids(nodes@.map_values(|n: GraphNode| n@)).contains(id@),
{
    let ghost ids = node_ids(nodes@.map_values(|n: GraphNode| n@));
    let n = nodes.len();
    for i in 0..n
        invariant
            n == nodes.len(),
            ids == node_ids(nodes@.map_values(|n: GraphNode| n@)),
            ids.len() == n,
            forall|j: int| 0 <= j < i ==> ids[j] != id@,
    {
        if nodes[i].id == *id {
            assert(ids[i as int] == id@);
            return true;
        }
    }
    assert(!ids.contains(id@));
    false
}

fn push_node(nodes: &mut Vec<GraphNode>, id: String, label: String, node_type: String)
    ensures
        final(nodes)@.map_values(|n: GraphNode| n@) == add_node(
            old(nodes)@.map_values(|n: GraphNode| n@),
            GraphNodeModel { id: id@, label: label@, node_type: node_type@ },
        ),
{
    let found = find_node(nodes, &id);
    if !found {
        let ghost before = nodes@.map_values(|n: GraphNode| n@);
        nodes.push(GraphNode { id, label, node_type });
        assert(nodes@.map_values(|n: GraphNode| n@) =~= before.push(GraphNodeModel { id: id@, label: label@, node_type: node_type@ }));
    }
}

/// Builds the graph from the rows read and from how the row stream ended.
pub fn build_project_graph(rows: &Vec<Row>, end: &Result<(), String>, max_nodes: u32) -> (r: Result<ProjectGraphResponse, GetProjectGraphError>)
    ensures
        res_view(r) == graph_outcome(rows_model(rows@), unit_res(*end), max_nodes as nat),
{
    let ghost model = rows_model(rows@);
    let ghost max = max_nodes as nat;
    let mut nodes: Vec<GraphNode> = Vec::new();
    let mut edges: Vec<GraphEdge> = Vec::new();
    let ghost mut sources: Seq<GraphRowModel> = Seq::empty();
    let mut stopped = false;
    let n = rows.len();
    let mut i: usize = 0;
    let kinds: Vec<CellKind> = vec![
        CellKind::Text, CellKind::Text, CellKind::Text, CellKind::Text, CellKind::Text,
        CellKind::Text, CellKind::Text, CellKind::Text, CellKind::Text, CellKind::Text,
    ];
    assert(kinds@ =~= graph_kinds());
    assert(model.take(0) =~= Seq::<Seq<CellModel>>::empty());
    assert(nodes@.map_values(|x: GraphNode| x@) =~= Seq::<GraphNodeModel>::empty());
    assert(edges@.map_values(|x: GraphEdge| x@) =~= Seq::<GraphEdgeModel>::empty());
    while i < n && !stopped
        invariant
            n == rows@.len(),
            model == rows_model(rows@),
            max == max_nodes as nat,
            kinds@ == graph_kinds(),
            i <= n,
            graph_fold(model.take(i as int), max) == (GraphAcc {
                nodes: nodes@.map_values(|x: GraphNode| x@),
                edges: edges@.map_values(|x: GraphEdge| x@),
                sources,
                stopped,
                fault: None,
            }),
        decreases n - i,
    {
        let row = &rows[i];
        assert(model[i as int] == row@);
        assert(model.take(i + 1).drop_last() =~= model.take(i as int));
        assert(model.take(i + 1).last() == model[i as int]);
        let fault = check_row(row, &kinds);
        match fault {
            Some(m) => {
                proof {
                    lemma_fold_absorbs(model, max, i + 1);
                }
                return Err(GetProjectGraphError::DecodeError(m));
            },
            None => {},
        }
        proof {
            lemma_no_fault_cells(row@, kinds@, 0);
            assert forall|k: int| 0 <= k < 10 implies row@.len() > k && (#[trigger] row@[k]) is Text by {
                assert(kinds@[k] == CellKind::Text);
                assert(cell_fault(row@[k], kinds@[k]) is None);
            }
        }
        let edge_id = text_at(row, 0);
        let from_id = text_at(row, 1);
        let to_id = text_at(row, 2);
        let relation_type = text_at(row, 3);
        let from_node_id = text_at(row, 4);
        let from_label = text_at(row, 5);
        let from_type = text_at(row, 6);
        let to_node_id = text_at(row, 7);
        let to_label = text_at(row, 8);
        let to_type = text_at(row, 9);
        let ghost r = graph_row(row@);
        if nodes.len() as u64 >= max_nodes as u64 {
            stopped = true;
        } else {
            push_node(&mut nodes, from_node_id, from_label, from_type);
            if nodes.len() as u64 >= max_nodes as u64 {
                stopped = true;
            } else {
                push_node(&mut nodes, to_node_id, to_label, to_type);
                let ghost before = edges@.map_values(|x: GraphEdge| x@);
                edges.push(GraphEdge { id: edge_id, from: from_id, to: to_id, edge_type: relation_type });
                assert(edges@.map_values(|x: GraphEdge| x@) =~= before.push(edge_of(r)));
                proof {
                    sources = sources.push(r);
                }
            }
        }
        i = i + 1;
    }
    if stopped {
        proof {
            lemma_fold_absorbs(model, max, i as int);
        }
    } else {
        assert(model.take(i as int) =~= model);
        match end {
            Err(e) => return Err(GetProjectGraphError::DatabaseError(e.clone())),
            Ok(()) => {},
        }
    }
    Ok(ProjectGraphResponse { nodes, edges })
}


/// Builds the graph requested by the query string from the rows read: the node
/// limit is the query's `max_nodes`, or 500.
pub fn get_project_graph_finish(q: &GetProjectGraphQuery, rows: &Vec<Row>, end: &Result<(), String>)
    -> (r: Result<ProjectGraphResponse, GetProjectGraphError>)
    ensures
        res_view(r) == graph_outcome(rows_model(rows@), unit_res(*end), effective_max_nodes(q.max_nodes)),
{
    let max_nodes = match q.max_nodes {
        Some(m) => m,
        None => 500,
    };
    build_project_graph(rows, end, max_nodes)
}

/// What reading graph rows keeps true at every step.
pub open spec fn graph_acc_inv(rows: Seq<Seq<CellModel>>, acc: GraphAcc, max: nat) -> bool {
    &&& node_ids(acc.nodes).no_duplicates()
    &&& acc.nodes.len() <= max
    &&& acc.edges.len() == acc.sources.len()
    &&& forall|k: int| 0 <= k < acc.edges.len() ==> {
        &&& #[trigger] acc.edges[k] == edge_of(acc.sources[k])
        &&& node_ids(acc.nodes).contains(acc.sources[k].from_node_id)
        &&& node_ids(acc.nodes).contains(acc.sources[k].to_node_id)
        &&& exists|j: int| 0 <= j < rows.len() && row_fault(#[trigger] rows[j], graph_kinds()) is None
            && graph_row(rows[j]) == acc.sources[k]
    }
    &&& (!acc.stopped && acc.fault is None) ==> {
        &&& acc.sources.len() == rows.len()
        &&& forall|k: int| 0 <= k < rows.len() ==> #[trigger] acc.sources[k] == graph_row(rows[k])
    }
}

proof fn lemma_add_node(nodes: Seq<GraphNodeModel>, n: GraphNodeModel)
    requires
        node_ids(nodes).no_duplicates(),
    ensures
        node_ids(add_node(nodes, n)).no_duplicates(),
        node_ids(add_node(nodes, n)).contains(n.id),
        forall|x: Seq<char>| node_ids(nodes).contains(x) ==> node_ids(add_node(nodes, n)).contains(x),
        add_node(nodes, n).len() <= nodes.len() + 1,
{
    if !node_ids(nodes).contains(n.id) {
        let after = nodes.push(n);
        assert(node_ids(after) =~= node_ids(nodes).push(n.id));
        assert(node_ids(after)[nodes.len() as int] == n.id);
        assert forall|x: Seq<char>| node_ids(nodes).contains(x) implies node_ids(after).contains(x) by {
            let j = choose|j: int| 0 <= j < node_ids(nodes).len() && node_ids(nodes)[j] == x;
            assert(node_ids(after)[j] == x);
        }
    }
}

proof fn lemma_graph_fold_inv(rows: Seq<Seq<CellModel>>, max: nat)
    ensures
        graph_acc_inv(rows, graph_fold(rows, max), max),
    decreases rows.len(),
{
    if rows.len() == 0 {
        assert(node_ids(Seq::<GraphNodeModel>::empty()) =~= Seq::<Seq<char>>::empty());
    } else {
        let prev_rows = rows.drop_last();
        lemma_graph_fold_inv(prev_rows, max);
        let acc = graph_fold(prev_rows, max);
        let row = rows.last();
        assert forall|j: int| 0 <= j < prev_rows.len() implies #[trigger] prev_rows[j] == rows[j] by {}
        assert forall|k: int| #![trigger acc.sources[k]] 0 <= k < acc.edges.len() implies exists|j: int| 0 <= j < rows.len()
            && row_fault(#[trigger] rows[j], graph_kinds()) is None && graph_row(rows[j]) == acc.sources[k] by {
            assert(acc.edges[k] == edge_of(acc.sources[k]));
            let j = choose|j: int| 0 <= j < prev_rows.len() && row_fault(#[trigger] prev_rows[j], graph_kinds()) is None
                && graph_row(prev_rows[j]) == acc.sources[k];
            assert(rows[j] == prev_rows[j]);
        }
        if !(acc.stopped || acc.fault is Some) && row_fault(row, graph_kinds()) is None {
            let r = graph_row(row);
            if acc.nodes.len() < max {
                let nodes1 = add_node(acc.nodes, from_node_of(r));
                lemma_add_node(acc.nodes, from_node_of(r));
                if nodes1.len() < max {
                    let nodes2 = add_node(nodes1, to_node_of(r));
                    lemma_add_node(nodes1, to_node_of(r));
                    let next = graph_fold(rows, max);
                    assert(next.nodes == nodes2);
                    assert(next.sources == acc.sources.push(r));
                    assert(next.edges == acc.edges.push(edge_of(r)));
                    let last = rows.len() - 1;
                    assert(rows[last] == row);
                    assert forall|k: int| 0 <= k < next.edges.len() implies {
                        &&& #[trigger] next.edges[k] == edge_of(next.sources[k])
                        &&& node_ids(next.nodes).contains(next.sources[k].from_node_id)
                        &&& node_ids(next.nodes).contains(next.sources[k].to_node_id)
                        &&& exists|j: int| 0 <= j < rows.len() && row_fault(#[trigger] rows[j], graph_kinds()) is None
                            && graph_row(rows[j]) == next.sources[k]
                    } by {
                        if k < acc.edges.len() {
                            assert(next.sources[k] == acc.sources[k]);
                            assert(next.edges[k] == acc.edges[k]);
                        } else {
                            assert(next.sources[k] == r);
                            assert(row_fault(rows[last], graph_kinds()) is None && graph_row(rows[last]) == next.sources[k]);
                        }
                    }
                    if !acc.stopped && acc.fault is None {
                        assert forall|k: int| 0 <= k < rows.len() implies #[trigger] next.sources[k] == graph_row(rows[k]) by {
                            if k < prev_rows.len() {
                                assert(prev_rows[k] == rows[k]);
                            }
                        }
                    }
                }
            }
        }
    }
}

/// Law of the project graph: node ids are pairwise distinct, there are at most
/// `max_nodes` nodes (500 when the query gives none), and every edge came from a
/// connection row whose two end nodes are among the nodes.
pub proof fn law_graph_nodes_distinct_bounded_and_cover_edges(
    rows: Seq<Seq<CellModel>>,
    end: Result<(), Seq<char>>,
    max: nat,
)
    ensures
        graph_outcome(rows, end, max) matches Ok((nodes, edges)) ==> {
            &&& node_ids(nodes).no_duplicates()
            &&& nodes.len() <= max
            &&& forall|k: int| #![trigger edges[k]] 0 <= k < edges.len() ==> exists|j: int| 0 <= j < rows.len()
                && row_fault(#[trigger] rows[j], graph_kinds()) is None
                && edges[k] == edge_of(graph_row(rows[j]))
                && node_ids(nodes).contains(graph_row(rows[j]).from_node_id)
                && node_ids(nodes).contains(graph_row(rows[j]).to_node_id)
        },
{
    lemma_graph_fold_inv(rows, max);
    let acc = graph_fold(rows, max);
    if graph_outcome(rows, end, max) is Ok {
        assert forall|k: int| #![trigger acc.edges[k]] 0 <= k < acc.edges.len() implies exists|j: int| 0 <= j < rows.len()
            && row_fault(#[trigger] rows[j], graph_kinds()) is None
            && acc.edges[k] == edge_of(graph_row(rows[j]))
            && node_ids(acc.nodes).contains(graph_row(rows[j]).from_node_id)
            && node_ids(acc.nodes).contains(graph_row(rows[j]).to_node_id) by {
            assert(acc.edges[k] == edge_of(acc.sources[k]));
            let j = choose|j: int| 0 <= j < rows.len() && row_fault(#[trigger] rows[j], graph_kinds()) is None
                && graph_row(rows[j]) == acc.sources[k];
        }
    }
}

/// Law of the project graph: when the node limit is never reached and every
/// row decodes, each connection row yields exactly one edge, in row order.
pub proof fn law_graph_every_row_an_edge(rows: Seq<Seq<CellModel>>, max: nat)
    requires
        !graph_fold(rows, max).stopped,
        graph_fold(rows, max).fault is None,
    ensures
        graph_fold(rows, max).edges.len() == rows.len(),
        forall|k: int| 0 <= k < rows.len() ==> #[trigger] graph_fold(rows, max).edges[k] == edge_of(graph_row(rows[k])),
{
    lemma_graph_fold_inv(rows, max);
    let acc = graph_fold(rows, max);
    assert forall|k: int| 0 <= k < rows.len() implies #[trigger] acc.edges[k] == edge_of(graph_row(rows[k])) by {
        assert(acc.edges[k] == edge_of(acc.sources[k]));
    }
}

} // verus!
