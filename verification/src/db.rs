//! Plain descriptions of the Cypher queries the service sends, of how their
//! results are read, and of what the database hands back.
use vstd::prelude::*;
use vstd::string::*;

verus! {

/// The value bound to one query parameter.
#[derive(Debug)]
pub enum ParamValue {
    Int(i64),
    Text(String),
    OptText(Option<String>),
    TextList(Vec<String>),
}

/// Mathematical model of a parameter value.
pub enum ParamModel {
    Int(int),
    Text(Seq<char>),
    OptText(Option<Seq<char>>),
    TextList(Seq<Seq<char>>),
}

impl View for ParamValue {
    type V = ParamModel;

    open spec fn view(&self) -> ParamModel {
        match self {
            ParamValue::Int(i) => ParamModel::Int(*i as int),
            ParamValue::Text(s) => ParamModel::Text(s@),
            ParamValue::OptText(o) => ParamModel::OptText(
                match o {
                    Some(s) => Some(s@),
                    None => None,
                },
            ),
            ParamValue::TextList(v) => ParamModel::TextList(v@.map_values(|s: String| s@)),
        }
    }
}

/// One named parameter of a query.
#[derive(Debug)]
pub struct QueryParam {
    pub name: String,
    pub value: ParamValue,
}

/// A Cypher query: its text and its parameters in the order they are bound.
#[derive(Debug)]
pub struct CypherQuery {
    pub text: String,
    pub params: Vec<QueryParam>,
}

/// Model of a query: the text and the (name, value) pairs in binding order.
pub struct QueryModel {
    pub text: Seq<char>,
    pub params: Seq<(Seq<char>, ParamModel)>,
}

impl View for CypherQuery {
    type V = QueryModel;

    open spec fn view(&self) -> QueryModel {
        QueryModel {
            text: self.text@,
            params: self.params@.map_values(|p: QueryParam| (p.name@, p.value@)),
        }
    }
}

#[verifier::external_type_specification]
#[verifier::external_body]
pub struct ExNeo4rsQuery(neo4rs::Query);

/// The text of a driver query.
pub uninterp spec fn neo4rs_query_text(q: neo4rs::Query) -> Seq<char>;

/// What the driver holds for one bound parameter, after its conversion to a
/// Bolt value: an integer, a string, null, or a list of strings.
pub enum BoltModel {
    Integer(int),
    Text(Seq<char>),
    Null,
    TextList(Seq<Seq<char>>),
}

/// The Bolt value a parameter value becomes: a present optional string is bound
/// as a plain string and an absent one as null.
pub open spec fn bolt_value(p: ParamModel) -> BoltModel {
    match p {
        ParamModel::Int(i) => BoltModel::Integer(i),
        ParamModel::Text(s) => BoltModel::Text(s),
        ParamModel::OptText(Some(s)) => BoltModel::Text(s),
        ParamModel::OptText(None) => BoltModel::Null,
        ParamModel::TextList(l) => BoltModel::TextList(l),
    }
}

/// The parameters bound in a driver query: each name with its Bolt value.
pub uninterp spec fn neo4rs_query_params(q: neo4rs::Query) -> Map<Seq<char>, BoltModel>;

/// The parameters a query model binds, in binding order, as the driver keeps
/// them: a later binding of a name replaces an earlier one.
pub open spec fn param_map(s: Seq<(Seq<char>, ParamModel)>) -> Map<Seq<char>, BoltModel>
    decreases s.len(),
{
    if s.len() == 0 {
        Map::empty()
    } else {
        param_map(s.drop_last()).insert(s.last().0, bolt_value(s.last().1))
    }
}

/// A name bound at position `i` and not bound again later is bound, in the
/// map, to the Bolt form of that value.
pub proof fn lemma_param_map_last_binding(s: Seq<(Seq<char>, ParamModel)>, i: int)
    requires
        0 <= i < s.len(),
        forall|j: int| i < j < s.len() ==> s[j].0 != s[i].0,
    ensures
        param_map(s).contains_key(s[i].0),
        param_map(s)[s[i].0] == bolt_value(s[i].1),
    decreases s.len(),
{
    if i < s.len() - 1 {
        lemma_param_map_last_binding(s.drop_last(), i);
    }
}

/// Binding one list of parameters after another: a name of the second list
/// wins over the same name in the first.
pub proof fn lemma_param_map_concat(a: Seq<(Seq<char>, ParamModel)>, b: Seq<(Seq<char>, ParamModel)>)
    ensures
        param_map(a + b) == param_map(a).union_prefer_right(param_map(b)),
    decreases b.len(),
{
    if b.len() == 0 {
        assert(a + b =~= a);
        assert(param_map(a).union_prefer_right(param_map(b)) =~= param_map(a));
    } else {
        lemma_param_map_concat(a, b.drop_last());
        assert((a + b).drop_last() =~= a + b.drop_last());
        assert((a + b).last() == b.last());
        assert(param_map(a + b) =~= param_map(a).union_prefer_right(param_map(b)));
    }
}

/// One parameter binds its name to its value and nothing else.
pub proof fn lemma_param_map_single(e: (Seq<char>, ParamModel))
    ensures
        param_map(seq![e]) == Map::<Seq<char>, BoltModel>::empty().insert(e.0, bolt_value(e.1)),
{
    let s = seq![e];
    assert(s.drop_last() =~= Seq::<(Seq<char>, ParamModel)>::empty());
    assert(s.last() == e);
    assert(param_map(s.drop_last()) == Map::<Seq<char>, BoltModel>::empty());
    assert(param_map(s) =~= Map::<Seq<char>, BoltModel>::empty().insert(e.0, bolt_value(e.1)));
}

/// Calls `neo4rs::query`, which builds `Query::new(text.to_owned())`: the
/// query holds the given text and an empty parameter map. Claimed: its text is
/// `text` and it has no parameters.
#[verifier::external_body]
fn neo4rs_query_new(text: &str) -> (r: neo4rs::Query)
    ensures
        neo4rs_query_text(r) == text@,
        neo4rs_query_params(r).dom().is_empty(),
{
    neo4rs::query(text)
}

/// Calls `neo4rs::Query::param` with an integer value. `param` converts the
/// value with `From<i64> for BoltType` (an `Integer`) and puts it into the
/// parameter map under `name` (a `HashMap::insert`); the text is left alone.
/// Claimed: the text is unchanged and the map gains `name` bound to the integer.
#[verifier::external_body]
fn neo4rs_param_int(q: neo4rs::Query, name: &str, value: i64) -> (r: neo4rs::Query)
    ensures
        neo4rs_query_text(r) == neo4rs_query_text(q),
        neo4rs_query_params(r) == neo4rs_query_params(q).insert(name@, BoltModel::Integer(value as int)),
{
    q.param(name, value)
}

/// Calls `neo4rs::Query::param` with a string value, converted by
/// `From<String> for BoltType` to a Bolt string. Claimed: the text is
/// unchanged and the map gains `name` bound to that string.
#[verifier::external_body]
fn neo4rs_param_text(q: neo4rs::Query, name: &str, value: String) -> (r: neo4rs::Query)
    ensures
        neo4rs_query_text(r) == neo4rs_query_text(q),
        neo4rs_query_params(r) == neo4rs_query_params(q).insert(name@, BoltModel::Text(value@)),
{
    q.param(name, value)
}

/// Calls `neo4rs::Query::param` with an optional string, converted by
/// `From<Option<T>> for BoltType`: `Some(s)` becomes the Bolt string `s`,
/// `None` becomes null. Claimed: the text is unchanged and the map gains
/// `name` bound to that value.
#[verifier::external_body]
fn neo4rs_param_opt_text(q: neo4rs::Query, name: &str, value: Option<String>) -> (r: neo4rs::Query)
    ensures
        neo4rs_query_text(r) == neo4rs_query_text(q),
        neo4rs_query_params(r) == neo4rs_query_params(q).insert(
            name@,
            match value {
                Some(s) => BoltModel::Text(s@),
                None => BoltModel::Null,
            },
        ),
{
    q.param(name, value)
}

/// Calls `neo4rs::Query::param` with a list of strings, converted by
/// `From<Vec<A>> for BoltType` to a Bolt list of the strings in order.
/// Claimed: the text is unchanged and the map gains `name` bound to that list.
#[verifier::external_body]
fn neo4rs_param_text_list(q: neo4rs::Query, name: &str, value: Vec<String>) -> (r: neo4rs::Query)
    ensures
        neo4rs_query_text(r) == neo4rs_query_text(q),
        neo4rs_query_params(r) == neo4rs_query_params(q).insert(
            name@,
            BoltModel::TextList(value@.map_values(|s: String| s@)),
        ),
{
    q.param(name, value)
}

/// Builds the driver's query object: the text, then every parameter in order.
/// The driver query carries the description's text, and binds each of the
/// description's parameter names to the Bolt form of its (last) value.
pub fn to_neo4rs_query(q: &CypherQuery) -> (r: neo4rs::Query)
    ensures
        neo4rs_query_text(r) == q@.text,
        neo4rs_query_params(r) == param_map(q@.params),
{
    let mut out = neo4rs_query_new(q.text.as_str());
    let n = q.params.len();
    for i in 0..n
        invariant
            n == q.params.len(),
            neo4rs_query_text(out) == q@.text,
            neo4rs_query_params(out) == param_map(q@.params.take(i as int)),
    {
        let p = &q.params[i];
        proof {
            assert(q@.params.take(i + 1).drop_last() =~= q@.params.take(i as int));
            assert(q@.params[i as int] == (p.name@, p.value@));
        }
        out = match &p.value {
            ParamValue::Int(v) => neo4rs_param_int(out, p.name.as_str(), *v),
            ParamValue::Text(s) => neo4rs_param_text(out, p.name.as_str(), s.clone()),
            ParamValue::OptText(o) => neo4rs_param_opt_text(out, p.name.as_str(), o.clone()),
            ParamValue::TextList(v) => neo4rs_param_text_list(out, p.name.as_str(), v.clone()),
        };
    }
    proof {
        assert(q@.params.take(n as int) =~= q@.params);
    }
    out
}


/// How a column of a result row is read.
#[derive(Debug, PartialEq, Eq, Structural, Clone, Copy)]
pub enum CellKind {
    /// A string that must be present.
    Text,
    /// A string or null.
    OptText,
    /// An integer.
    Int,
}

/// The position of the first column called `name` among the columns a query
/// returns (the number of columns when there is none).
pub open spec fn column_index(cols: Seq<(Seq<char>, CellKind)>, name: Seq<char>) -> int
    decreases cols.len(),
{
    if cols.len() == 0 {
        0
    } else if cols[0].0 == name {
        0
    } else {
        1 + column_index(cols.drop_first(), name)
    }
}

/// The cell of a row that the column called `name` holds.
pub open spec fn named_cell(row: Seq<CellModel>, cols: Seq<(Seq<char>, CellKind)>, name: Seq<char>) -> CellModel {
    row[column_index(cols, name)]
}

/// A column whose name no earlier column has is found at its own position.
pub proof fn lemma_column_index(cols: Seq<(Seq<char>, CellKind)>, i: int)
    requires
        0 <= i < cols.len(),
        forall|j: int| 0 <= j < i ==> (#[trigger] cols[j]).0 != cols[i].0,
    ensures
        column_index(cols, cols[i].0) == i,
    decreases i,
{
    if i > 0 {
        let t = cols.drop_first();
        assert forall|j: int| 0 <= j < i - 1 implies (#[trigger] t[j]).0 != t[i - 1].0 by {
            assert(t[j] == cols[j + 1]);
        }
        assert(cols[0].0 != cols[i].0);
        lemma_column_index(t, i - 1);
        assert(t[i - 1] == cols[i]);
    }
}

/// A named column the application reads from each result row.
#[derive(Debug)]
pub struct Column {
    pub name: String,
    pub kind: CellKind,
}

impl View for Column {
    type V = (Seq<char>, CellKind);

    open spec fn view(&self) -> (Seq<char>, CellKind) {
        (self.name@, self.kind)
    }
}

/// A query whose rows are read, with the columns to read from each row.
#[derive(Debug)]
pub struct ReadQuery {
    pub query: CypherQuery,
    pub columns: Vec<Column>,
}

/// One column of a result row as the driver decoded it; `Failed` holds the
/// driver's decoding error message.
#[derive(Debug)]
pub enum Cell {
    Text(String),
    OptText(Option<String>),
    Int(i64),
    Failed(String),
}

pub enum CellModel {
    Text(Seq<char>),
    OptText(Option<Seq<char>>),
    Int(int),
    Failed(Seq<char>),
}

impl View for Cell {
    type V = CellModel;

    open spec fn view(&self) -> CellModel {
        match self {
            Cell::Text(s) => CellModel::Text(s@),
            Cell::OptText(o) => CellModel::OptText(o.deep_view()),
            Cell::Int(i) => CellModel::Int(*i as int),
            Cell::Failed(m) => CellModel::Failed(m@),
        }
    }
}

/// A decoded result row: one cell per requested column, in column order.
#[derive(Debug)]
pub struct Row {
    pub cells: Vec<Cell>,
}

impl View for Row {
    type V = Seq<CellModel>;

    open spec fn view(&self) -> Seq<CellModel> {
        self.cells@.map_values(|c: Cell| c@)
    }
}

/// The rows of a result stream as models.
pub open spec fn rows_model(rows: Seq<Row>) -> Seq<Seq<CellModel>> {
    rows.map_values(|r: Row| r@)
}

/// The message given when a cell does not have the kind its column asks for.
pub open spec fn mismatch_message() -> Seq<char> {
    "unexpected column value"@
}

/// The message given when a row has fewer cells than columns.
pub open spec fn missing_message() -> Seq<char> {
    "missing column"@
}

/// What is wrong with a cell read as `kind`: the driver's message if decoding
/// failed, a fixed message if the cell has another kind, nothing otherwise.
pub open spec fn cell_fault(c: CellModel, kind: CellKind) -> Option<Seq<char>> {
    match c {
        CellModel::Failed(m) => Some(m),
        CellModel::Text(_) => if kind == CellKind::Text { None } else { Some(mismatch_message()) },
        CellModel::OptText(_) => if kind == CellKind::OptText { None } else { Some(mismatch_message()) },
        CellModel::Int(_) => if kind == CellKind::Int { None } else { Some(mismatch_message()) },
    }
}

/// The first fault of `row` read with `kinds`, looking at columns `i..`.
pub open spec fn row_fault_from(row: Seq<CellModel>, kinds: Seq<CellKind>, i: int) -> Option<Seq<char>>
    decreases kinds.len() - i,
{
    if i < 0 || i >= kinds.len() {
        None
    } else if i >= row.len() {
        Some(missing_message())
    } else {
        match cell_fault(row[i], kinds[i]) {
            Some(m) => Some(m),
            None => row_fault_from(row, kinds, i + 1),
        }
    }
}

/// The first fault of `row` read with `kinds`, in column order.
pub open spec fn row_fault(row: Seq<CellModel>, kinds: Seq<CellKind>) -> Option<Seq<char>> {
    row_fault_from(row, kinds, 0)
}

/// A row without fault has every column, each of the requested kind.
pub proof fn lemma_no_fault_cells(row: Seq<CellModel>, kinds: Seq<CellKind>, i: int)
    requires
        0 <= i <= kinds.len(),
        row_fault_from(row, kinds, i) is None,
    ensures
        forall|j: int| i <= j < kinds.len() ==> j < row.len() && #[trigger] cell_fault(row[j], kinds[j]) is None,
    decreases kinds.len() - i,
{
    if i < kinds.len() {
        lemma_no_fault_cells(row, kinds, i + 1);
    }
}

fn cell_fault_exec(c: &Cell, kind: CellKind) -> (r: Option<String>)
    ensures
        r.deep_view() == cell_fault(c@, kind),
{
    match c {
        Cell::Failed(m) => Some(m.clone()),
        Cell::Text(_) => if kind == CellKind::Text { None } else { Some(String::from_str("unexpected column value")) },
        Cell::OptText(_) => if kind == CellKind::OptText { None } else { Some(String::from_str("unexpected column value")) },
        Cell::Int(_) => if kind == CellKind::Int { None } else { Some(String::from_str("unexpected column value")) },
    }
}

/// The first fault of `row` read with `kinds`.
pub fn check_row(row: &Row, kinds: &Vec<CellKind>) -> (r: Option<String>)
    ensures
        r.deep_view() == row_fault(row@, kinds@),
{
    let n = kinds.len();
    let mut i: usize = 0;
    while i < n
        invariant
            n == kinds@.len(),
            i <= n,
            row_fault(row@, kinds@) == row_fault_from(row@, kinds@, i as int),
        decreases n - i,
    {
        if i >= row.cells.len() {
            return Some(String::from_str("missing column"));
        }
        let f = cell_fault_exec(&row.cells[i], kinds[i]);
        if f.is_some() {
            return f;
        }
        i = i + 1;
    }
    None
}

/// The string of a text cell.
pub fn text_at(row: &Row, i: usize) -> (s: String)
    requires
        i < row@.len(),
        row@[i as int] is Text,
    ensures
        row@[i as int] == CellModel::Text(s@),
{
    match &row.cells[i] {
        Cell::Text(s) => s.clone(),
        _ => String::new(),
    }
}

/// The value of an optional-text cell.
pub fn opt_text_at(row: &Row, i: usize) -> (o: Option<String>)
    requires
        i < row@.len(),
        row@[i as int] is OptText,
    ensures
        row@[i as int] == CellModel::OptText(o.deep_view()),
{
    match &row.cells[i] {
        Cell::OptText(o) => crate::common::clone_opt(o),
        _ => None,
    }
}

/// The value of an integer cell.
pub fn int_at(row: &Row, i: usize) -> (v: i64)
    requires
        i < row@.len(),
        row@[i as int] is Int,
    ensures
        row@[i as int] == CellModel::Int(v as int),
{
    match &row.cells[i] {
        Cell::Int(v) => *v,
        _ => 0,
    }
}

/// A text parameter.
pub fn text_param(name: &str, value: String) -> (p: QueryParam)
    ensures
        p.name@ == name@,
        p.value@ == ParamModel::Text(value@),
{
    QueryParam { name: String::from_str(name), value: ParamValue::Text(value) }
}

/// An integer parameter.
pub fn int_param(name: &str, value: i64) -> (p: QueryParam)
    ensures
        p.name@ == name@,
        p.value@ == ParamModel::Int(value as int),
{
    QueryParam { name: String::from_str(name), value: ParamValue::Int(value) }
}

/// An optional-text parameter (`None` binds null).
pub fn opt_text_param(name: &str, value: Option<String>) -> (p: QueryParam)
    ensures
        p.name@ == name@,
        p.value@ == ParamModel::OptText(value.deep_view()),
{
    QueryParam { name: String::from_str(name), value: ParamValue::OptText(value) }
}

/// A column to read.
pub fn column(name: &str, kind: CellKind) -> (c: Column)
    ensures
        c@ == (name@, kind),
{
    Column { name: String::from_str(name), kind }
}

/// The (name, value) model of a parameter.
pub open spec fn pm(name: Seq<char>, value: ParamModel) -> (Seq<char>, ParamModel) {
    (name, value)
}

/// Calls `uuid::Uuid::new_v4` and formats the value with `to_string`. The
/// value is random; the crate's `Display` writes the hyphenated form, so every
/// outcome has 36 characters with `-` at positions 8, 13, 18 and 23.
#[verifier::external_body]
pub fn new_entity_id() -> (id: String)
    ensures
        id@.len() == 36,
        id@[8] == '-' && id@[13] == '-' && id@[18] == '-' && id@[23] == '-',
{
    uuid::Uuid::new_v4().to_string()
}

} // verus!
