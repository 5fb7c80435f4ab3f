//! Listing the connections of a project, a page at a time, optionally filtered
//! by an entity at either end, a relation template or a relation type.
use vstd::prelude::*;
use vstd::string::*;
use crate::common::{
    UserData, ErrorBody, ErrorModel, concat2, res_view, unit_res,
    database_error_body, access_denied_body, decode_error_body, validation_error_body,
    make_database_error_body, make_access_denied_body, make_decode_error_body,
    make_validation_error_body, validation_error_message,
};
use crate::db::{
    CellKind, CellModel, Column, CypherQuery, ParamModel, QueryParam, ReadQuery, Row,
    cell_fault, column, int_param, lemma_no_fault_cells, pm, row_fault, rows_model, text_at, opt_text_at, text_param,
};
use crate::paging::{
    DbFailure, first_model, has_more_after, lemma_rows_fault_none, offset_of, page_has_more, page_in_range,
    page_offset, read_total, rows_status, scan_rows, total_outcome,
};
use crate::validation::{ValidationErrors, ViolationModel, range_rule, violations_text};

verus! {

/// Filters of the connection listing.
#[derive(Debug)]
pub struct GetConnectionsRequest {
    pub project_id: u64,
    /// Connections that start or end at this entity.
    pub entity_id: Option<String>,
    /// Connections made from this relation template.
    pub relation_id: Option<String>,
    /// Connections of this relation type.
    pub relation_type: Option<String>,
}

/// Page of the connection listing.
#[derive(Debug)]
pub struct GetConnectionsPagination {
    pub page: u32,
    pub per_page: u32,
}

#[derive(Debug)]
pub struct ConnectionItem {
    pub id: String,
    pub from_entity_id: String,
    pub to_entity_id: String,
    pub relation_id: String,
    pub relation_type: String,
    pub created_at: Option<String>,
    pub from_name: String,
    pub to_name: String,
    pub from_type: String,
    pub to_type: String,
}

pub struct ConnectionItemModel {
    pub id: Seq<char>,
    pub from_entity_id: Seq<char>,
    pub to_entity_id: Seq<char>,
    pub relation_id: Seq<char>,
    pub relation_type: Seq<char>,
    pub created_at: Option<Seq<char>>,
    pub from_name: Seq<char>,
    pub to_name: Seq<char>,
    pub from_type: Seq<char>,
    pub to_type: Seq<char>,
}

impl View for ConnectionItem {
    type V = ConnectionItemModel;

    open spec fn view(&self) -> ConnectionItemModel {
        ConnectionItemModel {
            id: self.id@,
            from_entity_id: self.from_entity_id@,
            to_entity_id: self.to_entity_id@,
            relation_id: self.relation_id@,
            relation_type: self.relation_type@,
            created_at: self.created_at.deep_view(),
            from_name: self.from_name@,
            to_name: self.to_name@,
            from_type: self.from_type@,
            to_type: self.to_type@,
        }
    }
}

#[derive(Debug)]
pub struct GetConnectionsResponse {
    pub items: Vec<ConnectionItem>,
    pub page: u32,
    pub per_page: u32,
    pub total: u32,
    pub has_more: bool,
}

pub struct GetConnectionsResponseModel {
    pub items: Seq<ConnectionItemModel>,
    pub page: u32,
    pub per_page: u32,
    pub total: u32,
    pub has_more: bool,
}

impl View for GetConnectionsResponse {
    type V = GetConnectionsResponseModel;

    open spec fn view(&self) -> GetConnectionsResponseModel {
        GetConnectionsResponseModel {
            items: self.items@.map_values(|i: ConnectionItem| i@),
            page: self.page,
            per_page: self.per_page,
            total: self.total,
            has_more: self.has_more,
        }
    }
}

#[derive(Debug)]
pub enum GetConnectionsError {
    DatabaseError(String),
    DecodeError(String),
    AccessDenied,
}

impl View for GetConnectionsError {
    type V = ErrorModel;

    open spec fn view(&self) -> ErrorModel {
        match self {
            GetConnectionsError::DatabaseError(m) => ErrorModel::Database(m@),
            GetConnectionsError::DecodeError(m) => ErrorModel::Decode(m@),
            GetConnectionsError::AccessDenied => ErrorModel::AccessDenied,
        }
    }
}

fn from_failure(f: DbFailure) -> (e: GetConnectionsError)
    ensures
        e@ == f@,
{
    match f {
        DbFailure::Database(m) => GetConnectionsError::DatabaseError(m),
        DbFailure::Decode(m) => GetConnectionsError::DecodeError(m),
    }
}

#[derive(Debug)]
pub enum GetConnectionsErrorResponse {
    GetConnectionsError(GetConnectionsError),
    ValidationError(ValidationErrors),
}

pub open spec fn get_connections_error_text(e: ErrorModel) -> Seq<char> {
    match e {
        ErrorModel::Database(x) => "database error: "@ + x,
        ErrorModel::Decode(x) => "decode error: "@ + x,
        _ => "access denied to project"@,
    }
}

impl GetConnectionsError {
    pub fn error_message(&self) -> (m: String)
        ensures
            m@ == get_connections_error_text(self@),
    {
        match self {
            GetConnectionsError::DatabaseError(e) => concat2("database error: ", e.as_str()),
            GetConnectionsError::DecodeError(e) => concat2("decode error: ", e.as_str()),
            GetConnectionsError::AccessDenied => String::from_str("access denied to project"),
        }
    }
}

impl GetConnectionsErrorResponse {
    /// The reply sent for this error.
    pub fn error_response(&self) -> (b: ErrorBody)
        ensures
            b@ == match self {
                GetConnectionsErrorResponse::GetConnectionsError(e) => match e@ {
                    ErrorModel::Database(_) => database_error_body(),
                    ErrorModel::Decode(_) => decode_error_body(),
                    _ => access_denied_body(),
                },
                GetConnectionsErrorResponse::ValidationError(v) => validation_error_body(v@),
            },
    {
        match self {
            GetConnectionsErrorResponse::GetConnectionsError(e) => match e {
                GetConnectionsError::DatabaseError(_) => make_database_error_body(),
                GetConnectionsError::DecodeError(_) => make_decode_error_body(),
                GetConnectionsError::AccessDenied => make_access_denied_body(),
            },
            GetConnectionsErrorResponse::ValidationError(v) => make_validation_error_body(v),
        }
    }

    /// The full message of this error.
    pub fn error_message(&self) -> (m: String)
        ensures
            m@ == match self {
                GetConnectionsErrorResponse::GetConnectionsError(e) => "Failed to get connections: "@ + get_connections_error_text(e@),
                GetConnectionsErrorResponse::ValidationError(v) => "Validation error: "@ + violations_text(v@),
            },
    {
        match self {
            GetConnectionsErrorResponse::GetConnectionsError(e) => {
                let inner = e.error_message();
                concat2("Failed to get connections: ", inner.as_str())
            },
            GetConnectionsErrorResponse::ValidationError(v) => validation_error_message(v),
        }
    }
}

/// The rules of the listing: `project_id` at least 1, `page` at least 1, `per_page` from 1 to 100.
pub open spec fn connections_violations(r: GetConnectionsRequest, p: GetConnectionsPagination) -> Seq<ViolationModel> {
    range_rule(r.project_id as nat, Some(1), None, "project_id"@)
        + range_rule(p.page as nat, Some(1), None, "page"@)
        + range_rule(p.per_page as nat, Some(1), Some(100), "per_page"@)
}

pub fn validate_get_connections(r: &GetConnectionsRequest, p: &GetConnectionsPagination) -> (res: Result<(), ValidationErrors>)
    ensures
        res is Ok <==> connections_violations(*r, *p).len() == 0,
        res matches Err(e) ==> e@ == connections_violations(*r, *p),
{
    let mut errs = ValidationErrors::new();
    errs.check_range(r.project_id, Some(1), None, "project_id");
    errs.check_range(p.page as u64, Some(1), None, "page");
    errs.check_range(p.per_page as u64, Some(1), Some(100), "per_page");
    assert(errs@ =~= connections_violations(*r, *p));
    errs.into_result()
}

/// What the handler checks before listing: the field rules, then access.
pub fn get_connections_precheck(user: &UserData, project_id: u64, r: &GetConnectionsRequest, p: &GetConnectionsPagination)
    -> (res: Result<(), GetConnectionsErrorResponse>)
    ensures
        res is Ok <==> connections_violations(*r, *p).len() == 0 && user.projects_list@.contains(project_id),
        connections_violations(*r, *p).len() != 0 ==> (res matches Err(GetConnectionsErrorResponse::ValidationError(v)) && v@ == connections_violations(*r, *p)),
        connections_violations(*r, *p).len() == 0 && !user.projects_list@.contains(project_id)
            ==> res matches Err(GetConnectionsErrorResponse::GetConnectionsError(GetConnectionsError::AccessDenied)),
{
    match validate_get_connections(r, p) {
        Err(v) => return Err(GetConnectionsErrorResponse::ValidationError(v)),
        Ok(()) => {},
    }
    if !user.has_access(project_id) {
        return Err(GetConnectionsErrorResponse::GetConnectionsError(GetConnectionsError::AccessDenied));
    }
    Ok(())
}

/// The filter conditions in force, the project's always first.
pub open spec fn connection_filters(r: GetConnectionsRequest) -> Seq<Seq<char>> {
    seq!["c.project_id = $project_id"@]
        + (if r.entity_id is Some { seq!["(from.id = $entity_id OR to.id = $entity_id)"@] } else { Seq::empty() })
        + (if r.relation_id is Some { seq!["c.relation_id = $relation_id"@] } else { Seq::empty() })
        + (if r.relation_type is Some { seq!["c.relation_type = $relation_type"@] } else { Seq::empty() })
}

/// Conditions joined by ` AND `.
pub open spec fn join_and(s: Seq<Seq<char>>) -> Seq<char>
    decreases s.len(),
{
    if s.len() == 0 {
        Seq::empty()
    } else if s.len() == 1 {
        s[0]
    } else {
        join_and(s.drop_last()) + " AND "@ + s.last()
    }
}

/// The WHERE clause of both queries.
pub open spec fn connections_where(r: GetConnectionsRequest) -> Seq<char> {
    "WHERE "@ + join_and(connection_filters(r))
}

pub open spec fn connections_count_text(r: GetConnectionsRequest) -> Seq<char> {
    "MATCH (from)-[c:CONNECTION]->(to)\n         "@ + connections_where(r) + "\n         RETURN count(c) as total"@
}

pub open spec fn connections_list_text(r: GetConnectionsRequest) -> Seq<char> {
    "MATCH (from)-[c:CONNECTION]->(to)\n         "@ + connections_where(r)
        + "\n         RETURN\n            c.id            as id,\n            c.from_id       as from_id,\n            c.to_id         as to_id,\n            c.relation_id   as relation_id,\n            c.relation_type as relation_type,\n            toString(c.created_at) as created_at,\n            from.name       as from_name,\n            to.name         as to_name,\n            labels(from)[0] as from_type,\n            labels(to)[0]   as to_type\n         ORDER BY c.created_at DESC\n         SKIP $offset\n         LIMIT $limit"@
}

/// The filter parameters that are given, in the order entity, template, type.
pub open spec fn filter_params(r: GetConnectionsRequest) -> Seq<(Seq<char>, ParamModel)> {
    (match r.entity_id { Some(x) => seq![pm("entity_id"@, ParamModel::Text(x@))], None => Seq::empty() })
        + (match r.relation_id { Some(x) => seq![pm("relation_id"@, ParamModel::Text(x@))], None => Seq::empty() })
        + (match r.relation_type { Some(x) => seq![pm("relation_type"@, ParamModel::Text(x@))], None => Seq::empty() })
}

pub open spec fn connections_count_params(r: GetConnectionsRequest, project_id: u64) -> Seq<(Seq<char>, ParamModel)> {
    seq![pm("project_id"@, ParamModel::Int(project_id as i64 as int))] + filter_params(r)
}

pub open spec fn connections_list_params(r: GetConnectionsRequest, p: GetConnectionsPagination, project_id: u64) -> Seq<(Seq<char>, ParamModel)> {
    seq![
        pm("project_id"@, ParamModel::Int(project_id as i64 as int)),
        pm("offset"@, ParamModel::Int(page_offset(p.page, p.per_page))),
        pm("limit"@, ParamModel::Int(p.per_page as int)),
    ] + filter_params(r)
}

pub open spec fn connection_columns() -> Seq<(Seq<char>, CellKind)> {
    seq![
        ("id"@, CellKind::Text), ("from_id"@, CellKind::Text), ("to_id"@, CellKind::Text),
        ("relation_id"@, CellKind::Text), ("relation_type"@, CellKind::Text), ("created_at"@, CellKind::OptText),
        ("from_name"@, CellKind::Text), ("to_name"@, CellKind::Text), ("from_type"@, CellKind::Text),
        ("to_type"@, CellKind::Text),
    ]
}

pub open spec fn connection_kinds() -> Seq<CellKind> {
    connection_columns().map_values(|c: (Seq<char>, CellKind)| c.1)
}

/// Builds the WHERE clause.
pub fn connections_where_clause(r: &GetConnectionsRequest) -> (w: String)
    ensures
        w@ == connections_where(*r),
{
    let ghost mut filters: Seq<Seq<char>> = seq!["c.project_id = $project_id"@];
    let mut w = String::from_str("WHERE ");
    w.append("c.project_id = $project_id");
    assert(w@ =~= "WHERE "@ + join_and(filters));
    if r.entity_id.is_some() {
        w.append(" AND ");
        w.append("(from.id = $entity_id OR to.id = $entity_id)");
        proof {
            let old_filters = filters;
            filters = filters.push("(from.id = $entity_id OR to.id = $entity_id)"@);
            assert(filters.drop_last() =~= old_filters);
        }
        assert(w@ =~= "WHERE "@ + join_and(filters));
    }
    if r.relation_id.is_some() {
        w.append(" AND ");
        w.append("c.relation_id = $relation_id");
        proof {
            let old_filters = filters;
            filters = filters.push("c.relation_id = $relation_id"@);
            assert(filters.drop_last() =~= old_filters);
        }
        assert(w@ =~= "WHERE "@ + join_and(filters));
    }
    if r.relation_type.is_some() {
        w.append(" AND ");
        w.append("c.relation_type = $relation_type");
        proof {
            let old_filters = filters;
            filters = filters.push("c.relation_type = $relation_type"@);
            assert(filters.drop_last() =~= old_filters);
        }
        assert(w@ =~= "WHERE "@ + join_and(filters));
    }
    assert(filters =~= connection_filters(*r));
    w
}

fn push_filter_params(params: &mut Vec<QueryParam>, r: &GetConnectionsRequest)
    ensures
        final(params)@.map_values(|q: QueryParam| (q.name@, q.value@))
            == old(params)@.map_values(|q: QueryParam| (q.name@, q.value@)) + filter_params(*r),
{
    let ghost start = params@.map_values(|q: QueryParam| (q.name@, q.value@));
    match &r.entity_id {
        Some(x) => params.push(text_param("entity_id", x.clone())),
        None => {},
    }
    match &r.relation_id {
        Some(x) => params.push(text_param("relation_id", x.clone())),
        None => {},
    }
    match &r.relation_type {
        Some(x) => params.push(text_param("relation_type", x.clone())),
        None => {},
    }
    assert(params@.map_values(|q: QueryParam| (q.name@, q.value@)) =~= start + filter_params(*r));
}

/// The count query of the listing; its one column is the integer `total`.
pub fn get_connections_count_query(r: &GetConnectionsRequest, project_id: u64) -> (q: ReadQuery)
    ensures
        q.query@.text == connections_count_text(*r),
        q.query@.params == connections_count_params(*r, project_id),
        q.columns@.map_values(|c: Column| c@) == seq![("total"@, CellKind::Int)],
{
    let w = connections_where_clause(r);
    let mut text = String::from_str("MATCH (from)-[c:CONNECTION]->(to)\n         ");
    text.append(w.as_str());
    text.append("\n         RETURN count(c) as total");
    assert(text@ =~= connections_count_text(*r));
    let mut params: Vec<QueryParam> = Vec::new();
    params.push(int_param("project_id", project_id as i64));
    push_filter_params(&mut params, r);
    assert(params@.map_values(|q: QueryParam| (q.name@, q.value@)) =~= connections_count_params(*r, project_id));
    let mut columns: Vec<Column> = Vec::new();
    columns.push(column("total", CellKind::Int));
    assert(columns@.map_values(|c: Column| c@) =~= seq![("total"@, CellKind::Int)]);
    ReadQuery { query: CypherQuery { text, params }, columns }
}

/// The page query of the listing.
pub fn get_connections_list_query(r: &GetConnectionsRequest, p: &GetConnectionsPagination, project_id: u64) -> (q: ReadQuery)
    requires
        page_in_range(p.page, p.per_page),
    ensures
        q.query@.text == connections_list_text(*r),
        q.query@.params == connections_list_params(*r, *p, project_id),
        q.columns@.map_values(|c: Column| c@) == connection_columns(),
{
    let w = connections_where_clause(r);
    let mut text = String::from_str("MATCH (from)-[c:CONNECTION]->(to)\n         ");
    text.append(w.as_str());
    text.append("\n         RETURN\n            c.id            as id,\n            c.from_id       as from_id,\n            c.to_id         as to_id,\n            c.relation_id   as relation_id,\n            c.relation_type as relation_type,\n            toString(c.created_at) as created_at,\n            from.name       as from_name,\n            to.name         as to_name,\n            labels(from)[0] as from_type,\n            labels(to)[0]   as to_type\n         ORDER BY c.created_at DESC\n         SKIP $offset\n         LIMIT $limit");
    assert(text@ =~= connections_list_text(*r));
    let offset = offset_of(p.page, p.per_page);
    let mut params: Vec<QueryParam> = Vec::new();
    params.push(int_param("project_id", project_id as i64));
    params.push(int_param("offset", offset as i64));
    params.push(int_param("limit", p.per_page as i64));
    push_filter_params(&mut params, r);
    assert(params@.map_values(|q: QueryParam| (q.name@, q.value@)) =~= connections_list_params(*r, *p, project_id));
    let mut columns: Vec<Column> = Vec::new();
    columns.push(column("id", CellKind::Text));
    columns.push(column("from_id", CellKind::Text));
    columns.push(column("to_id", CellKind::Text));
    columns.push(column("relation_id", CellKind::Text));
    columns.push(column("relation_type", CellKind::Text));
    columns.push(column("created_at", CellKind::OptText));
    columns.push(column("from_name", CellKind::Text));
    columns.push(column("to_name", CellKind::Text));
    columns.push(column("from_type", CellKind::Text));
    columns.push(column("to_type", CellKind::Text));
    assert(columns@.map_values(|c: Column| c@) =~= connection_columns());
    ReadQuery { query: CypherQuery { text, params }, columns }
}

/// After the count: the total and the page query to run next; or the failure.
pub fn get_connections_after_count(r: &GetConnectionsRequest, p: &GetConnectionsPagination, project_id: u64, first: &Result<Option<Row>, String>)
    -> (res: Result<(i64, ReadQuery), GetConnectionsError>)
    requires
        page_in_range(p.page, p.per_page),
    ensures
        match total_outcome(first_model(*first)) {
            Err(e) => res matches Err(x) && x@ == e,
            Ok(t) => res matches Ok((total, q)) && total == t
                && q.query@.text == connections_list_text(*r)
                && q.query@.params == connections_list_params(*r, *p, project_id)
                && q.columns@.map_values(|c: Column| c@) == connection_columns(),
        },
{
    match read_total(first) {
        Err(f) => Err(from_failure(f)),
        Ok(total) => Ok((total, get_connections_list_query(r, p, project_id))),
    }
}

pub open spec fn connection_item_of(row: Seq<CellModel>) -> ConnectionItemModel {
    ConnectionItemModel {
        id: row[0]->Text_0,
        from_entity_id: row[1]->Text_0,
        to_entity_id: row[2]->Text_0,
        relation_id: row[3]->Text_0,
        relation_type: row[4]->Text_0,
        created_at: row[5]->OptText_0,
        from_name: row[6]->Text_0,
        to_name: row[7]->Text_0,
        from_type: row[8]->Text_0,
        to_type: row[9]->Text_0,
    }
}

/// The page built from the rows read, or the failure that ended reading.
pub open spec fn connections_outcome(rows: Seq<Seq<CellModel>>, end: Result<(), Seq<char>>, total: i64, page: u32, per_page: u32)
    -> Result<GetConnectionsResponseModel, ErrorModel>
{
    match rows_status(rows, connection_kinds(), end) {
        Err(e) => Err(e),
        Ok(_) => Ok(GetConnectionsResponseModel {
            items: rows.map_values(|r: Seq<CellModel>| connection_item_of(r)),
            page,
            per_page,
            total: total as u32,
            has_more: page_has_more(page, per_page, total),
        }),
    }
}

fn connection_kind_vec() -> (v: Vec<CellKind>)
    ensures
        v@ == connection_kinds(),
{
    let v: Vec<CellKind> = vec![
        CellKind::Text, CellKind::Text, CellKind::Text, CellKind::Text, CellKind::Text,
        CellKind::OptText, CellKind::Text, CellKind::Text, CellKind::Text, CellKind::Text,
    ];
    assert(v@ =~= connection_kinds());
    v
}

/// Builds the page from the rows read and how the stream ended.
pub fn get_connections_finish(p: &GetConnectionsPagination, total: i64, rows: &Vec<Row>, end: &Result<(), String>)
    -> (r: Result<GetConnectionsResponse, GetConnectionsError>)
    requires
        page_in_range(p.page, p.per_page),
    ensures
        res_view(r) == connections_outcome(rows_model(rows@), unit_res(*end), total, p.page, p.per_page),
{
    let kinds = connection_kind_vec();
    match scan_rows(rows, &kinds, end) {
        Err(f) => return Err(from_failure(f)),
        Ok(()) => {},
    }
    let ghost model = rows_model(rows@);
    proof {
        lemma_rows_fault_none(model, kinds@);
    }
    let mut items: Vec<ConnectionItem> = Vec::new();
    let n = rows.len();
    for i in 0..n
        invariant
            n == rows@.len(),
            model == rows_model(rows@),
            kinds@ == connection_kinds(),
            forall|j: int| 0 <= j < model.len() ==> row_fault(#[trigger] model[j], kinds@) is None,
            items@.map_values(|x: ConnectionItem| x@) == model.take(i as int).map_values(|r: Seq<CellModel>| connection_item_of(r)),
    {
        let row = &rows[i];
        assert(model[i as int] == row@);
        proof {
            lemma_no_fault_cells(row@, kinds@, 0);
            assert forall|k: int| 0 <= k < 10 implies row@.len() > k && cell_fault(#[trigger] row@[k], kinds@[k]) is None by {}
        }
        let item = ConnectionItem {
            id: text_at(row, 0),
            from_entity_id: text_at(row, 1),
            to_entity_id: text_at(row, 2),
            relation_id: text_at(row, 3),
            relation_type: text_at(row, 4),
            created_at: opt_text_at(row, 5),
            from_name: text_at(row, 6),
            to_name: text_at(row, 7),
            from_type: text_at(row, 8),
            to_type: text_at(row, 9),
        };
        assert(item@ == connection_item_of(row@));
        let ghost before = items@.map_values(|x: ConnectionItem| x@);
        items.push(item);
        assert(items@.map_values(|x: ConnectionItem| x@) =~= before.push(connection_item_of(row@)));
        assert(model.take(i + 1) =~= model.take(i as int).push(model[i as int]));
    }
    assert(model.take(n as int) =~= model);
    let has_more = has_more_after(p.page, p.per_page, total);
    Ok(GetConnectionsResponse { items, page: p.page, per_page: p.per_page, total: #[verifier::truncate] (total as u32), has_more })
}

} // verus!
