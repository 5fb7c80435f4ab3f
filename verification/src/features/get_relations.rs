//! Listing the relation templates of a project, a page at a time, optionally filtered by a
//! search string.
use vstd::prelude::*;
use vstd::string::*;
use crate::common::{
    UserData, ErrorBody, ErrorModel, concat2, res_view, unit_res,
    database_error_body, access_denied_body, decode_error_body_with, validation_error_body,
    make_database_error_body, make_access_denied_body, make_decode_error_body_with,
    make_validation_error_body, validation_error_message,
};
use crate::db::{
    CellKind, CellModel, Column, CypherQuery, QueryParam, ReadQuery, Row,
    cell_fault, column, int_param, lemma_no_fault_cells, row_fault, rows_model, text_at, opt_text_at,
};
use crate::paging::{
    DbFailure, first_model, page_params, search_params, search_param_vec, has_more_after, lemma_rows_fault_none, offset_of, page_has_more, page_in_range,
    read_total, rows_status, scan_rows, total_outcome,
};
use crate::validation::{ValidationErrors, ViolationModel, range_rule, violations_text};

verus! {

/// Body form of the listing request.
#[derive(Debug)]
pub struct GetRelationsRequest {
    pub project_id: u64,
}

/// The rules of the listing request: `project_id` at least 1.
pub open spec fn relations_request_violations(r: GetRelationsRequest) -> Seq<ViolationModel> {
    range_rule(r.project_id as nat, Some(1), None, "project_id"@)
}

pub fn validate_get_relations_request(r: &GetRelationsRequest) -> (res: Result<(), ValidationErrors>)
    ensures
        res is Ok <==> relations_request_violations(*r).len() == 0,
        res matches Err(e) ==> e@ == relations_request_violations(*r),
{
    let mut errs = ValidationErrors::new();
    errs.check_range(r.project_id, Some(1), None, "project_id");
    assert(errs@ =~= relations_request_violations(*r));
    errs.into_result()
}

/// Page and optional search of the relation listing.
#[derive(Debug)]
pub struct GetRelationsPagination {
    pub page: u32,
    pub per_page: u32,
    pub search: Option<String>,
}

#[derive(Debug)]
pub struct RelationItem {
    pub id: String,
    pub name: String,
    pub relation_type: String,
    pub description: Option<String>,
    pub created_at: Option<String>,
}

pub struct RelationItemModel {
    pub id: Seq<char>,
    pub name: Seq<char>,
    pub relation_type: Seq<char>,
    pub description: Option<Seq<char>>,
    pub created_at: Option<Seq<char>>,
}

impl View for RelationItem {
    type V = RelationItemModel;

    open spec fn view(&self) -> RelationItemModel {
        RelationItemModel {
            id: self.id@,
            name: self.name@,
            relation_type: self.relation_type@,
            description: self.description.deep_view(),
            created_at: self.created_at.deep_view(),
        }
    }
}

#[derive(Debug)]
pub struct GetRelationsResponse {
    pub items: Vec<RelationItem>,
    pub page: u32,
    pub per_page: u32,
    pub total: u32,
    pub has_more: bool,
}

pub struct GetRelationsResponseModel {
    pub items: Seq<RelationItemModel>,
    pub page: u32,
    pub per_page: u32,
    pub total: u32,
    pub has_more: bool,
}

impl View for GetRelationsResponse {
    type V = GetRelationsResponseModel;

    open spec fn view(&self) -> GetRelationsResponseModel {
        GetRelationsResponseModel {
            items: self.items@.map_values(|i: RelationItem| i@),
            page: self.page,
            per_page: self.per_page,
            total: self.total,
            has_more: self.has_more,
        }
    }
}

#[derive(Debug)]
pub enum GetRelationsError {
    DatabaseError(String),
    AccessDenied,
    DecodeError(String),
}

impl View for GetRelationsError {
    type V = ErrorModel;

    open spec fn view(&self) -> ErrorModel {
        match self {
            GetRelationsError::DatabaseError(m) => ErrorModel::Database(m@),
            GetRelationsError::AccessDenied => ErrorModel::AccessDenied,
            GetRelationsError::DecodeError(m) => ErrorModel::Decode(m@),
        }
    }
}

fn from_failure(f: DbFailure) -> (e: GetRelationsError)
    ensures
        e@ == f@,
{
    match f {
        DbFailure::Database(m) => GetRelationsError::DatabaseError(m),
        DbFailure::Decode(m) => GetRelationsError::DecodeError(m),
    }
}

#[derive(Debug)]
pub enum GetRelationsErrorResponse {
    GetRelationsError(GetRelationsError),
    ValidationError(ValidationErrors),
}

/// The own message of a listing error.
pub open spec fn get_relations_error_text(e: ErrorModel) -> Seq<char> {
    match e {
        ErrorModel::Database(x) => "database error: "@ + x,
        ErrorModel::Decode(x) => "decode error: "@ + x,
        _ => "access denied to project"@,
    }
}

impl GetRelationsError {
    pub fn error_message(&self) -> (m: String)
        ensures
            m@ == get_relations_error_text(self@),
    {
        match self {
            GetRelationsError::DatabaseError(e) => concat2("database error: ", e.as_str()),
            GetRelationsError::DecodeError(e) => concat2("decode error: ", e.as_str()),
            GetRelationsError::AccessDenied => String::from_str("access denied to project"),
        }
    }
}

impl GetRelationsErrorResponse {
    /// The reply sent for this error.
    pub fn error_response(&self) -> (b: ErrorBody)
        ensures
            b@ == match self {
                GetRelationsErrorResponse::GetRelationsError(e) => match e@ {
                    ErrorModel::Database(_) => database_error_body(),
                    ErrorModel::Decode(m) => decode_error_body_with(m),
                    _ => access_denied_body(),
                },
                GetRelationsErrorResponse::ValidationError(v) => validation_error_body(v@),
            },
    {
        match self {
            GetRelationsErrorResponse::GetRelationsError(e) => match e {
                GetRelationsError::DatabaseError(_) => make_database_error_body(),
                GetRelationsError::AccessDenied => make_access_denied_body(),
                GetRelationsError::DecodeError(m) => make_decode_error_body_with(m),
            },
            GetRelationsErrorResponse::ValidationError(v) => make_validation_error_body(v),
        }
    }

    /// The full message of this error.
    pub fn error_message(&self) -> (m: String)
        ensures
            m@ == match self {
                GetRelationsErrorResponse::GetRelationsError(e) => "Failed to get relations: "@ + get_relations_error_text(e@),
                GetRelationsErrorResponse::ValidationError(v) => "Validation error: "@ + violations_text(v@),
            },
    {
        match self {
            GetRelationsErrorResponse::GetRelationsError(e) => {
                let inner = e.error_message();
                concat2("Failed to get relations: ", inner.as_str())
            },
            GetRelationsErrorResponse::ValidationError(v) => validation_error_message(v),
        }
    }
}

/// The rules the pagination breaks: `page` at least 1, `per_page` from 1 to 100.
pub open spec fn relations_pagination_violations(p: GetRelationsPagination) -> Seq<ViolationModel> {
    range_rule(p.page as nat, Some(1), None, "page"@)
        + range_rule(p.per_page as nat, Some(1), Some(100), "per_page"@)
}

pub fn validate_get_relations_pagination(p: &GetRelationsPagination) -> (r: Result<(), ValidationErrors>)
    ensures
        r is Ok <==> relations_pagination_violations(*p).len() == 0,
        r matches Err(e) ==> e@ == relations_pagination_violations(*p),
{
    let mut errs = ValidationErrors::new();
    errs.check_range(p.page as u64, Some(1), None, "page");
    errs.check_range(p.per_page as u64, Some(1), Some(100), "per_page");
    assert(errs@ =~= relations_pagination_violations(*p));
    errs.into_result()
}

/// What the handler checks before listing: the pagination's rules, then access.
pub fn get_relations_precheck(user: &UserData, project_id: u64, p: &GetRelationsPagination) -> (r: Result<(), GetRelationsErrorResponse>)
    ensures
        r is Ok <==> relations_pagination_violations(*p).len() == 0 && user.projects_list@.contains(project_id),
        relations_pagination_violations(*p).len() != 0 ==> (r matches Err(GetRelationsErrorResponse::ValidationError(v)) && v@ == relations_pagination_violations(*p)),
        relations_pagination_violations(*p).len() == 0 && !user.projects_list@.contains(project_id)
            ==> r matches Err(GetRelationsErrorResponse::GetRelationsError(GetRelationsError::AccessDenied)),
{
    match validate_get_relations_pagination(p) {
        Err(v) => return Err(GetRelationsErrorResponse::ValidationError(v)),
        Ok(()) => {},
    }
    if !user.has_access(project_id) {
        return Err(GetRelationsErrorResponse::GetRelationsError(GetRelationsError::AccessDenied));
    }
    Ok(())
}

pub open spec fn relations_count_text(search: bool) -> Seq<char> {
    if search {
        "MATCH (r:Relation {project_id: $project_id})\n             WHERE r.name CONTAINS $search\n                OR r.description CONTAINS $search\n                OR r.relation_type CONTAINS $search\n             RETURN count(r) as total"@
    } else {
        "MATCH (r:Relation {project_id: $project_id})\n             RETURN count(r) as total"@
    }
}

pub open spec fn relations_list_text(search: bool) -> Seq<char> {
    if search {
        "MATCH (r:Relation {project_id: $project_id})\n             WHERE r.name CONTAINS $search\n                OR r.description CONTAINS $search\n                OR r.relation_type CONTAINS $search\n             RETURN r.id            as id,\n                    r.name          as name,\n                    r.relation_type as relation_type,\n                    r.description   as description,\n                    toString(r.created_at) as created_at\n             ORDER BY r.created_at DESC\n             SKIP $offset\n             LIMIT $limit"@
    } else {
        "MATCH (r:Relation {project_id: $project_id})\n             RETURN r.id            as id,\n                    r.name          as name,\n                    r.relation_type as relation_type,\n                    r.description   as description,\n                    toString(r.created_at) as created_at\n             ORDER BY r.created_at DESC\n             SKIP $offset\n             LIMIT $limit"@
    }
}

pub open spec fn relation_columns() -> Seq<(Seq<char>, CellKind)> {
    seq![
        ("id"@, CellKind::Text), ("name"@, CellKind::Text), ("relation_type"@, CellKind::Text),
        ("description"@, CellKind::OptText), ("created_at"@, CellKind::OptText),
    ]
}

pub open spec fn relation_kinds() -> Seq<CellKind> {
    relation_columns().map_values(|c: (Seq<char>, CellKind)| c.1)
}

/// The count query of the listing; its one column is the integer `total`.
pub fn get_relations_count_query(project_id: u64, p: &GetRelationsPagination) -> (r: ReadQuery)
    ensures
        r.query@.text == relations_count_text(p.search is Some),
        r.query@.params == search_params(project_id, p.search.deep_view()),
        r.columns@.map_values(|c: Column| c@) == seq![("total"@, CellKind::Int)],
{
    let text = if p.search.is_some() {
        String::from_str("MATCH (r:Relation {project_id: $project_id})\n             WHERE r.name CONTAINS $search\n                OR r.description CONTAINS $search\n                OR r.relation_type CONTAINS $search\n             RETURN count(r) as total")
    } else {
        String::from_str("MATCH (r:Relation {project_id: $project_id})\n             RETURN count(r) as total")
    };
    let params = search_param_vec(project_id, &p.search);
    let mut columns: Vec<Column> = Vec::new();
    columns.push(column("total", CellKind::Int));
    assert(columns@.map_values(|c: Column| c@) =~= seq![("total"@, CellKind::Int)]);
    ReadQuery { query: CypherQuery { text, params }, columns }
}

/// The page query of the listing.
pub fn get_relations_list_query(project_id: u64, p: &GetRelationsPagination) -> (r: ReadQuery)
    requires
        page_in_range(p.page, p.per_page),
    ensures
        r.query@.text == relations_list_text(p.search is Some),
        r.query@.params == page_params(project_id, p.search.deep_view(), p.page, p.per_page),
        r.columns@.map_values(|c: Column| c@) == relation_columns(),
{
    let text = if p.search.is_some() {
        String::from_str("MATCH (r:Relation {project_id: $project_id})\n             WHERE r.name CONTAINS $search\n                OR r.description CONTAINS $search\n                OR r.relation_type CONTAINS $search\n             RETURN r.id            as id,\n                    r.name          as name,\n                    r.relation_type as relation_type,\n                    r.description   as description,\n                    toString(r.created_at) as created_at\n             ORDER BY r.created_at DESC\n             SKIP $offset\n             LIMIT $limit")
    } else {
        String::from_str("MATCH (r:Relation {project_id: $project_id})\n             RETURN r.id            as id,\n                    r.name          as name,\n                    r.relation_type as relation_type,\n                    r.description   as description,\n                    toString(r.created_at) as created_at\n             ORDER BY r.created_at DESC\n             SKIP $offset\n             LIMIT $limit")
    };
    let offset = offset_of(p.page, p.per_page);
    let mut params = search_param_vec(project_id, &p.search);
    let ghost before = params@.map_values(|q: QueryParam| (q.name@, q.value@));
    params.push(int_param("offset", offset as i64));
    params.push(int_param("limit", p.per_page as i64));
    assert(params@.map_values(|q: QueryParam| (q.name@, q.value@)) =~= page_params(project_id, p.search.deep_view(), p.page, p.per_page));
    let mut columns: Vec<Column> = Vec::new();
    columns.push(column("id", CellKind::Text));
    columns.push(column("name", CellKind::Text));
    columns.push(column("relation_type", CellKind::Text));
    columns.push(column("description", CellKind::OptText));
    columns.push(column("created_at", CellKind::OptText));
    assert(columns@.map_values(|c: Column| c@) =~= relation_columns());
    ReadQuery { query: CypherQuery { text, params }, columns }
}

/// After the count: the total, and the page query to run next; or the failure.
pub fn get_relations_after_count(project_id: u64, p: &GetRelationsPagination, first: &Result<Option<Row>, String>) -> (r: Result<(i64, ReadQuery), GetRelationsError>)
    requires
        page_in_range(p.page, p.per_page),
    ensures
        match total_outcome(first_model(*first)) {
            Err(e) => r matches Err(x) && x@ == e,
            Ok(t) => r matches Ok((total, q)) && total == t
                && q.query@.text == relations_list_text(p.search is Some)
                && q.query@.params == page_params(project_id, p.search.deep_view(), p.page, p.per_page)
                && q.columns@.map_values(|c: Column| c@) == relation_columns(),
        },
{
    match read_total(first) {
        Err(f) => Err(from_failure(f)),
        Ok(total) => Ok((total, get_relations_list_query(project_id, p))),
    }
}

/// The item a decoded relation row gives.
pub open spec fn relation_item_of(row: Seq<CellModel>) -> RelationItemModel {
    RelationItemModel {
        id: row[0]->Text_0,
        name: row[1]->Text_0,
        relation_type: row[2]->Text_0,
        description: row[3]->OptText_0,
        created_at: row[4]->OptText_0,
    }
}

/// The page built from the rows read: every row an item, in order, with the
/// page, the total and whether more follow; or the failure that ended reading.
pub open spec fn relations_outcome(rows: Seq<Seq<CellModel>>, end: Result<(), Seq<char>>, total: i64, page: u32, per_page: u32)
    -> Result<GetRelationsResponseModel, ErrorModel>
{
    match rows_status(rows, relation_kinds(), end) {
        Err(e) => Err(e),
        Ok(_) => Ok(GetRelationsResponseModel {
            items: rows.map_values(|r: Seq<CellModel>| relation_item_of(r)),
            page,
            per_page,
            total: total as u32,
            has_more: page_has_more(page, per_page, total),
        }),
    }
}

fn relation_kind_vec() -> (v: Vec<CellKind>)
    ensures
        v@ == relation_kinds(),
{
    let v: Vec<CellKind> = vec![CellKind::Text, CellKind::Text, CellKind::Text, CellKind::OptText, CellKind::OptText];
    assert(v@ =~= relation_kinds());
    v
}

/// Builds the page from the rows read and how the stream ended.
pub fn get_relations_finish(p: &GetRelationsPagination, total: i64, rows: &Vec<Row>, end: &Result<(), String>) -> (r: Result<GetRelationsResponse, GetRelationsError>)
    requires
        page_in_range(p.page, p.per_page),
    ensures
        res_view(r) == relations_outcome(rows_model(rows@), unit_res(*end), total, p.page, p.per_page),
{
    let kinds = relation_kind_vec();
    match scan_rows(rows, &kinds, end) {
        Err(f) => return Err(from_failure(f)),
        Ok(()) => {},
    }
    let ghost model = rows_model(rows@);
    proof {
        lemma_rows_fault_none(model, kinds@);
    }
    let mut items: Vec<RelationItem> = Vec::new();
    let n = rows.len();
    for i in 0..n
        invariant
            n == rows@.len(),
            model == rows_model(rows@),
            kinds@ == relation_kinds(),
            forall|j: int| 0 <= j < model.len() ==> row_fault(#[trigger] model[j], kinds@) is None,
            items@.map_values(|x: RelationItem| x@) == model.take(i as int).map_values(|r: Seq<CellModel>| relation_item_of(r)),
    {
        let row = &rows[i];
        assert(model[i as int] == row@);
        proof {
            lemma_no_fault_cells(row@, kinds@, 0);
            assert forall|k: int| 0 <= k < 5 implies row@.len() > k && cell_fault(#[trigger] row@[k], kinds@[k]) is None by {}
        }
        let item = RelationItem {
            id: text_at(row, 0),
            name: text_at(row, 1),
            relation_type: text_at(row, 2),
            description: opt_text_at(row, 3),
            created_at: opt_text_at(row, 4),
        };
        assert(item@ == relation_item_of(row@));
        let ghost before = items@.map_values(|x: RelationItem| x@);
        items.push(item);
        assert(items@.map_values(|x: RelationItem| x@) =~= before.push(relation_item_of(row@)));
        assert(model.take(i + 1) =~= model.take(i as int).push(model[i as int]));
        assert(items@.map_values(|x: RelationItem| x@) =~= model.take(i + 1).map_values(|r: Seq<CellModel>| relation_item_of(r)));
    }
    assert(model.take(n as int) =~= model);
    let has_more = has_more_after(p.page, p.per_page, total);
    Ok(GetRelationsResponse { items, page: p.page, per_page: p.per_page, total: #[verifier::truncate] (total as u32), has_more })
}

} // verus!
