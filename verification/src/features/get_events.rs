//! Listing the events of a project, a page at a time, optionally filtered by a
//! search string.
use vstd::prelude::*;
use vstd::string::*;
use crate::common::{
    UserData, ErrorBody, ErrorModel, concat2, res_view, unit_res,
    database_error_body, access_denied_body, decode_error_body_with, validation_error_body,
    make_database_error_body, make_access_denied_body, make_decode_error_body_with,
    make_validation_error_body, validation_error_message,
};
use crate::db::{
    CellKind, CellModel, Column, CypherQuery, QueryParam, ReadQuery, Row,
    cell_fault, column, int_param, lemma_no_fault_cells, row_fault, rows_model, text_at, opt_text_at,
};
use crate::paging::{
    DbFailure, first_model, page_params, search_params, search_param_vec, has_more_after, lemma_rows_fault_none, offset_of, page_has_more, page_in_range,
    read_total, rows_status, scan_rows, total_outcome,
};
use crate::validation::{ValidationErrors, ViolationModel, range_rule, violations_text};

verus! {

/// Page and optional search of the event listing.
#[derive(Debug)]
pub struct GetEventsPagination {
    pub page: u32,
    pub per_page: u32,
    pub search: Option<String>,
}

#[derive(Debug)]
pub struct EventItem {
    pub id: String,
    pub name: String,
    pub location: Option<String>,
    pub description: Option<String>,
    pub timestamp: Option<String>,
    pub created_at: Option<String>,
}

pub struct EventItemModel {
    pub id: Seq<char>,
    pub name: Seq<char>,
    pub location: Option<Seq<char>>,
    pub description: Option<Seq<char>>,
    pub timestamp: Option<Seq<char>>,
    pub created_at: Option<Seq<char>>,
}

impl View for EventItem {
    type V = EventItemModel;

    open spec fn view(&self) -> EventItemModel {
        EventItemModel {
            id: self.id@,
            name: self.name@,
            location: self.location.deep_view(),
            description: self.description.deep_view(),
            timestamp: self.timestamp.deep_view(),
            created_at: self.created_at.deep_view(),
        }
    }
}

#[derive(Debug)]
pub struct GetEventsResponse {
    pub items: Vec<EventItem>,
    pub page: u32,
    pub per_page: u32,
    pub total: u32,
    pub has_more: bool,
}

pub struct GetEventsResponseModel {
    pub items: Seq<EventItemModel>,
    pub page: u32,
    pub per_page: u32,
    pub total: u32,
    pub has_more: bool,
}

impl View for GetEventsResponse {
    type V = GetEventsResponseModel;

    open spec fn view(&self) -> GetEventsResponseModel {
        GetEventsResponseModel {
            items: self.items@.map_values(|i: EventItem| i@),
            page: self.page,
            per_page: self.per_page,
            total: self.total,
            has_more: self.has_more,
        }
    }
}

#[derive(Debug)]
pub enum GetEventsError {
    DatabaseError(String),
    AccessDenied,
    DecodeError(String),
}

impl View for GetEventsError {
    type V = ErrorModel;

    open spec fn view(&self) -> ErrorModel {
        match self {
            GetEventsError::DatabaseError(m) => ErrorModel::Database(m@),
            GetEventsError::AccessDenied => ErrorModel::AccessDenied,
            GetEventsError::DecodeError(m) => ErrorModel::Decode(m@),
        }
    }
}

fn from_failure(f: DbFailure) -> (e: GetEventsError)
    ensures
        e@ == f@,
{
    match f {
        DbFailure::Database(m) => GetEventsError::DatabaseError(m),
        DbFailure::Decode(m) => GetEventsError::DecodeError(m),
    }
}

#[derive(Debug)]
pub enum GetEventsErrorResponse {
    GetEventsError(GetEventsError),
    ValidationError(ValidationErrors),
}

/// The own message of a listing error.
pub open spec fn get_events_error_text(e: ErrorModel) -> Seq<char> {
    match e {
        ErrorModel::Database(x) => "database error: "@ + x,
        ErrorModel::Decode(x) => "decode error: "@ + x,
        _ => "access denied to project"@,
    }
}

impl GetEventsError {
    pub fn error_message(&self) -> (m: String)
        ensures
            m@ == get_events_error_text(self@),
    {
        match self {
            GetEventsError::DatabaseError(e) => concat2("database error: ", e.as_str()),
            GetEventsError::DecodeError(e) => concat2("decode error: ", e.as_str()),
            GetEventsError::AccessDenied => String::from_str("access denied to project"),
        }
    }
}

impl GetEventsErrorResponse {
    /// The reply sent for this error.
    pub fn error_response(&self) -> (b: ErrorBody)
        ensures
            b@ == match self {
                GetEventsErrorResponse::GetEventsError(e) => match e@ {
                    ErrorModel::Database(_) => database_error_body(),
                    ErrorModel::Decode(m) => decode_error_body_with(m),
                    _ => access_denied_body(),
                },
                GetEventsErrorResponse::ValidationError(v) => validation_error_body(v@),
            },
    {
        match self {
            GetEventsErrorResponse::GetEventsError(e) => match e {
                GetEventsError::DatabaseError(_) => make_database_error_body(),
                GetEventsError::AccessDenied => make_access_denied_body(),
                GetEventsError::DecodeError(m) => make_decode_error_body_with(m),
            },
            GetEventsErrorResponse::ValidationError(v) => make_validation_error_body(v),
        }
    }

    /// The full message of this error.
    pub fn error_message(&self) -> (m: String)
        ensures
            m@ == match self {
                GetEventsErrorResponse::GetEventsError(e) => "Failed to get events: "@ + get_events_error_text(e@),
                GetEventsErrorResponse::ValidationError(v) => "Validation error: "@ + violations_text(v@),
            },
    {
        match self {
            GetEventsErrorResponse::GetEventsError(e) => {
                let inner = e.error_message();
                concat2("Failed to get events: ", inner.as_str())
            },
            GetEventsErrorResponse::ValidationError(v) => validation_error_message(v),
        }
    }
}

/// The rules the pagination breaks: `page` at least 1, `per_page` from 1 to 100.
pub open spec fn events_pagination_violations(p: GetEventsPagination) -> Seq<ViolationModel> {
    range_rule(p.page as nat, Some(1), None, "page"@)
        + range_rule(p.per_page as nat, Some(1), Some(100), "per_page"@)
}

pub fn validate_get_events_pagination(p: &GetEventsPagination) -> (r: Result<(), ValidationErrors>)
    ensures
        r is Ok <==> events_pagination_violations(*p).len() == 0,
        r matches Err(e) ==> e@ == events_pagination_violations(*p),
{
    let mut errs = ValidationErrors::new();
    errs.check_range(p.page as u64, Some(1), None, "page");
    errs.check_range(p.per_page as u64, Some(1), Some(100), "per_page");
    assert(errs@ =~= events_pagination_violations(*p));
    errs.into_result()
}

/// What the handler checks before listing: the pagination's rules, then access.
pub fn get_events_precheck(user: &UserData, project_id: u64, p: &GetEventsPagination) -> (r: Result<(), GetEventsErrorResponse>)
    ensures
        r is Ok <==> events_pagination_violations(*p).len() == 0 && user.projects_list@.contains(project_id),
        events_pagination_violations(*p).len() != 0 ==> (r matches Err(GetEventsErrorResponse::ValidationError(v)) && v@ == events_pagination_violations(*p)),
        events_pagination_violations(*p).len() == 0 && !user.projects_list@.contains(project_id)
            ==> r matches Err(GetEventsErrorResponse::GetEventsError(GetEventsError::AccessDenied)),
{
    match validate_get_events_pagination(p) {
        Err(v) => return Err(GetEventsErrorResponse::ValidationError(v)),
        Ok(()) => {},
    }
    if !user.has_access(project_id) {
        return Err(GetEventsErrorResponse::GetEventsError(GetEventsError::AccessDenied));
    }
    Ok(())
}

pub open spec fn events_count_text(search: bool) -> Seq<char> {
    if search {
        "MATCH (e:Event {project_id: $project_id})\n             WHERE e.name CONTAINS $search\n                OR e.description CONTAINS $search\n                OR e.location CONTAINS $search\n             RETURN count(e) as total"@
    } else {
        "MATCH (e:Event {project_id: $project_id})\n             RETURN count(e) as total"@
    }
}

pub open spec fn events_list_text(search: bool) -> Seq<char> {
    if search {
        "MATCH (e:Event {project_id: $project_id})\n             WHERE e.name CONTAINS $search\n                OR e.description CONTAINS $search\n                OR e.location CONTAINS $search\n             RETURN e.id          as id,\n                    e.name        as name,\n                    e.location    as location,\n                    e.description as description,\n                    toString(e.timestamp)  as timestamp,\n                    toString(e.created_at) as created_at\n             ORDER BY e.timestamp DESC, e.created_at DESC\n             SKIP $offset\n             LIMIT $limit"@
    } else {
        "MATCH (e:Event {project_id: $project_id})\n             RETURN e.id          as id,\n                    e.name        as name,\n                    e.location    as location,\n                    e.description as description,\n                    toString(e.timestamp)  as timestamp,\n                    toString(e.created_at) as created_at\n             ORDER BY e.timestamp DESC, e.created_at DESC\n             SKIP $offset\n             LIMIT $limit"@
    }
}

pub open spec fn event_columns() -> Seq<(Seq<char>, CellKind)> {
    seq![
        ("id"@, CellKind::Text), ("name"@, CellKind::Text), ("location"@, CellKind::OptText),
        ("description"@, CellKind::OptText), ("timestamp"@, CellKind::OptText), ("created_at"@, CellKind::OptText),
    ]
}

pub open spec fn event_kinds() -> Seq<CellKind> {
    event_columns().map_values(|c: (Seq<char>, CellKind)| c.1)
}

/// The count query of the listing; its one column is the integer `total`.
pub fn get_events_count_query(project_id: u64, p: &GetEventsPagination) -> (r: ReadQuery)
    ensures
        r.query@.text == events_count_text(p.search is Some),
        r.query@.params == search_params(project_id, p.search.deep_view()),
        r.columns@.map_values(|c: Column| c@) == seq![("total"@, CellKind::Int)],
{
    let text = if p.search.is_some() {
        String::from_str("MATCH (e:Event {project_id: $project_id})\n             WHERE e.name CONTAINS $search\n                OR e.description CONTAINS $search\n                OR e.location CONTAINS $search\n             RETURN count(e) as total")
    } else {
        String::from_str("MATCH (e:Event {project_id: $project_id})\n             RETURN count(e) as total")
    };
    let params = search_param_vec(project_id, &p.search);
    let mut columns: Vec<Column> = Vec::new();
    columns.push(column("total", CellKind::Int));
    assert(columns@.map_values(|c: Column| c@) =~= seq![("total"@, CellKind::Int)]);
    ReadQuery { query: CypherQuery { text, params }, columns }
}

/// The page query of the listing.
pub fn get_events_list_query(project_id: u64, p: &GetEventsPagination) -> (r: ReadQuery)
    requires
        page_in_range(p.page, p.per_page),
    ensures
        r.query@.text == events_list_text(p.search is Some),
        r.query@.params == page_params(project_id, p.search.deep_view(), p.page, p.per_page),
        r.columns@.map_values(|c: Column| c@) == event_columns(),
{
    let text = if p.search.is_some() {
        String::from_str("MATCH (e:Event {project_id: $project_id})\n             WHERE e.name CONTAINS $search\n                OR e.description CONTAINS $search\n                OR e.location CONTAINS $search\n             RETURN e.id          as id,\n                    e.name        as name,\n                    e.location    as location,\n                    e.description as description,\n                    toString(e.timestamp)  as timestamp,\n                    toString(e.created_at) as created_at\n             ORDER BY e.timestamp DESC, e.created_at DESC\n             SKIP $offset\n             LIMIT $limit")
    } else {
        String::from_str("MATCH (e:Event {project_id: $project_id})\n             RETURN e.id          as id,\n                    e.name        as name,\n                    e.location    as location,\n                    e.description as description,\n                    toString(e.timestamp)  as timestamp,\n                    toString(e.created_at) as created_at\n             ORDER BY e.timestamp DESC, e.created_at DESC\n             SKIP $offset\n             LIMIT $limit")
    };
    let offset = offset_of(p.page, p.per_page);
    let mut params = search_param_vec(project_id, &p.search);
    let ghost before = params@.map_values(|q: QueryParam| (q.name@, q.value@));
    params.push(int_param("offset", offset as i64));
    params.push(int_param("limit", p.per_page as i64));
    assert(params@.map_values(|q: QueryParam| (q.name@, q.value@)) =~= page_params(project_id, p.search.deep_view(), p.page, p.per_page));
    let mut columns: Vec<Column> = Vec::new();
    columns.push(column("id", CellKind::Text));
    columns.push(column("name", CellKind::Text));
    columns.push(column("location", CellKind::OptText));
    columns.push(column("description", CellKind::OptText));
    columns.push(column("timestamp", CellKind::OptText));
    columns.push(column("created_at", CellKind::OptText));
    assert(columns@.map_values(|c: Column| c@) =~= event_columns());
    ReadQuery { query: CypherQuery { text, params }, columns }
}

/// After the count: the total, and the page query to run next; or the failure.
pub fn get_events_after_count(project_id: u64, p: &GetEventsPagination, first: &Result<Option<Row>, String>) -> (r: Result<(i64, ReadQuery), GetEventsError>)
    requires
        page_in_range(p.page, p.per_page),
    ensures
        match total_outcome(first_model(*first)) {
            Err(e) => r matches Err(x) && x@ == e,
            Ok(t) => r matches Ok((total, q)) && total == t
                && q.query@.text == events_list_text(p.search is Some)
                && q.query@.params == page_params(project_id, p.search.deep_view(), p.page, p.per_page)
                && q.columns@.map_values(|c: Column| c@) == event_columns(),
        },
{
    match read_total(first) {
        Err(f) => Err(from_failure(f)),
        Ok(total) => Ok((total, get_events_list_query(project_id, p))),
    }
}

/// The item a decoded event row gives.
pub open spec fn event_item_of(row: Seq<CellModel>) -> EventItemModel {
    EventItemModel {
        id: row[0]->Text_0,
        name: row[1]->Text_0,
        location: row[2]->OptText_0,
        description: row[3]->OptText_0,
        timestamp: row[4]->OptText_0,
        created_at: row[5]->OptText_0,
    }
}

/// The page built from the rows read: every row an item, in order, with the
/// page, the total and whether more follow; or the failure that ended reading.
pub open spec fn events_outcome(rows: Seq<Seq<CellModel>>, end: Result<(), Seq<char>>, total: i64, page: u32, per_page: u32)
    -> Result<GetEventsResponseModel, ErrorModel>
{
    match rows_status(rows, event_kinds(), end) {
        Err(e) => Err(e),
        Ok(_) => Ok(GetEventsResponseModel {
            items: rows.map_values(|r: Seq<CellModel>| event_item_of(r)),
            page,
            per_page,
            total: total as u32,
            has_more: page_has_more(page, per_page, total),
        }),
    }
}

fn event_kind_vec() -> (v: Vec<CellKind>)
    ensures
        v@ == event_kinds(),
{
    let v: Vec<CellKind> = vec![CellKind::Text, CellKind::Text, CellKind::OptText, CellKind::OptText, CellKind::OptText, CellKind::OptText];
    assert(v@ =~= event_kinds());
    v
}

/// Builds the page from the rows read and how the stream ended.
pub fn get_events_finish(p: &GetEventsPagination, total: i64, rows: &Vec<Row>, end: &Result<(), String>) -> (r: Result<GetEventsResponse, GetEventsError>)
    requires
        page_in_range(p.page, p.per_page),
    ensures
        res_view(r) == events_outcome(rows_model(rows@), unit_res(*end), total, p.page, p.per_page),
{
    let kinds = event_kind_vec();
    match scan_rows(rows, &kinds, end) {
        Err(f) => return Err(from_failure(f)),
        Ok(()) => {},
    }
    let ghost model = rows_model(rows@);
    proof {
        lemma_rows_fault_none(model, kinds@);
    }
    let mut items: Vec<EventItem> = Vec::new();
    let n = rows.len();
    for i in 0..n
        invariant
            n == rows@.len(),
            model == rows_model(rows@),
            kinds@ == event_kinds(),
            forall|j: int| 0 <= j < model.len() ==> row_fault(#[trigger] model[j], kinds@) is None,
            items@.map_values(|x: EventItem| x@) == model.take(i as int).map_values(|r: Seq<CellModel>| event_item_of(r)),
    {
        let row = &rows[i];
        assert(model[i as int] == row@);
        proof {
            lemma_no_fault_cells(row@, kinds@, 0);
            assert forall|k: int| 0 <= k < 6 implies row@.len() > k && cell_fault(#[trigger] row@[k], kinds@[k]) is None by {}
        }
        let item = EventItem {
            id: text_at(row, 0),
            name: text_at(row, 1),
            location: opt_text_at(row, 2),
            description: opt_text_at(row, 3),
            timestamp: opt_text_at(row, 4),
            created_at: opt_text_at(row, 5),
        };
        assert(item@ == event_item_of(row@));
        let ghost before = items@.map_values(|x: EventItem| x@);
        items.push(item);
        assert(items@.map_values(|x: EventItem| x@) =~= before.push(event_item_of(row@)));
        assert(model.take(i + 1) =~= model.take(i as int).push(model[i as int]));
        assert(items@.map_values(|x: EventItem| x@) =~= model.take(i + 1).map_values(|r: Seq<CellModel>| event_item_of(r)));
    }
    assert(model.take(n as int) =~= model);
    let has_more = has_more_after(p.page, p.per_page, total);
    Ok(GetEventsResponse { items, page: p.page, per_page: p.per_page, total: #[verifier::truncate] (total as u32), has_more })
}

} // verus!
