//! Listing the characters of a project, a page at a time, optionally filtered
//! by a search string. Columns that do not decode fall back to defaults.
use vstd::prelude::*;
use vstd::string::*;
use crate::common::{
    UserData, ErrorBody, ErrorModel, concat2, res_view, unit_res,
    database_error_body, access_denied_body, validation_error_body,
    make_database_error_body, make_access_denied_body, make_validation_error_body, validation_error_message,
};
use crate::db::{CellKind, CellModel, Column, CypherQuery, QueryParam, ReadQuery, Row, Cell, column, int_param, rows_model};
use crate::paging::{
    first_model, offset_of, page_has_more, page_in_range, page_offset, page_params,
    read_total_or_zero, search_param_vec, search_params, total_or_zero,
};
use crate::validation::{ValidationErrors, ViolationModel, range_rule, violations_text};

verus! {

/// Body form of the listing request.
#[derive(Debug)]
pub struct ListCharactersRequest {
    pub project_id: u64,
}

/// Page and optional search of the character listing; it has no field rules.
#[derive(Debug)]
pub struct ListCharacterPagination {
    pub page: u32,
    pub per_page: u32,
    pub search: Option<String>,
}

#[derive(Debug)]
pub struct CharacterItem {
    pub id: String,
    pub name: String,
    pub description: Option<String>,
    pub created_at: Option<String>,
}

pub struct CharacterItemModel {
    pub id: Seq<char>,
    pub name: Seq<char>,
    pub description: Option<Seq<char>>,
    pub created_at: Option<Seq<char>>,
}

impl View for CharacterItem {
    type V = CharacterItemModel;

    open spec fn view(&self) -> CharacterItemModel {
        CharacterItemModel {
            id: self.id@,
            name: self.name@,
            description: self.description.deep_view(),
            created_at: self.created_at.deep_view(),
        }
    }
}

#[derive(Debug)]
pub struct ListCharactersResponse {
    pub characters: Vec<CharacterItem>,
    pub total: u32,
    pub limit: u32,
    pub offset: u32,
    pub has_more: bool,
}

pub struct ListCharactersResponseModel {
    pub characters: Seq<CharacterItemModel>,
    pub total: u32,
    pub limit: u32,
    pub offset: u32,
    pub has_more: bool,
}

impl View for ListCharactersResponse {
    type V = ListCharactersResponseModel;

    open spec fn view(&self) -> ListCharactersResponseModel {
        ListCharactersResponseModel {
            characters: self.characters@.map_values(|c: CharacterItem| c@),
            total: self.total,
            limit: self.limit,
            offset: self.offset,
            has_more: self.has_more,
        }
    }
}

#[derive(Debug)]
pub enum ListCharactersError {
    DatabaseError(String),
    AccessDenied,
}

impl View for ListCharactersError {
    type V = ErrorModel;

    open spec fn view(&self) -> ErrorModel {
        match self {
            ListCharactersError::DatabaseError(m) => ErrorModel::Database(m@),
            ListCharactersError::AccessDenied => ErrorModel::AccessDenied,
        }
    }
}

#[derive(Debug)]
pub enum ListCharactersErrorResponse {
    ListCharactersError(ListCharactersError),
    ValidationError(ValidationErrors),
}

pub open spec fn list_characters_error_text(e: ErrorModel) -> Seq<char> {
    match e {
        ErrorModel::Database(x) => "database error: "@ + x,
        _ => "access denied to project"@,
    }
}

impl ListCharactersError {
    pub fn error_message(&self) -> (m: String)
        ensures
            m@ == list_characters_error_text(self@),
    {
        match self {
            ListCharactersError::DatabaseError(e) => concat2("database error: ", e.as_str()),
            ListCharactersError::AccessDenied => String::from_str("access denied to project"),
        }
    }
}

impl ListCharactersErrorResponse {
    /// The reply sent for this error.
    pub fn error_response(&self) -> (b: ErrorBody)
        ensures
            b@ == match self {
                ListCharactersErrorResponse::ListCharactersError(e) => match e@ {
                    ErrorModel::Database(_) => database_error_body(),
                    _ => access_denied_body(),
                },
                ListCharactersErrorResponse::ValidationError(v) => validation_error_body(v@),
            },
    {
        match self {
            ListCharactersErrorResponse::ListCharactersError(e) => match e {
                ListCharactersError::DatabaseError(_) => make_database_error_body(),
                ListCharactersError::AccessDenied => make_access_denied_body(),
            },
            ListCharactersErrorResponse::ValidationError(v) => make_validation_error_body(v),
        }
    }

    /// The full message of this error.
    pub fn error_message(&self) -> (m: String)
        ensures
            m@ == match self {
                ListCharactersErrorResponse::ListCharactersError(e) => "Failed to list characters: "@ + list_characters_error_text(e@),
                ListCharactersErrorResponse::ValidationError(v) => "Validation error: "@ + violations_text(v@),
            },
    {
        match self {
            ListCharactersErrorResponse::ListCharactersError(e) => {
                let inner = e.error_message();
                concat2("Failed to list characters: ", inner.as_str())
            },
            ListCharactersErrorResponse::ValidationError(v) => validation_error_message(v),
        }
    }
}

/// The rules of the listing request: `project_id` at least 1.
pub open spec fn list_characters_request_violations(r: ListCharactersRequest) -> Seq<ViolationModel> {
    range_rule(r.project_id as nat, Some(1), None, "project_id"@)
}

pub fn validate_list_characters_request(r: &ListCharactersRequest) -> (res: Result<(), ValidationErrors>)
    ensures
        res is Ok <==> list_characters_request_violations(*r).len() == 0,
        res matches Err(e) ==> e@ == list_characters_request_violations(*r),
{
    let mut errs = ValidationErrors::new();
    errs.check_range(r.project_id, Some(1), None, "project_id");
    assert(errs@ =~= list_characters_request_violations(*r));
    errs.into_result()
}

/// The pagination has no field rules: it always validates.
pub fn validate_list_character_pagination(p: &ListCharacterPagination) -> (r: Result<(), ValidationErrors>)
    ensures
        r is Ok,
{
    ValidationErrors::new().into_result()
}

/// What the handler checks before listing: the (empty) pagination rules, then access.
pub fn list_characters_precheck(user: &UserData, project_id: u64, p: &ListCharacterPagination) -> (r: Result<(), ListCharactersErrorResponse>)
    ensures
        r is Ok <==> user.projects_list@.contains(project_id),
        r matches Err(e) ==> e matches ListCharactersErrorResponse::ListCharactersError(ListCharactersError::AccessDenied),
{
    match validate_list_character_pagination(p) {
        Err(v) => return Err(ListCharactersErrorResponse::ValidationError(v)),
        Ok(()) => {},
    }
    if !user.has_access(project_id) {
        return Err(ListCharactersErrorResponse::ListCharactersError(ListCharactersError::AccessDenied));
    }
    Ok(())
}

pub open spec fn characters_count_text(search: bool) -> Seq<char> {
    if search {
        "MATCH (c:Character {project_id: $project_id})\n             WHERE c.name CONTAINS $search OR c.description CONTAINS $search\n             RETURN count(c) as total"@
    } else {
        "MATCH (c:Character {project_id: $project_id})\n             RETURN count(c) as total"@
    }
}

pub open spec fn characters_list_text(search: bool) -> Seq<char> {
    if search {
        "MATCH (c:Character {project_id: $project_id})\n             WHERE c.name CONTAINS $search OR c.description CONTAINS $search\n             RETURN c.id as id, c.name as name, c.description as description,\n                    toString(c.created_at) as created_at\n             ORDER BY c.created_at DESC\n             SKIP $offset\n             LIMIT $limit"@
    } else {
        "MATCH (c:Character {project_id: $project_id})\n             RETURN c.id as id, c.name as name, c.description as description,\n                    toString(c.created_at) as created_at\n             ORDER BY c.created_at DESC\n             SKIP $offset\n             LIMIT $limit"@
    }
}

pub open spec fn character_columns() -> Seq<(Seq<char>, CellKind)> {
    seq![("id"@, CellKind::Text), ("name"@, CellKind::Text), ("description"@, CellKind::Text), ("created_at"@, CellKind::Text)]
}

/// The count query of the listing; its one column is the integer `total`.
pub fn list_characters_count_query(project_id: u64, search: &Option<String>) -> (r: ReadQuery)
    ensures
        r.query@.text == characters_count_text(search is Some),
        r.query@.params == search_params(project_id, search.deep_view()),
        r.columns@.map_values(|c: Column| c@) == seq![("total"@, CellKind::Int)],
{
    let text = if search.is_some() {
        String::from_str("MATCH (c:Character {project_id: $project_id})\n             WHERE c.name CONTAINS $search OR c.description CONTAINS $search\n             RETURN count(c) as total")
    } else {
        String::from_str("MATCH (c:Character {project_id: $project_id})\n             RETURN count(c) as total")
    };
    let params = search_param_vec(project_id, search);
    let mut columns: Vec<Column> = Vec::new();
    columns.push(column("total", CellKind::Int));
    assert(columns@.map_values(|c: Column| c@) =~= seq![("total"@, CellKind::Int)]);
    ReadQuery { query: CypherQuery { text, params }, columns }
}

/// The page query of the listing.
pub fn list_characters_list_query(project_id: u64, page: u32, per_page: u32, search: &Option<String>) -> (r: ReadQuery)
    requires
        page_in_range(page, per_page),
    ensures
        r.query@.text == characters_list_text(search is Some),
        r.query@.params == page_params(project_id, search.deep_view(), page, per_page),
        r.columns@.map_values(|c: Column| c@) == character_columns(),
{
    let text = if search.is_some() {
        String::from_str("MATCH (c:Character {project_id: $project_id})\n             WHERE c.name CONTAINS $search OR c.description CONTAINS $search\n             RETURN c.id as id, c.name as name, c.description as description,\n                    toString(c.created_at) as created_at\n             ORDER BY c.created_at DESC\n             SKIP $offset\n             LIMIT $limit")
    } else {
        String::from_str("MATCH (c:Character {project_id: $project_id})\n             RETURN c.id as id, c.name as name, c.description as description,\n                    toString(c.created_at) as created_at\n             ORDER BY c.created_at DESC\n             SKIP $offset\n             LIMIT $limit")
    };
    let offset = offset_of(page, per_page);
    let mut params = search_param_vec(project_id, search);
    params.push(int_param("offset", offset as i64));
    params.push(int_param("limit", per_page as i64));
    assert(params@.map_values(|q: QueryParam| (q.name@, q.value@)) =~= page_params(project_id, search.deep_view(), page, per_page));
    let mut columns: Vec<Column> = Vec::new();
    columns.push(column("id", CellKind::Text));
    columns.push(column("name", CellKind::Text));
    columns.push(column("description", CellKind::Text));
    columns.push(column("created_at", CellKind::Text));
    assert(columns@.map_values(|c: Column| c@) =~= character_columns());
    ReadQuery { query: CypherQuery { text, params }, columns }
}

/// After the count: the total (0 when the column does not decode) and the page
/// query to run next; or the database failure.
pub fn list_characters_after_count(project_id: u64, page: u32, per_page: u32, search: &Option<String>, first: &Result<Option<Row>, String>)
    -> (r: Result<(i64, ReadQuery), ListCharactersError>)
    requires
        page_in_range(page, per_page),
    ensures
        match total_or_zero(first_model(*first)) {
            Err(e) => r matches Err(x) && x@ == e,
            Ok(t) => r matches Ok((total, q)) && total == t
                && q.query@.text == characters_list_text(search is Some)
                && q.query@.params == page_params(project_id, search.deep_view(), page, per_page)
                && q.columns@.map_values(|c: Column| c@) == character_columns(),
        },
{
    match read_total_or_zero(first) {
        Err(e) => Err(ListCharactersError::DatabaseError(e)),
        Ok(total) => Ok((total, list_characters_list_query(project_id, page, per_page, search))),
    }
}

/// A required string read with a default: the text, or empty when the column
/// is missing or did not decode.
pub open spec fn text_or_default(row: Seq<CellModel>, i: int) -> Seq<char> {
    if 0 <= i < row.len() && row[i] is Text { row[i]->Text_0 } else { Seq::empty() }
}

/// An optional string read from a required-string column: present only when it decoded.
pub open spec fn text_or_none(row: Seq<CellModel>, i: int) -> Option<Seq<char>> {
    if 0 <= i < row.len() && row[i] is Text { Some(row[i]->Text_0) } else { None }
}

pub open spec fn character_item_of(row: Seq<CellModel>) -> CharacterItemModel {
    CharacterItemModel {
        id: text_or_default(row, 0),
        name: text_or_default(row, 1),
        description: text_or_none(row, 2),
        created_at: text_or_none(row, 3),
    }
}

fn read_text_or_default(row: &Row, i: usize) -> (s: String)
    ensures
        s@ == text_or_default(row@, i as int),
{
    if i < row.cells.len() {
        match &row.cells[i] {
            Cell::Text(s) => s.clone(),
            _ => String::new(),
        }
    } else {
        String::new()
    }
}

fn read_text_or_none(row: &Row, i: usize) -> (o: Option<String>)
    ensures
        o.deep_view() == text_or_none(row@, i as int),
{
    if i < row.cells.len() {
        match &row.cells[i] {
            Cell::Text(s) => Some(s.clone()),
            _ => None,
        }
    } else {
        None
    }
}

/// The page built from the rows read: one item per row, in order; a failed
/// stream is a database failure.
pub open spec fn characters_outcome(rows: Seq<Seq<CellModel>>, end: Result<(), Seq<char>>, total: i64, page: u32, per_page: u32)
    -> Result<ListCharactersResponseModel, ErrorModel>
{
    match end {
        Err(e) => Err(ErrorModel::Database(e)),
        Ok(_) => Ok(ListCharactersResponseModel {
            characters: rows.map_values(|r: Seq<CellModel>| character_item_of(r)),
            total: total as u32,
            limit: per_page,
            offset: page_offset(page, per_page) as u32,
            has_more: page_has_more(page, per_page, total),
        }),
    }
}

/// Builds the page from the rows read and how the stream ended.
pub fn list_characters_finish(page: u32, per_page: u32, total: i64, rows: &Vec<Row>, end: &Result<(), String>)
    -> (r: Result<ListCharactersResponse, ListCharactersError>)
    requires
        page_in_range(page, per_page),
    ensures
        res_view(r) == characters_outcome(rows_model(rows@), unit_res(*end), total, page, per_page),
{
    let limit = per_page;
    let offset = offset_of(page, per_page);
    let ghost model = rows_model(rows@);
    let mut characters: Vec<CharacterItem> = Vec::new();
    let n = rows.len();
    for i in 0..n
        invariant
            n == rows@.len(),
            model == rows_model(rows@),
            characters@.map_values(|x: CharacterItem| x@) == model.take(i as int).map_values(|r: Seq<CellModel>| character_item_of(r)),
    {
        let row = &rows[i];
        assert(model[i as int] == row@);
        let item = CharacterItem {
            id: read_text_or_default(row, 0),
            name: read_text_or_default(row, 1),
            description: read_text_or_none(row, 2),
            created_at: read_text_or_none(row, 3),
        };
        assert(item@ == character_item_of(row@));
        let ghost before = characters@.map_values(|x: CharacterItem| x@);
        characters.push(item);
        assert(characters@.map_values(|x: CharacterItem| x@) =~= before.push(character_item_of(row@)));
        assert(model.take(i + 1) =~= model.take(i as int).push(model[i as int]));
    }
    assert(model.take(n as int) =~= model);
    match end {
        Err(e) => return Err(ListCharactersError::DatabaseError(e.clone())),
        Ok(()) => {},
    }
    assert(offset + limit == page * per_page) by (nonlinear_arith)
        requires
            offset == (page - 1) * per_page,
            limit == per_page,
            page >= 1;
    let has_more = (offset + limit) < #[verifier::truncate] (total as u32);
    Ok(ListCharactersResponse {
        characters,
        total: #[verifier::truncate] (total as u32),
        limit,
        offset,
        has_more,
    })
}

} // verus!
