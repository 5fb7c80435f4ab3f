//! Pages of listings, the total read from a count query, and the scan of the
//! rows of a listing for decoding faults.
use vstd::prelude::*;
use vstd::string::*;
use crate::common::ErrorModel;
use crate::db::{CellKind, CellModel, ParamModel, QueryParam, Row, int_param, pm, text_param, check_row, int_at, lemma_no_fault_cells, row_fault, rows_model, cell_fault};

verus! {

/// Index of the first item of a page (pages count from 1).
pub open spec fn page_offset(page: u32, per_page: u32) -> int {
    (page - 1) * per_page
}

/// Whether items remain after a page, given the total as the service keeps it:
/// truncated to 32 bits.
pub open spec fn page_has_more(page: u32, per_page: u32, total: i64) -> bool {
    page * per_page < (total as u32)
}

/// The pages the listings can compute without overflow: page at least 1 and
/// `page * per_page` within 32 bits.
pub open spec fn page_in_range(page: u32, per_page: u32) -> bool {
    page >= 1 && page * per_page <= u32::MAX
}

/// The offset of a page.
pub fn offset_of(page: u32, per_page: u32) -> (r: u32)
    requires
        page_in_range(page, per_page),
    ensures
        r == page_offset(page, per_page),
{
    assert((page - 1) * per_page <= page * per_page) by (nonlinear_arith)
        requires
            page >= 1;
    (page - 1) * per_page
}

/// Whether a page is followed by more items.
pub fn has_more_after(page: u32, per_page: u32, total: i64) -> (r: bool)
    requires
        page_in_range(page, per_page),
    ensures
        r == page_has_more(page, per_page, total),
{
    page * per_page < total as u32
}

/// A database failure: the stream failed, or a row did not decode.
#[derive(Debug)]
pub enum DbFailure {
    Database(String),
    Decode(String),
}

impl View for DbFailure {
    type V = ErrorModel;

    open spec fn view(&self) -> ErrorModel {
        match self {
            DbFailure::Database(m) => ErrorModel::Database(m@),
            DbFailure::Decode(m) => ErrorModel::Decode(m@),
        }
    }
}

/// The first row of a result (or `None`), or the failure of the query.
pub open spec fn first_model(r: Result<Option<Row>, String>) -> Result<Option<Seq<CellModel>>, Seq<char>> {
    match r {
        Ok(Some(row)) => Ok(Some(row@)),
        Ok(None) => Ok(None),
        Err(e) => Err(e@),
    }
}

/// The total of a count query whose one column `total` is an integer: 0 when
/// there is no row; a failed query or a column that does not decode is a failure.
pub open spec fn total_outcome(first: Result<Option<Seq<CellModel>>, Seq<char>>) -> Result<int, ErrorModel> {
    match first {
        Err(e) => Err(ErrorModel::Database(e)),
        Ok(None) => Ok(0),
        Ok(Some(row)) => match row_fault(row, seq![CellKind::Int]) {
            Some(m) => Err(ErrorModel::Decode(m)),
            None => Ok(row[0]->Int_0),
        },
    }
}

/// The total of a count query where a column that does not decode counts as 0.
pub open spec fn total_or_zero(first: Result<Option<Seq<CellModel>>, Seq<char>>) -> Result<int, ErrorModel> {
    match first {
        Err(e) => Err(ErrorModel::Database(e)),
        Ok(None) => Ok(0),
        Ok(Some(row)) => match row_fault(row, seq![CellKind::Int]) {
            Some(m) => Ok(0),
            None => Ok(row[0]->Int_0),
        },
    }
}

fn read_count_cell(row: &Row) -> (r: Result<i64, String>)
    ensures
        match r {
            Ok(v) => row_fault(row@, seq![CellKind::Int]) is None && row@[0] == CellModel::Int(v as int),
            Err(m) => row_fault(row@, seq![CellKind::Int]) == Some(m@),
        },
{
    let kinds: Vec<CellKind> = vec![CellKind::Int];
    assert(kinds@ =~= seq![CellKind::Int]);
    match check_row(row, &kinds) {
        Some(m) => Err(m),
        None => {
            proof {
                lemma_no_fault_cells(row@, kinds@, 0);
                assert(cell_fault(row@[0], kinds@[0]) is None);
            }
            Ok(int_at(row, 0))
        },
    }
}

/// Reads the total of a count query.
pub fn read_total(first: &Result<Option<Row>, String>) -> (r: Result<i64, DbFailure>)
    ensures
        match r {
            Ok(v) => total_outcome(first_model(*first)) == Ok::<int, ErrorModel>(v as int),
            Err(e) => total_outcome(first_model(*first)) == Err::<int, ErrorModel>(e@),
        },
{
    match first {
        Err(e) => Err(DbFailure::Database(e.clone())),
        Ok(None) => Ok(0),
        Ok(Some(row)) => match read_count_cell(row) {
            Ok(v) => Ok(v),
            Err(m) => Err(DbFailure::Decode(m)),
        },
    }
}

/// Reads the total of a count query, taking 0 for a column that does not decode.
pub fn read_total_or_zero(first: &Result<Option<Row>, String>) -> (r: Result<i64, String>)
    ensures
        match r {
            Ok(v) => total_or_zero(first_model(*first)) == Ok::<int, ErrorModel>(v as int),
            Err(e) => total_or_zero(first_model(*first)) == Err::<int, ErrorModel>(ErrorModel::Database(e@)),
        },
{
    match first {
        Err(e) => Err(e.clone()),
        Ok(None) => Ok(0),
        Ok(Some(row)) => match read_count_cell(row) {
            Ok(v) => Ok(v),
            Err(_) => Ok(0),
        },
    }
}

/// The fault of the first faulty row, if any.
pub open spec fn rows_fault(rows: Seq<Seq<CellModel>>, kinds: Seq<CellKind>) -> Option<Seq<char>>
    decreases rows.len(),
{
    if rows.len() == 0 {
        None
    } else {
        match rows_fault(rows.drop_last(), kinds) {
            Some(m) => Some(m),
            None => row_fault(rows.last(), kinds),
        }
    }
}

/// How reading a whole listing ends: the first row that does not decode is a
/// decoding failure; otherwise a failed stream is a database failure.
pub open spec fn rows_status(rows: Seq<Seq<CellModel>>, kinds: Seq<CellKind>, end: Result<(), Seq<char>>) -> Result<(), ErrorModel> {
    match rows_fault(rows, kinds) {
        Some(m) => Err(ErrorModel::Decode(m)),
        None => match end {
            Err(e) => Err(ErrorModel::Database(e)),
            Ok(_) => Ok(()),
        },
    }
}

/// Rows without a first fault have no fault at all.
pub proof fn lemma_rows_fault_none(rows: Seq<Seq<CellModel>>, kinds: Seq<CellKind>)
    requires
        rows_fault(rows, kinds) is None,
    ensures
        forall|i: int| 0 <= i < rows.len() ==> row_fault(#[trigger] rows[i], kinds) is None,
    decreases rows.len(),
{
    if rows.len() > 0 {
        lemma_rows_fault_none(rows.drop_last(), kinds);
        assert forall|i: int| 0 <= i < rows.len() implies row_fault(#[trigger] rows[i], kinds) is None by {
            if i < rows.len() - 1 {
                assert(rows.drop_last()[i] == rows[i]);
            }
        }
    }
}

/// Rows that each decode have no first fault.
pub proof fn lemma_rows_fault_none_of_rows(rows: Seq<Seq<CellModel>>, kinds: Seq<CellKind>)
    requires
        forall|i: int| 0 <= i < rows.len() ==> row_fault(#[trigger] rows[i], kinds) is None,
    ensures
        rows_fault(rows, kinds) is None,
    decreases rows.len(),
{
    if rows.len() > 0 {
        assert forall|i: int| 0 <= i < rows.drop_last().len() implies row_fault(#[trigger] rows.drop_last()[i], kinds) is None by {
            assert(rows.drop_last()[i] == rows[i]);
        }
        lemma_rows_fault_none_of_rows(rows.drop_last(), kinds);
        assert(row_fault(rows[rows.len() - 1], kinds) is None);
    }
}

/// Scans the rows of a listing and the stream's end for the failure that ends it.
pub fn scan_rows(rows: &Vec<Row>, kinds: &Vec<CellKind>, end: &Result<(), String>) -> (r: Result<(), DbFailure>)
    ensures
        match r {
            Ok(_) => rows_status(rows_model(rows@), kinds@, crate::common::unit_res(*end)) is Ok,
            Err(e) => rows_status(rows_model(rows@), kinds@, crate::common::unit_res(*end)) == Err::<(), ErrorModel>(e@),
        },
{
    let ghost model = rows_model(rows@);
    let n = rows.len();
    for i in 0..n
        invariant
            n == rows@.len(),
            model == rows_model(rows@),
            rows_fault(model.take(i as int), kinds@) is None,
    {
        assert(model.take(i + 1).drop_last() =~= model.take(i as int));
        assert(model[i as int] == rows@[i as int]@);
        match check_row(&rows[i], kinds) {
            Some(m) => {
                proof {
                    lemma_rows_fault_prefix(model, kinds@, i + 1);
                }
                return Err(DbFailure::Decode(m));
            },
            None => {},
        }
    }
    assert(model.take(n as int) =~= model);
    match end {
        Err(e) => Err(DbFailure::Database(e.clone())),
        Ok(()) => Ok(()),
    }
}

/// A fault in a prefix is the fault of the whole.
proof fn lemma_rows_fault_prefix(rows: Seq<Seq<CellModel>>, kinds: Seq<CellKind>, i: int)
    requires
        0 <= i <= rows.len(),
        rows_fault(rows.take(i), kinds) is Some,
    ensures
        rows_fault(rows, kinds) == rows_fault(rows.take(i), kinds),
    decreases rows.len() - i,
{
    if i < rows.len() {
        assert(rows.take(i + 1).drop_last() =~= rows.take(i));
        lemma_rows_fault_prefix(rows, kinds, i + 1);
    } else {
        assert(rows.take(i) =~= rows);
    }
}

/// `project_id`, then `search` when there is one.
pub open spec fn search_params(project_id: u64, search: Option<Seq<char>>) -> Seq<(Seq<char>, ParamModel)> {
    seq![pm("project_id"@, ParamModel::Int(project_id as i64 as int))] + match search {
        Some(s) => seq![pm("search"@, ParamModel::Text(s))],
        None => Seq::empty(),
    }
}

/// The search parameters, then `offset` and `limit` of the page.
pub open spec fn page_params(project_id: u64, search: Option<Seq<char>>, page: u32, per_page: u32) -> Seq<(Seq<char>, ParamModel)> {
    search_params(project_id, search) + seq![
        pm("offset"@, ParamModel::Int(page_offset(page, per_page))),
        pm("limit"@, ParamModel::Int(per_page as int)),
    ]
}

/// The parameters `project_id`, then `search` when there is one.
pub fn search_param_vec(project_id: u64, search: &Option<String>) -> (v: Vec<QueryParam>)
    ensures
        v@.map_values(|p: QueryParam| (p.name@, p.value@)) == search_params(project_id, search.deep_view()),
{
    let mut v: Vec<QueryParam> = Vec::new();
    v.push(int_param("project_id", project_id as i64));
    match search {
        Some(s) => v.push(text_param("search", s.clone())),
        None => {},
    }
    assert(v@.map_values(|p: QueryParam| (p.name@, p.value@)) =~= search_params(project_id, search.deep_view()));
    v
}

} // verus!
