//! Properties that relate the library's functions, proved over their
//! contracts.

use vstd::prelude::*;
use crate::data_model::{SheetData, SqlStatement};
use crate::errors::GeneratorError;
use crate::sql_generator::{
    data_indices, first_error_at, generated, has_data, header_error, lemma_data_indices_bounded,
    statement_from,
};

verus! {

/// Where some sheet's headers are in error, there is a first such sheet.
pub proof fn lemma_first_error_exists(sheets: Seq<SheetData>, k: int)
    requires
        0 <= k < sheets.len(),
        header_error(sheets[k]) is Some,
    ensures
        exists|f: int| first_error_at(sheets, f),
    decreases k,
{
    if exists|j: int| 0 <= j < k && (#[trigger] header_error(sheets[j])) is Some {
        let j = choose|j: int| 0 <= j < k && (#[trigger] header_error(sheets[j])) is Some;
        lemma_first_error_exists(sheets, j);
    } else {
        assert(first_error_at(sheets, k));
    }
}

/// A successful build saw no header error, and yields the statements of the
/// sheets with data.
pub proof fn lemma_built_from_clean_sheets(sheets: Seq<SheetData>, stmts: Vec<SqlStatement>)
    requires
        generated(sheets, Ok(stmts)),
    ensures
        forall|k: int| 0 <= k < sheets.len() ==> (#[trigger] header_error(sheets[k])) is None,
        data_indices(sheets).len() > 0,
        stmts@.len() == data_indices(sheets).len(),
        forall|i: int|
            0 <= i < stmts@.len() ==> statement_from(#[trigger] stmts@[i], sheets[data_indices(sheets)[i]]),
{
    if exists|k: int| 0 <= k < sheets.len() && (#[trigger] header_error(sheets[k])) is Some {
        let k = choose|k: int| 0 <= k < sheets.len() && (#[trigger] header_error(sheets[k])) is Some;
        lemma_first_error_exists(sheets, k);
        let f = choose|f: int| first_error_at(sheets, f);
        assert(first_error_at(sheets, f));
    }
}

/// The positions of the sheets with data rise strictly, and every sheet with
/// data is among them.
pub proof fn lemma_data_indices_ordered(sheets: Seq<SheetData>)
    ensures
        forall|i: int, j: int|
            0 <= i < j < data_indices(sheets).len() ==> #[trigger] data_indices(sheets)[i]
                < #[trigger] data_indices(sheets)[j],
        forall|p: int|
            0 <= p < sheets.len() && has_data(#[trigger] sheets[p]) ==> exists|i: int|
                0 <= i < data_indices(sheets).len() && #[trigger] data_indices(sheets)[i] == p,
    decreases sheets.len(),
{
    if sheets.len() > 0 {
        let rest = sheets.drop_last();
        lemma_data_indices_ordered(rest);
        lemma_data_indices_bounded(rest);
        let idx = data_indices(sheets);
        let prev = data_indices(rest);
        assert forall|p: int| 0 <= p < sheets.len() && has_data(#[trigger] sheets[p]) implies exists|
            i: int,
        | 0 <= i < idx.len() && #[trigger] idx[i] == p by {
            if p < rest.len() {
                assert(rest[p] == sheets[p]);
                let i = choose|i: int| 0 <= i < prev.len() && #[trigger] prev[i] == p;
                assert(idx[i] == p);
            } else {
                assert(idx[idx.len() - 1] == p);
            }
        }
    }
}

/// Every statement of a build has one value per column in each row, given
/// rectangular sheets.
pub proof fn lemma_built_rows_match_columns(sheets: Seq<SheetData>, stmts: Vec<SqlStatement>)
    requires
        forall|k: int| 0 <= k < sheets.len() ==> (#[trigger] sheets[k]).is_rectangular(),
        generated(sheets, Ok(stmts)),
    ensures
        forall|i: int| 0 <= i < stmts@.len() ==> (#[trigger] stmts@[i]).wf(),
{
    lemma_built_from_clean_sheets(sheets, stmts);
    lemma_data_indices_bounded(sheets);
    assert forall|i: int| 0 <= i < stmts@.len() implies (#[trigger] stmts@[i]).wf() by {
        let sheet = sheets[data_indices(sheets)[i]];
        let st = stmts@[i];
        assert(statement_from(st, sheet));
        assert forall|r: int| 0 <= r < st.values@.len() implies #[trigger] st.values@[r]@.len()
            == st.columns@.len() by {
            assert(sheet.rows@[r + 1]@.len() == sheet.rows@[0]@.len());
        }
    }
}

/// A workbook whose sheets all have headers but no data rows builds nothing
/// and reports `NoData`.
pub proof fn lemma_no_data_rows_is_no_data(
    sheets: Seq<SheetData>,
    r: Result<Vec<SqlStatement>, GeneratorError>,
)
    requires
        forall|k: int|
            0 <= k < sheets.len() ==> (#[trigger] header_error(sheets[k])) is None
                && sheets[k].rows@.len() == 1,
        generated(sheets, r),
    ensures
        r == Err::<Vec<SqlStatement>, GeneratorError>(GeneratorError::NoData),
{
    lemma_data_indices_bounded(sheets);
    assert(forall|k: int| 0 <= k < sheets.len() ==> (#[trigger] header_error(sheets[k])) is None);
    if data_indices(sheets).len() > 0 {
        let p = data_indices(sheets)[0];
        assert(header_error(sheets[p]) is None);
        assert(has_data(sheets[p]));
    }
}

/// Statements come in the order of their sheets in the workbook: the i-th
/// statement is built from the i-th sheet with data, earlier statements from
/// earlier sheets, and no sheet with data is left out.
pub proof fn lemma_statements_in_sheet_order(sheets: Seq<SheetData>, stmts: Vec<SqlStatement>)
    requires
        generated(sheets, Ok(stmts)),
    ensures
        stmts@.len() == data_indices(sheets).len(),
        forall|i: int|
            0 <= i < stmts@.len() ==> 0 <= #[trigger] data_indices(sheets)[i] < sheets.len()
                && statement_from(stmts@[i], sheets[data_indices(sheets)[i]]),
        forall|i: int, j: int|
            0 <= i < j < stmts@.len() ==> #[trigger] data_indices(sheets)[i]
                < #[trigger] data_indices(sheets)[j],
        forall|p: int|
            0 <= p < sheets.len() && has_data(#[trigger] sheets[p]) ==> exists|i: int|
                0 <= i < stmts@.len() && #[trigger] data_indices(sheets)[i] == p,
{
    lemma_built_from_clean_sheets(sheets, stmts);
    lemma_data_indices_bounded(sheets);
    lemma_data_indices_ordered(sheets);
}

} // verus!
