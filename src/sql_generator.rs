//! Building statements from a workbook, and rendering them as MySQL text.

use vstd::prelude::*;
use crate::data_model::{
    coerced, columns_result, data_rows_spec, headers_blank, headers_of, Cell, SheetData,
    SqlStatement, SqlValue, WorkbookData,
};
use crate::errors::{GeneratorError, ParseError};
use crate::formatter::SqlFormatter;
use crate::numeric::integer_text;
use crate::render::{
    identifier_parts, join, lemma_join_push, output_text, row_parts, row_text, statement_text,
    value_parts, value_text,
};

verus! {

/// A sheet that has at least one data row below its header row.
pub open spec fn has_data(sheet: SheetData) -> bool {
    sheet.rows@.len() >= 2
}

/// The structural error of a sheet's headers, if any.
pub open spec fn header_error(sheet: SheetData) -> Option<ParseError> {
    if sheet.rows@.len() == 0 {
        Some(ParseError::EmptySheet)
    } else if headers_blank(sheet.rows@[0]@) {
        Some(ParseError::MissingHeaders)
    } else {
        None
    }
}

/// Sheet `k` is the first one whose headers are in error.
pub open spec fn first_error_at(sheets: Seq<SheetData>, k: int) -> bool {
    0 <= k < sheets.len() && header_error(sheets[k]) is Some && forall|j: int|
        0 <= j < k ==> (#[trigger] header_error(sheets[j])) is None
}

/// The positions of the sheets that have data, in workbook order.
pub open spec fn data_indices(sheets: Seq<SheetData>) -> Seq<int>
    decreases sheets.len(),
{
    if sheets.len() == 0 {
        Seq::empty()
    } else if has_data(sheets.last()) {
        data_indices(sheets.drop_last()).push(sheets.len() - 1)
    } else {
        data_indices(sheets.drop_last())
    }
}

/// `vals` is `cells` coerced one by one.
pub open spec fn row_coerced(vals: Seq<SqlValue>, cells: Seq<Cell>) -> bool {
    vals.len() == cells.len() && forall|j: int| 0 <= j < cells.len() ==> coerced(
        #[trigger] cells[j],
        vals[j],
    )
}

/// `st` is the statement built from `sheet`.
pub open spec fn statement_from(st: SqlStatement, sheet: SheetData) -> bool {
    &&& st.table_name == sheet.name
    &&& headers_of(st.columns@, sheet.rows@[0]@)
    &&& st.values@.len() == sheet.rows@.len() - 1
    &&& forall|i: int|
        0 <= i < st.values@.len() ==> row_coerced(#[trigger] st.values@[i]@, sheet.rows@[i + 1]@)
}

/// `stmts` are the statements of the sheets with data, in workbook order.
pub open spec fn statements_from(stmts: Seq<SqlStatement>, sheets: Seq<SheetData>) -> bool {
    let idx = data_indices(sheets);
    stmts.len() == idx.len() && forall|i: int|
        0 <= i < stmts.len() ==> statement_from(#[trigger] stmts[i], sheets[idx[i]])
}

/// The outcome of building statements from `sheets`: the first header error
/// aborts; otherwise one statement per sheet with data, and `NoData` when
/// there is none.
pub open spec fn generated(sheets: Seq<SheetData>, r: Result<Vec<SqlStatement>, GeneratorError>) -> bool {
    &&& forall|k: int| #[trigger] first_error_at(sheets, k) ==> r == Err::<
        Vec<SqlStatement>,
        GeneratorError,
    >(GeneratorError::Parse(header_error(sheets[k])->Some_0))
    &&& (forall|k: int| 0 <= k < sheets.len() ==> (#[trigger] header_error(sheets[k])) is None)
        ==> if data_indices(sheets).len() == 0 {
        r == Err::<Vec<SqlStatement>, GeneratorError>(GeneratorError::NoData)
    } else {
        r is Ok && statements_from(r->Ok_0@, sheets)
    }
}

pub proof fn lemma_data_indices_bounded(sheets: Seq<SheetData>)
    ensures
        forall|i: int|
            0 <= i < data_indices(sheets).len() ==> 0 <= #[trigger] data_indices(sheets)[i]
                < sheets.len() && has_data(sheets[data_indices(sheets)[i]]),
    decreases sheets.len(),
{
    if sheets.len() > 0 {
        let rest = sheets.drop_last();
        lemma_data_indices_bounded(rest);
        let idx = data_indices(sheets);
        let prev = data_indices(rest);
        assert forall|i: int| 0 <= i < idx.len() implies 0 <= #[trigger] idx[i] < sheets.len()
            && has_data(sheets[idx[i]]) by {
            if i < prev.len() {
                assert(idx[i] == prev[i]);
                assert(rest[prev[i]] == sheets[prev[i]]);
            }
        }
    }
}

/// Generation and rendering of MySQL `INSERT` statements.
pub trait SqlGenerator {
    fn generate(&self, data: &WorkbookData) -> (r: Result<Vec<SqlStatement>, GeneratorError>)
        ensures
            generated(data.sheets@, r),
    ;

    fn format_statement(&self, statement: &SqlStatement) -> (r: String)
        ensures
            r@ == statement_text(*statement),
    ;
}

pub struct MySqlGenerator;

fn coerce_row(cells: &Vec<Cell>) -> (r: Vec<SqlValue>)
    ensures
        row_coerced(r@, cells@),
{
    let mut r: Vec<SqlValue> = Vec::new();
    let mut j: usize = 0;
    while j < cells.len()
        invariant
            j <= cells@.len(),
            r@.len() == j,
            forall|k: int| 0 <= k < j ==> coerced(#[trigger] cells@[k], r@[k]),
        decreases cells@.len() - j,
    {
        r.push(SqlValue::from_cell(&cells[j]));
        j = j + 1;
    }
    r
}

impl MySqlGenerator {
    /// The SQL literal of one value.
    pub fn format_sql_value(&self, value: &SqlValue) -> (r: String)
        ensures
            r@ == value_text(*value),
            (value is Number ==> value->Number_0@.len() > 0) ==> r@.len() > 0,
    {
        match value {
            SqlValue::Null => {
                proof {
                    reveal_strlit("NULL");
                }
                String::from_str("NULL")
            },
            SqlValue::Text(s) => SqlFormatter::format_string_literal(s.as_str()),
            SqlValue::Number(t) => t.clone(),
            SqlValue::Integer(i) => integer_text(*i),
            SqlValue::Boolean(b) => {
                proof {
                    reveal_strlit("1");
                    reveal_strlit("0");
                }
                if *b {
                    String::from_str("1")
                } else {
                    String::from_str("0")
                }
            },
            SqlValue::DateTime(dt) => {
                let mut r = String::new();
                r.push('\'');
                r.append(dt.as_str());
                r.push('\'');
                proof {
                    assert(r@ =~= value_text(*value));
                }
                r
            },
        }
    }

    fn format_row(&self, row: &Vec<SqlValue>) -> (r: String)
        ensures
            r@ == row_text(row@),
    {
        let mut body = String::new();
        let mut j: usize = 0;
        while j < row.len()
            invariant
                j <= row@.len(),
                body@ == join(value_parts(row@.take(j as int)), seq![',']),
            decreases row@.len() - j,
        {
            if j > 0 {
                body.push(',');
            }
            let v = self.format_sql_value(&row[j]);
            body.append(v.as_str());
            proof {
                assert(value_parts(row@.take(j as int + 1)) =~= value_parts(row@.take(j as int)).push(
                    value_text(row@[j as int]),
                ));
                lemma_join_push(value_parts(row@.take(j as int)), value_text(row@[j as int]), seq![',']);
            }
            j = j + 1;
        }
        let mut r = String::new();
        r.push('(');
        r.append(body.as_str());
        r.push(')');
        proof {
            assert(row@.take(row@.len() as int) =~= row@);
            assert(r@ =~= row_text(row@));
        }
        r
    }

    /// Each statement followed by a blank line, in order: the text handed to
    /// the writer.
    pub fn format_statements(&self, statements: &Vec<SqlStatement>) -> (r: String)
        ensures
            r@ == output_text(statements@),
    {
        let mut r = String::new();
        let mut i: usize = 0;
        while i < statements.len()
            invariant
                i <= statements@.len(),
                r@ == output_text(statements@.take(i as int)),
            decreases statements@.len() - i,
        {
            let s = self.format_statement(&statements[i]);
            r.append(s.as_str());
            r.append("\n\n");
            proof {
                assert(statements@.take(i as int + 1).drop_last() =~= statements@.take(i as int));
            }
            i = i + 1;
        }
        proof {
            assert(statements@.take(statements@.len() as int) =~= statements@);
        }
        r
    }
}

impl SqlGenerator for MySqlGenerator {
    /// One statement per sheet with data rows, in workbook order.
    fn generate(&self, data: &WorkbookData) -> (r: Result<Vec<SqlStatement>, GeneratorError>) {
        let sheets = &data.sheets;
        let mut statements: Vec<SqlStatement> = Vec::new();
        let mut i: usize = 0;
        while i < sheets.len()
            invariant
                sheets@ == data.sheets@,
                i <= sheets@.len(),
                forall|k: int| 0 <= k < i ==> (#[trigger] header_error(sheets@[k])) is None,
                statements_from(statements@, sheets@.take(i as int)),
            decreases sheets@.len() - i,
        {
            let sheet = &sheets[i];
            let ghost prefix = sheets@.take(i as int);
            let ghost next = sheets@.take(i as int + 1);
            proof {
                assert(next.drop_last() =~= prefix);
                lemma_data_indices_bounded(prefix);
            }
            let columns = match sheet.get_columns() {
                Ok(c) => c,
                Err(e) => {
                    proof {
                        assert(header_error(sheets@[i as int]) is Some);
                        assert(e == header_error(sheets@[i as int])->Some_0);
                        assert(first_error_at(sheets@, i as int));
                        assert forall|k: int| #[trigger] first_error_at(sheets@, k) implies k
                            == i by {
                            if k < i {
                            } else if k > i {
                                assert(header_error(sheets@[i as int]) is Some);
                            }
                        }
                    }
                    let res = Err(GeneratorError::Parse(e));
                    proof {
                        assert(forall|k: int| #[trigger] first_error_at(sheets@, k) ==> res == Err::<
                            Vec<SqlStatement>, GeneratorError>(GeneratorError::Parse(header_error(sheets@[k])->Some_0)));
                        assert(!(forall|k: int| 0 <= k < sheets@.len() ==> (#[trigger] header_error(sheets@[k])) is None));
                    }
                    return res;
                },
            };
            if columns.len() == 0 {
                i = i + 1;
                continue;
            }
            let data_rows = sheet.get_data_rows();
            let mut values: Vec<Vec<SqlValue>> = Vec::new();
            let mut j: usize = 0;
            while j < data_rows.len()
                invariant
                    data_rows@ == data_rows_spec(sheet.rows@),
                    j <= data_rows@.len(),
                    values@.len() == j,
                    forall|k: int|
                        0 <= k < j ==> row_coerced(#[trigger] values@[k]@, data_rows@[k]@),
                decreases data_rows@.len() - j,
            {
                values.push(coerce_row(&data_rows[j]));
                j = j + 1;
            }
            if values.len() > 0 {
                let st = SqlStatement { table_name: sheet.name.clone(), columns, values };
                proof {
                    assert(statement_from(st, *sheet));
                }
                statements.push(st);
            }
            proof {
                assert(next.last() == sheets@[i as int]);
                assert(forall|k: int| 0 <= k < prefix.len() ==> prefix[k] == next[k]);
                assert(statements_from(statements@, next));
            }
            i = i + 1;
        }
        proof {
            assert(sheets@.take(sheets@.len() as int) =~= sheets@);
        }
        if statements.len() == 0 {
            return Err(GeneratorError::NoData);
        }
        Ok(statements)
    }

    /// `INSERT INTO <table> (<columns>) VALUES` followed by one tuple per row.
    fn format_statement(&self, statement: &SqlStatement) -> (r: String) {
        let mut r = String::new();
        r.append("INSERT INTO ");
        let table = SqlFormatter::format_identifier(statement.table_name.as_str());
        r.append(table.as_str());
        r.append(" (");
        let cols = &statement.columns;
        let mut i: usize = 0;
        let ghost head = r@;
        while i < cols.len()
            invariant
                i <= cols@.len(),
                r@ == head + join(identifier_parts(cols@.take(i as int)), ", "@),
            decreases cols@.len() - i,
        {
            if i > 0 {
                r.append(", ");
            }
            let id = SqlFormatter::format_identifier(cols[i].as_str());
            r.append(id.as_str());
            proof {
                assert(identifier_parts(cols@.take(i as int + 1)) =~= identifier_parts(
                    cols@.take(i as int),
                ).push(id@));
                lemma_join_push(identifier_parts(cols@.take(i as int)), id@, ", "@);
            }
            i = i + 1;
        }
        proof {
            assert(cols@.take(cols@.len() as int) =~= cols@);
        }
        r.append(") VALUES\n");
        let rows = &statement.values;
        let mut k: usize = 0;
        let ghost mid = r@;
        while k < rows.len()
            invariant
                k <= rows@.len(),
                r@ == mid + join(row_parts(rows@.take(k as int)), ",\n"@),
            decreases rows@.len() - k,
        {
            if k > 0 {
                r.append(",\n");
            }
            let row = self.format_row(&rows[k]);
            r.append(row.as_str());
            proof {
                assert(row_parts(rows@.take(k as int + 1)) =~= row_parts(rows@.take(k as int)).push(
                    row@,
                ));
                lemma_join_push(row_parts(rows@.take(k as int)), row@, ",\n"@);
            }
            k = k + 1;
        }
        proof {
            assert(rows@.take(rows@.len() as int) =~= rows@);
        }
        r.append(";");
        proof {
            assert(r@ =~= statement_text(*statement));
        }
        r
    }
}

} // verus!
