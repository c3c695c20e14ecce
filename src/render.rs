//! The SQL text of values and statements.

use vstd::prelude::*;
use crate::data_model::{SqlStatement, SqlValue};
use crate::formatter::{identifier_spec, string_literal_spec};
use crate::numeric::decimal_spec;

verus! {

/// `parts` joined by `sep`.
pub open spec fn join(parts: Seq<Seq<char>>, sep: Seq<char>) -> Seq<char>
    decreases parts.len(),
{
    if parts.len() == 0 {
        Seq::empty()
    } else if parts.len() == 1 {
        parts[0]
    } else {
        join(parts.drop_last(), sep) + sep + parts.last()
    }
}

/// The SQL literal of one value.
pub open spec fn value_text(v: SqlValue) -> Seq<char> {
    match v {
        SqlValue::Null => seq!['N', 'U', 'L', 'L'],
        SqlValue::Text(s) => string_literal_spec(s@),
        SqlValue::Number(t) => t@,
        SqlValue::Integer(i) => decimal_spec(i as int),
        SqlValue::Boolean(b) => if b {
            seq!['1']
        } else {
            seq!['0']
        },
        SqlValue::DateTime(s) => seq!['\''] + s@ + seq!['\''],
    }
}

pub open spec fn identifier_parts(cols: Seq<String>) -> Seq<Seq<char>> {
    cols.map_values(|c: String| identifier_spec(c@))
}

pub open spec fn value_parts(row: Seq<SqlValue>) -> Seq<Seq<char>> {
    row.map_values(|v: SqlValue| value_text(v))
}

/// A row of values as a parenthesised tuple, comma-joined without spaces.
pub open spec fn row_text(row: Seq<SqlValue>) -> Seq<char> {
    seq!['('] + join(value_parts(row), seq![',']) + seq![')']
}

pub open spec fn row_parts(rows: Seq<Vec<SqlValue>>) -> Seq<Seq<char>> {
    rows.map_values(|r: Vec<SqlValue>| row_text(r@))
}

/// The whole `INSERT` statement.
pub open spec fn statement_text(st: SqlStatement) -> Seq<char> {
    "INSERT INTO "@ + identifier_spec(st.table_name@) + " ("@ + join(
        identifier_parts(st.columns@),
        ", "@,
    ) + ") VALUES\n"@ + join(row_parts(st.values@), ",\n"@) + ";"@
}

/// Statements one after another, each followed by a blank line.
pub open spec fn output_text(stmts: Seq<SqlStatement>) -> Seq<char>
    decreases stmts.len(),
{
    if stmts.len() == 0 {
        Seq::empty()
    } else {
        output_text(stmts.drop_last()) + statement_text(stmts.last()) + "\n\n"@
    }
}

/// One more part on a join.
pub proof fn lemma_join_push(parts: Seq<Seq<char>>, p: Seq<char>, sep: Seq<char>)
    ensures
        join(parts.push(p), sep) == if parts.len() == 0 {
            p
        } else {
            join(parts, sep) + sep + p
        },
{
    assert(parts.push(p).drop_last() =~= parts);
}

} // verus!
