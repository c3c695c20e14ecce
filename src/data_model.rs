//! The typed model of workbook contents and the coercion of cells into SQL
//! values.

use vstd::prelude::*;
use crate::calendar::{decode_serial, serial_datetime_text, serial_in_range};
use crate::errors::ParseError;
use crate::numeric::{decimal_spec, integer_text};

verus! {

/// A spreadsheet date-time serial: days since 1899-12-30, with the fraction
/// giving the time of day.
#[derive(Debug, Clone)]
pub struct ExcelSerial {
    /// Decimal text of the serial number.
    pub text: String,
    /// The serial's whole part (its floor).
    pub days: i64,
    /// The fractional part as seconds of the day, rounded to whole seconds.
    pub seconds: u32,
}

/// One raw spreadsheet cell. Floating-point values are carried as their
/// decimal text.
#[derive(Debug, Clone)]
pub enum Cell {
    Int(i64),
    Float(String),
    String(String),
    Bool(bool),
    DateTime(ExcelSerial),
    DateTimeIso(String),
    DurationIso(String),
    /// An error marker, with its display text (such as `#DIV/0!`).
    Error(String),
    Empty,
}

/// A value ready to be rendered as an SQL literal. `Number` holds the decimal
/// text of a floating-point value.
#[derive(Debug, Clone, PartialEq)]
pub enum SqlValue {
    Text(String),
    Number(String),
    Integer(i64),
    Boolean(bool),
    DateTime(String),
    Null,
}

/// One table insert: a table name, its columns and the rows of values.
#[derive(Debug)]
pub struct SqlStatement {
    pub table_name: String,
    pub columns: Vec<String>,
    pub values: Vec<Vec<SqlValue>>,
}

/// A named sheet: a grid of cells whose first row holds the headers.
#[derive(Debug, Clone)]
pub struct SheetData {
    pub name: String,
    pub rows: Vec<Vec<Cell>>,
}

/// The sheets of a workbook, in workbook order.
#[derive(Debug, Clone)]
pub struct WorkbookData {
    pub sheets: Vec<SheetData>,
}

impl SqlStatement {
    /// Every row holds one value per column.
    pub open spec fn wf(&self) -> bool {
        forall|i: int| 0 <= i < self.values@.len() ==> #[trigger] self.values@[i]@.len()
            == self.columns@.len()
    }
}

impl SheetData {
    /// Every row has as many cells as the first one.
    pub open spec fn is_rectangular(&self) -> bool {
        forall|i: int| 0 <= i < self.rows@.len() ==> #[trigger] self.rows@[i]@.len()
            == self.rows@[0]@.len()
    }
}

/// What a cell turns into. A date-time serial becomes its date-time text
/// where its year has four digits, and its number otherwise.
pub open spec fn coerced(c: Cell, v: SqlValue) -> bool {
    match c {
        Cell::Empty => v == SqlValue::Null,
        Cell::String(s) => v == SqlValue::Text(s),
        Cell::Float(t) => v == SqlValue::Number(t),
        Cell::Int(i) => v == SqlValue::Integer(i),
        Cell::Bool(b) => v == SqlValue::Boolean(b),
        Cell::DateTime(serial) => if serial_in_range(serial.days as int, serial.seconds as int) {
            v is DateTime && v->DateTime_0@ == serial_datetime_text(
                serial.days as int,
                serial.seconds as int,
            )
        } else {
            v == SqlValue::Number(serial.text)
        },
        Cell::DateTimeIso(s) => v == SqlValue::DateTime(s),
        Cell::DurationIso(s) => v == SqlValue::Text(s),
        Cell::Error(_) => v == SqlValue::Null,
    }
}

/// The text a cell gives as a column header.
pub open spec fn header_text(c: Cell) -> Seq<char> {
    match c {
        Cell::Empty => Seq::empty(),
        Cell::String(s) => s@,
        Cell::Float(t) => t@,
        Cell::Int(i) => decimal_spec(i as int),
        Cell::Bool(b) => if b {
            seq!['t', 'r', 'u', 'e']
        } else {
            seq!['f', 'a', 'l', 's', 'e']
        },
        Cell::DateTime(serial) => serial.text@,
        Cell::DateTimeIso(s) => s@,
        Cell::DurationIso(s) => s@,
        Cell::Error(e) => e@,
    }
}

/// Unicode `White_Space` characters.
pub open spec fn is_white_space(c: char) -> bool {
    let u = c as u32;
    (0x9 <= u <= 0xD) || u == 0x20 || u == 0x85 || u == 0xA0 || u == 0x1680 || (0x2000 <= u
        <= 0x200A) || u == 0x2028 || u == 0x2029 || u == 0x202F || u == 0x205F || u == 0x3000
}

/// Empty, or whitespace only.
pub open spec fn is_blank(s: Seq<char>) -> bool {
    forall|i: int| 0 <= i < s.len() ==> is_white_space(#[trigger] s[i])
}

/// Every header of the row is blank.
pub open spec fn headers_blank(row: Seq<Cell>) -> bool {
    forall|j: int| 0 <= j < row.len() ==> is_blank(#[trigger] header_text(row[j]))
}

/// `cols` are the headers of `row`, one for each cell.
pub open spec fn headers_of(cols: Seq<String>, row: Seq<Cell>) -> bool {
    cols.len() == row.len() && forall|j: int| 0 <= j < row.len() ==> #[trigger] cols[j]@
        == header_text(row[j])
}

/// The outcome of reading a sheet's headers.
pub open spec fn columns_result(sheet: SheetData, r: Result<Vec<String>, ParseError>) -> bool {
    if sheet.rows@.len() == 0 {
        r == Err::<Vec<String>, ParseError>(ParseError::EmptySheet)
    } else if headers_blank(sheet.rows@[0]@) {
        r == Err::<Vec<String>, ParseError>(ParseError::MissingHeaders)
    } else {
        r is Ok && headers_of(r->Ok_0@, sheet.rows@[0]@)
    }
}

/// All rows after the header row.
pub open spec fn data_rows_spec(rows: Seq<Vec<Cell>>) -> Seq<Vec<Cell>> {
    if rows.len() == 0 {
        rows
    } else {
        rows.drop_first()
    }
}

fn white_space(c: char) -> (r: bool)
    ensures
        r == is_white_space(c),
{
    let u = c as u32;
    (0x9 <= u && u <= 0xD) || u == 0x20 || u == 0x85 || u == 0xA0 || u == 0x1680 || (0x2000 <= u
        && u <= 0x200A) || u == 0x2028 || u == 0x2029 || u == 0x202F || u == 0x205F || u == 0x3000
}

fn blank(s: &str) -> (r: bool)
    ensures
        r == is_blank(s@),
{
    let n = s.unicode_len();
    let mut i: usize = 0;
    while i < n
        invariant
            n == s@.len(),
            i <= n,
            forall|k: int| 0 <= k < i ==> is_white_space(#[trigger] s@[k]),
        decreases n - i,
    {
        if !white_space(s.get_char(i)) {
            return false;
        }
        i = i + 1;
    }
    true
}

/// The header text of one cell.
fn cell_header(c: &Cell) -> (r: String)
    ensures
        r@ == header_text(*c),
{
    match c {
        Cell::Empty => String::new(),
        Cell::String(s) => s.clone(),
        Cell::Float(t) => t.clone(),
        Cell::Int(i) => integer_text(*i),
        Cell::Bool(b) => {
            let r = if *b {
                String::from_str("true")
            } else {
                String::from_str("false")
            };
            proof {
                reveal_strlit("true");
                reveal_strlit("false");
            }
            r
        },
        Cell::DateTime(serial) => serial.text.clone(),
        Cell::DateTimeIso(s) => s.clone(),
        Cell::DurationIso(s) => s.clone(),
        Cell::Error(e) => e.clone(),
    }
}

impl SqlValue {
    /// The value of a date-time serial, given what decoding it produced:
    /// the date-time text, or the serial's number where decoding failed.
    pub fn from_serial(serial: &ExcelSerial, decoded: Option<String>) -> (r: SqlValue)
        ensures
            decoded is Some ==> r == SqlValue::DateTime(decoded->Some_0),
            decoded is None ==> r == SqlValue::Number(serial.text),
    {
        match decoded {
            Some(text) => SqlValue::DateTime(text),
            None => SqlValue::Number(serial.text.clone()),
        }
    }

    /// Coerces one cell into an SQL value; never fails.
    pub fn from_cell(c: &Cell) -> (r: SqlValue)
        ensures
            coerced(*c, r),
    {
        match c {
            Cell::Empty => SqlValue::Null,
            Cell::String(s) => SqlValue::Text(s.clone()),
            Cell::Float(t) => SqlValue::Number(t.clone()),
            Cell::Int(i) => SqlValue::Integer(*i),
            Cell::Bool(b) => SqlValue::Boolean(*b),
            Cell::DateTime(serial) => {
                let decoded = decode_serial(serial.days, serial.seconds);
                SqlValue::from_serial(serial, decoded)
            },
            Cell::Error(_) => SqlValue::Null,
            Cell::DateTimeIso(s) => SqlValue::DateTime(s.clone()),
            Cell::DurationIso(s) => SqlValue::Text(s.clone()),
        }
    }
}

impl SheetData {
    /// The column headers: the texts of the first row's cells. Fails when the
    /// sheet has no rows, or when every header is empty or whitespace.
    pub fn get_columns(&self) -> (r: Result<Vec<String>, ParseError>)
        ensures
            columns_result(*self, r),
    {
        if self.rows.len() == 0 {
            return Err(ParseError::EmptySheet);
        }
        let first = &self.rows[0];
        let mut columns: Vec<String> = Vec::new();
        let mut all_blank = true;
        let mut j: usize = 0;
        while j < first.len()
            invariant
                first@ == self.rows@[0]@,
                j <= first@.len(),
                columns@.len() == j,
                forall|k: int| 0 <= k < j ==> #[trigger] columns@[k]@ == header_text(first@[k]),
                all_blank == (forall|k: int| 0 <= k < j ==> is_blank(#[trigger] header_text(first@[k]))),
            decreases first@.len() - j,
        {
            let h = cell_header(&first[j]);
            let b = blank(h.as_str());
            all_blank = all_blank && b;
            columns.push(h);
            j = j + 1;
        }
        if all_blank {
            Err(ParseError::MissingHeaders)
        } else {
            Ok(columns)
        }
    }

    /// The rows after the header row, in order; empty for fewer than two rows.
    pub fn get_data_rows(&self) -> (r: &[Vec<Cell>])
        ensures
            r@ == data_rows_spec(self.rows@),
    {
        let n = self.rows.len();
        if n == 0 {
            &self.rows.as_slice()[0..0]
        } else {
            &self.rows.as_slice()[1..n]
        }
    }
}

} // verus!

verus! {

/// The sheets that could be read, in order; a sheet whose grid could not be
/// read is left out.
pub open spec fn readable_sheets(ex: Seq<(String, Option<Vec<Vec<Cell>>>)>) -> Seq<SheetData>
    decreases ex.len(),
{
    if ex.len() == 0 {
        Seq::empty()
    } else {
        let rest = readable_sheets(ex.drop_last());
        match ex.last().1 {
            Some(rows) => rest.push(SheetData { name: ex.last().0, rows }),
            None => rest,
        }
    }
}

impl WorkbookData {
    /// Assembles a workbook from each sheet name with its grid, where the grid
    /// could be read. A workbook without any sheet name is malformed.
    pub fn from_sheets(extracted: Vec<(String, Option<Vec<Vec<Cell>>>)>) -> (r: Result<
        WorkbookData,
        ParseError,
    >)
        ensures
            extracted@.len() == 0 ==> r == Err::<WorkbookData, ParseError>(
                ParseError::InvalidFormat,
            ),
            extracted@.len() > 0 ==> r is Ok && r->Ok_0.sheets@ == readable_sheets(extracted@),
    {
        if extracted.len() == 0 {
            return Err(ParseError::InvalidFormat);
        }
        let ghost all = extracted@;
        let mut rest = extracted;
        let mut sheets: Vec<SheetData> = Vec::new();
        let mut used: usize = 0;
        while rest.len() > 0
            invariant
                all.len() <= usize::MAX,
                used + rest@.len() == all.len(),
                rest@ == all.skip(used as int),
                sheets@ == readable_sheets(all.take(used as int)),
            decreases rest@.len(),
        {
            let (name, grid) = rest.remove(0);
            proof {
                assert(all.take(used as int + 1).drop_last() =~= all.take(used as int));
                assert(all.take(used as int + 1).last() == all[used as int]);
            }
            match grid {
                Some(rows) => {
                    sheets.push(SheetData { name, rows });
                },
                None => {},
            }
            proof {
                assert(rest@ =~= all.skip(used as int + 1));
            }
            used = used + 1;
        }
        proof {
            assert(all.take(used as int) =~= all);
        }
        Ok(WorkbookData { sheets })
    }
}

} // verus!
