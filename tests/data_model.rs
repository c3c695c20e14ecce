use xlsx2sql::data_model::{Cell, ExcelSerial, SheetData, SqlValue, WorkbookData};
use xlsx2sql::errors::ParseError;
use xlsx2sql::calendar::decode_serial;
use xlsx2sql::numeric::integer_text;

fn serial_of(value: f64) -> ExcelSerial {
    let whole = value.floor();
    ExcelSerial {
        text: value.to_string(),
        days: whole as i64,
        seconds: ((value - whole) * 86400.0).round() as u32,
    }
}

#[test]
fn test_workbook_data_creation() {
    let workbook = WorkbookData { sheets: vec![] };
    assert!(workbook.sheets.is_empty());
}

#[test]
fn date_serial_decodes_to_datetime_text() {
    let v = SqlValue::from_cell(&Cell::DateTime(serial_of(44927.5)));
    assert_eq!(v, SqlValue::DateTime("2023-01-01 12:00:00".to_string()));
    let v = SqlValue::from_cell(&Cell::DateTime(serial_of(1.0)));
    assert_eq!(v, SqlValue::DateTime("1899-12-31 00:00:00".to_string()));
    let v = SqlValue::from_cell(&Cell::DateTime(serial_of(44927.999999)));
    assert_eq!(v, SqlValue::DateTime("2023-01-02 00:00:00".to_string()));
}

#[test]
fn decode_serial_values() {
    assert_eq!(decode_serial(0, 0), Some("1899-12-30 00:00:00".to_string()));
    assert_eq!(decode_serial(44927, 3661), Some("2023-01-01 01:01:01".to_string()));
    assert_eq!(decode_serial(i64::MAX, 0), None);
    assert_eq!(decode_serial(1_000_000_000, 0), None);
}

#[test]
fn undecodable_serial_falls_back_to_number() {
    let serial = ExcelSerial { text: "1e300".to_string(), days: i64::MAX, seconds: 0 };
    assert_eq!(
        SqlValue::from_cell(&Cell::DateTime(serial)),
        SqlValue::Number("1e300".to_string())
    );
    let serial = ExcelSerial { text: "9".to_string(), days: 9, seconds: 0 };
    assert_eq!(SqlValue::from_serial(&serial, None), SqlValue::Number("9".to_string()));
    assert_eq!(
        SqlValue::from_serial(&serial, Some("x".to_string())),
        SqlValue::DateTime("x".to_string())
    );
}

#[test]
fn coercion_of_each_cell_kind() {
    assert_eq!(SqlValue::from_cell(&Cell::Empty), SqlValue::Null);
    assert_eq!(
        SqlValue::from_cell(&Cell::String(" a ".to_string())),
        SqlValue::Text(" a ".to_string())
    );
    assert_eq!(
        SqlValue::from_cell(&Cell::Float(2.5f64.to_string())),
        SqlValue::Number("2.5".to_string())
    );
    assert_eq!(SqlValue::from_cell(&Cell::Int(-3)), SqlValue::Integer(-3));
    assert_eq!(SqlValue::from_cell(&Cell::Bool(true)), SqlValue::Boolean(true));
    assert_eq!(SqlValue::from_cell(&Cell::Error("#DIV/0!".to_string())), SqlValue::Null);
    assert_eq!(
        SqlValue::from_cell(&Cell::DateTimeIso("2023-01-01T10:00:00".to_string())),
        SqlValue::DateTime("2023-01-01T10:00:00".to_string())
    );
    assert_eq!(
        SqlValue::from_cell(&Cell::DurationIso("PT1H".to_string())),
        SqlValue::Text("PT1H".to_string())
    );
}

#[test]
fn columns_from_first_row() {
    let s = SheetData {
        name: "s".to_string(),
        rows: vec![
            vec![
                Cell::String("id".to_string()),
                Cell::Empty,
                Cell::Int(-12),
                Cell::Bool(true),
                Cell::Float(1.5f64.to_string()),
            ],
            vec![Cell::Int(1), Cell::Int(2), Cell::Int(3), Cell::Int(4), Cell::Int(5)],
        ],
    };
    let cols = s.get_columns().unwrap();
    assert_eq!(cols, vec!["id", "", "-12", "true", "1.5"]);
}

#[test]
fn blank_headers_are_missing_headers() {
    let s = SheetData {
        name: "s".to_string(),
        rows: vec![
            vec![Cell::String(" \t".to_string()), Cell::Empty, Cell::String("\u{3000}".to_string())],
            vec![Cell::Int(1), Cell::Int(2), Cell::Int(3)],
        ],
    };
    assert!(matches!(s.get_columns(), Err(ParseError::MissingHeaders)));
    let no_cells = SheetData { name: "s".to_string(), rows: vec![vec![]] };
    assert!(matches!(no_cells.get_columns(), Err(ParseError::MissingHeaders)));
}

#[test]
fn no_rows_is_empty_sheet() {
    let s = SheetData { name: "s".to_string(), rows: vec![] };
    assert!(matches!(s.get_columns(), Err(ParseError::EmptySheet)));
    assert!(s.get_data_rows().is_empty());
}

#[test]
fn data_rows_skip_the_header() {
    let s = SheetData {
        name: "s".to_string(),
        rows: vec![vec![Cell::Int(0)], vec![Cell::Int(1)], vec![Cell::Int(2)]],
    };
    let rows = s.get_data_rows();
    assert_eq!(rows.len(), 2);
    assert!(matches!(rows[0][0], Cell::Int(1)));
    assert!(matches!(rows[1][0], Cell::Int(2)));
    let only_header = SheetData { name: "s".to_string(), rows: vec![vec![Cell::Int(0)]] };
    assert!(only_header.get_data_rows().is_empty());
}

#[test]
fn workbook_keeps_readable_sheets() {
    let wb = WorkbookData::from_sheets(vec![
        ("a".to_string(), Some(vec![vec![Cell::Int(1)]])),
        ("broken".to_string(), None),
        ("c".to_string(), Some(vec![])),
    ])
    .unwrap();
    let names: Vec<&str> = wb.sheets.iter().map(|s| s.name.as_str()).collect();
    assert_eq!(names, vec!["a", "c"]);
    assert!(matches!(WorkbookData::from_sheets(vec![]), Err(ParseError::InvalidFormat)));
}

#[test]
fn integer_text_values() {
    assert_eq!(integer_text(0), "0");
    assert_eq!(integer_text(10), "10");
    assert_eq!(integer_text(-905), "-905");
    assert_eq!(integer_text(i64::MIN), i64::MIN.to_string());
}

#[test]
fn serial_rounding_and_flooring() {
    let v = SqlValue::from_cell(&Cell::DateTime(serial_of(0.0)));
    assert_eq!(v, SqlValue::DateTime("1899-12-30 00:00:00".to_string()));
    let v = SqlValue::from_cell(&Cell::DateTime(serial_of(0.3333333333)));
    assert_eq!(v, SqlValue::DateTime("1899-12-30 08:00:00".to_string()));
    let v = SqlValue::from_cell(&Cell::DateTime(serial_of(-0.5)));
    assert_eq!(v, SqlValue::DateTime("1899-12-29 12:00:00".to_string()));
}

#[test]
fn serial_calendar_landmarks() {
    assert_eq!(decode_serial(60, 0), Some("1900-02-28 00:00:00".to_string()));
    assert_eq!(decode_serial(61, 0), Some("1900-03-01 00:00:00".to_string()));
    assert_eq!(decode_serial(25569, 0), Some("1970-01-01 00:00:00".to_string()));
    assert_eq!(decode_serial(36585, 59), Some("2000-02-29 00:00:59".to_string()));
    assert_eq!(decode_serial(-693593, 0), Some("0001-01-01 00:00:00".to_string()));
}

#[test]
fn serial_four_digit_year_bounds() {
    assert_eq!(decode_serial(2958465, 86399), Some("9999-12-31 23:59:59".to_string()));
    assert_eq!(decode_serial(2958465, 86400), None);
    assert_eq!(decode_serial(2958466, 0), None);
    assert_eq!(decode_serial(-693959, 0), Some("0000-01-01 00:00:00".to_string()));
    assert_eq!(decode_serial(-693960, 0), None);
    assert_eq!(decode_serial(-693960, 86400), Some("0000-01-01 00:00:00".to_string()));
    assert_eq!(decode_serial(i64::MIN, 0), None);
    let beyond = ExcelSerial { text: "10000000000".to_string(), days: 10_000_000_000, seconds: 0 };
    assert_eq!(
        SqlValue::from_cell(&Cell::DateTime(beyond)),
        SqlValue::Number("10000000000".to_string())
    );
}

#[test]
fn seconds_of_a_full_day_carry_over() {
    assert_eq!(decode_serial(0, 86400), Some("1899-12-31 00:00:00".to_string()));
    assert_eq!(decode_serial(0, 90061), Some("1899-12-31 01:01:01".to_string()));
}
