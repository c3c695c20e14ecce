use xlsx2sql::data_model::{Cell, ExcelSerial, SheetData, SqlStatement, SqlValue, WorkbookData};
use xlsx2sql::errors::{GeneratorError, ParseError};
use xlsx2sql::sql_generator::{MySqlGenerator, SqlGenerator};

fn text(s: &str) -> Cell {
    Cell::String(s.to_string())
}

fn sheet(name: &str, rows: Vec<Vec<Cell>>) -> SheetData {
    SheetData { name: name.to_string(), rows }
}

#[test]
fn test_format_sql_value_escaping() {
    let generator = MySqlGenerator;

    assert_eq!(generator.format_sql_value(&SqlValue::Null), "NULL");
    assert_eq!(generator.format_sql_value(&SqlValue::Integer(42)), "42");
    assert_eq!(generator.format_sql_value(&SqlValue::Number(3.14f64.to_string())), "3.14");
    assert_eq!(generator.format_sql_value(&SqlValue::Boolean(true)), "1");
    assert_eq!(generator.format_sql_value(&SqlValue::Boolean(false)), "0");
    assert_eq!(
        generator.format_sql_value(&SqlValue::Text("test".to_string())),
        "'test'"
    );
}

#[test]
fn test_sql_injection_prevention() {
    let generator = MySqlGenerator;
    let malicious_text = "'; DROP TABLE users; --";
    let sql_value = SqlValue::Text(malicious_text.to_string());

    let formatted = generator.format_sql_value(&sql_value);
    assert_eq!(formatted, "'''; DROP TABLE users; --'");
}

#[test]
fn test_unicode_in_sql_generation() {
    let generator = MySqlGenerator;
    let japanese_text = "業務用";
    let sql_value = SqlValue::Text(japanese_text.to_string());

    let formatted = generator.format_sql_value(&sql_value);
    assert_eq!(formatted, format!("'{}'", japanese_text));
}

#[test]
fn test_format_statement_basic() {
    let statement = SqlStatement {
        table_name: "test_table".to_string(),
        columns: vec!["id".to_string(), "name".to_string()],
        values: vec![
            vec![SqlValue::Integer(1), SqlValue::Text("John".to_string())],
            vec![SqlValue::Integer(2), SqlValue::Text("Jane".to_string())],
        ],
    };

    let generator = MySqlGenerator;
    let sql = generator.format_statement(&statement);

    assert!(sql.contains("INSERT INTO `test_table`"));
    assert!(sql.contains("(`id`, `name`)"));
    assert!(sql.contains("VALUES"));
    assert!(sql.contains("(1,'John')"));
    assert!(sql.contains("(2,'Jane')"));
}

#[test]
fn test_table_name_sanitization() {
    let statement = SqlStatement {
        table_name: "table with spaces".to_string(),
        columns: vec!["id".to_string()],
        values: vec![vec![SqlValue::Integer(1)]],
    };

    let generator = MySqlGenerator;
    let sql = generator.format_statement(&statement);

    assert!(sql.contains("`table with spaces`"));
}

#[test]
fn value_rendering_of_each_variant() {
    let g = MySqlGenerator;
    assert_eq!(g.format_sql_value(&SqlValue::Integer(-7)), "-7");
    assert_eq!(g.format_sql_value(&SqlValue::Integer(0)), "0");
    assert_eq!(g.format_sql_value(&SqlValue::Integer(i64::MIN)), "-9223372036854775808");
    assert_eq!(g.format_sql_value(&SqlValue::Integer(i64::MAX)), "9223372036854775807");
    assert_eq!(
        g.format_sql_value(&SqlValue::DateTime("2023-01-01 12:00:00".to_string())),
        "'2023-01-01 12:00:00'"
    );
    // Date-time text is quoted but not escaped.
    assert_eq!(g.format_sql_value(&SqlValue::DateTime("a'b".to_string())), "'a'b'");
    assert_eq!(g.format_sql_value(&SqlValue::Number("1e300".to_string())), "1e300");
}

#[test]
fn statement_exact_text() {
    let statement = SqlStatement {
        table_name: "t".to_string(),
        columns: vec!["a".to_string(), "b".to_string(), "c".to_string()],
        values: vec![
            vec![SqlValue::Null, SqlValue::Boolean(true), SqlValue::Text("x'y".to_string())],
            vec![SqlValue::Integer(5), SqlValue::Number("2.5".to_string()), SqlValue::DateTime("d".to_string())],
        ],
    };
    let sql = MySqlGenerator.format_statement(&statement);
    assert_eq!(
        sql,
        "INSERT INTO `t` (`a`, `b`, `c`) VALUES\n(NULL,1,'x''y'),\n(5,2.5,'d');"
    );
}

#[test]
fn end_to_end_people_sheet() {
    let wb = WorkbookData {
        sheets: vec![sheet(
            "people",
            vec![
                vec![text("id"), text("name")],
                vec![Cell::Int(1), text("Ann")],
                vec![Cell::Int(2), text("Bea")],
            ],
        )],
    };
    let g = MySqlGenerator;
    let stmts = g.generate(&wb).unwrap();
    assert_eq!(stmts.len(), 1);
    assert_eq!(
        g.format_statement(&stmts[0]),
        "INSERT INTO `people` (`id`, `name`) VALUES\n(1,'Ann'),\n(2,'Bea');"
    );
    assert_eq!(
        g.format_statements(&stmts),
        "INSERT INTO `people` (`id`, `name`) VALUES\n(1,'Ann'),\n(2,'Bea');\n\n"
    );
}

#[test]
fn statements_follow_sheet_order() {
    let wb = WorkbookData {
        sheets: vec![
            sheet("b_first", vec![vec![text("x")], vec![Cell::Int(1)]]),
            sheet("empty_data", vec![vec![text("y")]]),
            sheet("a_second", vec![vec![text("z")], vec![Cell::Int(2)], vec![Cell::Int(3)]]),
        ],
    };
    let g = MySqlGenerator;
    let stmts = g.generate(&wb).unwrap();
    let names: Vec<&str> = stmts.iter().map(|s| s.table_name.as_str()).collect();
    assert_eq!(names, vec!["b_first", "a_second"]);
    assert_eq!(stmts[1].values.len(), 2);
    for st in &stmts {
        for row in &st.values {
            assert_eq!(row.len(), st.columns.len());
        }
    }
    assert_eq!(
        g.format_statements(&stmts),
        "INSERT INTO `b_first` (`x`) VALUES\n(1);\n\nINSERT INTO `a_second` (`z`) VALUES\n(2),\n(3);\n\n"
    );
}

#[test]
fn headers_without_data_is_no_data() {
    let wb = WorkbookData {
        sheets: vec![
            sheet("one", vec![vec![text("a")]]),
            sheet("two", vec![vec![text("b"), text("c")]]),
        ],
    };
    assert!(matches!(MySqlGenerator.generate(&wb), Err(GeneratorError::NoData)));
    let empty = WorkbookData { sheets: vec![] };
    assert!(matches!(MySqlGenerator.generate(&empty), Err(GeneratorError::NoData)));
}

#[test]
fn blank_header_row_aborts_whole_workbook() {
    let wb = WorkbookData {
        sheets: vec![
            sheet("good", vec![vec![text("a")], vec![Cell::Int(1)]]),
            sheet("bad", vec![vec![text("  "), Cell::Empty], vec![Cell::Int(1), text("data")]]),
        ],
    };
    assert!(matches!(
        MySqlGenerator.generate(&wb),
        Err(GeneratorError::Parse(ParseError::MissingHeaders))
    ));
}

#[test]
fn empty_sheet_aborts_whole_workbook() {
    let wb = WorkbookData { sheets: vec![sheet("nothing", vec![])] };
    assert!(matches!(
        MySqlGenerator.generate(&wb),
        Err(GeneratorError::Parse(ParseError::EmptySheet))
    ));
}

#[test]
fn generated_rows_are_coerced() {
    let serial = ExcelSerial { text: "44927.5".to_string(), days: 44927, seconds: 43200 };
    let wb = WorkbookData {
        sheets: vec![sheet(
            "mixed",
            vec![
                vec![text("a"), text("b"), text("c"), text("d")],
                vec![Cell::Empty, Cell::Bool(false), Cell::DateTime(serial), Cell::Error("#N/A".to_string())],
            ],
        )],
    };
    let stmts = MySqlGenerator.generate(&wb).unwrap();
    assert_eq!(
        stmts[0].values[0],
        vec![
            SqlValue::Null,
            SqlValue::Boolean(false),
            SqlValue::DateTime("2023-01-01 12:00:00".to_string()),
            SqlValue::Null
        ]
    );
}
