use tablesync::cell::{Cell, SyncError};
use tablesync::classify::{classify_field, classify_sheet_cell, delimited_grid, parse_int_text, table_from_text_grid};
use tablesync::infer::ColType;
use tablesync::requests::{index_route, Auth, IndexAction};
use tablesync::sql::create_statement;

/// What the I/O boundary supplies for a field: the decimal rendering of the
/// parsed value when the field reads as a floating-point number.
fn numeric_form(field: &str) -> Option<String> {
    field.parse::<f64>().ok().map(|v| format!("{v}"))
}

#[test]
fn empty_field_is_null() {
    assert!(matches!(classify_field("", None), Cell::Null));
}

#[test]
fn digit_field_is_integer() {
    assert!(matches!(classify_field("42", numeric_form("42")), Cell::Int(42)));
    assert!(matches!(classify_field("-7", numeric_form("-7")), Cell::Int(-7)));
    assert!(matches!(classify_field("+7", numeric_form("+7")), Cell::Int(7)));
    assert!(matches!(classify_field("007", numeric_form("007")), Cell::Int(7)));
}

#[test]
fn floating_field_keeps_its_numeric_form() {
    match classify_field("1.50", numeric_form("1.50")) {
        Cell::Float(t) => assert_eq!(t, "1.5"),
        other => panic!("expected a floating cell, got {other:?}"),
    }
}

#[test]
fn integer_overflow_falls_through_to_float() {
    let field = "9223372036854775808";
    match classify_field(field, numeric_form(field)) {
        Cell::Float(t) => assert_eq!(t, "9223372036854776000"),
        other => panic!("expected a floating cell, got {other:?}"),
    }
}

#[test]
fn plain_text_stays_text() {
    match classify_field("alice", numeric_form("alice")) {
        Cell::Text(t) => assert_eq!(t, "alice"),
        other => panic!("expected a text cell, got {other:?}"),
    }
}

#[test]
fn integer_syntax_is_exact() {
    assert_eq!(parse_int_text("0"), Some(0));
    assert_eq!(parse_int_text("9223372036854775807"), Some(i64::MAX));
    assert_eq!(parse_int_text("-9223372036854775808"), Some(i64::MIN));
    assert_eq!(parse_int_text("9223372036854775808"), None);
    assert_eq!(parse_int_text("-9223372036854775809"), None);
    assert_eq!(parse_int_text(""), None);
    assert_eq!(parse_int_text("-"), None);
    assert_eq!(parse_int_text("+"), None);
    assert_eq!(parse_int_text("12a"), None);
    assert_eq!(parse_int_text("1 2"), None);
    assert_eq!(parse_int_text("99999999999999999999999999"), None);
}

#[test]
fn sheet_cell_without_value_is_null() {
    assert!(matches!(
        classify_sheet_cell(false, String::new(), false, "0".to_string()),
        Cell::Null
    ));
}

#[test]
fn sheet_cell_string_wins() {
    match classify_sheet_cell(true, "x".to_string(), true, "3".to_string()) {
        Cell::Text(t) => assert_eq!(t, "x"),
        other => panic!("expected a text cell, got {other:?}"),
    }
}

#[test]
fn sheet_cell_flag_beats_number() {
    assert!(matches!(
        classify_sheet_cell(true, String::new(), true, "3".to_string()),
        Cell::Bool(true)
    ));
}

#[test]
fn sheet_cell_number_is_the_fallback() {
    match classify_sheet_cell(true, String::new(), false, "2.5".to_string()) {
        Cell::Float(t) => assert_eq!(t, "2.5"),
        other => panic!("expected a floating cell, got {other:?}"),
    }
}

#[test]
fn delimited_input_splits_into_records_and_fields() {
    let grid = delimited_grid(b"id,name\n1,alice\n2,bob\n").unwrap();
    assert_eq!(grid.len(), 3);
    assert_eq!(grid[0], vec!["id".to_string(), "name".to_string()]);
    assert_eq!(grid[1], vec!["1".to_string(), "alice".to_string()]);
    assert_eq!(grid[2], vec!["2".to_string(), "bob".to_string()]);
}

#[test]
fn quoted_fields_keep_their_commas() {
    let grid = delimited_grid(b"a,b\n1,\"x,y\"\n").unwrap();
    assert_eq!(grid[1][1], "x,y");
}

#[test]
fn ragged_delimited_input_is_malformed() {
    assert_eq!(
        delimited_grid(b"a,b\n1\n").err().unwrap(),
        SyncError::MalformedInput
    );
}

#[test]
fn text_grid_becomes_a_classified_table() {
    let grid = delimited_grid(b"id,name\n1,alice\n2.5,\n").unwrap();
    let forms: Vec<Vec<Option<String>>> = grid[1..]
        .iter()
        .map(|row| row.iter().map(|f| numeric_form(f)).collect())
        .collect();
    let t = table_from_text_grid(&grid, &forms).unwrap();
    assert_eq!(t.headers()[0], "id");
    assert_eq!(t.headers()[1], "name");
    assert_eq!(t.row_count(), 2);
    assert!(matches!(t.rows()[0][0], Cell::Int(1)));
    assert!(matches!(t.rows()[0][1], Cell::Text(_)));
    assert!(matches!(t.rows()[1][0], Cell::Float(_)));
    assert!(matches!(t.rows()[1][1], Cell::Null));
    assert_eq!(
        create_statement(&t, "up"),
        "CREATE TABLE 'up' (id number,name varchar(1000));"
    );
}

#[test]
fn missing_numeric_forms_leave_fields_as_text() {
    let grid = vec![
        vec!["v".to_string()],
        vec!["2.5".to_string()],
    ];
    let t = table_from_text_grid(&grid, &vec![]).unwrap();
    match &t.rows()[0][0] {
        Cell::Text(s) => assert_eq!(s, "2.5"),
        other => panic!("expected a text cell, got {other:?}"),
    }
}

#[test]
fn text_grid_without_header_is_malformed() {
    let r = table_from_text_grid(&vec![], &vec![]);
    assert_eq!(r.err().unwrap(), SyncError::MalformedInput);
}

#[test]
fn empty_upload_is_malformed() {
    let grid = delimited_grid(b"").unwrap();
    assert!(grid.is_empty());
    let r = table_from_text_grid(&grid, &vec![]);
    assert_eq!(r.err().unwrap(), SyncError::MalformedInput);
}

#[test]
fn auth_pair_must_be_complete() {
    let full = Auth { code: Some("c".to_string()), state: Some("s".to_string()) };
    let half = Auth { code: Some("c".to_string()), state: None };
    let none = Auth { code: None, state: None };
    assert!(!full.is_none());
    assert!(half.is_none());
    assert!(none.is_none());
}

#[test]
fn landing_page_routing() {
    let full = Auth { code: Some("c".to_string()), state: Some("s".to_string()) };
    let none = Auth { code: None, state: None };
    assert_eq!(index_route(false, &none), IndexAction::BeginAuth);
    assert_eq!(index_route(false, &full), IndexAction::CompleteAuth);
    assert_eq!(index_route(true, &full), IndexAction::CompleteAuth);
    assert_eq!(index_route(true, &none), IndexAction::Serve);
}
