use tablesync::cell::{Cell, SyncError};
use tablesync::infer::ColType;
use tablesync::sql::{create_statement, dec_of_i64, drop_statement, fallback_name, insert_statement};
use tablesync::sync::{plan_from_grid, plan_sync, sync_next, DbOutcome, SyncState};
use tablesync::table::CanonicalTable;

fn two_by_two() -> CanonicalTable {
    CanonicalTable::new(
        vec!["id".to_string(), "name".to_string()],
        vec![
            vec![Cell::Int(1), Cell::Text("a".to_string())],
            vec![Cell::Int(2), Cell::Text("b".to_string())],
        ],
    )
    .unwrap()
}

#[test]
fn inference_twice_is_identical() {
    let t = two_by_two();
    let first = t.infer_schema();
    let second = t.infer_schema();
    assert_eq!(first, second);
}

#[test]
fn string_cell_forces_textual_column() {
    let t = CanonicalTable::new(
        vec!["a".to_string(), "b".to_string()],
        vec![
            vec![Cell::Int(3), Cell::Null],
            vec![Cell::Bool(true), Cell::Text("x".to_string())],
            vec![Cell::Float("2.5".to_string()), Cell::Null],
        ],
    )
    .unwrap();
    assert_eq!(t.infer_schema(), vec![ColType::Numeric, ColType::Textual]);
}

#[test]
fn create_types_follow_header_order() {
    let t = two_by_two();
    assert_eq!(
        create_statement(&t, "people"),
        "CREATE TABLE 'people' (id number,name varchar(1000));"
    );
}

#[test]
fn insert_keeps_row_order_and_quoting() {
    let t = two_by_two();
    assert_eq!(
        insert_statement(&t, "people").unwrap(),
        "INSERT INTO 'people' VALUES (1,'a'),(2,'b');"
    );
}

#[test]
fn row_length_mismatch_is_malformed_input() {
    let r = CanonicalTable::new(
        vec!["a".to_string(), "b".to_string()],
        vec![vec![Cell::Int(1)]],
    );
    assert_eq!(r.err().unwrap(), SyncError::MalformedInput);

    let r = CanonicalTable::new(
        vec!["a".to_string()],
        vec![vec![Cell::Int(1), Cell::Int(2)]],
    );
    assert_eq!(r.err().unwrap(), SyncError::MalformedInput);
}

#[test]
fn empty_table_is_numeric_and_skips_insert() {
    let t = CanonicalTable::new(vec!["a".to_string(), "b".to_string()], vec![]).unwrap();
    assert_eq!(t.infer_schema(), vec![ColType::Numeric, ColType::Numeric]);
    assert_eq!(create_statement(&t, "t"), "CREATE TABLE 't' (a number,b number);");
    assert!(insert_statement(&t, "t").is_none());
}

#[test]
fn embedded_quote_passes_through_generation() {
    let t = CanonicalTable::new(
        vec!["v".to_string()],
        vec![vec![Cell::Text("a'b".to_string())]],
    )
    .unwrap();
    assert_eq!(insert_statement(&t, "t").unwrap(), "INSERT INTO 't' VALUES ('a'b');");
}

#[test]
fn literals_for_every_cell_kind() {
    let t = CanonicalTable::new(
        vec![
            "a".to_string(),
            "b".to_string(),
            "c".to_string(),
            "d".to_string(),
            "e".to_string(),
        ],
        vec![vec![
            Cell::Int(-5),
            Cell::Bool(true),
            Cell::Bool(false),
            Cell::Null,
            Cell::Float("1.5".to_string()),
        ]],
    )
    .unwrap();
    assert_eq!(
        insert_statement(&t, "t").unwrap(),
        "INSERT INTO 't' VALUES (-5,true,false,NULL,1.5);"
    );
}

#[test]
fn drop_statement_quotes_the_table() {
    assert_eq!(drop_statement("people"), "DROP TABLE 'people';");
}

#[test]
fn decimal_rendering_of_extremes() {
    assert_eq!(dec_of_i64(0), "0");
    assert_eq!(dec_of_i64(-1), "-1");
    assert_eq!(dec_of_i64(i64::MAX), "9223372036854775807");
    assert_eq!(dec_of_i64(i64::MIN), "-9223372036854775808");
}

#[test]
fn fallback_names_run_through_the_alphabet() {
    assert_eq!(fallback_name(0), "a");
    assert_eq!(fallback_name(25), "z");
    assert_eq!(fallback_name(26), "aa");
    assert_eq!(fallback_name(27), "ab");
    assert_eq!(fallback_name(51), "az");
    assert_eq!(fallback_name(52), "ba");
    assert_eq!(fallback_name(701), "zz");
    assert_eq!(fallback_name(702), "aaa");
}

#[test]
fn non_text_headers_fall_back_to_positional_names() {
    let plan = plan_from_grid(
        vec![
            vec![Cell::Int(1), Cell::Text("h".to_string()), Cell::Null],
            vec![Cell::Int(9), Cell::Int(8), Cell::Int(7)],
        ],
        "x",
    )
    .unwrap();
    assert_eq!(plan.create_stmt, "CREATE TABLE 'x' (a number,h number,c number);");
    assert_eq!(plan.insert_stmt.unwrap(), "INSERT INTO 'x' VALUES (9,8,7);");
}

#[test]
fn plan_covers_all_three_statements() {
    let t = two_by_two();
    let plan = plan_sync(&t, "people");
    assert_eq!(plan.drop_stmt, "DROP TABLE 'people';");
    assert_eq!(plan.create_stmt, "CREATE TABLE 'people' (id number,name varchar(1000));");
    assert_eq!(
        plan.insert_stmt.unwrap(),
        "INSERT INTO 'people' VALUES (1,'a'),(2,'b');"
    );
}

#[test]
fn ragged_grid_is_malformed_input() {
    let r = plan_from_grid(
        vec![
            vec![Cell::Text("a".to_string()), Cell::Text("b".to_string())],
            vec![Cell::Int(1)],
        ],
        "x",
    );
    assert_eq!(r.err().unwrap(), SyncError::MalformedInput);
    let r = plan_from_grid(vec![], "x");
    assert_eq!(r.err().unwrap(), SyncError::MalformedInput);
}

#[test]
fn sync_succeeds_in_order() {
    let s = SyncState::AwaitConnect;
    let s = sync_next(s, DbOutcome::Succeeded, true);
    assert_eq!(s, SyncState::AwaitDrop);
    let s = sync_next(s, DbOutcome::Succeeded, true);
    assert_eq!(s, SyncState::AwaitCreate);
    let s = sync_next(s, DbOutcome::Succeeded, true);
    assert_eq!(s, SyncState::AwaitInsert);
    let s = sync_next(s, DbOutcome::Succeeded, true);
    assert_eq!(s, SyncState::Complete);
}

#[test]
fn drop_failure_is_swallowed() {
    let s = sync_next(SyncState::AwaitDrop, DbOutcome::Failed, true);
    assert_eq!(s, SyncState::AwaitCreate);
}

#[test]
fn connect_failure_aborts() {
    let s = sync_next(SyncState::AwaitConnect, DbOutcome::Failed, true);
    assert_eq!(s, SyncState::Aborted(SyncError::ConnectionFailure));
}

#[test]
fn create_failure_is_schema_failure() {
    let s = sync_next(SyncState::AwaitCreate, DbOutcome::Failed, true);
    assert_eq!(s, SyncState::Aborted(SyncError::SchemaFailure));
}

#[test]
fn insert_failure_is_insert_failure() {
    let s = sync_next(SyncState::AwaitInsert, DbOutcome::Failed, true);
    assert_eq!(s, SyncState::Aborted(SyncError::InsertFailure));
}

#[test]
fn empty_table_sync_skips_the_insert_step() {
    let s = sync_next(SyncState::AwaitCreate, DbOutcome::Succeeded, false);
    assert_eq!(s, SyncState::Complete);
}

#[test]
fn error_messages_name_the_step() {
    assert_eq!(SyncError::MalformedInput.message(), "malformed input");
    assert_eq!(SyncError::UpstreamUnavailable.message(), "upstream unavailable");
    assert_eq!(SyncError::ConnectionFailure.message(), "connection failed");
    assert_eq!(SyncError::SchemaFailure.message(), "create table failed");
    assert_eq!(SyncError::InsertFailure.message(), "insert failed");
}
