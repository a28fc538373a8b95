use min_sqlite3_sys::Connection;
use min_sqlite3_sys::Database;
use min_sqlite3_sys::HandleError;
use min_sqlite3_sys::Operations;
use min_sqlite3_sys::SqlitePrimaryResult;

type NoCallback = fn(SqlitePrimaryResult, String);

#[test]
fn opening_accepts_a_plain_path_and_refuses_an_interior_nul() {
    assert!(Database::open(b"example.db", 0).is_ok());
    match Database::open(b"exam\0ple.db", 0) {
        Err(HandleError::Wrapper(e)) => assert_eq!(e.kind, "std:ffi:NulError"),
        _ => panic!("a path with a nul byte must be refused by the wrapper"),
    }
}

#[test]
fn a_failing_native_open_yields_no_connection() {
    match Database::open(b"example.db", 14) {
        Err(HandleError::Sql(status)) => {
            assert_eq!(status, SqlitePrimaryResult::CantOpen);
        }
        _ => panic!("a failing open status must surface as a failure"),
    }
    match Database::open(b"example.db", 23) {
        Err(HandleError::Sql(status)) => assert_eq!(status, SqlitePrimaryResult::Auth),
        _ => panic!("a failing open status must surface as a failure"),
    }
}

#[test]
fn the_nul_rule_wins_over_the_open_status() {
    match Database::open(b"exam\0ple.db", 14) {
        Err(HandleError::Wrapper(e)) => assert_eq!(e.kind, "std:ffi:NulError"),
        _ => panic!("a path with a nul byte never reaches the engine"),
    }
}

#[test]
fn closing_reads_the_engine_answer() {
    let db = Database::open(b"example.db", 0).unwrap();
    assert_eq!(db.close(0), SqlitePrimaryResult::Okay);
    let db = Database::open(b"example.db", 0).unwrap();
    assert_eq!(db.close(5), SqlitePrimaryResult::Busy);
}

#[test]
fn execute_refuses_a_statement_with_an_interior_nul() {
    let db = Database::open(b"example.db", 0).unwrap();
    let e = db
        .execute(String::from("SELECT\0 1;"), 0, None::<NoCallback>)
        .unwrap_err();
    assert_eq!(e.kind, "std:ffi:NulError");
}

#[test]
fn execute_reads_the_engine_answer() {
    let db = Database::open(b"example.db", 0).unwrap();
    let status = db
        .execute(String::from("SELECT 1;"), 0, None::<NoCallback>)
        .unwrap();
    assert_eq!(status, SqlitePrimaryResult::Okay);
    let failing = db
        .execute(String::from("SELECT 1;"), 1, None::<NoCallback>)
        .unwrap();
    assert_eq!(failing, SqlitePrimaryResult::Error);
}

#[test]
fn execute_reports_a_failing_status_to_the_callback() {
    let db = Database::open(b"example.db", 0).unwrap();
    let mut heard = None;
    let status = db
        .execute(
            String::from("CREATE TABLE items(id PRIMARY KEY);"),
            5,
            Some(|status: SqlitePrimaryResult, statement: String| {
                heard = Some((status, statement));
            }),
        )
        .unwrap();
    assert_eq!(status, SqlitePrimaryResult::Busy);
    assert_eq!(
        heard,
        Some((
            SqlitePrimaryResult::Busy,
            String::from("CREATE TABLE items(id PRIMARY KEY);")
        ))
    );
}

#[test]
fn execute_leaves_the_callback_alone_on_success() {
    let db = Database::open(b"example.db", 0).unwrap();
    let mut heard = false;
    db.execute(
        String::from("SELECT 1;"),
        0,
        Some(|_: SqlitePrimaryResult, _: String| {
            heard = true;
        }),
    )
    .unwrap();
    assert!(!heard);
}

#[test]
fn prepare_hands_back_a_fresh_statement_on_success() {
    let db = Database::open(b"example.db", 0).unwrap();
    let sql = db
        .prepare(String::from("SELECT 1;"), 0, None::<NoCallback>)
        .unwrap();
    assert!(!sql.is_row_available());
    assert!(!sql.is_finalized());
}

#[test]
fn a_failing_prepare_surfaces_the_status_and_yields_no_statement() {
    let db = Database::open(b"example.db", 0).unwrap();
    let mut heard = None;
    let r = db.prepare(
        String::from("SELECT * FROM missing;"),
        1,
        Some(|status: SqlitePrimaryResult, statement: String| {
            heard = Some((status, statement));
        }),
    );
    match r {
        Err(HandleError::Sql(status)) => assert_eq!(status, SqlitePrimaryResult::Error),
        _ => panic!("a failing prepare status must surface as a failure"),
    }
    assert_eq!(
        heard,
        Some((
            SqlitePrimaryResult::Error,
            String::from("SELECT * FROM missing;")
        ))
    );
}

#[test]
fn prepare_refuses_a_statement_with_an_interior_nul() {
    let db = Database::open(b"example.db", 0).unwrap();
    match db.prepare(String::from("SELECT\0 1;"), 0, None::<NoCallback>) {
        Err(HandleError::Wrapper(e)) => assert_eq!(e.kind, "std:ffi:NulError"),
        _ => panic!("a statement with a nul byte must be refused by the wrapper"),
    }
}
