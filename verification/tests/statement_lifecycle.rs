use min_sqlite3_sys::PreparedStatementStatus;
use min_sqlite3_sys::SqlStatement;
use min_sqlite3_sys::SqlitePrimaryResult;

#[test]
fn a_fresh_statement_is_neither_on_a_row_nor_released() {
    let sql = SqlStatement::new();
    assert!(!sql.is_row_available());
    assert!(!sql.is_finalized());
}

#[test]
fn step_code_one_hundred_means_a_row_was_found() {
    let mut sql = SqlStatement::new();
    let status = sql.execute_prepared(100);
    assert_eq!(status, PreparedStatementStatus::FoundRow);
    assert!(sql.is_row_available());
}

#[test]
fn step_code_one_hundred_one_means_done() {
    let mut sql = SqlStatement::new();
    let status = sql.execute_prepared(101);
    assert_eq!(status, PreparedStatementStatus::Done);
    assert!(!sql.is_row_available());
}

#[test]
fn any_other_step_code_is_kept_whole() {
    let mut sql = SqlStatement::new();
    let status = sql.execute_prepared(5);
    assert_eq!(status, PreparedStatementStatus::Other(5));
    assert!(!sql.is_row_available());
}

#[test]
fn stepping_off_a_row_leaves_the_row() {
    let mut sql = SqlStatement::new();
    sql.execute_prepared(100);
    assert!(sql.is_row_available());
    sql.execute_prepared(101);
    assert!(!sql.is_row_available());
}

#[test]
fn kill_reads_the_finalize_code_and_marks_the_statement_released() {
    let mut sql = SqlStatement::new();
    let status = sql.kill(0);
    assert_eq!(status, SqlitePrimaryResult::Okay);
    assert!(sql.is_finalized());
    assert!(!sql.is_row_available());

    let mut failing = SqlStatement::new();
    assert_eq!(failing.kill(21), SqlitePrimaryResult::Misuse);
    assert!(failing.is_finalized());
}
