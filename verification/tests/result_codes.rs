use min_sqlite3_sys::SqlitePrimaryResult;

#[test]
fn from_code_reads_the_documented_table() {
    let table = [
        (0, SqlitePrimaryResult::Okay),
        (1, SqlitePrimaryResult::Error),
        (2, SqlitePrimaryResult::Internal),
        (3, SqlitePrimaryResult::Perm),
        (4, SqlitePrimaryResult::Abort),
        (5, SqlitePrimaryResult::Busy),
        (6, SqlitePrimaryResult::Locked),
        (7, SqlitePrimaryResult::NoMem),
        (8, SqlitePrimaryResult::Readonly),
        (9, SqlitePrimaryResult::Interrupt),
        (10, SqlitePrimaryResult::IoErr),
        (11, SqlitePrimaryResult::Corrupt),
        (12, SqlitePrimaryResult::NotFound),
        (13, SqlitePrimaryResult::Full),
        (14, SqlitePrimaryResult::CantOpen),
        (15, SqlitePrimaryResult::Protocol),
        (16, SqlitePrimaryResult::Empty),
        (17, SqlitePrimaryResult::Schema),
        (18, SqlitePrimaryResult::TooBig),
        (19, SqlitePrimaryResult::Constrait),
        (20, SqlitePrimaryResult::MisMatch),
        (21, SqlitePrimaryResult::Misuse),
        (22, SqlitePrimaryResult::NoLfs),
        (23, SqlitePrimaryResult::Auth),
        (24, SqlitePrimaryResult::Format),
        (25, SqlitePrimaryResult::Range),
        (26, SqlitePrimaryResult::NotADB),
        (27, SqlitePrimaryResult::Notice),
        (28, SqlitePrimaryResult::Warning),
    ];
    for (code, expected) in table {
        assert_eq!(SqlitePrimaryResult::from_code(code), expected);
    }
}

#[test]
fn from_code_keeps_unknown_codes_whole() {
    assert_eq!(
        SqlitePrimaryResult::from_code(29),
        SqlitePrimaryResult::Other(29)
    );
    assert_eq!(
        SqlitePrimaryResult::from_code(100),
        SqlitePrimaryResult::Other(100)
    );
    assert_eq!(
        SqlitePrimaryResult::from_code(-3),
        SqlitePrimaryResult::Other(-3)
    );
    assert_eq!(
        SqlitePrimaryResult::from_code(i32::MAX),
        SqlitePrimaryResult::Other(i32::MAX)
    );
}

#[test]
fn from_trait_matches_from_code() {
    assert_eq!(SqlitePrimaryResult::from(0), SqlitePrimaryResult::Okay);
    assert_eq!(SqlitePrimaryResult::from(5), SqlitePrimaryResult::Busy);
    assert_eq!(
        SqlitePrimaryResult::from(523),
        SqlitePrimaryResult::Other(523)
    );
}

#[test]
fn code_inverts_from_code_on_every_raw_code() {
    for code in -40..60 {
        assert_eq!(SqlitePrimaryResult::from_code(code).code(), code);
    }
    assert_eq!(SqlitePrimaryResult::Other(-77).code(), -77);
    assert_eq!(SqlitePrimaryResult::Busy.code(), 5);
    assert_eq!(SqlitePrimaryResult::Warning.code(), 28);
}
