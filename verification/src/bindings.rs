//! The engine's primary status codes and the rules for reading them.
//!
//! Nearly every native call answers with an integer status. This module
//! holds the closed enumeration that mirrors those codes, together with the
//! translation in both directions and the facts a caller needs about it.

use vstd::prelude::*;

verus! {

/// The native column-type tag that marks a stored null.
pub const COLUMN_NULL: u32 = 5;

/// The possible primary status outcomes of a statement handed to the engine.
///
/// Each unit variant mirrors one documented primary result code; a code
/// outside the enumerated table is kept whole in [`Other`](Self::Other) so
/// that codes added by later engine versions survive the translation.
#[non_exhaustive]
#[derive(Debug, PartialEq, Eq, Structural, Copy, Clone)]
pub enum SqlitePrimaryResult {
    /// The actual result id from the engine, for codes outside the table.
    Other(i32),
    /// The operation was successful: no error.
    Okay,
    /// The generic error code, used when nothing more specific applies.
    Error,
    /// An internal malfunction of the engine itself.
    Internal,
    /// The requested access mode for a newly created database could not be provided.
    Perm,
    /// An operation was aborted prior to completion, usually by application request.
    Abort,
    /// The database file could not be written or read because of concurrent
    /// activity from another database connection, usually in another process.
    Busy,
    /// A write could not continue because of a conflict within the same
    /// database connection, or one that shares its cache.
    Locked,
    /// The engine was unable to allocate the memory it needed.
    NoMem,
    /// An attempt was made to alter data the connection may not write.
    Readonly,
    /// The operation was interrupted.
    Interrupt,
    /// The operating system reported an I/O error.
    IoErr,
    /// The database file has been corrupted.
    Corrupt,
    /// An opcode or system call was not recognized by the layer below.
    NotFound,
    /// A write could not complete because the disk is full.
    Full,
    /// The engine was unable to open a file.
    CantOpen,
    /// A problem with the file locking protocol.
    Protocol,
    /// A code the engine currently does not use.
    Empty,
    /// The database schema changed while a prepared statement was in flight.
    Schema,
    /// A string or blob exceeded the engine's length limit.
    TooBig,
    /// An SQL constraint violation.
    Constrait,
    /// A datatype mismatch in one of the few places the engine is strict.
    MisMatch,
    /// An interface was used in an undefined or unsupported way.
    Misuse,
    /// The database grew past what a system without large-file support can hold.
    NoLfs,
    /// The authorizer callback refused the statement.
    Auth,
    /// A code the engine currently does not use.
    Format,
    /// A parameter or column index was out of range.
    Range,
    /// The opened file is not a database file.
    NotADB,
    /// A notice-level code, seen only in logging callbacks.
    Notice,
    /// A warning-level code, seen only in logging callbacks.
    Warning,
}

/// The status that a raw engine code denotes: the documented table for the
/// codes 0 through 28, and `Other` for everything outside it.
pub open spec fn result_from_code(code: i32) -> SqlitePrimaryResult {
    if code == 0 {
        SqlitePrimaryResult::Okay
    } else if code == 1 {
        SqlitePrimaryResult::Error
    } else if code == 2 {
        SqlitePrimaryResult::Internal
    } else if code == 3 {
        SqlitePrimaryResult::Perm
    } else if code == 4 {
        SqlitePrimaryResult::Abort
    } else if code == 5 {
        SqlitePrimaryResult::Busy
    } else if code == 6 {
        SqlitePrimaryResult::Locked
    } else if code == 7 {
        SqlitePrimaryResult::NoMem
    } else if code == 8 {
        SqlitePrimaryResult::Readonly
    } else if code == 9 {
        SqlitePrimaryResult::Interrupt
    } else if code == 10 {
        SqlitePrimaryResult::IoErr
    } else if code == 11 {
        SqlitePrimaryResult::Corrupt
    } else if code == 12 {
        SqlitePrimaryResult::NotFound
    } else if code == 13 {
        SqlitePrimaryResult::Full
    } else if code == 14 {
        SqlitePrimaryResult::CantOpen
    } else if code == 15 {
        SqlitePrimaryResult::Protocol
    } else if code == 16 {
        SqlitePrimaryResult::Empty
    } else if code == 17 {
        SqlitePrimaryResult::Schema
    } else if code == 18 {
        SqlitePrimaryResult::TooBig
    } else if code == 19 {
        SqlitePrimaryResult::Constrait
    } else if code == 20 {
        SqlitePrimaryResult::MisMatch
    } else if code == 21 {
        SqlitePrimaryResult::Misuse
    } else if code == 22 {
        SqlitePrimaryResult::NoLfs
    } else if code == 23 {
        SqlitePrimaryResult::Auth
    } else if code == 24 {
        SqlitePrimaryResult::Format
    } else if code == 25 {
        SqlitePrimaryResult::Range
    } else if code == 26 {
        SqlitePrimaryResult::NotADB
    } else if code == 27 {
        SqlitePrimaryResult::Notice
    } else if code == 28 {
        SqlitePrimaryResult::Warning
    } else {
        SqlitePrimaryResult::Other(code)
    }
}

/// The raw engine code behind a status: the inverse reading of the table,
/// with `Other` giving back the code it carries.
pub open spec fn result_code(r: SqlitePrimaryResult) -> i32 {
    match r {
        SqlitePrimaryResult::Other(code) => code,
        SqlitePrimaryResult::Okay => 0,
        SqlitePrimaryResult::Error => 1,
        SqlitePrimaryResult::Internal => 2,
        SqlitePrimaryResult::Perm => 3,
        SqlitePrimaryResult::Abort => 4,
        SqlitePrimaryResult::Busy => 5,
        SqlitePrimaryResult::Locked => 6,
        SqlitePrimaryResult::NoMem => 7,
        SqlitePrimaryResult::Readonly => 8,
        SqlitePrimaryResult::Interrupt => 9,
        SqlitePrimaryResult::IoErr => 10,
        SqlitePrimaryResult::Corrupt => 11,
        SqlitePrimaryResult::NotFound => 12,
        SqlitePrimaryResult::Full => 13,
        SqlitePrimaryResult::CantOpen => 14,
        SqlitePrimaryResult::Protocol => 15,
        SqlitePrimaryResult::Empty => 16,
        SqlitePrimaryResult::Schema => 17,
        SqlitePrimaryResult::TooBig => 18,
        SqlitePrimaryResult::Constrait => 19,
        SqlitePrimaryResult::MisMatch => 20,
        SqlitePrimaryResult::Misuse => 21,
        SqlitePrimaryResult::NoLfs => 22,
        SqlitePrimaryResult::Auth => 23,
        SqlitePrimaryResult::Format => 24,
        SqlitePrimaryResult::Range => 25,
        SqlitePrimaryResult::NotADB => 26,
        SqlitePrimaryResult::Notice => 27,
        SqlitePrimaryResult::Warning => 28,
    }
}

/// A status is in normal form when `Other` is used only for codes outside
/// the documented table; [`result_from_code`] yields exactly these.
pub open spec fn result_is_normal(r: SqlitePrimaryResult) -> bool {
    match r {
        SqlitePrimaryResult::Other(code) => code < 0 || code > 28,
        _ => true,
    }
}

impl SqlitePrimaryResult {
    /// Reads a raw engine status code into the enumeration.
    pub fn from_code(value: i32) -> (r: Self)
        ensures
            r == result_from_code(value),
    {
        if value == 0 {
            SqlitePrimaryResult::Okay
        } else if value == 1 {
            SqlitePrimaryResult::Error
        } else if value == 2 {
            SqlitePrimaryResult::Internal
        } else if value == 3 {
            SqlitePrimaryResult::Perm
        } else if value == 4 {
            SqlitePrimaryResult::Abort
        } else if value == 5 {
            SqlitePrimaryResult::Busy
        } else if value == 6 {
            SqlitePrimaryResult::Locked
        } else if value == 7 {
            SqlitePrimaryResult::NoMem
        } else if value == 8 {
            SqlitePrimaryResult::Readonly
        } else if value == 9 {
            SqlitePrimaryResult::Interrupt
        } else if value == 10 {
            SqlitePrimaryResult::IoErr
        } else if value == 11 {
            SqlitePrimaryResult::Corrupt
        } else if value == 12 {
            SqlitePrimaryResult::NotFound
        } else if value == 13 {
            SqlitePrimaryResult::Full
        } else if value == 14 {
            SqlitePrimaryResult::CantOpen
        } else if value == 15 {
            SqlitePrimaryResult::Protocol
        } else if value == 16 {
            SqlitePrimaryResult::Empty
        } else if value == 17 {
            SqlitePrimaryResult::Schema
        } else if value == 18 {
            SqlitePrimaryResult::TooBig
        } else if value == 19 {
            SqlitePrimaryResult::Constrait
        } else if value == 20 {
            SqlitePrimaryResult::MisMatch
        } else if value == 21 {
            SqlitePrimaryResult::Misuse
        } else if value == 22 {
            SqlitePrimaryResult::NoLfs
        } else if value == 23 {
            SqlitePrimaryResult::Auth
        } else if value == 24 {
            SqlitePrimaryResult::Format
        } else if value == 25 {
            SqlitePrimaryResult::Range
        } else if value == 26 {
            SqlitePrimaryResult::NotADB
        } else if value == 27 {
            SqlitePrimaryResult::Notice
        } else if value == 28 {
            SqlitePrimaryResult::Warning
        } else {
            SqlitePrimaryResult::Other(value)
        }
    }

    /// The raw engine code this status stands for.
    pub fn code(&self) -> (c: i32)
        ensures
            c == result_code(*self),
    {
        match *self {
            SqlitePrimaryResult::Other(code) => code,
            SqlitePrimaryResult::Okay => 0,
            SqlitePrimaryResult::Error => 1,
            SqlitePrimaryResult::Internal => 2,
            SqlitePrimaryResult::Perm => 3,
            SqlitePrimaryResult::Abort => 4,
            SqlitePrimaryResult::Busy => 5,
            SqlitePrimaryResult::Locked => 6,
            SqlitePrimaryResult::NoMem => 7,
            SqlitePrimaryResult::Readonly => 8,
            SqlitePrimaryResult::Interrupt => 9,
            SqlitePrimaryResult::IoErr => 10,
            SqlitePrimaryResult::Corrupt => 11,
            SqlitePrimaryResult::NotFound => 12,
            SqlitePrimaryResult::Full => 13,
            SqlitePrimaryResult::CantOpen => 14,
            SqlitePrimaryResult::Protocol => 15,
            SqlitePrimaryResult::Empty => 16,
            SqlitePrimaryResult::Schema => 17,
            SqlitePrimaryResult::TooBig => 18,
            SqlitePrimaryResult::Constrait => 19,
            SqlitePrimaryResult::MisMatch => 20,
            SqlitePrimaryResult::Misuse => 21,
            SqlitePrimaryResult::NoLfs => 22,
            SqlitePrimaryResult::Auth => 23,
            SqlitePrimaryResult::Format => 24,
            SqlitePrimaryResult::Range => 25,
            SqlitePrimaryResult::NotADB => 26,
            SqlitePrimaryResult::Notice => 27,
            SqlitePrimaryResult::Warning => 28,
        }
    }
}

impl From<i32> for SqlitePrimaryResult {
    /// Reads a raw engine status code into the enumeration.
    fn from(value: i32) -> (r: Self) {
        SqlitePrimaryResult::from_code(value)
    }
}

impl vstd::std_specs::convert::FromSpecImpl<i32> for SqlitePrimaryResult {
    open spec fn obeys_from_spec() -> bool {
        true
    }

    open spec fn from_spec(value: i32) -> Self {
        result_from_code(value)
    }
}

/// Reading a raw code and taking the code of the reading gives the raw code
/// back: the translation loses nothing.
pub proof fn lemma_result_code_round_trip(code: i32)
    ensures
        result_code(result_from_code(code)) == code,
{
}

/// On statuses in normal form the translation is a bijection with the raw
/// codes: taking the code and reading it back restores the status.
pub proof fn lemma_result_from_own_code(r: SqlitePrimaryResult)
    requires
        result_is_normal(r),
    ensures
        result_from_code(result_code(r)) == r,
{
}

/// Every reading of a raw code is in normal form: `Other` never shadows a
/// code the table covers.
pub proof fn lemma_result_from_code_normal(code: i32)
    ensures
        result_is_normal(result_from_code(code)),
{
}

} // verus!
