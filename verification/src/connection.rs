//! Database connections: opening and closing, as this layer decides them.
//!
//! The native connection pointer stays with the unverified glue. Verified
//! here are the decisions around it: a path with an interior nul byte never
//! reaches the engine, a failing answer to the native open surfaces as a
//! failure instead of a usable connection, and the engine's answer to
//! closing is read through the status table. That a connection is closed
//! exactly once is carried by ownership: closing consumes the value.

use vstd::prelude::*;

use crate::bindings::result_from_code;
use crate::bindings::SqlitePrimaryResult;
use crate::ehandle::bytes_contain_nul;
use crate::ehandle::contains_nul;
use crate::ehandle::HandleError;
use crate::ehandle::MinSqliteWrapperError;

verus! {

/// One open database connection, as this layer sees it.
///
/// The native pointer lives beside this value in the glue; prepared
/// statements derived from the connection must not outlive it, an
/// obligation that stays with the caller.
#[derive(Debug)]
pub struct Database {}

/// The core operations of a database connection.
pub trait Connection: Sized {
    /// Opens a database at the path given by its bytes, concluding on the
    /// engine's answer to the native open.
    ///
    /// The engine creates the file when it does not exist and falls back
    /// from read/write to read-only on its own. A connection exists exactly
    /// when the path could become a C string — it must hold no nul byte —
    /// and the engine answered with success; otherwise the refusing side's
    /// failure is the result.
    fn open(db_path: &[u8], open_code: i32) -> (r: Result<Self, HandleError>)
        ensures
            r is Ok <==> (!contains_nul(db_path@) && open_code == 0),
            (r matches Err(e) ==> (match e {
                HandleError::Wrapper(w) => contains_nul(db_path@) && w.kind@
                    == "std:ffi:NulError"@,
                HandleError::Sql(status) => !contains_nul(db_path@) && open_code != 0
                    && status == result_from_code(open_code),
            })),
    ;

    /// Consumes the connection and reads the engine's answer to closing it.
    fn close(self, close_code: i32) -> (r: SqlitePrimaryResult)
        ensures
            r == result_from_code(close_code),
    ;
}

impl Connection for Database {
    fn open(db_path: &[u8], open_code: i32) -> (r: Result<Self, HandleError>) {
        if bytes_contain_nul(db_path) {
            Err(HandleError::Wrapper(MinSqliteWrapperError::nul_error()))
        } else if open_code != 0 {
            Err(HandleError::Sql(SqlitePrimaryResult::from_code(open_code)))
        } else {
            Ok(Database {})
        }
    }

    fn close(self, close_code: i32) -> (r: SqlitePrimaryResult) {
        SqlitePrimaryResult::from_code(close_code)
    }
}

} // verus!
