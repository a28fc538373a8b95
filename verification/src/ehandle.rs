//! The wrapper's error types.
//!
//! [`MinSqliteWrapperError`] is not for SQL status codes: those travel as
//! [`SqlitePrimaryResult`](crate::bindings::SqlitePrimaryResult) values. It
//! covers the failure modes of the marshalling itself, such as a statement
//! text that cannot cross the C boundary or column text that is not UTF-8.
//! [`HandleError`] joins the two worlds where an operation is expected to
//! produce a handle and either side can refuse.

use vstd::prelude::*;
use vstd::string::StringSliceAdditionalSpecFns;
use vstd::utf8::encode_utf8;

use crate::bindings::SqlitePrimaryResult;

verus! {

/// Whether the byte sequence holds a nul byte anywhere. Such bytes cannot
/// become a C string for the engine: the nul would end it early.
pub open spec fn contains_nul(bytes: Seq<u8>) -> bool {
    exists|i: int| 0 <= i < bytes.len() && bytes[i] == 0
}

/// Whether the string's UTF-8 bytes hold an interior nul byte, which makes
/// the engine reject it before any native call.
pub open spec fn has_interior_nul(s: Seq<char>) -> bool {
    contains_nul(encode_utf8(s))
}

/// Scans a byte slice for a nul byte.
pub fn bytes_contain_nul(bytes: &[u8]) -> (b: bool)
    ensures
        b == contains_nul(bytes@),
{
    let n: usize = bytes.len();
    let mut i: usize = 0;
    while i < n
        invariant
            n == bytes@.len(),
            0 <= i <= n,
            forall|j: int| 0 <= j < i ==> bytes@[j] != 0,
        decreases n - i,
    {
        if bytes[i] == 0 {
            return true;
        }
        i = i + 1;
    }
    false
}

/// Scans a string for an interior nul byte in its UTF-8 form.
pub fn str_contains_nul(s: &str) -> (b: bool)
    ensures
        b == contains_nul(s.spec_bytes()),
{
    bytes_contain_nul(s.as_bytes())
}

/// An error of the wrapper itself, carrying the kind of the failure and a
/// human-readable reason.
#[derive(Debug, Clone)]
pub struct MinSqliteWrapperError<'a> {
    /// Defines the type of the error.
    pub kind: &'a str,
    /// Provides the error message.
    pub reason: String,
}

/// Why an operation handed out no usable handle.
///
/// Opening a database and preparing a statement both fail in one of two
/// ways: the wrapper refuses the input before any native call, or the
/// engine itself answers with a failing status. Either way no handle
/// exists, so the failure is the whole result.
#[derive(Debug, Clone)]
pub enum HandleError {
    /// The wrapper refused before the engine was asked.
    Wrapper(MinSqliteWrapperError<'static>),
    /// The engine answered with this failing status.
    Sql(SqlitePrimaryResult),
}

impl MinSqliteWrapperError<'static> {
    /// The error reported when a string meant for the engine holds an
    /// interior nul byte and so cannot become a C string.
    pub fn nul_error() -> (e: Self)
        ensures
            e.kind@ == "std:ffi:NulError"@,
    {
        MinSqliteWrapperError {
            kind: "std:ffi:NulError",
            reason: "nul byte found in provided data".to_owned(),
        }
    }

    /// The error reported when column text read from the engine is not
    /// valid UTF-8.
    pub fn utf8_error() -> (e: Self)
        ensures
            e.kind@ == "std:str:Utf8Error"@,
    {
        MinSqliteWrapperError {
            kind: "std:str:Utf8Error",
            reason: "invalid utf-8 sequence in column data".to_owned(),
        }
    }
}

} // verus!
