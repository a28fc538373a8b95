//! Prepared statements: their lifecycle and the rules for driving them.
//!
//! The native statement handle itself stays with the unverified glue; what
//! lives here is the statement's observable lifecycle — freshly prepared,
//! positioned on a row, finished, released — and the verified decisions
//! around each native call: how a step code is read, when a column may be
//! read, which bind requests are rejected before the engine is ever asked,
//! and that a statement is released exactly once.

use vstd::prelude::*;

use crate::bindings::result_from_code;
use crate::bindings::SqlitePrimaryResult;
use crate::ehandle::MinSqliteWrapperError;
use crate::operations::BindValue;
use crate::operations::ColumnCapabilities;
use crate::operations::ColumnDatum;

verus! {

/// The native step code that announces another row of output.
pub const STEP_ROW: i32 = 100;

/// The native step code that announces a completed operation.
pub const STEP_DONE: i32 = 101;

/// The possible outcomes of executing a prepared statement once.
#[non_exhaustive]
#[derive(Debug, PartialEq, Eq, Structural, Copy, Clone)]
pub enum PreparedStatementStatus {
    /// The actual code from the engine, for anything but a row or completion.
    Other(i32),
    /// Another row of output is available.
    FoundRow,
    /// The operation has completed.
    Done,
}

/// The outcome that a raw step code denotes.
pub open spec fn status_from_step_code(code: i32) -> PreparedStatementStatus {
    if code == STEP_ROW {
        PreparedStatementStatus::FoundRow
    } else if code == STEP_DONE {
        PreparedStatementStatus::Done
    } else {
        PreparedStatementStatus::Other(code)
    }
}

/// A prepared statement, as this layer sees it: the lifecycle of the handle
/// the glue holds.
///
/// A column may be read only while the statement is positioned on a row —
/// after a step that found one and before the next step or the release.
/// Once released, the statement must not be used again; both rules are
/// preconditions here, since breaking them is undefined behaviour in the
/// native library. The handle must also not outlive its connection: that
/// obligation stays with the caller, as nothing here sees the connection.
#[derive(Debug, Clone)]
pub struct SqlStatement {
    row_available: bool,
    finalized: bool,
}

impl SqlStatement {
    /// Whether the statement is positioned on a row of output.
    pub closed spec fn row_available(self) -> bool {
        self.row_available
    }

    /// Whether the statement has been released.
    pub closed spec fn finalized(self) -> bool {
        self.finalized
    }

    /// Creates the record of a freshly prepared statement.
    pub fn new() -> (s: Self)
        ensures
            !s.row_available(),
            !s.finalized(),
    {
        SqlStatement { row_available: false, finalized: false }
    }

    /// Reads the engine's answer to one step of the statement and moves the
    /// lifecycle along: on the row code the statement is positioned on a
    /// row, on any other answer it is not.
    pub fn execute_prepared(&mut self, step_code: i32) -> (r: PreparedStatementStatus)
        requires
            !old(self).finalized(),
        ensures
            r == status_from_step_code(step_code),
            final(self).row_available() == (step_code == STEP_ROW),
            !final(self).finalized(),
    {
        self.row_available = step_code == STEP_ROW;
        if step_code == STEP_ROW {
            PreparedStatementStatus::FoundRow
        } else if step_code == STEP_DONE {
            PreparedStatementStatus::Done
        } else {
            PreparedStatementStatus::Other(step_code)
        }
    }

    /// Reads a column datum of the current row as `T`.
    ///
    /// The statement must be positioned on a row: outside a row the native
    /// column reads have no defined meaning.
    pub fn get_data<T: ColumnCapabilities>(&self, c: ColumnDatum) -> (r: Result<
        T,
        MinSqliteWrapperError<'static>,
    >)
        requires
            self.row_available(),
            !self.finalized(),
            T::accepts(c),
        ensures
            r is Ok <==> T::decode_ok(c),
            (r matches Ok(v) ==> T::is_decoded(c, v)),
            (r matches Err(e) ==> e.kind@ == "std:str:Utf8Error"@),
    {
        T::get_data(c)
    }

    /// Decides the bind of `val` to the parameter indicator at position `i`.
    ///
    /// Indicator positions start at 1: position 0 is rejected as out of
    /// range before the engine is asked, as is a value with no bind form.
    /// Otherwise the returned [`BindValue`] is the native call to make.
    pub fn bind_val<T: ColumnCapabilities>(&self, i: usize, val: T) -> (r: Result<
        BindValue,
        SqlitePrimaryResult,
    >)
        requires
            !self.finalized(),
        ensures
            i == 0 ==> r == Err::<BindValue, _>(SqlitePrimaryResult::Range),
            i != 0 ==> (r is Ok <==> val.bindable()),
            i != 0 ==> (r matches Ok(b) ==> val.is_bind_form(b)),
            i != 0 ==> (r matches Err(code) ==> code == SqlitePrimaryResult::MisMatch),
    {
        if i == 0 {
            return Err(SqlitePrimaryResult::Range);
        }
        val.bind_val()
    }

    /// Reads the engine's answer to releasing the statement and marks it
    /// released. Each statement must be released exactly once: a second
    /// release, like any later use, is ruled out.
    pub fn kill(&mut self, finalize_code: i32) -> (r: SqlitePrimaryResult)
        requires
            !old(self).finalized(),
        ensures
            r == result_from_code(finalize_code),
            final(self).finalized(),
            !final(self).row_available(),
    {
        self.finalized = true;
        self.row_available = false;
        SqlitePrimaryResult::from_code(finalize_code)
    }

    /// Whether the statement is positioned on a row, for callers outside
    /// verification.
    pub fn is_row_available(&self) -> (b: bool)
        ensures
            b == self.row_available(),
    {
        self.row_available
    }

    /// Whether the statement has been released, for callers outside
    /// verification.
    pub fn is_finalized(&self) -> (b: bool)
        ensures
            b == self.finalized(),
    {
        self.finalized
    }
}

} // verus!
