//! Marshalling between Rust values and the engine's column and parameter
//! representations.
//!
//! A row's columns reach this layer as [`ColumnDatum`] values: the unverified
//! glue asks the engine for the column-type tag and the raw datum and hands
//! both over as one plain value. A parameter leaves this layer as a
//! [`BindValue`]: the exact native bind call the glue must make. Everything
//! in between — null handling, integer narrowing and widening, UTF-8
//! checking, the empty-blob rule — is verified here.

use vstd::prelude::*;
use vstd::utf8::decode_utf8;
use vstd::utf8::valid_utf8;

use crate::bindings::result_from_code;
use crate::bindings::SqlitePrimaryResult;
use crate::connection::Database;
use crate::ehandle::has_interior_nul;
use crate::ehandle::str_contains_nul;
use crate::ehandle::HandleError;
use crate::ehandle::MinSqliteWrapperError;
use crate::statement::SqlStatement;

verus! {

/// One column of the current row, as fetched from the engine.
///
/// `Null` stands for a column whose type tag is the stored null; for the
/// other variants the glue fetched the raw datum in the representation the
/// requested Rust type reads (the engine itself converts between its storage
/// classes when asked). Text arrives as the raw bytes of the C string, so
/// that the UTF-8 check happens under verification.
#[derive(Debug, Clone, PartialEq)]
pub enum ColumnDatum {
    /// An integer datum, in the engine's widest integer form.
    Int(i64),
    /// A text datum: the bytes of the C string, without the terminator.
    Text(Vec<u8>),
    /// A blob datum: its bytes, empty when the engine handed out no buffer.
    Blob(Vec<u8>),
    /// A column whose type tag marks a stored null.
    Null,
}

/// The native bind call a parameter value asks for.
#[derive(Debug, Clone, PartialEq)]
pub enum BindValue {
    /// Bind as a 64-bit integer.
    Int(i64),
    /// Bind as text, from the string's bytes.
    Text(String),
    /// Bind as a blob of these bytes.
    Blob(Vec<u8>),
    /// Bind as a zero-filled blob of length zero: the engine's form for an
    /// empty blob, which a plain blob bind cannot express.
    ZeroBlob,
    /// Bind the stored null.
    Null,
}

/// Relies on `String::from_utf8`: it returns `Ok` exactly when the bytes are
/// valid UTF-8, and the returned string's characters are their decoding.
#[verifier::external_body]
fn bytes_to_string(bytes: Vec<u8>) -> (r: Result<String, ()>)
    ensures
        r is Ok <==> valid_utf8(bytes@),
        (r matches Ok(s) ==> s@ == decode_utf8(bytes@)),
{
    match String::from_utf8(bytes) {
        Ok(s) => Ok(s),
        Err(_) => Err(()),
    }
}

/// The helper operations that read column data and prepare parameter values.
///
/// `get_data` turns a fetched [`ColumnDatum`] into the implementing type;
/// `bind_val` turns a value of the type into the [`BindValue`] the glue must
/// hand to the engine. Each implementation fixes, in its spec functions,
/// which data it reads, when the read succeeds, and what comes out.
pub trait ColumnCapabilities: Sized {
    /// The fetched data on which a read has defined behaviour. Reading
    /// outside this set is undefined in the native library and is therefore
    /// ruled out rather than given a meaning.
    spec fn accepts(c: ColumnDatum) -> bool;

    /// Exactly when the read of an accepted datum succeeds.
    spec fn decode_ok(c: ColumnDatum) -> bool;

    /// Relates an accepted datum to the value a successful read returns.
    spec fn is_decoded(c: ColumnDatum, v: Self) -> bool;

    /// Whether the value has a native bind form at all. A missing optional
    /// value has none: asking to bind it is a datatype mismatch.
    spec fn bindable(self) -> bool;

    /// Relates a bindable value to the bind call it asks for.
    spec fn is_bind_form(self, b: BindValue) -> bool;

    /// Reads the column datum of the current row into this type.
    fn get_data(c: ColumnDatum) -> (r: Result<Self, MinSqliteWrapperError<'static>>)
        requires
            Self::accepts(c),
        ensures
            r is Ok <==> Self::decode_ok(c),
            (r matches Ok(v) ==> Self::is_decoded(c, v)),
            (r matches Err(e) ==> e.kind@ == "std:str:Utf8Error"@),
    ;

    /// Prepares the value for binding to a statement parameter.
    fn bind_val(self) -> (r: Result<BindValue, SqlitePrimaryResult>)
        ensures
            r is Ok <==> self.bindable(),
            (r matches Ok(b) ==> self.is_bind_form(b)),
            (r matches Err(code) ==> code == SqlitePrimaryResult::MisMatch),
    ;
}

/// SQL execution against a connection.
///
/// Both operations take the statement text together with the engine's
/// answer to the corresponding native call, decide whether the text may
/// cross the C boundary at all, read the answer through the status table,
/// and report a failing status to the caller's callback.
pub trait Operations {
    /// Concludes running one or more statements of SQL in a single native
    /// call, without reading data back.
    ///
    /// A statement text with an interior nul byte is refused before any
    /// native call; the callback, when given, hears about any status other
    /// than success, together with the statement text.
    fn execute<F: FnOnce(SqlitePrimaryResult, String)>(
        &self,
        statement: String,
        exec_code: i32,
        callback_fn: Option<F>,
    ) -> (r: Result<SqlitePrimaryResult, MinSqliteWrapperError<'static>>)
        requires
            (callback_fn matches Some(f) ==> forall|s: SqlitePrimaryResult, t: String|
                call_requires(f, (s, t))),
        ensures
            r is Ok <==> !has_interior_nul(statement@),
            (r matches Ok(status) ==> status == result_from_code(exec_code)),
            (r matches Err(e) ==> e.kind@ == "std:ffi:NulError"@),
    ;

    /// Concludes preparing one statement for stepwise execution.
    ///
    /// A statement record exists exactly when the engine compiled one: a
    /// text that cannot become a C string is refused before any native
    /// call, and a failing engine answer surfaces as the failure itself,
    /// after the callback has heard it.
    fn prepare<F: FnOnce(SqlitePrimaryResult, String)>(
        &self,
        statement: String,
        prepare_code: i32,
        callback_fn: Option<F>,
    ) -> (r: Result<SqlStatement, HandleError>)
        requires
            (callback_fn matches Some(f) ==> forall|s: SqlitePrimaryResult, t: String|
                call_requires(f, (s, t))),
        ensures
            r is Ok <==> (!has_interior_nul(statement@) && prepare_code == 0),
            (r matches Ok(stmt) ==> !stmt.row_available() && !stmt.finalized()),
            (r matches Err(e) ==> (match e {
                HandleError::Wrapper(w) => has_interior_nul(statement@) && w.kind@
                    == "std:ffi:NulError"@,
                HandleError::Sql(status) => !has_interior_nul(statement@) && prepare_code != 0
                    && status == result_from_code(prepare_code),
            })),
    ;
}

impl Operations for Database {
    fn execute<F: FnOnce(SqlitePrimaryResult, String)>(
        &self,
        statement: String,
        exec_code: i32,
        callback_fn: Option<F>,
    ) -> (r: Result<SqlitePrimaryResult, MinSqliteWrapperError<'static>>) {
        if str_contains_nul(statement.as_str()) {
            return Err(MinSqliteWrapperError::nul_error());
        }
        let status = SqlitePrimaryResult::from_code(exec_code);
        if exec_code != 0 {
            if let Some(func) = callback_fn {
                func(status, statement);
            }
        }
        Ok(status)
    }

    fn prepare<F: FnOnce(SqlitePrimaryResult, String)>(
        &self,
        statement: String,
        prepare_code: i32,
        callback_fn: Option<F>,
    ) -> (r: Result<SqlStatement, HandleError>) {
        if str_contains_nul(statement.as_str()) {
            return Err(HandleError::Wrapper(MinSqliteWrapperError::nul_error()));
        }
        let status = SqlitePrimaryResult::from_code(prepare_code);
        if prepare_code != 0 {
            if let Some(func) = callback_fn {
                func(status, statement);
            }
            return Err(HandleError::Sql(status));
        }
        Ok(SqlStatement::new())
    }
}

/// Null type alias that equals `()`.
pub type SqliteNull = ();

/// An alias to imitate the stored null for bind operations.
pub const SQLITE_NULL: SqliteNull = ();

impl ColumnCapabilities for i8 {
    open spec fn accepts(c: ColumnDatum) -> bool {
        c is Int || c is Null
    }

    open spec fn decode_ok(c: ColumnDatum) -> bool {
        true
    }

    open spec fn is_decoded(c: ColumnDatum, v: Self) -> bool {
        match c {
            ColumnDatum::Int(x) => v == x as i8,
            ColumnDatum::Null => v == 0,
            _ => false,
        }
    }

    open spec fn bindable(self) -> bool {
        true
    }

    open spec fn is_bind_form(self, b: BindValue) -> bool {
        b == BindValue::Int(self as i64)
    }

    fn get_data(c: ColumnDatum) -> (r: Result<Self, MinSqliteWrapperError<'static>>) {
        match c {
            ColumnDatum::Int(x) => Ok(#[verifier::truncate] (x as i8)),
            ColumnDatum::Null => Ok(0),
            _ => unreached(),
        }
    }

    fn bind_val(self) -> (r: Result<BindValue, SqlitePrimaryResult>) {
        Ok(BindValue::Int(self as i64))
    }
}

impl ColumnCapabilities for u8 {
    open spec fn accepts(c: ColumnDatum) -> bool {
        c is Int || c is Null
    }

    open spec fn decode_ok(c: ColumnDatum) -> bool {
        true
    }

    open spec fn is_decoded(c: ColumnDatum, v: Self) -> bool {
        match c {
            ColumnDatum::Int(x) => v == x as u8,
            ColumnDatum::Null => v == 0,
            _ => false,
        }
    }

    open spec fn bindable(self) -> bool {
        true
    }

    open spec fn is_bind_form(self, b: BindValue) -> bool {
        b == BindValue::Int(self as i64)
    }

    fn get_data(c: ColumnDatum) -> (r: Result<Self, MinSqliteWrapperError<'static>>) {
        match c {
            ColumnDatum::Int(x) => Ok(#[verifier::truncate] (x as u8)),
            ColumnDatum::Null => Ok(0),
            _ => unreached(),
        }
    }

    fn bind_val(self) -> (r: Result<BindValue, SqlitePrimaryResult>) {
        Ok(BindValue::Int(self as i64))
    }
}

impl ColumnCapabilities for i16 {
    open spec fn accepts(c: ColumnDatum) -> bool {
        c is Int || c is Null
    }

    open spec fn decode_ok(c: ColumnDatum) -> bool {
        true
    }

    open spec fn is_decoded(c: ColumnDatum, v: Self) -> bool {
        match c {
            ColumnDatum::Int(x) => v == x as i16,
            ColumnDatum::Null => v == 0,
            _ => false,
        }
    }

    open spec fn bindable(self) -> bool {
        true
    }

    open spec fn is_bind_form(self, b: BindValue) -> bool {
        b == BindValue::Int(self as i64)
    }

    fn get_data(c: ColumnDatum) -> (r: Result<Self, MinSqliteWrapperError<'static>>) {
        match c {
            ColumnDatum::Int(x) => Ok(#[verifier::truncate] (x as i16)),
            ColumnDatum::Null => Ok(0),
            _ => unreached(),
        }
    }

    fn bind_val(self) -> (r: Result<BindValue, SqlitePrimaryResult>) {
        Ok(BindValue::Int(self as i64))
    }
}

impl ColumnCapabilities for u16 {
    open spec fn accepts(c: ColumnDatum) -> bool {
        c is Int || c is Null
    }

    open spec fn decode_ok(c: ColumnDatum) -> bool {
        true
    }

    open spec fn is_decoded(c: ColumnDatum, v: Self) -> bool {
        match c {
            ColumnDatum::Int(x) => v == x as u16,
            ColumnDatum::Null => v == 0,
            _ => false,
        }
    }

    open spec fn bindable(self) -> bool {
        true
    }

    open spec fn is_bind_form(self, b: BindValue) -> bool {
        b == BindValue::Int(self as i64)
    }

    fn get_data(c: ColumnDatum) -> (r: Result<Self, MinSqliteWrapperError<'static>>) {
        match c {
            ColumnDatum::Int(x) => Ok(#[verifier::truncate] (x as u16)),
            ColumnDatum::Null => Ok(0),
            _ => unreached(),
        }
    }

    fn bind_val(self) -> (r: Result<BindValue, SqlitePrimaryResult>) {
        Ok(BindValue::Int(self as i64))
    }
}

impl ColumnCapabilities for i32 {
    open spec fn accepts(c: ColumnDatum) -> bool {
        c is Int || c is Null
    }

    open spec fn decode_ok(c: ColumnDatum) -> bool {
        true
    }

    open spec fn is_decoded(c: ColumnDatum, v: Self) -> bool {
        match c {
            ColumnDatum::Int(x) => v == x as i32,
            ColumnDatum::Null => v == 0,
            _ => false,
        }
    }

    open spec fn bindable(self) -> bool {
        true
    }

    open spec fn is_bind_form(self, b: BindValue) -> bool {
        b == BindValue::Int(self as i64)
    }

    fn get_data(c: ColumnDatum) -> (r: Result<Self, MinSqliteWrapperError<'static>>) {
        match c {
            ColumnDatum::Int(x) => Ok(#[verifier::truncate] (x as i32)),
            ColumnDatum::Null => Ok(0),
            _ => unreached(),
        }
    }

    fn bind_val(self) -> (r: Result<BindValue, SqlitePrimaryResult>) {
        Ok(BindValue::Int(self as i64))
    }
}

impl ColumnCapabilities for u32 {
    open spec fn accepts(c: ColumnDatum) -> bool {
        c is Int || c is Null
    }

    open spec fn decode_ok(c: ColumnDatum) -> bool {
        true
    }

    open spec fn is_decoded(c: ColumnDatum, v: Self) -> bool {
        match c {
            ColumnDatum::Int(x) => v == x as u32,
            ColumnDatum::Null => v == 0,
            _ => false,
        }
    }

    open spec fn bindable(self) -> bool {
        true
    }

    open spec fn is_bind_form(self, b: BindValue) -> bool {
        b == BindValue::Int(self as i64)
    }

    fn get_data(c: ColumnDatum) -> (r: Result<Self, MinSqliteWrapperError<'static>>) {
        match c {
            ColumnDatum::Int(x) => Ok(#[verifier::truncate] (x as u32)),
            ColumnDatum::Null => Ok(0),
            _ => unreached(),
        }
    }

    fn bind_val(self) -> (r: Result<BindValue, SqlitePrimaryResult>) {
        Ok(BindValue::Int(self as i64))
    }
}

impl ColumnCapabilities for i64 {
    open spec fn accepts(c: ColumnDatum) -> bool {
        c is Int || c is Null
    }

    open spec fn decode_ok(c: ColumnDatum) -> bool {
        true
    }

    open spec fn is_decoded(c: ColumnDatum, v: Self) -> bool {
        match c {
            ColumnDatum::Int(x) => v == x,
            ColumnDatum::Null => v == 0,
            _ => false,
        }
    }

    open spec fn bindable(self) -> bool {
        true
    }

    open spec fn is_bind_form(self, b: BindValue) -> bool {
        b == BindValue::Int(self)
    }

    fn get_data(c: ColumnDatum) -> (r: Result<Self, MinSqliteWrapperError<'static>>) {
        match c {
            ColumnDatum::Int(x) => Ok(x),
            ColumnDatum::Null => Ok(0),
            _ => unreached(),
        }
    }

    fn bind_val(self) -> (r: Result<BindValue, SqlitePrimaryResult>) {
        Ok(BindValue::Int(self))
    }
}

impl ColumnCapabilities for String {
    open spec fn accepts(c: ColumnDatum) -> bool {
        c is Text
    }

    open spec fn decode_ok(c: ColumnDatum) -> bool {
        match c {
            ColumnDatum::Text(b) => valid_utf8(b@),
            _ => false,
        }
    }

    open spec fn is_decoded(c: ColumnDatum, v: Self) -> bool {
        match c {
            ColumnDatum::Text(b) => v@ == decode_utf8(b@),
            _ => false,
        }
    }

    open spec fn bindable(self) -> bool {
        true
    }

    open spec fn is_bind_form(self, b: BindValue) -> bool {
        match b {
            BindValue::Text(s) => s@ == self@,
            _ => false,
        }
    }

    fn get_data(c: ColumnDatum) -> (r: Result<Self, MinSqliteWrapperError<'static>>) {
        match c {
            ColumnDatum::Text(b) => match bytes_to_string(b) {
                Ok(s) => Ok(s),
                Err(()) => Err(MinSqliteWrapperError::utf8_error()),
            },
            _ => unreached(),
        }
    }

    fn bind_val(self) -> (r: Result<BindValue, SqlitePrimaryResult>) {
        Ok(BindValue::Text(self))
    }
}

impl ColumnCapabilities for Vec<u8> {
    open spec fn accepts(c: ColumnDatum) -> bool {
        c is Blob || c is Null
    }

    open spec fn decode_ok(c: ColumnDatum) -> bool {
        true
    }

    open spec fn is_decoded(c: ColumnDatum, v: Self) -> bool {
        match c {
            ColumnDatum::Blob(b) => v@ == b@,
            ColumnDatum::Null => v@ == Seq::<u8>::empty(),
            _ => false,
        }
    }

    open spec fn bindable(self) -> bool {
        true
    }

    open spec fn is_bind_form(self, b: BindValue) -> bool {
        if self@.len() == 0 {
            b == BindValue::ZeroBlob
        } else {
            match b {
                BindValue::Blob(bytes) => bytes@ == self@,
                _ => false,
            }
        }
    }

    fn get_data(c: ColumnDatum) -> (r: Result<Self, MinSqliteWrapperError<'static>>) {
        match c {
            ColumnDatum::Blob(b) => Ok(b),
            ColumnDatum::Null => Ok(Vec::new()),
            _ => unreached(),
        }
    }

    fn bind_val(self) -> (r: Result<BindValue, SqlitePrimaryResult>) {
        if self.len() == 0 {
            Ok(BindValue::ZeroBlob)
        } else {
            Ok(BindValue::Blob(self))
        }
    }
}

impl ColumnCapabilities for SqliteNull {
    open spec fn accepts(c: ColumnDatum) -> bool {
        false
    }

    open spec fn decode_ok(c: ColumnDatum) -> bool {
        false
    }

    open spec fn is_decoded(c: ColumnDatum, v: Self) -> bool {
        false
    }

    open spec fn bindable(self) -> bool {
        true
    }

    open spec fn is_bind_form(self, b: BindValue) -> bool {
        b == BindValue::Null
    }

    fn get_data(c: ColumnDatum) -> (r: Result<Self, MinSqliteWrapperError<'static>>) {
        unreached()
    }

    fn bind_val(self) -> (r: Result<BindValue, SqlitePrimaryResult>) {
        Ok(BindValue::Null)
    }
}

impl<T: ColumnCapabilities> ColumnCapabilities for Option<T> {
    open spec fn accepts(c: ColumnDatum) -> bool {
        c is Null || T::accepts(c)
    }

    open spec fn decode_ok(c: ColumnDatum) -> bool {
        c is Null || T::decode_ok(c)
    }

    open spec fn is_decoded(c: ColumnDatum, v: Self) -> bool {
        match c {
            ColumnDatum::Null => v is None,
            _ => match v {
                Some(t) => T::is_decoded(c, t),
                None => false,
            },
        }
    }

    open spec fn bindable(self) -> bool {
        match self {
            Some(t) => t.bindable(),
            None => false,
        }
    }

    open spec fn is_bind_form(self, b: BindValue) -> bool {
        match self {
            Some(t) => t.is_bind_form(b),
            None => false,
        }
    }

    fn get_data(c: ColumnDatum) -> (r: Result<Self, MinSqliteWrapperError<'static>>) {
        match c {
            ColumnDatum::Null => Ok(None),
            _ => match T::get_data(c) {
                Ok(v) => Ok(Some(v)),
                Err(e) => Err(e),
            },
        }
    }

    fn bind_val(self) -> (r: Result<BindValue, SqlitePrimaryResult>) {
        match self {
            Some(t) => t.bind_val(),
            None => Err(SqlitePrimaryResult::MisMatch),
        }
    }
}

} // verus!
