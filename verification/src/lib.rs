//! Verified core of a minimal SQLite binding layer.
//!
//! The native engine is reached over a C interface by unverified glue that
//! links against the shared library; everything that can be checked without
//! touching a raw pointer lives here: the translation table for the engine's
//! status codes, the statement lifecycle rules, and the marshalling between
//! Rust values and the engine's column and parameter representations.

pub mod bindings;
pub mod connection;
pub mod ehandle;
pub mod operations;
pub mod statement;

pub use bindings::SqlitePrimaryResult;
pub use bindings::COLUMN_NULL;
pub use connection::Connection;
pub use connection::Database;
pub use ehandle::HandleError;
pub use ehandle::MinSqliteWrapperError;
pub use operations::BindValue;
pub use operations::ColumnCapabilities;
pub use operations::ColumnDatum;
pub use operations::Operations;
pub use operations::SqliteNull;
pub use operations::SQLITE_NULL;
pub use statement::PreparedStatementStatus;
pub use statement::SqlStatement;
