//! The types of other crates that the library carries, and what it asks of
//! them.
use vstd::prelude::*;

verus! {

/// chrono's `NaiveDateTime`, a point in time without a time zone, as the
/// database hands it out. The library carries such values through and only
/// ever compares them for equality; it reads nothing inside them.
#[verifier::external_type_specification]
#[verifier::external_body]
pub struct ExNaiveDateTime(chrono::NaiveDateTime);

/// sqlx's `Error`, a failure reported by the database driver, carried
/// through as it is.
#[verifier::external_type_specification]
#[verifier::external_body]
pub struct ExSqlxError(sqlx::Error);

/// What the library needs to know of a driver error.
#[derive(Debug, Clone, Copy, PartialEq, Eq, Structural)]
pub enum SqlErrorKind {
    RowNotFound,
    Other,
}

/// The kind of a driver error: `RowNotFound` for the variant
/// `sqlx::Error::RowNotFound`, `Other` for every other variant.
pub uninterp spec fn driver_error_kind(e: sqlx::Error) -> SqlErrorKind;

/// Tells whether the driver error is the variant `sqlx::Error::RowNotFound`,
/// which sqlx's `fetch_one` returns when a query yields no row. The body
/// only tells the variants apart. The contract names the result
/// `driver_error_kind(e)`: the variants of `sqlx::Error` hold trait
/// objects that no specification here can look into, so the test on the variant cannot be
/// written out; what is claimed is that the kind depends on the error alone.
#[verifier::external_body]
pub(crate) fn sql_error_kind(e: &sqlx::Error) -> (k: SqlErrorKind)
    ensures
        k == driver_error_kind(*e),
{
    match e {
        sqlx::Error::RowNotFound => SqlErrorKind::RowNotFound,
        _ => SqlErrorKind::Other,
    }
}

} // verus!
