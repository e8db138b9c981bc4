//! The boundary to the database driver: what the repository needs to know of
//! a driver error.

use vstd::prelude::*;

verus! {

/// `sqlx::Error`, the error of every driver call. It is carried through as an
/// opaque value: nothing is claimed of what it holds.
#[verifier::external_type_specification]
#[verifier::external_body]
pub struct ExDriverError(sqlx::Error);

/// The kinds of driver error that the repository tells apart.
#[derive(Clone, Copy, Debug, PartialEq, Eq, Structural)]
pub enum DriverFault {
    /// No connection became available in time.
    PoolTimedOut,
    /// The pool was closed.
    PoolClosed,
    /// The connection to the database failed.
    Io,
    /// No secure connection could be established.
    Tls,
    /// A query that expects a row found none.
    RowNotFound,
    /// The database rejected the statement.
    Database,
    /// Any other driver error.
    Other,
}

/// Names the variant of a `sqlx::Error` by matching on it, one arm for each
/// variant that the repository tells apart and one for all others. Nothing
/// is claimed of the result: the error is opaque to the verifier, and every
/// caller is verified for each kind that may come back.
#[verifier::external_body]
fn fault_of(error: &sqlx::Error) -> DriverFault {
    match error {
        sqlx::Error::PoolTimedOut => DriverFault::PoolTimedOut,
        sqlx::Error::PoolClosed => DriverFault::PoolClosed,
        sqlx::Error::Io(_) => DriverFault::Io,
        sqlx::Error::Tls(_) => DriverFault::Tls,
        sqlx::Error::RowNotFound => DriverFault::RowNotFound,
        sqlx::Error::Database(_) => DriverFault::Database,
        _ => DriverFault::Other,
    }
}

/// Turns what the driver returned into a reply of plain values: a result is
/// kept as it is, an error is replaced by its kind.
pub fn reply_from<T>(result: Result<T, sqlx::Error>) -> (reply: Result<T, DriverFault>)
    ensures
        result matches Ok(value) ==> reply == Ok::<T, DriverFault>(value),
        result is Err ==> reply is Err,
{
    match result {
        Ok(value) => Ok(value),
        Err(error) => Err(fault_of(&error)),
    }
}

} // verus!
