use vstd::prelude::*;

verus! {

/// Declares `tiberius::error::Error`, the database driver's failure type,
/// so that values of it can be carried and wrapped. It is treated as an
/// opaque payload: nothing is assumed about its contents.
#[verifier::external_type_specification]
#[verifier::external_body]
pub struct ExTiberiusError(tiberius::error::Error);

/// Declares `deadpool::managed::PoolError`, the connection pool's checkout
/// failure type, so that values of it can be carried and wrapped. It is
/// treated as an opaque payload: nothing is assumed about its contents.
#[verifier::external_type_specification]
#[verifier::external_body]
#[verifier::reject_recursive_types(E)]
pub struct ExPoolError<E>(deadpool_tiberius::deadpool::managed::PoolError<E>);

/// The closed set of failures surfaced by this library.
///
/// Driver and pool failures are passed through with their original cause
/// wrapped, never discarded, so a caller can tell a rejected statement from
/// an exhausted pool from a misused transaction.
#[derive(Debug)]
pub enum TransactionError {
    /// A failure reported by the database driver while a begin, terminal,
    /// or caller-issued statement ran.
    Tiberius(tiberius::error::Error),
    /// A failure reported by the connection pool while a connection was
    /// being checked out.
    Pool(deadpool_tiberius::deadpool::managed::PoolError<tiberius::error::Error>),
    /// An operation was attempted on a transaction whose connection slot is
    /// empty: the transaction was already terminated, or never began.
    MissingConnection,
}

impl From<tiberius::error::Error> for TransactionError {
    fn from(e: tiberius::error::Error) -> Self {
        TransactionError::Tiberius(e)
    }
}

impl vstd::std_specs::convert::FromSpecImpl<tiberius::error::Error> for TransactionError {
    open spec fn obeys_from_spec() -> bool {
        true
    }

    open spec fn from_spec(e: tiberius::error::Error) -> TransactionError {
        TransactionError::Tiberius(e)
    }
}

impl From<deadpool_tiberius::deadpool::managed::PoolError<tiberius::error::Error>> for TransactionError {
    fn from(e: deadpool_tiberius::deadpool::managed::PoolError<tiberius::error::Error>) -> Self {
        TransactionError::Pool(e)
    }
}

impl vstd::std_specs::convert::FromSpecImpl<deadpool_tiberius::deadpool::managed::PoolError<tiberius::error::Error>> for TransactionError {
    open spec fn obeys_from_spec() -> bool {
        true
    }

    open spec fn from_spec(e: deadpool_tiberius::deadpool::managed::PoolError<tiberius::error::Error>) -> TransactionError {
        TransactionError::Pool(e)
    }
}

} // verus!
