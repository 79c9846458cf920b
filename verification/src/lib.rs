//! A scoped-lifetime guard for a single database transaction.
//!
//! A [`transaction::Transaction`] owns one checked-out pooled connection for
//! the duration of one transaction and guarantees that exactly one terminal
//! statement (commit or rollback) is issued for it, however control leaves
//! the scope.

pub mod error;
pub mod transaction;

pub use error::TransactionError;
pub use transaction::Statement;
pub use transaction::Transaction;
