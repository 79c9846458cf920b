use deadpool_tiberius::deadpool::managed::PoolError;
use tx_guard::{Transaction, TransactionError};

#[test]
fn driver_failures_are_wrapped_with_their_cause() {
    let cause = tiberius::error::Error::Utf8;
    let wrapped = TransactionError::from(cause);
    assert!(matches!(wrapped, TransactionError::Tiberius(tiberius::error::Error::Utf8)));
}

#[test]
fn pool_failures_are_wrapped_with_their_cause() {
    let cause: PoolError<tiberius::error::Error> = PoolError::Closed;
    let wrapped = TransactionError::from(cause);
    assert!(matches!(wrapped, TransactionError::Pool(PoolError::Closed)));
}

#[test]
fn misuse_is_reported_as_missing_connection() {
    let mut tran: Transaction<u8> = Transaction::default();
    assert!(matches!(tran.commit(), Err(TransactionError::MissingConnection)));
}
