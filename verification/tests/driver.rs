use coffee_orders::driver::{reply_from, DriverFault};
use coffee_orders::repository::{finish_get, finish_update, RepoError};

#[test]
fn a_result_is_kept() {
    assert_eq!(reply_from::<u64>(Ok(3)), Ok(3));
    assert_eq!(reply_from::<String>(Ok("row".to_string())), Ok("row".to_string()));
}

#[test]
fn pool_errors_are_named() {
    assert_eq!(reply_from::<u64>(Err(sqlx::Error::PoolTimedOut)), Err(DriverFault::PoolTimedOut));
    assert_eq!(reply_from::<u64>(Err(sqlx::Error::PoolClosed)), Err(DriverFault::PoolClosed));
}

#[test]
fn connection_errors_are_named() {
    let broken = std::io::Error::new(std::io::ErrorKind::ConnectionReset, "reset");
    assert_eq!(reply_from::<u64>(Err(sqlx::Error::Io(broken))), Err(DriverFault::Io));
    assert_eq!(
        reply_from::<u64>(Err(sqlx::Error::Tls("handshake".into()))),
        Err(DriverFault::Tls)
    );
}

#[test]
fn missing_row_is_named() {
    assert_eq!(reply_from::<u64>(Err(sqlx::Error::RowNotFound)), Err(DriverFault::RowNotFound));
}

#[test]
fn other_errors_are_named_other() {
    assert_eq!(
        reply_from::<u64>(Err(sqlx::Error::Protocol("garbled".to_string()))),
        Err(DriverFault::Other)
    );
    assert_eq!(
        reply_from::<u64>(Err(sqlx::Error::ColumnNotFound("total".to_string()))),
        Err(DriverFault::Other)
    );
    assert_eq!(reply_from::<u64>(Err(sqlx::Error::WorkerCrashed)), Err(DriverFault::Other));
}

#[test]
fn driver_errors_become_failures() {
    assert_eq!(
        finish_update(reply_from(Err(sqlx::Error::PoolTimedOut))),
        Err(RepoError::StorageUnavailable)
    );
    assert_eq!(
        finish_update(reply_from(Err(sqlx::Error::Protocol("garbled".to_string())))),
        Err(RepoError::QueryFailed)
    );
    assert_eq!(finish_update(reply_from(Ok(1))), Ok(1));
    assert_eq!(finish_get(1, reply_from(Err(sqlx::Error::RowNotFound))), Err(RepoError::NotFound));
}
