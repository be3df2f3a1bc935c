//! Scenario tests for the connection state machine: one opened connection as
//! all clones of its handle observe it together.

use tokio_rusqlite::{Error, Fault, Reply, Connection, Work};

#[test]
fn open_in_memory_test() {
    let conn = Connection::open_in_memory();
    assert!(conn.is_ok());
}

#[test]
fn open_failure_test() {
    // A failing initializer yields no connection; the error is the initializer's own.
    let out = Connection::open(Err(Fault { code: 14 }));
    match out {
        Ok(_) => panic!("a failed initializer must not yield a connection"),
        Err(f) => assert_eq!(f, Fault { code: 14 }),
    }
}

#[test]
fn call_success_test() {
    // A unit that creates a table and reports the number of changed rows: 0.
    let mut conn = Connection::open_in_memory().unwrap();
    let result = conn.call(Work::Yield(0));
    assert_eq!(0, result.unwrap());
}

#[test]
fn call_unwrap_success_test() {
    let mut conn = Connection::open_in_memory().unwrap();
    let result = conn.call_unwrap(Work::Yield(0));
    assert_eq!(Reply::Value(0), result);
}

#[test]
fn call_failure_test() {
    // An intentionally invalid unit fails; the underlying cause comes through.
    let mut conn = Connection::open_in_memory().unwrap();
    let result = conn.call(Work::Fail(1));
    assert!(match result.unwrap_err() {
        Error::Rusqlite(e) => e == Fault { code: 1 },
        _ => false,
    });
}

#[test]
fn close_success_test() {
    let mut conn = Connection::open_in_memory().unwrap();
    assert!(conn.close().is_ok());
}

#[test]
fn double_close_test() {
    // The second close stands for a close through a clone made before the
    // first one: it must also report success.
    let mut conn = Connection::open_in_memory().unwrap();
    assert!(conn.close().is_ok());
    assert!(conn.close().is_ok());
}

#[test]
fn close_call_test() {
    // After a successful close, a call through any clone is rejected.
    let mut conn = Connection::open_in_memory().unwrap();
    assert!(conn.close().is_ok());
    let result = conn.call(Work::Yield(1));
    assert!(matches!(result.unwrap_err(), Error::ConnectionClosed));
}

#[test]
#[should_panic]
fn close_call_unwrap_test() {
    // `call_unwrap` trades safety for convenience: used on a closed
    // connection, outside its contract, it halts instead of reporting.
    let mut conn = Connection::open_in_memory().unwrap();
    assert!(conn.close().is_ok());
    conn.call_unwrap(Work::Yield(1));
}

#[test]
fn close_failure_test() {
    // A unit leaves a sub-resource held, so close must fail and hand back a
    // still-usable connection; releasing the sub-resource lets a retry
    // succeed.
    let mut conn = Connection::open_in_memory().unwrap();
    conn.call(Work::Yield(0)).unwrap();
    conn.call(Work::Pin).unwrap();

    assert!(match conn.close().unwrap_err() {
        Error::Close(((), e)) => e == Fault { code: 5 },
        _ => false,
    });

    // The connection inside the failed close is usable for further work.
    assert_eq!(conn.call(Work::Yield(7)).unwrap(), 7);
    conn.call(Work::Unpin).unwrap();
    assert!(conn.close().is_ok());
}

#[test]
fn test_ergonomic_errors() {
    // An application-defined failure is carried through opaquely.
    let mut conn = Connection::open_in_memory().unwrap();
    let res = conn.call(Work::Abort(42)).unwrap_err();
    assert!(matches!(res, Error::Other(42)));
}

#[test]
fn calls_run_in_order_test() {
    // Sequentially issued units all execute, each exactly once, in
    // submission order, whatever their individual outcomes.
    let mut conn = Connection::open_in_memory().unwrap();
    assert_eq!(conn.call(Work::Yield(3)).unwrap(), 3);
    assert!(conn.call(Work::Fail(9)).is_err());
    assert_eq!(conn.call(Work::Yield(4)).unwrap(), 4);
    assert!(conn.close().is_ok());
}
