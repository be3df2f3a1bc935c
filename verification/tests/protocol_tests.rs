//! Tests for the worker's side of the protocol: draining a message queue
//! with exclusive ownership of the resource.

use tokio_rusqlite::protocol::{run_worker, Message};
use tokio_rusqlite::{Fault, Reply, Resource, Work};

#[test]
fn worker_runs_units_in_order() {
    let msgs = vec![
        Message::Execute(Work::Yield(1)),
        Message::Execute(Work::Fail(2)),
        Message::Execute(Work::Yield(3)),
    ];
    let run = run_worker(Resource::new(), &msgs);
    assert_eq!(
        run.executed,
        vec![Work::Yield(1), Work::Fail(2), Work::Yield(3)]
    );
    assert_eq!(
        run.replies,
        vec![
            Reply::Value(1),
            Reply::Fault(Fault { code: 2 }),
            Reply::Value(3),
        ]
    );
    assert!(run.close_replies.is_empty());
    assert!(run.resource.is_some());
}

#[test]
fn worker_waits_on_empty_queue() {
    let msgs: Vec<Message> = Vec::new();
    let run = run_worker(Resource::new(), &msgs);
    assert!(run.executed.is_empty());
    assert!(run.replies.is_empty());
    assert!(run.close_replies.is_empty());
    assert!(run.resource.is_some());
}

#[test]
fn successful_close_drops_pending_messages() {
    let msgs = vec![
        Message::Execute(Work::Yield(1)),
        Message::Close,
        Message::Execute(Work::Yield(2)),
        Message::Close,
    ];
    let run = run_worker(Resource::new(), &msgs);
    assert_eq!(run.executed, vec![Work::Yield(1)]);
    assert_eq!(run.replies, vec![Reply::Value(1)]);
    assert_eq!(run.close_replies, vec![Ok(())]);
    assert!(run.resource.is_none());
}

#[test]
fn failed_close_keeps_the_worker_running() {
    let msgs = vec![
        Message::Execute(Work::Pin),
        Message::Close,
        Message::Execute(Work::Unpin),
        Message::Close,
    ];
    let run = run_worker(Resource::new(), &msgs);
    assert_eq!(run.executed, vec![Work::Pin, Work::Unpin]);
    assert_eq!(
        run.close_replies,
        vec![Err(Fault { code: 5 }), Ok(())]
    );
    assert!(run.resource.is_none());
}

#[test]
fn resource_logs_each_unit_once() {
    let mut r = Resource::new();
    assert_eq!(r.apply(Work::Pin), Reply::Value(0));
    assert_eq!(r.pinned(), 1);
    assert_eq!(r.apply(Work::Pin), Reply::Value(0));
    assert_eq!(r.pinned(), 2);
    assert_eq!(r.apply(Work::Unpin), Reply::Value(0));
    assert_eq!(r.pinned(), 0);
    assert!(r.close().is_ok());
}

#[test]
fn busy_resource_returns_itself_on_close() {
    let mut r = Resource::new();
    r.apply(Work::Pin);
    let (mut back, fault) = r.close().unwrap_err();
    assert_eq!(fault, Fault { code: 5 });
    assert_eq!(back.pinned(), 1);
    back.apply(Work::Unpin);
    assert!(back.close().is_ok());
}
