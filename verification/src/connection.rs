//! The front end's observable state machine: one opened connection, from a
//! caller's point of view.
//!
//! The real front-end handle is cheaply cloneable; every clone shares one
//! worker and one resource. A `Connection` models what all those clones observe
//! together: each `call` or `close` below stands for an invocation through
//! some clone. Closing through one clone is therefore visible to every other.

use vstd::prelude::*;

use crate::error::Error;
use crate::protocol::{run_model, Message};
use crate::resource::{
    apply_model, busy_fault, close_ok, fresh_resource, reply_of, Fault, Reply, Resource,
    ResourceModel, Work,
};

verus! {

/// The errors a connection operation reports. The handle inside a failed close
/// is `()` here: the connection itself remains usable for the retry, which its
/// contracts state directly.
pub type ConnectionError = Error<(), Fault, u64>;

/// What all clones of one opened handle observe together.
pub struct Connection {
    live: Option<Resource>,
}

/// The connection as specifications see it.
pub struct ConnectionModel {
    /// The resource the worker still owns; `None` once a close succeeded.
    pub live: Option<ResourceModel>,
}

impl View for Connection {
    type V = ConnectionModel;

    closed spec fn view(&self) -> ConnectionModel {
        ConnectionModel {
            live: match self.live {
                Some(r) => Some(r@),
                None => None,
            },
        }
    }
}

/// What `open` yields for a given initializer outcome: a live connection exactly
/// when the initializer succeeded, and the initializer's own error otherwise.
pub open spec fn open_step(init: Result<ResourceModel, Fault>) -> Result<ConnectionModel, Fault> {
    match init {
        Ok(r) => Ok(ConnectionModel { live: Some(r) }),
        Err(f) => Err(f),
    }
}

/// What one `call` does: on a live connection the unit runs exactly once and its
/// reply comes back; on a closed one nothing runs and the caller learns
/// `ConnectionClosed`.
pub open spec fn call_step(s: ConnectionModel, w: Work) -> (ConnectionModel, Result<u64, ConnectionError>) {
    match s.live {
        None => (s, Err(Error::ConnectionClosed)),
        Some(r) => (
            ConnectionModel { live: Some(apply_model(r, w)) },
            reply_result(reply_of(w)),
        ),
    }
}

/// How a unit's reply surfaces from `call`.
pub open spec fn reply_result(rep: Reply) -> Result<u64, ConnectionError> {
    match rep {
        Reply::Value(v) => Ok(v),
        Reply::Fault(f) => Err(Error::Rusqlite(f)),
        Reply::App(c) => Err(Error::Other(c)),
    }
}

/// What one `close` does: on an already-closed connection it trivially succeeds;
/// on a live one it succeeds and retires the resource, unless sub-resources
/// are held, in which case the connection is left exactly as it was.
pub open spec fn close_step(s: ConnectionModel) -> (ConnectionModel, Result<(), ConnectionError>) {
    match s.live {
        None => (s, Ok(())),
        Some(r) => if close_ok(r) {
            (ConnectionModel { live: None }, Ok(()))
        } else {
            (s, Err(Error::Close(((), busy_fault()))))
        },
    }
}

/// The units a connection's resource has executed, in order.
pub open spec fn connection_log(s: ConnectionModel) -> Seq<Work> {
    match s.live {
        Some(r) => r.log,
        None => Seq::empty(),
    }
}

/// The connection after a sequence of `call`s, issued one after the other.
pub open spec fn run_calls(s: ConnectionModel, ws: Seq<Work>) -> ConnectionModel
    decreases ws.len(),
{
    if ws.len() == 0 {
        s
    } else {
        run_calls(call_step(s, ws[0]).0, ws.skip(1))
    }
}

/// On a live connection, sequentially issued calls — through this handle or any
/// clone of it — run their units exactly once each, in submission order: the
/// resource's log grows by exactly the submitted sequence, and the connection
/// stays live.
pub proof fn lemma_calls_run_in_order(s: ConnectionModel, ws: Seq<Work>)
    requires
        s.live is Some,
    ensures
        run_calls(s, ws).live is Some,
        connection_log(run_calls(s, ws)) =~= connection_log(s) + ws,
    decreases ws.len(),
{
    if ws.len() == 0 {
    } else {
        let s1 = call_step(s, ws[0]).0;
        lemma_calls_run_in_order(s1, ws.skip(1));
        assert(connection_log(s1) =~= connection_log(s).push(ws[0]));
        assert(connection_log(s).push(ws[0]) + ws.skip(1) =~= connection_log(s) + ws);
    }
}

/// A successful close is permanent and visible to every clone: each later
/// call reports `ConnectionClosed` without running anything, and each later
/// close succeeds, both leaving the connection unchanged.
pub proof fn lemma_close_is_permanent(s: ConnectionModel, w: Work)
    requires
        close_step(s).1 is Ok,
    ensures
        close_step(s).0.live is None,
        call_step(close_step(s).0, w).0 == close_step(s).0,
        call_step(close_step(s).0, w).1 == Err::<u64, ConnectionError>(Error::ConnectionClosed),
        close_step(close_step(s).0).0 == close_step(s).0,
        close_step(close_step(s).0).1 is Ok,
{
}

/// A failed close is recoverable: it reports the fault, leaves the connection
/// exactly as it was — so any pending or future call still runs normally —
/// and once the held sub-resources are released, a retried close succeeds.
pub proof fn lemma_failed_close_recoverable(s: ConnectionModel, w: Work)
    requires
        close_step(s).1 is Err,
    ensures
        s.live is Some,
        close_step(s).0 == s,
        close_step(s).1 == Err::<(), ConnectionError>(Error::Close(((), busy_fault()))),
        call_step(s, w).1 == reply_result(reply_of(w)),
        close_step(call_step(s, Work::Unpin).0).1 is Ok,
        close_step(call_step(s, Work::Unpin).0).0.live is None,
{
}

/// What a caller observes through the connection is what the worker delivers:
/// a call surfaces the reply of its unit exactly as the worker ran it, a
/// close request surfaces the worker's close outcome, and both views leave
/// the same resource behind.
pub proof fn lemma_connection_agrees_with_worker(s: ConnectionModel, w: Work)
    requires
        s.live is Some,
    ensures
        run_model(s.live->0, seq![Message::Execute(w)]).executed =~= seq![w],
        run_model(s.live->0, seq![Message::Execute(w)]).replies =~= seq![reply_of(w)],
        run_model(s.live->0, seq![Message::Execute(w)]).resource == call_step(s, w).0.live,
        call_step(s, w).1 == reply_result(reply_of(w)),
        run_model(s.live->0, seq![Message::Close]).resource == close_step(s).0.live,
        run_model(s.live->0, seq![Message::Close]).close_replies[0] is Ok <==> close_step(
            s,
        ).1 is Ok,
{
    let r = s.live->0;
    assert(seq![Message::Execute(w)].skip(1) =~= Seq::<Message>::empty());
    assert(seq![Message::Close].skip(1) =~= Seq::<Message>::empty());
    assert(run_model(apply_model(r, w), Seq::empty()).resource == Some(apply_model(r, w)));
    if !close_ok(r) {
        assert(run_model(r, Seq::empty()).resource == Some(r));
        assert(s.live == Some(r));
    }
}

impl Connection {
    /// Open a connection from the initializer's outcome. The initializer runs
    /// once, before any message is processed; if it fails, no usable connection
    /// exists and the caller sees the initializer's own error.
    pub fn open(init: Result<Resource, Fault>) -> (out: Result<Connection, Fault>)
        ensures
            init matches Ok(r) ==> (out matches Ok(s) && s@ == open_step(Ok(r@)).unwrap()),
            init matches Err(f) ==> out == Err::<Connection, Fault>(f),
    {
        match init {
            Ok(r) => Ok(Connection { live: Some(r) }),
            Err(f) => Err(f),
        }
    }

    /// Open a connection on a fresh in-memory resource, which always succeeds.
    pub fn open_in_memory() -> (out: Result<Connection, Fault>)
        ensures
            out matches Ok(s) && s@.live == Some(fresh_resource()),
    {
        Self::open(Ok(Resource::new()))
    }

    /// Submit one unit of work and wait for its outcome.
    pub fn call(&mut self, w: Work) -> (out: Result<u64, ConnectionError>)
        ensures
            final(self)@ == call_step(old(self)@, w).0,
            out == call_step(old(self)@, w).1,
    {
        match &mut self.live {
            None => Err(Error::ConnectionClosed),
            Some(r) => {
                let rep = r.apply(w);
                match rep {
                    Reply::Value(v) => Ok(v),
                    Reply::Fault(f) => Err(Error::Rusqlite(f)),
                    Reply::App(c) => Err(Error::Other(c)),
                }
            },
        }
    }

    /// Submit one unit of work that reports its raw reply, for callers that
    /// never close. On a closed connection this is a fatal, unrecoverable
    /// failure, which the contract rules out; an unverified caller that
    /// bypasses the contract halts instead of getting a value back.
    pub fn call_unwrap(&mut self, w: Work) -> (out: Reply)
        requires
            old(self)@.live is Some,
        ensures
            final(self)@.live == Some(apply_model(old(self)@.live->0, w)),
            out == reply_of(w),
    {
        match &mut self.live {
            None => unreached(),
            Some(r) => r.apply(w),
        }
    }

    /// Request that the resource be closed. Succeeds trivially when the
    /// worker is already gone, so a close through any clone after a
    /// successful one also reports success.
    pub fn close(&mut self) -> (out: Result<(), ConnectionError>)
        ensures
            final(self)@ == close_step(old(self)@).0,
            out == close_step(old(self)@).1,
    {
        match self.live.take() {
            None => Ok(()),
            Some(r) => match r.close() {
                Ok(()) => Ok(()),
                Err(p) => {
                    self.live = Some(p.0);
                    Err(Error::Close(((), p.1)))
                },
            },
        }
    }
}

} // verus!
