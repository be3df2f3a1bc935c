//! The worker's side of the protocol: one thread owns the resource and drains
//! the work queue, one message at a time.
//!
//! Messages sent sequentially through one handle stand in the queue in
//! submission order. Across independently racing clones only the queue's
//! arrival order is defined, so everything here speaks of the queue as it
//! arrived.

use vstd::prelude::*;

use crate::resource::{
    apply_model, busy_fault, close_ok, reply_of, Fault, Reply, Resource, ResourceModel, Work,
};

verus! {

/// A message on the work queue.
#[derive(Clone, Copy, Debug, PartialEq, Eq, Structural)]
pub enum Message {
    /// Run this unit of work, then report its reply.
    Execute(Work),
    /// Attempt to close the resource and report the outcome.
    Close,
}

/// Everything observable about one run of the worker over a queue.
#[verifier::ext_equal]
pub struct RunModel {
    /// The units that ran, in execution order.
    pub executed: Seq<Work>,
    /// The reply each executed unit delivered, in the same order.
    pub replies: Seq<Reply>,
    /// The outcome of each close attempt the worker reached, in order.
    pub close_replies: Seq<Result<(), Fault>>,
    /// The resource the worker still owns; `None` once a close succeeded.
    pub resource: Option<ResourceModel>,
}

/// The worker drains the queue front to back. A unit runs to completion
/// before the next message is even read. A close attempt either succeeds —
/// the worker stops, and every message still queued is dropped unread — or
/// fails, in which case the worker keeps the resource and carries on.
pub open spec fn run_model(r: ResourceModel, msgs: Seq<Message>) -> RunModel
    decreases msgs.len(),
{
    if msgs.len() == 0 {
        RunModel {
            executed: Seq::empty(),
            replies: Seq::empty(),
            close_replies: Seq::empty(),
            resource: Some(r),
        }
    } else {
        match msgs[0] {
            Message::Execute(w) => {
                let rest = run_model(apply_model(r, w), msgs.skip(1));
                RunModel {
                    executed: seq![w] + rest.executed,
                    replies: seq![reply_of(w)] + rest.replies,
                    close_replies: rest.close_replies,
                    resource: rest.resource,
                }
            },
            Message::Close => {
                if close_ok(r) {
                    RunModel {
                        executed: Seq::empty(),
                        replies: Seq::empty(),
                        close_replies: seq![Result::<(), Fault>::Ok(())],
                        resource: None,
                    }
                } else {
                    let rest = run_model(r, msgs.skip(1));
                    RunModel {
                        executed: rest.executed,
                        replies: rest.replies,
                        close_replies: seq![Result::<(), Fault>::Err(busy_fault())]
                            + rest.close_replies,
                        resource: rest.resource,
                    }
                }
            },
        }
    }
}

/// Before any close, every submitted unit executes exactly once, in
/// submission order, and its reply is delivered in that same order; the
/// worker reaches no close and keeps the resource throughout.
pub proof fn lemma_units_run_in_order(r: ResourceModel, msgs: Seq<Message>)
    requires
        forall|i: int| 0 <= i < msgs.len() ==> msgs[i] is Execute,
    ensures
        run_model(r, msgs).executed.len() == msgs.len(),
        forall|i: int|
            0 <= i < msgs.len() ==> run_model(r, msgs).executed[i] == msgs[i]->Execute_0,
        run_model(r, msgs).replies.len() == msgs.len(),
        forall|i: int|
            0 <= i < msgs.len() ==> run_model(r, msgs).replies[i] == reply_of(
                msgs[i]->Execute_0,
            ),
        run_model(r, msgs).close_replies =~= Seq::<Result<(), Fault>>::empty(),
        run_model(r, msgs).resource is Some,
    decreases msgs.len(),
{
    if msgs.len() > 0 {
        let w = msgs[0]->Execute_0;
        let tail = msgs.skip(1);
        assert forall|i: int| 0 <= i < tail.len() implies tail[i] is Execute by {
            assert(tail[i] == msgs[i + 1]);
        }
        lemma_units_run_in_order(apply_model(r, w), tail);
        assert forall|i: int|
            0 <= i < msgs.len() implies run_model(r, msgs).executed[i] == msgs[i]->Execute_0
            && run_model(r, msgs).replies[i] == reply_of(msgs[i]->Execute_0) by {
            if i > 0 {
                assert(tail[i - 1] == msgs[i]);
            }
        }
    }
}

/// Whatever the queue holds, every unit that executes gets exactly one
/// delivered outcome — its own reply — and the outcomes arrive in execution
/// order: no result is lost, duplicated, or attributed to another unit.
pub proof fn lemma_replies_match_units(r: ResourceModel, msgs: Seq<Message>)
    ensures
        run_model(r, msgs).replies.len() == run_model(r, msgs).executed.len(),
        forall|i: int|
            0 <= i < run_model(r, msgs).executed.len() ==> run_model(r, msgs).replies[i]
                == reply_of(run_model(r, msgs).executed[i]),
    decreases msgs.len(),
{
    if msgs.len() > 0 {
        match msgs[0] {
            Message::Execute(w) => {
                lemma_replies_match_units(apply_model(r, w), msgs.skip(1));
            },
            Message::Close => {
                if !close_ok(r) {
                    lemma_replies_match_units(r, msgs.skip(1));
                }
            },
        }
    }
}

/// Once a close has succeeded, the worker is gone: whatever is queued behind
/// the successful close is dropped unread and changes nothing.
pub proof fn lemma_close_drops_pending(r: ResourceModel, msgs: Seq<Message>, extra: Seq<Message>)
    requires
        run_model(r, msgs).resource is None,
    ensures
        run_model(r, msgs + extra) =~= run_model(r, msgs),
    decreases msgs.len(),
{
    assert(msgs.len() > 0);
    assert((msgs + extra)[0] == msgs[0]);
    match msgs[0] {
        Message::Execute(w) => {
            assert((msgs + extra).skip(1) =~= msgs.skip(1) + extra);
            lemma_close_drops_pending(apply_model(r, w), msgs.skip(1), extra);
        },
        Message::Close => {
            if !close_ok(r) {
                assert((msgs + extra).skip(1) =~= msgs.skip(1) + extra);
                lemma_close_drops_pending(r, msgs.skip(1), extra);
            }
        },
    }
}

/// A failed close stops nothing: the worker reports the fault, keeps the
/// resource untouched, and processes the rest of the queue exactly as if the
/// failed attempt had never been made.
pub proof fn lemma_failed_close_continues(r: ResourceModel, msgs: Seq<Message>)
    requires
        msgs.len() > 0,
        msgs[0] is Close,
        !close_ok(r),
    ensures
        run_model(r, msgs).executed == run_model(r, msgs.skip(1)).executed,
        run_model(r, msgs).replies == run_model(r, msgs.skip(1)).replies,
        run_model(r, msgs).close_replies == seq![Result::<(), Fault>::Err(busy_fault())]
            + run_model(r, msgs.skip(1)).close_replies,
        run_model(r, msgs).resource == run_model(r, msgs.skip(1)).resource,
{
}

/// The worker never stops on its own: if it no longer owns the resource, some
/// close request in the queue succeeded.
pub proof fn lemma_stop_only_after_close(r: ResourceModel, msgs: Seq<Message>)
    requires
        run_model(r, msgs).resource is None,
    ensures
        exists|i: int| 0 <= i < msgs.len() && msgs[i] is Close,
    decreases msgs.len(),
{
    assert(msgs.len() > 0);
    match msgs[0] {
        Message::Execute(w) => {
            lemma_stop_only_after_close(apply_model(r, w), msgs.skip(1));
            let j = choose|j: int| 0 <= j < msgs.skip(1).len() && msgs.skip(1)[j] is Close;
            assert(msgs[j + 1] is Close);
        },
        Message::Close => {
            if !close_ok(r) {
                lemma_stop_only_after_close(r, msgs.skip(1));
                let j = choose|j: int| 0 <= j < msgs.skip(1).len() && msgs.skip(1)[j] is Close;
                assert(msgs[j + 1] is Close);
            } else {
                assert(msgs[0] is Close);
            }
        },
    }
}

/// A prefix of observations composed with the run that follows them.
pub open spec fn extend_run(
    executed: Seq<Work>,
    replies: Seq<Reply>,
    close_replies: Seq<Result<(), Fault>>,
    rest: RunModel,
) -> RunModel {
    RunModel {
        executed: executed + rest.executed,
        replies: replies + rest.replies,
        close_replies: close_replies + rest.close_replies,
        resource: rest.resource,
    }
}

/// Everything a finished worker hands back, as executable values.
pub struct Run {
    /// The units that ran, in execution order.
    pub executed: Vec<Work>,
    /// The reply each executed unit delivered, in the same order.
    pub replies: Vec<Reply>,
    /// The outcome of each close attempt the worker reached, in order.
    pub close_replies: Vec<Result<(), Fault>>,
    /// The resource the worker still owns; `None` once a close succeeded.
    pub resource: Option<Resource>,
}

impl View for Run {
    type V = RunModel;

    open spec fn view(&self) -> RunModel {
        RunModel {
            executed: self.executed@,
            replies: self.replies@,
            close_replies: self.close_replies@,
            resource: match self.resource {
                Some(r) => Some(r@),
                None => None,
            },
        }
    }
}

/// The worker loop: own the resource exclusively, drain the queue front to
/// back, run each unit to completion before reading the next message, and
/// stop on the first successful close — dropping whatever is still queued.
#[verifier::loop_isolation(false)]
pub fn run_worker(r: Resource, msgs: &Vec<Message>) -> (out: Run)
    ensures
        out@ =~= run_model(r@, msgs@),
{
    let ghost r0 = r@;
    let mut res = r;
    let mut executed: Vec<Work> = Vec::new();
    let mut replies: Vec<Reply> = Vec::new();
    let mut close_replies: Vec<Result<(), Fault>> = Vec::new();
    let mut i: usize = 0;
    proof {
        assert(msgs@.skip(0) =~= msgs@);
        assert(run_model(r0, msgs@) =~= extend_run(
            executed@,
            replies@,
            close_replies@,
            run_model(res@, msgs@.skip(0)),
        ));
    }
    while i < msgs.len()
        invariant
            i <= msgs@.len(),
            run_model(r0, msgs@) =~= extend_run(
                executed@,
                replies@,
                close_replies@,
                run_model(res@, msgs@.skip(i as int)),
            ),
        decreases msgs@.len() - i,
    {
        proof {
            assert(msgs@.skip(i as int)[0] == msgs@[i as int]);
            assert(msgs@.skip(i as int).skip(1) =~= msgs@.skip(i as int + 1));
        }
        match msgs[i] {
            Message::Execute(w) => {
                let rep = res.apply(w);
                executed.push(w);
                replies.push(rep);
            },
            Message::Close => {
                match res.close() {
                    Ok(()) => {
                        close_replies.push(Ok(()));
                        proof {
                            assert(run_model(r0, msgs@) =~= RunModel {
                                executed: executed@,
                                replies: replies@,
                                close_replies: close_replies@,
                                resource: None,
                            });
                        }
                        return Run { executed, replies, close_replies, resource: None };
                    },
                    Err(p) => {
                        res = p.0;
                        close_replies.push(Err(p.1));
                    },
                }
            },
        }
        i = i + 1;
    }
    Run { executed, replies, close_replies, resource: Some(res) }
}

} // verus!
