//! Model of the exclusive resource and of the units of work that run on it.
//!
//! The worker owns one resource at a time and is the only code that ever
//! touches it. The protocol does not interpret what a unit of work does to
//! the resource; for the verified core the resource records exactly what the
//! protocol guarantees about it: which units ran, in which order, and whether
//! a close can currently succeed.

use vstd::prelude::*;

verus! {

/// Fault code reported when the resource cannot close because sub-resources
/// are still held.
pub const FAULT_BUSY: u64 = 5;

/// An error native to the resource, as the protocol carries it: an opaque,
/// comparable code.
#[derive(Clone, Copy, Debug, PartialEq, Eq, Structural)]
pub struct Fault {
    /// The resource's own error code.
    pub code: u64,
}

/// One unit of work, consumed exactly once by the worker. The protocol never
/// looks inside a unit; these variants span the outcomes a unit can have and
/// the one way a unit can affect a later close.
#[derive(Clone, Copy, Debug, PartialEq, Eq, Structural)]
pub enum Work {
    /// Completes and reports the given value.
    Yield(u64),
    /// Fails with a resource-level fault of the given code.
    Fail(u64),
    /// Fails with an application-defined cause of the given value.
    Abort(u64),
    /// Completes, but leaves a sub-resource held: close fails until released.
    Pin,
    /// Completes and releases every held sub-resource.
    Unpin,
}

/// What a unit of work reports through its completion channel.
#[derive(Clone, Copy, Debug, PartialEq, Eq, Structural)]
pub enum Reply {
    /// The unit completed with this value.
    Value(u64),
    /// The unit failed with a resource-level fault.
    Fault(Fault),
    /// The unit failed with an application-defined cause.
    App(u64),
}

/// The resource as specifications see it.
pub struct ResourceModel {
    /// Every unit that has executed, in execution order.
    pub log: Seq<Work>,
    /// How many sub-resources are held; close fails while any remain.
    pub pinned: u64,
}

/// The exclusive resource the worker owns.
pub struct Resource {
    log: Vec<Work>,
    pinned: u64,
}

impl View for Resource {
    type V = ResourceModel;

    closed spec fn view(&self) -> ResourceModel {
        ResourceModel { log: self.log@, pinned: self.pinned }
    }
}

/// A resource fresh from a successful open: nothing ran, nothing held.
pub open spec fn fresh_resource() -> ResourceModel {
    ResourceModel { log: Seq::empty(), pinned: 0 }
}

/// How many sub-resources are held after a unit runs.
pub open spec fn pinned_after(pinned: u64, w: Work) -> u64 {
    match w {
        Work::Pin => if pinned < u64::MAX {
            (pinned + 1) as u64
        } else {
            pinned
        },
        Work::Unpin => 0,
        _ => pinned,
    }
}

/// The resource after a unit runs on it: the unit is logged exactly once.
pub open spec fn apply_model(r: ResourceModel, w: Work) -> ResourceModel {
    ResourceModel { log: r.log.push(w), pinned: pinned_after(r.pinned, w) }
}

/// What a unit reports; a function of the unit alone.
pub open spec fn reply_of(w: Work) -> Reply {
    match w {
        Work::Yield(v) => Reply::Value(v),
        Work::Fail(c) => Reply::Fault(Fault { code: c }),
        Work::Abort(c) => Reply::App(c),
        Work::Pin => Reply::Value(0),
        Work::Unpin => Reply::Value(0),
    }
}

/// Whether a close attempt on the resource succeeds.
pub open spec fn close_ok(r: ResourceModel) -> bool {
    r.pinned == 0
}

/// The fault a failed close reports.
pub open spec fn busy_fault() -> Fault {
    Fault { code: FAULT_BUSY }
}

impl Resource {
    /// Open a fresh resource.
    pub fn new() -> (r: Resource)
        ensures
            r@ == fresh_resource(),
    {
        let r = Resource { log: Vec::new(), pinned: 0 };
        proof {
            assert(r@.log =~= fresh_resource().log);
        }
        r
    }

    /// Run one unit of work with exclusive access: the unit is logged exactly
    /// once and its reply is handed back for delivery.
    pub fn apply(&mut self, w: Work) -> (out: Reply)
        ensures
            final(self)@ == apply_model(old(self)@, w),
            out == reply_of(w),
    {
        self.log.push(w);
        match w {
            Work::Yield(v) => Reply::Value(v),
            Work::Fail(c) => Reply::Fault(Fault { code: c }),
            Work::Abort(c) => Reply::App(c),
            Work::Pin => {
                if self.pinned < u64::MAX {
                    self.pinned = self.pinned + 1;
                }
                Reply::Value(0)
            },
            Work::Unpin => {
                self.pinned = 0;
                Reply::Value(0)
            },
        }
    }

    /// Attempt to close the resource. On failure the untouched resource comes
    /// back with the fault, so the close can be retried.
    pub fn close(self) -> (out: Result<(), (Resource, Fault)>)
        ensures
            close_ok(self@) ==> out is Ok,
            !close_ok(self@) ==> (out matches Err(p) && p.0@ == self@ && p.1 == busy_fault()),
    {
        if self.pinned == 0 {
            Ok(())
        } else {
            Err((self, Fault { code: FAULT_BUSY }))
        }
    }

    /// How many sub-resources are currently held.
    pub fn pinned(&self) -> (n: u64)
        ensures
            n == self@.pinned,
    {
        self.pinned
    }
}

} // verus!
