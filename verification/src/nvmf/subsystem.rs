//! Subsystems: named groups of exported namespaces, each with a lifecycle
//! state that the runtime holds.
//!
//! The library keeps no copy of a subsystem's state. It forwards each
//! request, and the runtime accepts or rejects it; a rejection reaches the
//! caller with the runtime's status unchanged. The rules that the runtime
//! goes by are stated here for those who have to predict or reproduce them.

use vstd::prelude::*;
use crate::errors::{is_status, status_result, to_result, Errno};
use crate::nvmf::linkage::advance;
use crate::task::Promise;

verus! {

/// The kind of a subsystem.
#[derive(Clone, Copy, Debug, PartialEq, Eq, Structural)]
pub enum SubsystemType {
    /// Lets hosts enumerate the other subsystems.
    Discovery,
    /// Exports namespaces for I/O.
    Nvme,
}

/// The lifecycle state of a subsystem.
#[derive(Clone, Copy, Debug, PartialEq, Eq, Structural)]
pub enum SubsystemState {
    /// The initial state: no I/O is served, the configuration may change,
    /// and the subsystem may be destroyed.
    Inactive,
    /// I/O is served.
    Active,
    /// I/O is suspended; the configuration may change.
    Paused,
}

/// A request to change the state of a subsystem.
#[derive(Clone, Copy, Debug, PartialEq, Eq, Structural)]
pub enum SubsystemOp {
    /// From inactive to active.
    Start,
    /// From active to inactive.
    Stop,
    /// From active to paused, for the namespaces under the given tag.
    Pause(u32),
    /// From paused to active.
    Resume,
}

impl SubsystemState {
    /// The state that `op` leads to from this one, or `None` where the
    /// runtime rejects `op` in this state.
    pub open spec fn spec_after(self, op: SubsystemOp) -> Option<SubsystemState> {
        match (self, op) {
            (SubsystemState::Inactive, SubsystemOp::Start) => Some(SubsystemState::Active),
            (SubsystemState::Active, SubsystemOp::Stop) => Some(SubsystemState::Inactive),
            (SubsystemState::Active, SubsystemOp::Pause(_)) => Some(SubsystemState::Paused),
            (SubsystemState::Paused, SubsystemOp::Resume) => Some(SubsystemState::Active),
            _ => None,
        }
    }

    /// The state in which a subsystem is found after `op` was requested in
    /// this state and came back with `outcome`: the state that `op` leads to
    /// where it succeeded, this state where it did not.
    pub open spec fn settled(self, op: SubsystemOp, outcome: Result<(), Errno>) -> SubsystemState {
        match (outcome, self.spec_after(op)) {
            (Ok(_), Some(next)) => next,
            _ => self,
        }
    }

    /// The state that `op` leads to from this one, or `None` where the
    /// runtime rejects `op` in this state.
    #[verifier::when_used_as_spec(spec_after)]
    pub fn after(self, op: SubsystemOp) -> (next: Option<SubsystemState>)
        ensures
            next == self.spec_after(op),
    {
        match self {
            SubsystemState::Inactive => match op {
                SubsystemOp::Start => Some(SubsystemState::Active),
                _ => None,
            },
            SubsystemState::Active => match op {
                SubsystemOp::Stop => Some(SubsystemState::Inactive),
                SubsystemOp::Pause(_) => Some(SubsystemState::Paused),
                _ => None,
            },
            SubsystemState::Paused => match op {
                SubsystemOp::Resume => Some(SubsystemState::Active),
                _ => None,
            },
        }
    }

    /// Whether a subsystem in this state may be destroyed: only an inactive
    /// one may.
    pub fn destroyable(self) -> (allowed: bool)
        ensures
            allowed == (self is Inactive),
    {
        match self {
            SubsystemState::Inactive => true,
            _ => false,
        }
    }
}

/// A subsystem of a target. The handle is never null. It is a view of the
/// subsystem that the target owns: a request made through one handle acts
/// on the subsystem itself.
#[derive(Debug)]
pub struct Subsystem {
    ptr: usize,
}

impl View for Subsystem {
    type V = usize;

    closed spec fn view(&self) -> usize {
        self.ptr
    }
}

impl Subsystem {
    #[verifier::type_invariant]
    spec fn non_null(self) -> bool {
        self.ptr != 0
    }

    /// Wraps a handle that the runtime gave out.
    pub fn from_ptr(ptr: usize) -> (subsystem: Subsystem)
        requires
            ptr != 0,
        ensures
            subsystem@ == ptr,
    {
        Subsystem { ptr }
    }

    /// The handle of the subsystem.
    pub fn as_ptr(&self) -> (ptr: usize)
        ensures
            ptr == self@,
            ptr != 0,
    {
        proof {
            use_type_invariant(self);
        }
        self.ptr
    }

    /// The request to let any host connect to this subsystem, or to stop
    /// doing so.
    pub fn allow_any_host(&self, allow: bool) -> (op: AllowAnyHost)
        ensures
            op == (AllowAnyHost { subsystem: self@, allow }),
    {
        AllowAnyHost { subsystem: self.ptr, allow }
    }

    /// The request to start this subsystem.
    pub fn start(&self) -> (op: Transition)
        ensures
            op == (Transition { subsystem: self@, op: SubsystemOp::Start }),
    {
        Transition { subsystem: self.ptr, op: SubsystemOp::Start }
    }

    /// The request to stop this subsystem.
    pub fn stop(&self) -> (op: Transition)
        ensures
            op == (Transition { subsystem: self@, op: SubsystemOp::Stop }),
    {
        Transition { subsystem: self.ptr, op: SubsystemOp::Stop }
    }

    /// The request to pause this subsystem for the namespaces under `nsid`.
    pub fn pause(&self, nsid: u32) -> (op: Transition)
        ensures
            op == (Transition { subsystem: self@, op: SubsystemOp::Pause(nsid) }),
    {
        Transition { subsystem: self.ptr, op: SubsystemOp::Pause(nsid) }
    }

    /// The request to resume this subsystem.
    pub fn resume(&self) -> (op: Transition)
        ensures
            op == (Transition { subsystem: self@, op: SubsystemOp::Resume }),
    {
        Transition { subsystem: self.ptr, op: SubsystemOp::Resume }
    }
}

/// The request to set whether any host may connect to a subsystem.
#[derive(Clone, Copy, Debug, PartialEq, Eq, Structural)]
pub struct AllowAnyHost {
    /// The handle of the subsystem.
    pub subsystem: usize,
    /// Whether any host may connect.
    pub allow: bool,
}

/// The request to change the state of one subsystem. The runtime answers
/// the submission with a status and, where it accepted, invokes the
/// completion function that reports a status, inside the submitting call or
/// later.
#[derive(Clone, Copy, Debug, PartialEq, Eq, Structural)]
pub struct Transition {
    /// The handle of the subsystem.
    pub subsystem: usize,
    /// The change requested.
    pub op: SubsystemOp,
}

impl Transition {
    /// Records in `cx` what the primitive returned: zero accepts the
    /// submission, a negative status rejects it with that error.
    pub fn register(&self, cx: &mut Promise, rc: i32)
        requires
            is_status(rc),
        ensures
            *final(cx) == old(cx).after_registration(status_result(rc)),
    {
        cx.register(to_result(rc));
    }
}

/// A cursor over the subsystems of a target.
#[derive(Debug, PartialEq, Eq, Structural)]
pub struct Subsystems {
    /// The handle to yield next; null once the subsystems are exhausted.
    pub cursor: usize,
}

impl Subsystems {
    /// A cursor that starts at `first`, the runtime's answer for the first
    /// subsystem of a target.
    pub fn new(first: usize) -> (subsystems: Subsystems)
        ensures
            subsystems.cursor == first,
    {
        Subsystems { cursor: first }
    }

    /// Yields the subsystem at the cursor and moves the cursor to
    /// `following`, the runtime's answer for the subsystem after that one.
    /// An exhausted cursor yields `None` and stays exhausted.
    pub fn next(&mut self, following: usize) -> (item: Option<Subsystem>)
        ensures
            final(self).cursor == advance(old(self).cursor, following).0,
            old(self).cursor == 0 <==> item is None,
            item matches Some(subsystem) ==> subsystem@ == old(self).cursor,
    {
        if self.cursor == 0 {
            None
        } else {
            let captured: usize = self.cursor;
            self.cursor = following;
            Some(Subsystem::from_ptr(captured))
        }
    }
}

} // verus!
