//! Transports: the fabric bindings over which a target accepts connections.

use vstd::prelude::*;
use crate::errors::{is_status, status_result, to_result};
use crate::nvmf::linkage::advance;
use crate::task::Promise;

verus! {

/// A transport, held by whoever has to destroy it. A transport that was
/// created and not yet added to a target belongs to the caller. The handle
/// is never null.
#[derive(Debug)]
pub struct Transport {
    ptr: usize,
}

impl View for Transport {
    type V = usize;

    closed spec fn view(&self) -> usize {
        self.ptr
    }
}

impl Transport {
    #[verifier::type_invariant]
    spec fn non_null(self) -> bool {
        self.ptr != 0
    }

    /// Wraps a handle that the runtime gave out.
    pub fn from_ptr(ptr: usize) -> (transport: Transport)
        requires
            ptr != 0,
        ensures
            transport@ == ptr,
    {
        Transport { ptr }
    }

    /// The handle of the transport.
    pub fn as_ptr(&self) -> (ptr: usize)
        ensures
            ptr == self@,
            ptr != 0,
    {
        proof {
            use_type_invariant(self);
        }
        self.ptr
    }

    /// Gives the transport up for destruction. The value is consumed: what
    /// is left is the request to destroy it.
    pub fn destroy(self) -> (op: DestroyTransport)
        ensures
            op.transport == self@,
            op.transport != 0,
    {
        proof {
            use_type_invariant(&self);
        }
        DestroyTransport { transport: self.ptr }
    }
}

/// The request to destroy a transport. The runtime answers the submission
/// with a status and, where it accepted, later invokes the completion
/// function that reports nothing.
#[derive(Clone, Copy, Debug, PartialEq, Eq, Structural)]
pub struct DestroyTransport {
    /// The handle of the transport to destroy.
    pub transport: usize,
}

impl DestroyTransport {
    /// Records in `cx` what the destroy primitive returned: zero accepts
    /// the submission, a negative status rejects it with that error.
    pub fn register(&self, cx: &mut Promise, rc: i32)
        requires
            is_status(rc),
        ensures
            *final(cx) == old(cx).after_registration(status_result(rc)),
    {
        cx.register(to_result(rc));
    }
}

/// A cursor over the transports of a target.
#[derive(Debug, PartialEq, Eq, Structural)]
pub struct Transports {
    /// The handle to yield next; null once the transports are exhausted.
    pub cursor: usize,
}

impl Transports {
    /// A cursor that starts at `first`, the runtime's answer for the first
    /// transport of a target.
    pub fn new(first: usize) -> (transports: Transports)
        ensures
            transports.cursor == first,
    {
        Transports { cursor: first }
    }

    /// Yields the transport at the cursor and moves the cursor to
    /// `following`, the runtime's answer for the transport after that one.
    /// An exhausted cursor yields `None` and stays exhausted.
    pub fn next(&mut self, following: usize) -> (item: Option<Transport>)
        ensures
            final(self).cursor == advance(old(self).cursor, following).0,
            old(self).cursor == 0 <==> item is None,
            item matches Some(transport) ==> transport@ == old(self).cursor,
    {
        if self.cursor == 0 {
            None
        } else {
            let captured: usize = self.cursor;
            self.cursor = following;
            Some(Transport::from_ptr(captured))
        }
    }
}

} // verus!
