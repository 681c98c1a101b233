//! NVMe items that the target logic refers to.

use vstd::prelude::*;

verus! {

/// The namespace tag that stands for every namespace of a subsystem.
pub const SPDK_NVME_GLOBAL_NS_TAG: u32 = 0xFFFF_FFFF;

/// A transport identifier: the address of a validated descriptor (address
/// family, host, service) that the runtime reads. Never null.
#[derive(Debug)]
pub struct TransportId {
    ptr: usize,
}

impl View for TransportId {
    type V = usize;

    closed spec fn view(&self) -> usize {
        self.ptr
    }
}

impl TransportId {
    #[verifier::type_invariant]
    spec fn non_null(self) -> bool {
        self.ptr != 0
    }

    /// Wraps the address of a descriptor.
    pub fn from_ptr(ptr: usize) -> (id: TransportId)
        requires
            ptr != 0,
        ensures
            id@ == ptr,
    {
        TransportId { ptr }
    }

    /// The address of the descriptor.
    pub fn as_ptr(&self) -> (ptr: usize)
        ensures
            ptr == self@,
            ptr != 0,
    {
        proof {
            use_type_invariant(self);
        }
        self.ptr
    }
}

} // verus!
