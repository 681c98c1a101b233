//! The NVMe-oF target with its transports and subsystems.

use vstd::prelude::*;

pub mod linkage;
pub mod subsystem;
pub mod target;
pub mod transport;

verus! {

/// The well-known name of the discovery subsystem.
pub const SPDK_NVMF_DISCOVERY_NQN: &'static str = "nqn.2014-08.org.nvmexpress.discovery";

} // verus!
