//! Lifecycle logic of an NVMe-oF target: status decoding, the one-shot
//! completion bridge, and the ownership and state rules for a target's
//! transports and subsystems.
//!
//! Nothing here talks to the storage runtime. Each operation is described as
//! a plain value naming the primitive to invoke, and the runtime's answers
//! are handed back as plain values to functions that decide what happens
//! next.

pub mod errors;
pub mod nvme;
pub mod nvmf;
pub mod task;
