//! Verified core of an explicit-GPU device layer.
//!
//! The crate models the device layer of a GPU engine: adapter selection,
//! logical-device initialization, GPU memory bookkeeping, command encoding
//! with batched descriptor updates, and host/device synchronization through a
//! monotonically increasing progress counter. All decision logic lives here
//! and is verified; the native driver calls (instance and device creation,
//! queue submission, semaphore waits) are performed by an unverified shell
//! that feeds their results back in as plain values.

use vstd::prelude::*;

pub mod command;
pub mod context;
pub mod engine;
pub mod format;
pub mod memory;
pub mod pipeline;
pub mod queue;
pub mod resource;

verus! {

/// Number of bytes of plain (inline) data that every accepted adapter must be
/// able to bind in one inline uniform block.
pub const PLAIN_DATA_SIZE: u32 = 256;

/// Options for initializing a `Context`. `validation` turns on the debug
/// layer and extra shader debug info; `capture` is reserved for external
/// GPU-trace capture tooling.
#[derive(Clone, Copy, Debug)]
pub struct ContextDesc {
    pub validation: bool,
    pub capture: bool,
}

/// The only typed error of the core: a mandatory capability, extension or
/// entry point is missing during bootstrap. Always fatal to initialization.
#[derive(Clone, Copy, Debug, PartialEq, Eq, Structural)]
pub struct NotSupportedError;

} // verus!
