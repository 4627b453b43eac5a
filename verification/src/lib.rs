//! Liveness monitoring engine for a set of tracked oracle operator addresses.
//!
//! The library holds the verified core of the monitor: the block-window
//! scanning logic with its liveness flags, the single-slot snapshot channel
//! that carries each scan's result to the metrics exporter, and the rendering
//! of the exposition text. Network access, the HTTP server and the process
//! bootstrap live outside the library and feed it plain values.

use vstd::prelude::*;

pub mod address;
pub mod text;
pub mod data;
pub mod mon_error;
pub mod runtime_config;
pub mod monitor;
pub mod snapshot;
pub mod metrics;

verus! {

/// The scale factor between the chain's smallest unit and one whole token.
pub const SMALLEST_UNITS_PER_TOKEN: u64 = 1_000_000_000_000_000_000;

} // verus!
