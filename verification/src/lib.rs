//! Verified core of a library that routes stream processing across several
//! Tokio runtimes: the runtime presets, the spawner handle, and the decisions
//! taken by the stream operators.

pub mod ops;
pub mod spawner;
pub mod spawners;

use vstd::prelude::*;

verus! {

/// Default capacity of the bounded channel that an operator forwards items through.
pub const DEFAULT_CAPACITY: usize = 256;

} // verus!
