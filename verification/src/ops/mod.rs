//! Decisions taken by the stream operators.

pub mod flat_map;
pub mod poll_on;
