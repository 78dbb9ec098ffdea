//! Building blocks of a system resource sampler: aggregation of network
//! byte counters, a tracker that turns successive counter snapshots into
//! throughput rates, and the memory utilisation fraction.
//!
//! Reading the operating system, the clock and floating-point presentation are
//! left to the caller; everything here works on plain integers.

pub mod counters;
pub mod memory;
pub mod rate;
pub mod laws;
