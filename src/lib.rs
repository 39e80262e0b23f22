//! Two layouts of a pair of independently updated 64-bit counters, one that
//! lets both counters share a cache line and one that keeps them apart, with
//! the address arithmetic that tells which cache line a byte falls in and the
//! per-worker increment loop that exposes the cost of false sharing.
pub mod cache_line;
pub mod counters;
pub mod workload;

pub use cache_line::{cache_line_number, cache_line_offset, same_cache_line, CACHE_LINE_SIZE};
pub use counters::{CacheLineSlot, PaddedCounters, UnpaddedCounters};
pub use workload::{increment_relaxed, mean_nanos, NUM_ITERATIONS, NUM_RUNS};

