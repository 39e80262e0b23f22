//! The two layouts of a counter pair.
use std::sync::atomic::AtomicU64;
use vstd::prelude::*;

use crate::cache_line::{line_index, line_offset, CACHE_LINE_SIZE};

verus! {

/// Size in bytes of one counter.
pub const COUNTER_BYTES: usize = 8;

/// Bytes of a cache line that a padded counter leaves unused.
pub const PAD_BYTES: usize = CACHE_LINE_SIZE - COUNTER_BYTES;

/// Two counters placed next to each other, with nothing between them: both
/// can fall in one cache line, so two threads that each update one of them
/// contend for that line.
pub struct UnpaddedCounters {
    pub counter1: AtomicU64,
    pub counter2: AtomicU64,
}

impl UnpaddedCounters {
    /// Both counters start at zero.
    pub fn new() -> (r: Self) {
        Self { counter1: AtomicU64::new(0), counter2: AtomicU64::new(0) }
    }
}

/// One counter followed by the pad bytes that fill out its cache line.
///
/// The pair below holds two fields of this type. Fields of one record never
/// overlap and have one internal layout, so whatever order the compiler
/// picks, the two counters lie at least one slot, which is one cache line,
/// apart.
pub struct CacheLineSlot {
    pub counter: AtomicU64,
    pad: [u8; PAD_BYTES],
}

impl CacheLineSlot {
    /// The pad bytes that follow the counter.
    pub closed spec fn padding(&self) -> Seq<u8> {
        self.pad@
    }

    /// A slot whose counter is zero and whose pad bytes are zero.
    pub fn new() -> (r: Self)
        ensures
            r.padding() == Seq::new(PAD_BYTES as nat, |i: int| 0u8),
    {
        let pad: [u8; PAD_BYTES] = [0u8; PAD_BYTES];
        Self { counter: AtomicU64::new(0), pad }
    }
}

/// Two counters kept apart: each starts its own line-sized slot, so updates
/// of one never invalidate the line that holds the other.
pub struct PaddedCounters {
    pub counter1: CacheLineSlot,
    pub counter2: CacheLineSlot,
}

impl PaddedCounters {
    /// Both counters start at zero, with zeroed padding.
    pub fn new() -> (r: Self)
        ensures
            r.counter1.padding() == Seq::new(PAD_BYTES as nat, |i: int| 0u8),
            r.counter2.padding() == Seq::new(PAD_BYTES as nat, |i: int| 0u8),
    {
        Self { counter1: CacheLineSlot::new(), counter2: CacheLineSlot::new() }
    }
}

/// In the contended layout the second counter starts right after the first.
/// Wherever the pair is allocated, so long as it does not straddle a line
/// boundary (the first counter is not in the last counter-sized slot of its
/// line), both counters lie in one cache line.
pub proof fn lemma_unpadded_counters_share_line(addr1: usize, addr2: usize)
    requires
        addr2 == addr1 + COUNTER_BYTES,
        line_offset(addr1 as int) + COUNTER_BYTES < CACHE_LINE_SIZE,
    ensures
        line_index(addr1 as int) == line_index(addr2 as int),
{
}

/// In the isolated layout the two counters sit in distinct line-sized slots,
/// so their addresses are at least one line apart, in either order. Wherever
/// the pair is allocated, the two counters then lie in different cache lines.
pub proof fn lemma_padded_counters_never_share_line(addr1: usize, addr2: usize)
    requires
        addr1 + CACHE_LINE_SIZE <= addr2 || addr2 + CACHE_LINE_SIZE <= addr1,
    ensures
        line_index(addr1 as int) != line_index(addr2 as int),
{
}

} // verus!
