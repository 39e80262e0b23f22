//! Mapping raw byte addresses onto cache lines.
use vstd::prelude::*;

verus! {

/// Size in bytes of one cache line on the targeted hardware.
pub const CACHE_LINE_SIZE: usize = 64;

/// Index of the cache line that holds the byte at `addr`.
pub open spec fn line_index(addr: int) -> int {
    addr / (CACHE_LINE_SIZE as int)
}

/// Position of the byte at `addr` within its cache line.
pub open spec fn line_offset(addr: int) -> int {
    addr % (CACHE_LINE_SIZE as int)
}

/// Returns the index of the cache line that holds the byte at `addr`.
pub fn cache_line_number(addr: usize) -> (r: usize)
    ensures
        r == line_index(addr as int),
{
    addr / CACHE_LINE_SIZE
}

/// Returns the byte offset of `addr` within its cache line.
pub fn cache_line_offset(addr: usize) -> (r: usize)
    ensures
        r == line_offset(addr as int),
        r < CACHE_LINE_SIZE,
{
    addr % CACHE_LINE_SIZE
}

/// Tells whether the bytes at `addr1` and `addr2` lie in one cache line.
pub fn same_cache_line(addr1: usize, addr2: usize) -> (r: bool)
    ensures
        r == (line_index(addr1 as int) == line_index(addr2 as int)),
{
    cache_line_number(addr1) == cache_line_number(addr2)
}

/// An address splits into its line and its offset: the offset is what is
/// left after the start of the line, and it is smaller than a line.
pub proof fn lemma_line_split(addr: usize)
    ensures
        line_offset(addr as int) == addr - line_index(addr as int) * (CACHE_LINE_SIZE as int),
        0 <= line_offset(addr as int) < CACHE_LINE_SIZE as int,
{
}

} // verus!
