//! The memory work of the reset entry: the stack placement and the zeroing of
//! the zero-initialized data region, on a byte image of memory.
use vstd::prelude::*;

verus! {

/// Address of the top of the stack that the reset entry installs.
pub const STACK_TOP: usize = 0x3801_0000;

/// Size in bytes of the stack region below `STACK_TOP`.
pub const STACK_SIZE: usize = 0x1_0000;

/// Bytes cleared by one store of the zeroing loop.
pub const ZERO_STRIDE: usize = 8;

/// Whether the region `[start, end)` lies clear of the stack region
/// `[STACK_TOP - STACK_SIZE, STACK_TOP)`.
pub open spec fn clear_of_stack_spec(start: int, end: int) -> bool {
    end <= start || end <= STACK_TOP - STACK_SIZE || start >= STACK_TOP
}

/// Whether the region `[start, end)` lies clear of the stack region.
pub fn clear_of_stack(start: usize, end: usize) -> (r: bool)
    ensures
        r == clear_of_stack_spec(start as int, end as int),
{
    end <= start || end <= STACK_TOP - STACK_SIZE || start >= STACK_TOP
}

/// `after` is `before` with every byte of `[start, end)` zero and every other
/// byte kept.
pub open spec fn zeroed_between(before: Seq<u8>, after: Seq<u8>, start: int, end: int) -> bool {
    &&& after.len() == before.len()
    &&& forall|i: int| start <= i < end ==> #[trigger] after[i] == 0
    &&& forall|i: int|
        0 <= i < before.len() && !(start <= i < end) ==> #[trigger] after[i] == before[i]
}

/// Clears the `ZERO_STRIDE` bytes at `pos`, one store's worth.
fn zero_word(mem: &mut Vec<u8>, pos: usize)
    requires
        pos + ZERO_STRIDE <= old(mem)@.len(),
    ensures
        zeroed_between(old(mem)@, final(mem)@, pos as int, pos + ZERO_STRIDE),
{
    let len = mem.len();
    let mut k: usize = 0;
    while k < ZERO_STRIDE
        invariant
            k <= ZERO_STRIDE,
            pos + ZERO_STRIDE <= len,
            len == old(mem)@.len(),
            zeroed_between(old(mem)@, mem@, pos as int, pos + k),
        decreases ZERO_STRIDE - k,
    {
        mem.set(pos + k, 0);
        k = k + 1;
    }
}

/// Zeroes the zero-initialized data region `[start, end)` of the memory image
/// `mem`, a store of `ZERO_STRIDE` bytes at a time and then byte by byte for a
/// tail shorter than a stride; an empty region (`end <= start`) is left alone.
/// No byte outside the region changes.
pub fn zero_region(mem: &mut Vec<u8>, start: usize, end: usize)
    requires
        start >= end || end <= old(mem)@.len(),
    ensures
        zeroed_between(old(mem)@, final(mem)@, start as int, end as int),
{
    if start >= end {
        return;
    }
    let mut pos: usize = start;
    while end - pos >= ZERO_STRIDE
        invariant
            start <= pos <= end,
            end <= old(mem)@.len(),
            zeroed_between(old(mem)@, mem@, start as int, pos as int),
        decreases end - pos,
    {
        zero_word(mem, pos);
        pos = pos + ZERO_STRIDE;
    }
    while pos < end
        invariant
            start <= pos <= end,
            end <= old(mem)@.len(),
            zeroed_between(old(mem)@, mem@, start as int, pos as int),
        decreases end - pos,
    {
        mem.set(pos, 0);
        pos = pos + 1;
    }
}

} // verus!
