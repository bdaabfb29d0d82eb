//! The busy-wait delay.
use vstd::prelude::*;

verus! {

/// Relies on std::hint::black_box: an identity function whose argument and
/// result the optimizer must treat as used, so that the wait loop stays.
#[verifier::external_body]
fn keep(x: u32) -> (r: u32)
    ensures
        r == x,
{
    std::hint::black_box(x)
}

/// Primitive operations that a busy-wait of `count` iterations performs.
pub open spec fn delay_cost(count: u32) -> nat {
    count as nat
}

/// Busy-waits for `count` iterations, each one a step that the optimizer cannot
/// remove; returns the number of iterations performed.
pub fn delay(count: u32) -> (ops: u32)
    ensures
        ops == delay_cost(count),
{
    let mut i: u32 = 0;
    while i < count
        invariant
            i <= count,
        decreases count - i,
    {
        i = keep(i) + 1;
    }
    i
}

/// A busy-wait of more iterations costs at least as many primitive operations as
/// one of fewer.
pub proof fn lemma_delay_monotonic(fewer: u32, more: u32)
    requires
        fewer <= more,
    ensures
        delay_cost(fewer) <= delay_cost(more),
{
}

} // verus!
