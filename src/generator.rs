//! The 32-bit xorshift step that drives every roll.
use vstd::prelude::*;

verus! {

/// One xorshift step: shifts are logical, results wrap modulo 2^32.
pub open spec fn xorshift(s: u32) -> u32 {
    let a = s ^ (s << 13u32);
    let b = a ^ (a >> 17u32);
    b ^ (b << 5u32)
}

/// Advances the generator in place and returns the new state.
pub fn advance_seed(seed: &mut u32) -> (r: u32)
    ensures
        *final(seed) == xorshift(*old(seed)),
        r == *final(seed),
{
    *seed = *seed ^ (*seed << 13u32);
    *seed = *seed ^ (*seed >> 17u32);
    *seed = *seed ^ (*seed << 5u32);
    *seed
}

/// Zero is a fixed point of the step.
pub proof fn lemma_zero_fixed_point()
    ensures
        xorshift(0) == 0,
{
    assert(xorshift(0) == 0) by (bit_vector);
}

} // verus!
