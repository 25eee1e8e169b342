//! Powers of two as bit patterns.
//!
//! A power of two has a single bit set, which is what lets a ring of that
//! size wrap its cursors with a mask.

use vstd::prelude::*;
use vstd::arithmetic::power2::is_pow2;

verus! {

/// For `n > 1`, clearing the lowest set bit of `n` gives zero exactly when `n`
/// is even and the same holds of `n / 2`.
proof fn lemma_single_bit_halves(n: u64)
    by (bit_vector)
    requires
        n > 1,
    ensures
        (n & ((n - 1) as u64) == 0) <==> (n % 2 == 0 && (n / 2) & ((n / 2 - 1) as u64) == 0),
{
}

/// A positive 64-bit `n` is a power of two exactly when `n & (n - 1)` is zero.
pub proof fn lemma_pow2_is_single_bit(n: u64)
    ensures
        is_pow2(n as int) <==> (n > 0 && n & ((n - 1) as u64) == 0),
    decreases n,
{
    reveal(is_pow2);
    if n == 0 {
    } else if n == 1 {
        assert(1u64 & 0u64 == 0) by (bit_vector);
    } else {
        lemma_single_bit_halves(n);
        lemma_pow2_is_single_bit(n / 2);
    }
}

/// A positive `n` is a power of two exactly when `n & (n - 1)` is zero.
pub proof fn lemma_power_of_two_mask(n: usize)
    ensures
        is_pow2(n as int) <==> (n > 0 && n & ((n - 1) as usize) == 0),
{
    lemma_pow2_is_single_bit(n as u64);
    assert((n & ((n - 1) as usize) == 0) <==> ((n as u64) & (((n as u64) - 1) as u64) == 0))
        by (bit_vector);
}

/// Masking with `c - 1` leaves every index below `c` as it is.
pub proof fn lemma_mask_keeps_small(x: usize, c: usize)
    by (bit_vector)
    requires
        c > 0,
        c & ((c - 1) as usize) == 0,
        x < c,
    ensures
        x & ((c - 1) as usize) == x,
{
}

} // verus!
