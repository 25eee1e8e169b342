//! Wiping of memory that held a secret.
//!
//! The writes go through the zeroize crate, which makes them in a way that
//! the compiler may not remove, even where the memory is never read again.

use vstd::prelude::*;
use zeroize::Zeroize;

verus! {

/// `n` zero bytes.
pub open spec fn zeros(n: nat) -> Seq<u8> {
    Seq::new(n, |i: int| 0u8)
}

/// Overwrites `buffer` from index `from` on with zeros, through zeroize's
/// `Zeroize::zeroize` for slices. That function writes the default value of the
/// element type, zero for a byte, to every element of the slice, with volatile
/// writes, and leaves the length alone. Its only check is that the length
/// fits the signed machine word, which holds of every slice.
#[verifier::external_body]
pub(crate) fn zeroize_from(buffer: &mut Vec<u8>, from: usize)
    requires
        from <= old(buffer)@.len(),
    ensures
        final(buffer)@ == old(buffer)@.take(from as int) + zeros(
            (old(buffer)@.len() - from) as nat,
        ),
    opens_invariants none
    no_unwind
{
    buffer[from..].zeroize();
}

/// Wipes `buffer` through zeroize's `Zeroize::zeroize` for `Vec`, which zeroes
/// the elements and the spare capacity and then clears the vector: it is empty
/// afterwards. The only check in that function is that a length fits the
/// signed machine word, which holds of every vector, so it does not panic.
#[verifier::external_body]
pub(crate) fn zeroize_all(buffer: &mut Vec<u8>)
    ensures
        final(buffer)@ == Seq::<u8>::empty(),
    opens_invariants none
    no_unwind
{
    buffer.zeroize();
}

} // verus!
