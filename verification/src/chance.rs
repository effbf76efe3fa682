//! Random draws, from `rand`'s thread generator.

use vstd::prelude::*;
use rand::Rng;

verus! {

/// Draws a number uniformly from `lo..=hi` with `rand`'s thread generator.
/// Trusted: `Rng::random_range` on a non-empty inclusive range returns a
/// value inside it; which value is left to chance.
#[verifier::external_body]
pub(crate) fn random_u64_inclusive(lo: u64, hi: u64) -> (r: u64)
    requires
        lo <= hi,
    ensures
        lo <= r <= hi,
{
    rand::rng().random_range(lo..=hi)
}

/// An index drawn uniformly below `len`, which is not zero.
pub fn random_index(len: usize) -> (r: usize)
    requires
        len > 0,
    ensures
        r < len,
{
    let hi: u64 = (len - 1) as u64;
    let r = random_u64_inclusive(0, hi);
    r as usize
}

} // verus!
