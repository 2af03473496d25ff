//! Random draws for scene construction, taken from the `rand` crate.
//!
//! Nothing can be promised of a random value beyond its range, so the
//! wrappers state only that; every function of the kernel that consumes
//! these values is verified for every value in range.

use vstd::prelude::*;
use rand::Rng;

verus! {

/// Relies on `rand::thread_rng` and `Rng::gen::<u32>`: an arbitrary seed.
#[verifier::external_body]
pub(crate) fn random_seed() -> u32 {
    rand::thread_rng().gen()
}

/// Relies on `Rng::gen_range` over a half-open integer range: a draw within
/// `[lo, hi)`. It panics only on an empty range, which the precondition
/// excludes.
#[verifier::external_body]
pub(crate) fn random_in_range(lo: i64, hi: i64) -> (r: i64)
    requires
        lo < hi,
    ensures
        lo <= r < hi,
{
    rand::thread_rng().gen_range(lo..hi)
}

} // verus!
