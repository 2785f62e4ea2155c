//! The uniform random source that role distribution draws from.
use rand::Rng;
use vstd::prelude::*;

verus! {

/// Relies on `rand::thread_rng` and `Rng::gen_range` on `0..bound`: a uniformly drawn
/// index below `bound` (`gen_range` panics on an empty range, hence `bound > 0`).
#[verifier::external_body]
pub(crate) fn random_below(bound: usize) -> (r: usize)
    requires
        bound > 0,
    ensures
        r < bound,
{
    rand::thread_rng().gen_range(0..bound)
}

} // verus!
