//! The source of chance.

use rand::Rng;
use vstd::prelude::*;

verus! {

/// Draws a number below `bound` from the generator that `rand` keeps for the
/// calling thread, by `Rng::gen_range(0, bound)` on `rand::thread_rng()`.
/// `gen_range` returns a value that is at least its first argument and less
/// than its second, and panics unless the first is less than the second,
/// hence the `requires`. Which number comes back is left open.
#[verifier::external_body]
pub(crate) fn random_below(bound: u32) -> (drawn: u32)
    requires
        bound > 0,
    ensures
        drawn < bound,
{
    rand::thread_rng().gen_range(0, bound)
}

} // verus!
