//! The one source of chance: a uniformly drawn index.

use vstd::prelude::*;
use rand::Rng;

verus! {

/// A number drawn at random below `bound`, by `Rng::gen_range(0, bound)` on
/// `rand::thread_rng()`.
///
/// Trusted, not proved: `gen_range(low, high)` returns a value in
/// `[low, high)` and panics where `low >= high`, which `bound > 0` rules
/// out. Nothing else is claimed of the value: two calls may differ. The
/// generator itself panics where the system gives it no seed.
#[verifier::external_body]
pub(crate) fn random_below(bound: usize) -> (drawn: usize)
    requires
        bound > 0,
    ensures
        drawn < bound,
{
    rand::thread_rng().gen_range(0, bound)
}

} // verus!
