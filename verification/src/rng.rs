//! Trusted boundary to the process-wide random number generator.
//!
//! Question selection and option ordering are the only places the game draws
//! randomness. Nothing can be promised about which value comes back, so each
//! wrapper states only what holds of every outcome, and the verified callers
//! handle every such value.

use rand::seq::SliceRandom;
use rand::Rng;
use vstd::prelude::*;

verus! {

/// Relies on `rand::Rng::gen_range` over `0..n` with `rand::thread_rng`:
/// it samples the non-empty range, so the result is below `n`. It panics
/// only on an empty range, which `n > 0` rules out.
#[verifier::external_body]
pub(crate) fn random_below(n: usize) -> (r: usize)
    requires
        n > 0,
    ensures
        r < n,
{
    rand::thread_rng().gen_range(0..n)
}

/// Relies on `rand::seq::SliceRandom::shuffle` with `rand::thread_rng`: an
/// in-place Fisher-Yates pass that only swaps elements, so afterwards the
/// vector holds exactly the elements it held before, in some order.
#[verifier::external_body]
pub(crate) fn shuffle_strings(values: &mut Vec<String>)
    ensures
        final(values)@.len() == old(values)@.len(),
        final(values)@.to_multiset() == old(values)@.to_multiset(),
{
    values.shuffle(&mut rand::thread_rng());
}

} // verus!
