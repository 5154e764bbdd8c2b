//! Chance, drawn from the `rand` crate.
//!
//! The verifier takes the contracts in this file on trust. They say only
//! what holds of every draw, and nothing of how likely a draw is.

use rand::seq::SliceRandom;
use rand::Rng;
use vstd::prelude::*;

verus! {

/// Calls `rand::seq::SliceRandom::shuffle` on the two entries of `pair`, with
/// the generator of the current thread. A shuffle only reorders: the result
/// holds the same two entries, in the same order or swapped.
#[verifier::external_body]
pub(crate) fn shuffled_pair<T: Copy>(pair: [T; 2]) -> (out: [T; 2])
    ensures
        (out[0] == pair[0] && out[1] == pair[1]) || (out[0] == pair[1] && out[1] == pair[0]),
{
    let mut list = pair;
    list.shuffle(&mut rand::thread_rng());
    list
}

/// Calls `rand::Rng::gen_range` on the half-open range from `low` to `high`,
/// with the generator of the current thread. The range must not be empty,
/// and the value drawn lies in it.
#[verifier::external_body]
pub(crate) fn random_between(low: u64, high: u64) -> (value: u64)
    requires
        low < high,
    ensures
        low <= value < high,
{
    rand::thread_rng().gen_range(low..high)
}

} // verus!
