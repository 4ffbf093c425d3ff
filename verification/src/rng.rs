//! Trusted boundary to the random number generator.
//!
//! The sampling logic of this crate draws everything it needs through the
//! functions below, so that every probabilistic decision is made by `rand`
//! while the verified code only relies on the stated contracts.

use vstd::prelude::*;

use rand::seq::IndexedRandom;
use rand::Rng;

verus! {

#[verifier::external_type_specification]
#[verifier::external_body]
pub struct ExSmallRng(rand::rngs::SmallRng);

/// Relies on rand::seq::IndexedRandom::choose_weighted: one index is chosen
/// with probability proportional to its weight, and a zero-weighted index is
/// never chosen. The preconditions rule out the error cases of the call: an
/// empty slice, a zero weight sum, and overflow when summing the weights
/// (at most sixteen weights, each below 2^28, sum below 2^32).
#[verifier::external_body]
pub(crate) fn draw_weighted_index(rng: &mut rand::rngs::SmallRng, weights: &Vec<u32>) -> (i: usize)
    requires
        0 < weights@.len() <= 16,
        forall|j: int| 0 <= j < weights@.len() ==> weights@[j] <= 0x0fff_ffff,
        exists|j: int| 0 <= j < weights@.len() && weights@[j] > 0,
    ensures
        i < weights@.len(),
        weights@[i as int] > 0,
{
    let items: Vec<(usize, u32)> = weights.iter().copied().enumerate().collect();
    items.choose_weighted(rng, |item| item.1).unwrap().0
}

/// Relies on rand::Rng::random_ratio: true with probability num/den. The
/// documentation promises the result is always false when num is 0 and
/// always true when num equals den, and that the call panics only when
/// den is 0 or num exceeds den, which the precondition rules out.
#[verifier::external_body]
pub(crate) fn draw_ratio(rng: &mut rand::rngs::SmallRng, num: u32, den: u32) -> (b: bool)
    requires
        0 < den,
        num <= den,
    ensures
        num == 0 ==> !b,
        num == den ==> b,
{
    rng.random_ratio(num, den)
}

} // verus!
