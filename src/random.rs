use rand::seq::SliceRandom;
use rand::Rng;
use vstd::prelude::*;

verus! {

#[verifier::external_type_specification]
#[verifier::external_body]
pub struct ExStdRng(rand::rngs::StdRng);

#[verifier::external_type_specification]
#[verifier::external_body]
pub struct ExWeightedError(rand::distributions::WeightedError);

/// The sum of a sequence of weights.
pub open spec fn sum_weights(w: Seq<u64>) -> int
    decreases w.len(),
{
    if w.len() == 0 {
        0
    } else {
        sum_weights(w.drop_last()) + w.last()
    }
}

/// Relies on rand's `Rng::gen_ratio(1, 2)`: a fair coin. Nothing is known of
/// which side comes up.
#[verifier::external_body]
pub(crate) fn flip_coin(rng: &mut rand::rngs::StdRng) -> bool {
    rng.gen_ratio(1, 2)
}

/// Relies on rand's `SliceRandom::choose_weighted`, which builds a
/// `WeightedIndex` over the weights: it fails when there is no item or when
/// the weights sum to zero, and otherwise samples a point below the total and
/// returns the first item whose running sum exceeds it, so an item of
/// positive weight. The running sum is kept in `u64` and must not overflow.
#[verifier::external_body]
pub(crate) fn choose_weighted_index(weights: &Vec<u64>, rng: &mut rand::rngs::StdRng) -> (r: Result<
    usize,
    rand::distributions::WeightedError,
>)
    requires
        sum_weights(weights@) <= u64::MAX,
    ensures
        r is Ok <==> sum_weights(weights@) > 0,
        r matches Ok(i) ==> i < weights@.len() && weights@[i as int] > 0,
{
    let items: Vec<(usize, u64)> = weights.iter().copied().enumerate().collect();
    items.choose_weighted(rng, |item| item.1).map(|item| item.0)
}

} // verus!
