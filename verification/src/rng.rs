//! The crate's single trusted boundary: deterministic, weighted pseudo-random
//! draws from the veggie catalog, performed by the `rand` crate.

use vstd::prelude::*;

use rand::rngs::SmallRng;
use rand::seq::SliceRandom;
use rand::SeedableRng;

use crate::veggie::{spec_qty, Veggie};

verus! {

/// Summed quantity weight of a sequence of veggies; a weighted draw from a
/// sequence is only defined while this sum fits the weight type.
pub open spec fn spec_weight_sum(s: Seq<Veggie>) -> nat
    decreases s.len(),
{
    if s.len() == 0 {
        0
    } else {
        spec_weight_sum(s.drop_last()) + spec_qty(s.last())
    }
}

/// The sequence of veggies that `count` successive weighted draws from
/// `choices` yield, drawn from a fresh generator seeded with `seed`.
/// Every participant that makes the same draws from the same seed obtains
/// the same sequence; that determinism is the whole point of carrying a seed
/// in each event.
pub uninterp spec fn weighted_draws(seed: u64, count: nat, choices: Seq<Veggie>) -> Seq<Veggie>;

/// Relies on rand 0.8: `SmallRng::seed_from_u64` yields a deterministic
/// generator whose stream is a function of the seed alone, and
/// `SliceRandom::choose_weighted` returns an element of the slice chosen by
/// the generator and the weights (here each veggie's quantity weight), so the
/// whole sequence of draws is a function of `seed`, `count` and `choices`.
#[verifier::external_body]
pub(crate) fn draw_weighted(seed: u64, count: usize, choices: &Vec<Veggie>) -> (r: Vec<Veggie>)
    requires
        choices@.len() > 0,
        spec_weight_sum(choices@) <= u64::MAX,
    ensures
        r@ == weighted_draws(seed, count as nat, choices@),
        r@.len() == count as nat,
        forall|i: int| 0 <= i < count ==> choices@.contains(r@[i]),
{
    let mut rng = SmallRng::seed_from_u64(seed);
    let mut out: Vec<Veggie> = Vec::new();
    for _ in 0..count {
        out.push(*choices.choose_weighted(&mut rng, |v| v.qty()).unwrap_or(&choices[0]));
    }
    out
}

} // verus!
