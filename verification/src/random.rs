//! The random generator: `rand`'s standard generator, seen through
//! contracts that state only what holds whatever it draws.

use vstd::prelude::*;
use rand::seq::IndexedRandom;
use rand::seq::SliceRandom;
use rand::SeedableRng;

verus! {

#[verifier::external_type_specification]
#[verifier::external_body]
pub struct ExStdRng(rand::rngs::StdRng);

/// The generator that `rand::SeedableRng::seed_from_u64` builds from a
/// seed.
pub uninterp spec fn seeded_generator(seed: u64) -> rand::rngs::StdRng;

/// Calls `rand::SeedableRng::seed_from_u64`, which expands the 64-bit seed
/// to the seed bytes of the generator and builds the generator from them:
/// the result is a function of the seed alone. Nothing is claimed of what
/// the generator draws.
#[verifier::external_body]
pub(crate) fn seeded(seed: u64) -> (rng: rand::rngs::StdRng)
    ensures
        rng == seeded_generator(seed),
{
    rand::rngs::StdRng::seed_from_u64(seed)
}

/// Calls `rand::seq::SliceRandom::shuffle`, which permutes a slice in place
/// by swapping its elements: the elements stay the same, each as often as
/// before. Nothing is claimed of their order.
#[verifier::external_body]
pub(crate) fn shuffle<T>(items: &mut Vec<T>, rng: &mut rand::rngs::StdRng)
    ensures
        final(items)@.to_multiset() == old(items)@.to_multiset(),
{
    items.shuffle(rng)
}

/// Calls `rand::seq::IndexedRandom::choose`, which returns one element of
/// the slice, or `None` if the slice is empty. Nothing is claimed of which
/// element it is.
#[verifier::external_body]
pub(crate) fn pick<T: Copy>(items: &Vec<T>, rng: &mut rand::rngs::StdRng) -> (r: Option<T>)
    ensures
        match r {
            Some(item) => items@.contains(item),
            None => items@.len() == 0,
        },
{
    items.choose(rng).copied()
}

} // verus!
