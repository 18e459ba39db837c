//! The seeded generator that every simulated draw comes from.
//!
//! The generator is `rand`'s [`StdRng`], and the draws are made through
//! `fake` and `rand`. Verus does not look inside either crate, so this module
//! states, without proof, how the calls made on a generator behave. Each call
//! is a function of the generator's state and of its arguments alone; each
//! therefore has a name, and the contracts of the crate say which values were
//! drawn in terms of those names.

use ::fake::faker::name::en::Name as EnName;
use ::fake::{Fake, Faker};
use rand::rngs::StdRng;
use rand::seq::SliceRandom;
use rand::SeedableRng;
use vstd::prelude::*;

verus! {

#[verifier::external_type_specification]
#[verifier::external_body]
pub struct ExStdRng(StdRng);

/// The generator that `StdRng::seed_from_u64` builds from `seed`.
pub uninterp spec fn seeded_rng(seed: u64) -> StdRng;

/// The 64-bit value that `fake` draws from a generator in state `rng`, and
/// the state the generator is left in.
pub uninterp spec fn drawn_u64(rng: StdRng) -> (u64, StdRng);

/// The boolean that `fake` draws from a generator in state `rng`, and the
/// state the generator is left in.
pub uninterp spec fn drawn_bool(rng: StdRng) -> (bool, StdRng);

/// The number that `fake` draws for the range `start..end` from a generator
/// in state `rng`, and the state the generator is left in.
pub uninterp spec fn drawn_u64_in_range(rng: StdRng, start: u64, end: u64) -> (u64, StdRng);

/// The count or index drawn for the range `start..end` from a generator in
/// state `rng`, and the state the generator is left in. The draw is made on
/// 64-bit numbers, so that it is the same on every machine.
pub open spec fn drawn_in_range(rng: StdRng, start: usize, end: usize) -> (usize, StdRng) {
    let drawn = drawn_u64_in_range(rng, start as u64, end as u64);
    (drawn.0 as usize, drawn.1)
}

/// The index that `rand` picks in a slice of `len` items with a generator in
/// state `rng`, and the state the generator is left in.
pub uninterp spec fn chosen_index(rng: StdRng, len: usize) -> (usize, StdRng);

/// The English personal name that `fake` makes up with a generator in state
/// `rng`, and the state the generator is left in.
pub uninterp spec fn drawn_name(rng: StdRng) -> (Seq<char>, StdRng);

/// `StdRng::seed_from_u64`: the generator is a function of the seed alone.
#[verifier::external_body]
pub(crate) fn rng_from_seed(seed: u64) -> (rng: StdRng)
    ensures
        rng == seeded_rng(seed),
{
    StdRng::seed_from_u64(seed)
}

/// `Faker.fake_with_rng::<u64, _>`, which is one `Rng::gen`: a 64-bit draw.
/// The value and the state left behind depend on the state before alone.
#[verifier::external_body]
pub(crate) fn draw_u64(rng: &mut StdRng) -> (value: u64)
    ensures
        value == drawn_u64(*old(rng)).0,
        *final(rng) == drawn_u64(*old(rng)).1,
{
    Faker.fake_with_rng(rng)
}

/// `Faker.fake_with_rng::<bool, _>`, which is one `Rng::gen`: a fair coin.
/// The value and the state left behind depend on the state before alone.
#[verifier::external_body]
pub(crate) fn draw_bool(rng: &mut StdRng) -> (value: bool)
    ensures
        value == drawn_bool(*old(rng)).0,
        *final(rng) == drawn_bool(*old(rng)).1,
{
    Faker.fake_with_rng(rng)
}

/// `(start..end).fake_with_rng::<u64, _>`, which is `Rng::gen_range` on that
/// range. `gen_range` panics on an empty range, so the range must hold a
/// number; the draw lies in the range, and it and the state left behind
/// depend on the state before and on the two bounds alone.
#[verifier::external_body]
pub(crate) fn draw_u64_in_range(rng: &mut StdRng, start: u64, end: u64) -> (value: u64)
    requires
        start < end,
    ensures
        start <= value < end,
        value == drawn_u64_in_range(*old(rng), start, end).0,
        *final(rng) == drawn_u64_in_range(*old(rng), start, end).1,
{
    (start..end).fake_with_rng(rng)
}

/// Draws a count or an index from `start..end`, which must hold a number.
pub fn draw_in_range(rng: &mut StdRng, start: usize, end: usize) -> (value: usize)
    requires
        start < end,
    ensures
        start <= value < end,
        value == drawn_in_range(*old(rng), start, end).0,
        *final(rng) == drawn_in_range(*old(rng), start, end).1,
{
    draw_u64_in_range(rng, start as u64, end as u64) as usize
}

/// `SliceRandom::choose`. An empty slice gives `None` and leaves the
/// generator as it was. Otherwise the item at a random index is handed out;
/// the index is within the slice, and it and the state left behind depend on
/// the state before and on the slice's length alone.
#[verifier::external_body]
pub(crate) fn choose_item<T: Copy>(items: &[T], rng: &mut StdRng) -> (picked: Option<T>)
    ensures
        items@.len() == 0 ==> picked is None && *final(rng) == *old(rng),
        items@.len() > 0 ==> chosen_index(*old(rng), items@.len() as usize).0 < items@.len(),
        items@.len() > 0 ==> picked == Some(
            items@[chosen_index(*old(rng), items@.len() as usize).0 as int],
        ),
        items@.len() > 0 ==> *final(rng) == chosen_index(*old(rng), items@.len() as usize).1,
{
    items.choose(rng).copied()
}

/// `fake::faker::name::en::Name().fake_with_rng::<String, _>`: a made-up
/// English personal name. The name and the state left behind depend on the
/// state before alone.
#[verifier::external_body]
pub(crate) fn draw_name(rng: &mut StdRng) -> (name: String)
    ensures
        name@ == drawn_name(*old(rng)).0,
        *final(rng) == drawn_name(*old(rng)).1,
{
    EnName().fake_with_rng(rng)
}

} // verus!
