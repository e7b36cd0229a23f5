//! The seeded generator that the board draws its random fill from.
//!
//! The generator is `rand`'s `StdRng`, which this library does not look
//! into. What is said of it here is believed, not proved.

use rand::rngs::StdRng;
use rand::Rng;
use rand::SeedableRng;
use vstd::prelude::*;

verus! {

/// `rand::rngs::StdRng`, carried as an opaque value.
#[verifier::external_type_specification]
#[verifier::external_body]
pub struct ExStdRng(StdRng);

/// The boolean that the `n`-th of a run of draws from `rng` gives, counting
/// from 0, when nothing else is drawn from it in between.
pub uninterp spec fn upcoming(rng: StdRng, n: nat) -> bool;

/// The boolean that the `n`-th of a run of draws gives, counting from 0, on a
/// generator freshly made from `seed`.
pub uninterp spec fn seeded_draw(seed: u64, n: nat) -> bool;

/// A generator made from `seed` by `StdRng::seed_from_u64`.
///
/// Trusted: the generator is a deterministic function of the seed, so the
/// booleans it will give are those that the seed stands for.
#[verifier::external_body]
pub(crate) fn seed_rng(seed: u64) -> (rng: StdRng)
    ensures
        forall|n: nat| upcoming(rng, n) == seeded_draw(seed, n),
{
    StdRng::seed_from_u64(seed)
}

/// Draws one boolean from `rng` with `Rng::gen`.
///
/// Trusted: the draw gives the first of the upcoming booleans and moves the
/// generator on by exactly that one; it does not panic.
#[verifier::external_body]
pub(crate) fn draw_bool(rng: &mut StdRng) -> (drawn: bool)
    ensures
        drawn == upcoming(*old(rng), 0),
        forall|n: nat| upcoming(*final(rng), n) == upcoming(*old(rng), n + 1),
    no_unwind
{
    rng.gen::<bool>()
}

} // verus!
