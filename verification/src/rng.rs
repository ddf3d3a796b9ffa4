//! A seeded pseudo-random number generator for test-case generation.
//!
//! The generator must be deterministic: the reduction loop re-derives a
//! program by lowering fuel while holding the seed fixed, so the same seed
//! must always yield the same draws.  The draws are made by `rand`'s
//! `SmallRng`, a small deterministic generator seeded from a `u64`.  Each
//! draw is therefore a function of the seed and of the draws made before
//! it; the ghost `history` field records which draws were made (one entry
//! per draw: the bound of a bounded draw, `-1` for a full 32-bit draw,
//! `-2` for a byte draw), and the uninterpreted functions below name each
//! draw's value in terms of the seed and that history.
//!
//! `SmallRng`'s algorithm is fixed for a given build target (rand selects a
//! different small generator on 32-bit targets), so the named draw values,
//! and with them the generated programs, are per target; within any one
//! build they are the same in every process and on every machine.

use vstd::prelude::*;

verus! {

#[verifier::external_type_specification]
#[verifier::external_body]
pub struct ExSmallRng(rand::rngs::SmallRng);

/// The value of a bounded draw (`Rng::gen_range` over `0..bound`) made by a
/// `SmallRng` seeded with `seed` after the draws recorded in `history`.
pub uninterp spec fn range_draw(seed: u64, history: Seq<int>, bound: u64) -> u64;

/// The value of a full 32-bit draw (`Rng::gen::<i32>`) made by a `SmallRng`
/// seeded with `seed` after the draws recorded in `history`.
pub uninterp spec fn i32_draw(seed: u64, history: Seq<int>) -> i32;

/// The value of a byte draw (`Rng::gen::<u8>`) made by a `SmallRng` seeded
/// with `seed` after the draws recorded in `history`.
pub uninterp spec fn byte_draw(seed: u64, history: Seq<int>) -> u8;

/// A `SmallRng` together with the seed it was built from and the record of
/// the draws made so far.
pub struct Prng {
    rng: rand::rngs::SmallRng,
    seed: Ghost<u64>,
    history: Ghost<Seq<int>>,
}

/// Relies on `rand::rngs::SmallRng::seed_from_u64`: builds a generator whose
/// draws are determined by `seed`.
#[verifier::external_body]
fn small_rng_from_seed(seed: u64) -> rand::rngs::SmallRng {
    <rand::rngs::SmallRng as rand::SeedableRng>::seed_from_u64(seed)
}

impl Prng {
    /// The seed this generator was built from.
    pub closed spec fn spec_seed(&self) -> u64 {
        self.seed@
    }

    /// One entry per draw made so far: the bound of a bounded draw, `-1`
    /// for a full 32-bit draw, `-2` for a byte draw.
    pub closed spec fn spec_history(&self) -> Seq<int> {
        self.history@
    }

    /// A generator seeded with `seed`, with no draws made yet.
    pub fn from_seed(seed: u64) -> (r: Prng)
        ensures
            r.spec_seed() == seed,
            r.spec_history() == Seq::<int>::empty(),
    {
        Prng {
            rng: small_rng_from_seed(seed),
            seed: Ghost(seed),
            history: Ghost(Seq::empty()),
        }
    }

    /// Relies on `rand::Rng::gen_range` over `0..bound`: returns a value
    /// below `bound`, determined by the generator's seed and the draws made
    /// before this one.
    #[verifier::external_body]
    pub fn gen_range(&mut self, bound: u64) -> (r: u64)
        requires
            bound >= 1,
        ensures
            r < bound,
            r == range_draw(old(self).spec_seed(), old(self).spec_history(), bound),
            final(self).spec_seed() == old(self).spec_seed(),
            final(self).spec_history() == old(self).spec_history().push(bound as int),
    {
        rand::Rng::gen_range(&mut self.rng, 0..bound)
    }

    /// Relies on `rand::Rng::gen::<i32>`: returns a value determined by the
    /// generator's seed and the draws made before this one.
    #[verifier::external_body]
    pub fn gen_i32(&mut self) -> (r: i32)
        ensures
            r == i32_draw(old(self).spec_seed(), old(self).spec_history()),
            final(self).spec_seed() == old(self).spec_seed(),
            final(self).spec_history() == old(self).spec_history().push(-1),
    {
        rand::Rng::gen(&mut self.rng)
    }

    /// Relies on `rand::Rng::gen::<u8>`: returns a value determined by the
    /// generator's seed and the draws made before this one.
    #[verifier::external_body]
    pub fn gen_u8(&mut self) -> (r: u8)
        ensures
            r == byte_draw(old(self).spec_seed(), old(self).spec_history()),
            final(self).spec_seed() == old(self).spec_seed(),
            final(self).spec_history() == old(self).spec_history().push(-2),
    {
        rand::Rng::gen(&mut self.rng)
    }
}

} // verus!
