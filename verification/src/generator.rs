//! The test-case generator capability.
//!
//! A generator exposes a display name for failure reports, a flag saying
//! whether execution comparison is meaningful for its outputs, and a
//! deterministic function from a random seed and a fuel budget to program
//! text.  Determinism is essential: the reduction loop re-derives text by
//! lowering fuel while holding the seed fixed, so each implementation's
//! `generate` is pinned to a specification-level function of `(seed, fuel)`
//! alone.

use vstd::prelude::*;

verus! {

/// Anything that can generate WAT test cases for fuzzing.
pub trait TestCaseGenerator {
    /// The name of this generator.
    spec fn spec_name() -> Seq<char>;

    /// Whether execution comparison is meaningful for this generator.
    spec fn spec_should_interpret() -> bool;

    /// The program text this generator derives from `seed` and `fuel`.
    spec fn spec_generate(seed: u64, fuel: usize) -> Seq<char>;

    /// The name of this test case generator, for failure reports and
    /// generated regression-test snippets.
    fn name() -> (r: String)
        ensures
            r@ == Self::spec_name(),
    ;

    /// Whether the generated test case should be interpreted before and
    /// after the transformation round trip.  Some generators may produce
    /// programs whose imports the reference interpreter cannot satisfy; for
    /// those, both executions are skipped and only a crash or re-parse
    /// failure of the transformation is meaningful.
    fn should_interpret() -> (r: bool)
        ensures
            r == Self::spec_should_interpret(),
    ;

    /// Generate a string of WAT deterministically from the given RNG seed
    /// and fuel.
    fn generate(seed: u64, fuel: usize) -> (r: String)
        requires
            fuel >= 1,
        ensures
            r@ == Self::spec_generate(seed, fuel),
    ;
}

/// Determinism of generation: two texts generated with the same seed and the
/// same fuel are identical, character for character.
pub proof fn lemma_generate_deterministic<G: TestCaseGenerator>(
    a: Seq<char>,
    b: Seq<char>,
    seed: u64,
    fuel: usize,
)
    requires
        a == G::spec_generate(seed, fuel),
        b == G::spec_generate(seed, fuel),
    ensures
        a == b,
{
}

} // verus!
