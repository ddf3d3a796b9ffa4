//! The external-fuzzer-backed generator.
//!
//! This generator draws `fuel` random bytes and has an external
//! "translate fuzz bytes to text format" tool turn them into a program,
//! retrying with fresh bytes until the text assembler also accepts the
//! result.  Invoking the external tool is the caller's job; what is
//! verified here is the deterministic derivation of each attempt's input
//! bytes from the seed.
//!
//! Execution comparison is not meaningful for this generator's output: the
//! produced programs may reference imports the reference interpreter cannot
//! satisfy, so only a crash or re-parse failure of the transformation is
//! significant.

use vstd::prelude::*;
use vstd::string::StringExecFns;
use crate::rng::{Prng, byte_draw};

verus! {

/// The draw history after `n` byte draws appended to `h`.
pub open spec fn bytes_history(h: Seq<int>, n: nat) -> Seq<int>
    decreases n,
{
    if n == 0 {
        h
    } else {
        bytes_history(h, (n - 1) as nat).push(-2)
    }
}

/// The `n` bytes drawn in order by a generator seeded with `seed` whose
/// draw history starts at `h`.
pub open spec fn spec_input_bytes(seed: u64, h: Seq<int>, n: nat) -> Seq<u8>
    decreases n,
{
    if n == 0 {
        Seq::empty()
    } else {
        spec_input_bytes(seed, h, (n - 1) as nat).push(
            byte_draw(seed, bytes_history(h, (n - 1) as nat)),
        )
    }
}

/// A generator that feeds random bytes to an external translate-fuzz-
/// bytes-to-text tool.
pub struct WasmOptTtf;

impl WasmOptTtf {
    /// The name of this test case generator.
    pub fn name() -> (r: String)
        ensures
            r@ == "WasmOptTtf"@,
    {
        "WasmOptTtf".to_owned()
    }

    /// Whether the generated test case should be interpreted before and
    /// after the transformation round trip; never, for this generator.
    pub fn should_interpret() -> (r: bool)
        ensures
            r == false,
    {
        false
    }

    /// The input bytes for one translation attempt: `fuel` bytes drawn in
    /// order, a function of the generator's seed and prior draws alone.
    pub fn gen_input_bytes(rng: &mut Prng, fuel: usize) -> (r: Vec<u8>)
        ensures
            r@.len() == fuel,
            r@ == spec_input_bytes(old(rng).spec_seed(), old(rng).spec_history(), fuel as nat),
            final(rng).spec_seed() == old(rng).spec_seed(),
            final(rng).spec_history() == bytes_history(old(rng).spec_history(), fuel as nat),
    {
        let ghost seed0 = rng.spec_seed();
        let ghost h0 = rng.spec_history();
        let mut out: Vec<u8> = Vec::new();
        let mut i: usize = 0;
        while i < fuel
            invariant
                i <= fuel,
                out@ == spec_input_bytes(seed0, h0, i as nat),
                out@.len() == i,
                rng.spec_seed() == seed0,
                rng.spec_history() == bytes_history(h0, i as nat),
            decreases fuel - i,
        {
            let b = rng.gen_u8();
            out.push(b);
            i = i + 1;
        }
        out
    }
}

} // verus!
