//! The fuzzing loop's decision core: the oracle that compares the two
//! execution traces and the seed-fixed, fuel-decay shrink state machine.
//!
//! Running a single iteration (assembling the text, invoking the reference
//! interpreter, round tripping through the transformation) involves external
//! tools; the caller performs those steps and feeds their results back in.
//! Everything the harness *decides* — whether an iteration diverged, what
//! fuel and seed the next iteration uses, and when the run is over — is
//! verified here.

use vstd::prelude::*;
use crate::error::FuzzError;
use crate::failing::FailingTestCase;
use crate::generator::TestCaseGenerator;

verus! {

/// The default fuel level.
pub const DEFAULT_FUEL: usize = 64;

/// The default timeout (in seconds).
pub const DEFAULT_TIMEOUT_SECS: u64 = 5;

/// Configuration for fuzzing with the generator `G`: the fuel controlling
/// generated-program size and the wall-clock budget for the whole run.
/// Fuel is always at least 1.
pub struct Config<G: TestCaseGenerator> {
    _generator: core::marker::PhantomData<G>,
    fuel: usize,
    timeout: u64,
}

impl<G: TestCaseGenerator> Config<G> {
    /// The fuel level for the next generation.
    pub closed spec fn spec_fuel(&self) -> usize {
        self.fuel
    }

    /// The wall-clock budget, in seconds.
    pub closed spec fn spec_timeout(&self) -> u64 {
        self.timeout
    }

    /// Fuel is positive; setting it to zero is a programming error.
    pub open spec fn wf(&self) -> bool {
        self.spec_fuel() >= 1
    }

    /// Construct a new fuzzing configuration with the default fuel and
    /// timeout.
    pub fn new() -> (r: Config<G>)
        ensures
            r.spec_fuel() == DEFAULT_FUEL,
            r.spec_timeout() == DEFAULT_TIMEOUT_SECS,
            r.wf(),
    {
        Config { _generator: core::marker::PhantomData, fuel: DEFAULT_FUEL, timeout: DEFAULT_TIMEOUT_SECS }
    }

    /// Set the fuel level.  `fuel` must be greater than zero.
    pub fn set_fuel(self, fuel: usize) -> (r: Config<G>)
        requires
            fuel >= 1,
        ensures
            r.spec_fuel() == fuel,
            r.spec_timeout() == self.spec_timeout(),
            r.wf(),
    {
        Config { _generator: core::marker::PhantomData, fuel, timeout: self.timeout }
    }

    /// Set the wall-clock budget, in seconds.
    pub fn set_timeout(self, timeout: u64) -> (r: Config<G>)
        ensures
            r.spec_fuel() == self.spec_fuel(),
            r.spec_timeout() == timeout,
            self.wf() ==> r.wf(),
    {
        Config { _generator: core::marker::PhantomData, fuel: self.fuel, timeout }
    }

    /// The fuel level for the next generation.
    pub fn fuel(&self) -> (r: usize)
        ensures
            r == self.spec_fuel(),
    {
        self.fuel
    }

    /// The wall-clock budget, in seconds.
    pub fn timeout(&self) -> (r: u64)
        ensures
            r == self.spec_timeout(),
    {
        self.timeout
    }

    /// Generate the program text for one iteration: the generator's output
    /// for `seed` at this configuration's fuel.
    pub fn gen_wat(&self, seed: u64) -> (r: String)
        requires
            self.wf(),
        ensures
            r@ == G::spec_generate(seed, self.spec_fuel()),
    {
        G::generate(seed, self.fuel)
    }
}

/// The mutable state of one fuzzing run: the fuel for the next generation,
/// the seed for the next generation, and the most recently captured failing
/// test case, if any.
pub struct RunState {
    /// Generation budget for the next iteration; always at least 1.
    pub fuel: usize,
    /// RNG seed for the next iteration.  Held fixed while shrinking,
    /// redrawn after every non-failing iteration.
    pub seed: u64,
    /// The last divergence observed, replaced wholesale on every further
    /// divergence at lower fuel.
    pub failing: Option<FailingTestCase>,
}

/// What the fuzzing loop does after one iteration's outcome is known.
pub enum StepResult {
    /// Run another iteration with this state.
    Continue(RunState),
    /// The time budget ran out and no divergence was ever observed.
    Success,
    /// The run is over; this is the most shrunk failing test case.
    Failure(FailingTestCase),
}

/// The fuel level after one shrink step: fuel lowered by a tenth (integer
/// floor), but always by at least 1 so that shrinking makes progress.
pub open spec fn spec_next_fuel(fuel: int) -> int {
    if fuel / 10 >= 1 {
        fuel - fuel / 10
    } else {
        fuel - 1
    }
}

/// During shrinking, fuel strictly decreases at every step and never drops
/// below its floor of 1.
pub proof fn lemma_fuel_decay_strictly_decreases(fuel: int)
    requires
        fuel >= 2,
    ensures
        1 <= spec_next_fuel(fuel) < fuel,
{
    assert(0 <= fuel / 10 < fuel) by (nonlinear_arith)
        requires fuel >= 2;
}

/// Lower a fuel level by one shrink step.
pub fn next_fuel(fuel: usize) -> (r: usize)
    requires
        fuel >= 2,
    ensures
        r == spec_next_fuel(fuel as int),
        1 <= r < fuel,
{
    proof {
        lemma_fuel_decay_strictly_decreases(fuel as int);
    }
    let tenth: usize = fuel / 10;
    if tenth >= 1 {
        fuel - tenth
    } else {
        fuel - 1
    }
}

/// The differential oracle: an iteration succeeds exactly when the trace
/// observed before the round trip and the trace observed after it are the
/// same string, character for character.  On a divergence the captured test
/// case holds the offending program text and both traces, unmodified.
pub fn compare_traces(
    generator: &String,
    wat: &String,
    expected: &String,
    actual: &String,
) -> (r: Result<(), FailingTestCase>)
    ensures
        r is Ok <==> expected@ == actual@,
        r matches Err(f) ==> {
            &&& f.wat@ == wat@
            &&& f.expected@ == expected@
            &&& f.actual@ == actual@
            &&& f.generator@ == generator@
        },
{
    if *expected == *actual {
        Ok(())
    } else {
        Err(FailingTestCase {
            wat: wat.clone(),
            expected: expected.clone(),
            actual: actual.clone(),
            generator: generator.clone(),
        })
    }
}

/// What the fuzzing loop does with a failed iteration.
pub enum ErrorDisposition {
    /// The divergence is recorded and drives shrinking.
    Shrink(FailingTestCase),
    /// The tooling failure aborts the whole run.
    Abort(FuzzError),
}

/// The propagation policy for a failed iteration: a divergence is the
/// signal the harness exists to detect, so the loop catches it to drive
/// shrinking; every other failure is a tooling failure, is not retried,
/// and stops the whole run.
pub fn classify_error(e: FuzzError) -> (r: ErrorDisposition)
    ensures
        match e {
            FuzzError::Divergence(f) => r == ErrorDisposition::Shrink(f),
            _ => r == ErrorDisposition::Abort(e),
        },
{
    match e {
        FuzzError::Divergence(case) => ErrorDisposition::Shrink(case),
        other => ErrorDisposition::Abort(other),
    }
}

/// Assert that the given WAT had the same execution trace before and after
/// round tripping through the transformation.  The caller supplies the two
/// observed traces; a divergence was a panic in this assertion's original
/// use, so equal traces are required up front.
pub fn assert_round_trip_execution_is_same(
    generator: &String,
    wat: &String,
    expected: &String,
    actual: &String,
)
    requires
        expected@ == actual@,
{
    let r = compare_traces(generator, wat, expected, actual);
    assert(r is Ok);
}

/// One transition of the fuzzing loop, taken after an iteration at
/// `state.fuel` and `state.seed` has finished with `outcome`:
///
/// - a divergence is recorded and, while fuel is above its floor of 1,
///   shrinking continues at strictly lower fuel with the *same* seed;
/// - a divergence at fuel 1 ends the run with that test case;
/// - a success after an earlier divergence means shrinking stopped
///   reproducing the bug, so the run ends with the last captured case;
/// - a success with no divergence on record continues searching with a
///   freshly drawn seed, or ends the run once the deadline has passed.
pub fn run_step(
    state: RunState,
    outcome: Result<(), FailingTestCase>,
    fresh_seed: u64,
    deadline_passed: bool,
) -> (r: StepResult)
    requires
        state.fuel >= 1,
    ensures
        match outcome {
            Ok(()) => match state.failing {
                Some(f) => r == StepResult::Failure(f),
                None => if deadline_passed {
                    r == StepResult::Success
                } else {
                    r == StepResult::Continue(
                        RunState { fuel: state.fuel, seed: fresh_seed, failing: None },
                    )
                },
            },
            Err(f) => if state.fuel == 1 {
                r == StepResult::Failure(f)
            } else {
                r == StepResult::Continue(
                    RunState {
                        fuel: spec_next_fuel(state.fuel as int) as usize,
                        seed: state.seed,
                        failing: Some(f),
                    },
                )
            },
        },
        r matches StepResult::Continue(next) ==> {
            &&& 1 <= next.fuel <= state.fuel
            &&& (outcome is Err ==> next.fuel < state.fuel)
        },
{
    match outcome {
        Ok(()) => match state.failing {
            Some(f) => StepResult::Failure(f),
            None => {
                if deadline_passed {
                    StepResult::Success
                } else {
                    StepResult::Continue(
                        RunState { fuel: state.fuel, seed: fresh_seed, failing: None },
                    )
                }
            },
        },
        Err(f) => {
            if state.fuel == 1 {
                StepResult::Failure(f)
            } else {
                StepResult::Continue(
                    RunState {
                        fuel: next_fuel(state.fuel),
                        seed: state.seed,
                        failing: Some(f),
                    },
                )
            }
        },
    }
}

} // verus!
