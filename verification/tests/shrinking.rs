use walrus_fuzz::TestCaseGenerator;
use walrus_fuzz::{Config, FailingTestCase, FuzzError, WatGen};
use walrus_fuzz::harness::{
    classify_error, next_fuel, run_step, ErrorDisposition, RunState, StepResult, DEFAULT_FUEL,
    DEFAULT_TIMEOUT_SECS,
};

fn case_at(seed: u64, fuel: usize) -> FailingTestCase {
    FailingTestCase {
        wat: WatGen::generate(seed, fuel),
        expected: String::from("1"),
        actual: String::from("2"),
        generator: WatGen::name(),
    }
}

#[test]
fn fuel_decay_is_strict_with_floor_one() {
    assert_eq!(next_fuel(100), 90);
    assert_eq!(next_fuel(64), 58);
    assert_eq!(next_fuel(10), 9);
    // Below 10 a whole tenth vanishes in integer division; fuel still drops.
    assert_eq!(next_fuel(9), 8);
    assert_eq!(next_fuel(3), 2);
    assert_eq!(next_fuel(2), 1);
    let mut fuel = 1000usize;
    while fuel >= 2 {
        let smaller = next_fuel(fuel);
        assert!(smaller < fuel);
        assert!(smaller >= 1);
        fuel = smaller;
    }
    assert_eq!(fuel, 1);
}

#[test]
fn success_after_a_failure_returns_the_captured_case() {
    let held = case_at(3, 4);
    let state = RunState { fuel: 4, seed: 3, failing: Some(held.clone()) };
    match run_step(state, Ok(()), 999, false) {
        StepResult::Failure(f) => assert_eq!(f.wat, held.wat),
        _ => panic!("expected the captured failure"),
    }
}

#[test]
fn success_with_no_failure_continues_with_a_fresh_seed() {
    let state = RunState { fuel: 64, seed: 3, failing: None };
    match run_step(state, Ok(()), 999, false) {
        StepResult::Continue(next) => {
            assert_eq!(next.fuel, 64);
            assert_eq!(next.seed, 999);
            assert!(next.failing.is_none());
        }
        _ => panic!("expected the search to continue"),
    }
}

#[test]
fn success_past_the_deadline_ends_the_run() {
    let state = RunState { fuel: 64, seed: 3, failing: None };
    match run_step(state, Ok(()), 999, true) {
        StepResult::Success => {}
        _ => panic!("expected the run to end with no bug found"),
    }
}

#[test]
fn failure_above_the_floor_shrinks_with_the_same_seed() {
    let state = RunState { fuel: 10, seed: 3, failing: None };
    match run_step(state, Err(case_at(3, 10)), 999, true) {
        StepResult::Continue(next) => {
            assert_eq!(next.fuel, 9);
            assert_eq!(next.seed, 3);
            assert!(next.failing.is_some());
        }
        _ => panic!("expected shrinking to continue"),
    }
}

#[test]
fn failure_at_the_floor_ends_the_run() {
    let state = RunState { fuel: 1, seed: 3, failing: None };
    match run_step(state, Err(case_at(3, 1)), 999, false) {
        StepResult::Failure(f) => assert_eq!(f.wat, WatGen::generate(3, 1)),
        _ => panic!("expected the failure to be returned"),
    }
}

#[test]
fn scenario_shrink_terminates_at_fuel_one() {
    // A transform that always diverges: starting from fuel 10, the loop
    // must shrink down to exactly 1 and return a case generated at fuel 1.
    let seed = 5u64;
    let mut state = RunState { fuel: 10, seed, failing: None };
    let mut fuels = Vec::new();
    let result = loop {
        fuels.push(state.fuel);
        let outcome = Err(case_at(state.seed, state.fuel));
        match run_step(state, outcome, 999, false) {
            StepResult::Continue(next) => state = next,
            StepResult::Failure(f) => break f,
            StepResult::Success => panic!("a diverging run cannot succeed"),
        }
    };
    assert_eq!(fuels, vec![10, 9, 8, 7, 6, 5, 4, 3, 2, 1]);
    assert_eq!(result.wat, WatGen::generate(seed, 1));
}

#[test]
fn a_divergence_drives_shrinking() {
    let case = case_at(1, 2);
    match classify_error(FuzzError::Divergence(case.clone())) {
        ErrorDisposition::Shrink(f) => {
            assert_eq!(f.wat, case.wat);
            assert_eq!(f.expected, case.expected);
            assert_eq!(f.actual, case.actual);
            assert_eq!(f.generator, case.generator);
        }
        ErrorDisposition::Abort(_) => panic!("a divergence must drive shrinking"),
    }
}

#[test]
fn a_tooling_failure_aborts_the_run() {
    let e = FuzzError::Io { context: String::from("failed to write to scratch file") };
    assert!(matches!(classify_error(e), ErrorDisposition::Abort(FuzzError::Io { .. })));
    let e = FuzzError::Assembly { context: String::from("the assembler rejected the text") };
    assert!(matches!(classify_error(e), ErrorDisposition::Abort(FuzzError::Assembly { .. })));
    let e = FuzzError::Transform { context: String::from("the transform rejected the buffer") };
    assert!(matches!(classify_error(e), ErrorDisposition::Abort(FuzzError::Transform { .. })));
}

#[test]
fn config_defaults_and_fuel_setting() {
    let config = Config::<WatGen>::new();
    assert_eq!(config.fuel(), DEFAULT_FUEL);
    assert_eq!(config.fuel(), 64);
    assert_eq!(config.timeout(), DEFAULT_TIMEOUT_SECS);
    assert_eq!(config.timeout(), 5);
    let config = config.set_fuel(10).set_timeout(60 * 5);
    assert_eq!(config.fuel(), 10);
    assert_eq!(config.timeout(), 300);
}

#[test]
fn config_generation_matches_the_generator() {
    let config = Config::<WatGen>::new().set_fuel(6);
    assert_eq!(config.gen_wat(11), WatGen::generate(11, 6));
}
