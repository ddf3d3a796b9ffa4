use walrus_fuzz::FailingTestCase;
use walrus_fuzz::harness::{assert_round_trip_execution_is_same, compare_traces};

#[test]
fn equal_traces_succeed() {
    let generator = String::from("WatGen");
    let wat = String::from("(module)");
    let trace = String::from("called host print with 3\n");
    let r = compare_traces(&generator, &wat, &trace, &trace.clone());
    assert!(r.is_ok());
}

#[test]
fn empty_traces_succeed() {
    // Comparison disabled: both executions are reported as empty strings.
    let generator = String::from("WasmOptTtf");
    let wat = String::from("(module)");
    let r = compare_traces(&generator, &wat, &String::new(), &String::new());
    assert!(r.is_ok());
}

#[test]
fn scenario_divergence_is_detected() {
    // A transform stub that corrupts a constant during the round trip makes
    // the two traces differ; the captured case carries the exact input text
    // and both traces, unmodified.
    let generator = String::from("WatGen");
    let wat = String::from("(module\n  (func (export \"$f\")\n    i32.const 7\n    drop\n  ))");
    let expected = String::from("print: 7\n");
    let actual = String::from("print: 8\n");
    let r = compare_traces(&generator, &wat, &expected, &actual);
    match r {
        Ok(()) => panic!("divergence not detected"),
        Err(case) => {
            assert_ne!(case.expected, case.actual);
            assert_eq!(case.wat, wat);
            assert_eq!(case.expected, expected);
            assert_eq!(case.actual, actual);
            assert_eq!(case.generator, generator);
        }
    }
}

#[test]
fn comparison_is_exact_no_normalization() {
    let generator = String::from("WatGen");
    let wat = String::from("(module)");
    // Differing only in trailing whitespace: still a divergence.
    let r = compare_traces(&generator, &wat, &String::from("out"), &String::from("out "));
    assert!(r.is_err());
}

#[test]
fn replay_of_a_captured_case_is_deterministic() {
    // Feeding the captured inputs back in reproduces the same comparison
    // result.
    let generator = String::from("WatGen");
    let wat = String::from("(module)");
    let expected = String::from("a");
    let actual = String::from("b");
    let first = compare_traces(&generator, &wat, &expected, &actual);
    let again = compare_traces(&generator, &wat, &expected, &actual);
    match (first, again) {
        (Err(x), Err(y)) => {
            assert_eq!(x.wat, y.wat);
            assert_eq!(x.expected, y.expected);
            assert_eq!(x.actual, y.actual);
            assert_eq!(x.generator, y.generator);
        }
        _ => panic!("divergence must reproduce"),
    }
}

#[test]
fn matching_traces_pass_the_assertion() {
    let generator = String::from("WatGen");
    let wat = String::from("(module)");
    let trace = String::from("print: 1\n");
    assert_round_trip_execution_is_same(&generator, &wat, &trace, &trace.clone());
}

#[test]
fn report_rendering_is_exact() {
    let case = FailingTestCase {
        wat: String::from("(module)"),
        expected: String::from("1"),
        actual: String::from("2"),
        generator: String::from("WatGen"),
    };
    let expected_report = format!(
        "Found a failing test case!\n\n{wat}\n\nBEFORE round tripping through walrus:\n\n\
         {before}\n\nAFTER round tripping through walrus:\n\n{after}\n\n\
         Here is a standalone test case:\n\n\
         ----------------8<----------------8<----------------8<----------------\n\
         #[test]\nfn test_name() {{\n    assert_round_trip_execution_is_same::<\
         {generator}>(\"\\\n{wat}\");\n}}\n\
         ----------------8<----------------8<----------------8<----------------\n",
        wat = "(module)",
        before = "1",
        after = "2",
        generator = "WatGen",
    );
    assert_eq!(case.render(), expected_report);
}
