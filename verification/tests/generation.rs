use walrus_fuzz::TestCaseGenerator;
use walrus_fuzz::WatGen;
use walrus_fuzz::WasmOptTtf;
use walrus_fuzz::decimal::dec_text;
use walrus_fuzz::rng::Prng;

const PROLOGUE: &str =
    "(module\n  (import \"host\" \"print\" (func (param i32) (result i32)))\n  (func (export \"$f\")\n";

#[test]
fn generation_is_deterministic() {
    for seed in [0u64, 1, 42, 0xdead_beef, u64::MAX] {
        for fuel in [1usize, 2, 10, 64] {
            let a = WatGen::generate(seed, fuel);
            let b = WatGen::generate(seed, fuel);
            assert_eq!(a, b);
        }
    }
}

#[test]
fn generated_text_has_prologue_and_suffix() {
    for seed in 0u64..20 {
        let wat = WatGen::generate(seed, 8);
        assert!(wat.starts_with(PROLOGUE));
        assert!(wat.ends_with("  ))"));
    }
}

#[test]
fn generated_body_lines_are_known_instructions() {
    for seed in 0u64..20 {
        let wat = WatGen::generate(seed, 16);
        let body = &wat[PROLOGUE.len()..wat.len() - "  ))".len()];
        for line in body.lines() {
            assert!(line.starts_with("    "), "bad indent: {:?}", line);
            let instr = &line[4..];
            let known = instr == "nop"
                || instr == "drop"
                || instr == "i32.popcnt"
                || instr == "i32.add"
                || instr == "i32.mul"
                || instr == "call 0"
                || instr.starts_with("i32.const ");
            assert!(known, "unknown instruction: {:?}", instr);
        }
    }
}

#[test]
fn scenario_balanced_single_constant() {
    // A fuel-1 run whose one arity-0 draw selects "push constant": the body
    // is the constant, the host call for the residual value, and the cleanup
    // call plus discard; the function exits with a balanced stack.
    let mut found = false;
    for seed in 0u64..10_000 {
        let wat = WatGen::generate(seed, 1);
        let body = &wat[PROLOGUE.len()..wat.len() - "  ))".len()];
        let lines: Vec<&str> = body.lines().collect();
        if lines.len() == 4 && lines[0].starts_with("    i32.const ") {
            assert_eq!(lines[1], "    call 0");
            assert_eq!(lines[2], "    call 0");
            assert_eq!(lines[3], "    drop");
            let value = &lines[0]["    i32.const ".len()..];
            assert!(value.parse::<i32>().is_ok(), "bad immediate: {:?}", value);
            found = true;
            break;
        }
    }
    assert!(found, "no seed produced a single-constant program");
}

#[test]
fn scenario_all_nops() {
    // A run where every draw selects "nop": the body is `fuel` repeated
    // nops, with no host call and no cleanup, since the stack stays empty.
    let fuel = 3;
    let expected = format!("{}{}  ))", PROLOGUE, "    nop\n".repeat(fuel));
    let mut found = false;
    for seed in 0u64..10_000 {
        if WatGen::generate(seed, fuel) == expected {
            found = true;
            break;
        }
    }
    assert!(found, "no seed produced an all-nop program");
}

#[test]
fn decimal_rendering_is_exact() {
    assert_eq!(dec_text(0), "0");
    assert_eq!(dec_text(7), "7");
    assert_eq!(dec_text(42), "42");
    assert_eq!(dec_text(-1), "-1");
    assert_eq!(dec_text(1000), "1000");
    assert_eq!(dec_text(i32::MAX), "2147483647");
    assert_eq!(dec_text(i32::MIN), "-2147483648");
}

#[test]
fn generator_names() {
    assert_eq!(WatGen::name(), "WatGen");
    assert!(WatGen::should_interpret());
    assert_eq!(WasmOptTtf::name(), "WasmOptTtf");
    assert!(!WasmOptTtf::should_interpret());
}

#[test]
fn input_bytes_are_deterministic() {
    let mut a = Prng::from_seed(9);
    let mut b = Prng::from_seed(9);
    let xs = WasmOptTtf::gen_input_bytes(&mut a, 32);
    let ys = WasmOptTtf::gen_input_bytes(&mut b, 32);
    assert_eq!(xs.len(), 32);
    assert_eq!(xs, ys);
    // A retry draws fresh bytes from the same generator.
    let zs = WasmOptTtf::gen_input_bytes(&mut a, 32);
    assert_ne!(xs, zs);
}

#[test]
fn input_bytes_differ_across_seeds() {
    let mut a = Prng::from_seed(1);
    let mut b = Prng::from_seed(2);
    assert_ne!(
        WasmOptTtf::gen_input_bytes(&mut a, 32),
        WasmOptTtf::gen_input_bytes(&mut b, 32),
    );
}

#[test]
fn bounded_draws_stay_below_the_bound() {
    let mut rng = Prng::from_seed(1234);
    for _ in 0..1000 {
        assert!(rng.gen_range(3) < 3);
    }
    let mut one = Prng::from_seed(77);
    for _ in 0..100 {
        assert_eq!(one.gen_range(1), 0);
    }
}
