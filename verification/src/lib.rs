//! A differential fuzzing harness for a wasm module transformation library.
//!
//! The harness generates random, type-correct WebAssembly text programs,
//! assembles them, executes them before and after a round trip through the
//! transformation under test, and reports a divergence whenever the two
//! executions differ.  On a divergence it greedily shrinks the failing
//! program by lowering the generator's fuel while holding the random seed
//! fixed.

pub mod decimal;
pub mod error;
pub mod failing;
pub mod generator;
pub mod harness;
pub mod rng;
pub mod transform;
pub mod wasmopt;
pub mod watgen;

pub use error::FuzzError;
pub use failing::FailingTestCase;
pub use generator::TestCaseGenerator;
pub use harness::{assert_round_trip_execution_is_same, Config};
pub use wasmopt::WasmOptTtf;
pub use watgen::WatGen;
