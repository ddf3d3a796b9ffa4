//! The harness's error type.
//!
//! Tooling failures (writing the scratch file, launching an external tool,
//! assembling the text) abort a run; a divergence between the two executions
//! is the signal the harness exists to detect and is carried as structured
//! data so the failing input can be replayed.

use vstd::prelude::*;
use crate::failing::FailingTestCase;

verus! {

/// What went wrong during a fuzzing iteration.
#[derive(Clone, Debug)]
pub enum FuzzError {
    /// Writing the scratch file or running an external tool failed.
    Io {
        /// A human-readable description of the operation that failed.
        context: String,
    },
    /// The text-to-binary assembler rejected the generated program.
    Assembly {
        /// A human-readable description of the operation that failed.
        context: String,
    },
    /// The transformation under test failed to parse or re-serialize the
    /// binary module.
    Transform {
        /// A human-readable description of the operation that failed.
        context: String,
    },
    /// The executions before and after the round trip diverged.
    Divergence(FailingTestCase),
}

} // verus!
