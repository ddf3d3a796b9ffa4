//! A captured counterexample: a program whose execution changed across the
//! transformation round trip.

use vstd::prelude::*;
use vstd::string::StringExecFns;

verus! {

/// A failing wasm test case where round tripping the wasm through the
/// transformation under test produces an observably different execution in
/// the reference interpreter.
#[derive(Clone, Debug)]
pub struct FailingTestCase {
    /// The WAT disassembly of the wasm test case.
    pub wat: String,
    /// The reference interpreter's output while interpreting the wasm
    /// *before* it has been round tripped through the transformation.
    pub expected: String,
    /// The reference interpreter's output while interpreting the wasm
    /// *after* it has been round tripped through the transformation.
    pub actual: String,
    /// The name of the test case generator that created this failing test
    /// case.
    pub generator: String,
}

impl FailingTestCase {
    /// The human-readable report for this failing test case: the offending
    /// source text, both execution traces, and a ready-to-paste regression
    /// test naming the generator and embedding the source text.  The stub
    /// calls the replay entry point `assert_round_trip_execution_is_same`
    /// that the surrounding harness shell provides for its generators.
    pub open spec fn spec_render(&self) -> Seq<char> {
        "Found a failing test case!\n\n"@ + self.wat@
            + "\n\nBEFORE round tripping through walrus:\n\n"@ + self.expected@
            + "\n\nAFTER round tripping through walrus:\n\n"@ + self.actual@
            + "\n\nHere is a standalone test case:\n\n----------------8<----------------8<----------------8<----------------\n#[test]\nfn test_name() {\n    assert_round_trip_execution_is_same::<"@
            + self.generator@
            + ">(\"\\\n"@ + self.wat@
            + "\");\n}\n----------------8<----------------8<----------------8<----------------\n"@
    }

    /// Render the report, exactly `spec_render`.
    pub fn render(&self) -> (r: String)
        ensures
            r@ == self.spec_render(),
    {
        let mut r = "Found a failing test case!\n\n".to_owned();
        r.append(self.wat.as_str());
        r.append("\n\nBEFORE round tripping through walrus:\n\n");
        r.append(self.expected.as_str());
        r.append("\n\nAFTER round tripping through walrus:\n\n");
        r.append(self.actual.as_str());
        r.append(
            "\n\nHere is a standalone test case:\n\n----------------8<----------------8<----------------8<----------------\n#[test]\nfn test_name() {\n    assert_round_trip_execution_is_same::<",
        );
        r.append(self.generator.as_str());
        r.append(">(\"\\\n");
        r.append(self.wat.as_str());
        r.append("\");\n}\n----------------8<----------------8<----------------8<----------------\n");
        assert(r@ =~= self.spec_render());
        r
    }
}

} // verus!
