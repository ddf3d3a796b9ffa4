//! The transformation under test: a round trip of a binary wasm module
//! through `walrus` (parse, then re-serialize), without semantic
//! modification.  The transformation is the subject being fuzzed: nothing
//! is assumed about *what* bytes it produces, but both its acceptance of a
//! buffer and the bytes it re-serializes are deterministic in the input
//! buffer alone, so each is given a name that the round trip's contract is
//! stated over.

use vstd::prelude::*;
use vstd::string::StringExecFns;
use crate::error::FuzzError;

verus! {

#[verifier::external_type_specification]
#[verifier::external_body]
pub struct ExModule(walrus::Module);

#[verifier::external_type_specification]
#[verifier::external_body]
pub struct ExAnyhowError(anyhow::Error);

/// Whether `walrus::Module::from_buffer` parses the buffer.  Parsing is
/// deterministic, so acceptance is a function of the bytes alone.
pub uninterp spec fn walrus_accepts(wasm: Seq<u8>) -> bool;

/// The bytes `walrus::Module::emit_wasm` produces for the module parsed
/// from an accepted buffer.  Emission walks walrus's id-keyed maps and
/// arenas, which are deterministically ordered, so the result is a
/// function of the source bytes alone.
pub uninterp spec fn walrus_emit(wasm: Seq<u8>) -> Seq<u8>;

/// Relies on `walrus::Module::from_buffer`: parses a binary wasm buffer
/// into a module, succeeding exactly on the buffers walrus accepts.
#[verifier::external_body]
fn parse_buffer(wasm: &Vec<u8>) -> (r: Result<walrus::Module, anyhow::Error>)
    ensures
        r is Ok <==> walrus_accepts(wasm@),
{
    walrus::Module::from_buffer(wasm.as_slice())
}

/// A freshly parsed module, together with the bytes it was parsed from.
pub struct ParsedModule {
    module: walrus::Module,
    source: Ghost<Seq<u8>>,
}

impl ParsedModule {
    /// The bytes this module was parsed from.
    pub closed spec fn spec_source(&self) -> Seq<u8> {
        self.source@
    }
}

/// Relies on `walrus::Module::emit_wasm`: re-serializes the module into
/// the bytes determined by the buffer it was parsed from.  Emission
/// mutates the module (custom sections are taken out of it), so the module
/// is consumed and only the first emission is named.
#[verifier::external_body]
fn emit_buffer(p: ParsedModule) -> (r: Vec<u8>)
    ensures
        r@ == walrus_emit(p.spec_source()),
{
    let mut module = p.module;
    module.emit_wasm()
}

/// Relies on `anyhow::Error`'s `Display` rendering: a human-readable
/// description of the failure.
#[verifier::external_body]
fn error_text(e: &anyhow::Error) -> String {
    format!("{}", e)
}

/// Round trip a binary module through the transformation under test: parse
/// it into a `walrus::Module` and re-serialize it.  The round trip
/// succeeds if and only if walrus parses the buffer, and then returns
/// walrus's re-serialization unmodified (in the walrus version used here,
/// emission itself cannot fail).  A parse failure is reported as a
/// transformation error carrying the parse failure's own description; it
/// is never a divergence.
pub fn round_trip_through_walrus(wasm: &Vec<u8>) -> (r: Result<Vec<u8>, FuzzError>)
    ensures
        r is Ok <==> walrus_accepts(wasm@),
        r matches Ok(b) ==> b@ == walrus_emit(wasm@),
        r matches Err(e) ==> e matches FuzzError::Transform { context }
            && "walrus failed to parse the wasm buffer"@.is_prefix_of(context@),
{
    match parse_buffer(wasm) {
        Ok(module) => {
            let parsed = ParsedModule { module, source: Ghost(wasm@) };
            Ok(emit_buffer(parsed))
        },
        Err(e) => {
            let mut context = "walrus failed to parse the wasm buffer: ".to_owned();
            let cause = error_text(&e);
            context.append(cause.as_str());
            proof {
                reveal_strlit("walrus failed to parse the wasm buffer");
                reveal_strlit("walrus failed to parse the wasm buffer: ");
                assert("walrus failed to parse the wasm buffer"@.is_prefix_of(context@));
            }
            Err(FuzzError::Transform { context })
        },
    }
}

} // verus!
