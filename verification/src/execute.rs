//! The execute stage: how the compiled binary is run and how its captured
//! streams become text.

use vstd::prelude::*;
use vstd::utf8::{decode_utf8, valid_utf8};
use crate::process::{ExecutionOutput, Invocation, InvocationView};

verus! {

/// The text that `String::from_utf8_lossy` makes of a byte sequence.
pub uninterp spec fn lossy_text(bytes: Seq<u8>) -> Seq<char>;

/// Calls `String::from_utf8_lossy`, which decodes bytes as UTF-8 and puts
/// U+FFFD in place of every sequence that is not valid. Believed of it:
/// the text depends on the bytes alone, and bytes that are valid UTF-8
/// decode to exactly the text they encode.
#[verifier::external_body]
fn decode_lossy(bytes: &[u8]) -> (text: String)
    ensures
        text@ == lossy_text(bytes@),
        valid_utf8(bytes@) ==> text@ == decode_utf8(bytes@),
{
    String::from_utf8_lossy(bytes).into_owned()
}

/// The run of a compiled binary: the binary itself, without arguments,
/// inside the job's workspace.
pub open spec fn execute_invocation(binary_path: Seq<char>, workspace: Seq<char>) -> InvocationView {
    InvocationView { program: binary_path, args: Seq::empty(), working_dir: workspace }
}

/// The execute stage. It has no settings of its own.
#[derive(Clone, Copy, Debug, PartialEq, Eq)]
pub struct ExecuteStage;

impl ExecuteStage {
    /// The run of the binary at `binary_path` for a job that owns
    /// `workspace`.
    pub fn invocation(binary_path: String, workspace: &str) -> (run: Invocation)
        ensures
            run@ == execute_invocation(binary_path@, workspace@),
    {
        let run = Invocation {
            program: binary_path,
            args: Vec::new(),
            working_dir: workspace.to_owned(),
        };
        assert(run.args.deep_view() =~= Seq::<Seq<char>>::empty());
        run
    }

    /// Turns the two captured streams of a finished binary into text, each
    /// by lossy UTF-8 decoding. A stream without bytes gives empty text.
    pub fn capture(stdout: &[u8], stderr: &[u8]) -> (output: ExecutionOutput)
        ensures
            output@.stdout == lossy_text(stdout@),
            output@.stderr == lossy_text(stderr@),
            valid_utf8(stdout@) ==> output@.stdout == decode_utf8(stdout@),
            valid_utf8(stderr@) ==> output@.stderr == decode_utf8(stderr@),
            stdout@.len() == 0 ==> output@.stdout.len() == 0,
            stderr@.len() == 0 ==> output@.stderr.len() == 0,
    {
        ExecutionOutput { stdout: decode_lossy(stdout), stderr: decode_lossy(stderr) }
    }
}

} // verus!
