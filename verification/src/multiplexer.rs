//! The output multiplexer: which chunks the stages' results become, and in
//! which order.

use vstd::prelude::*;
use crate::chunk::{ChunkView, OutputChunk, compile_failure_text, compile_success_text};
use crate::compile::{CompileOutcome, CompileOutcomeView};
use crate::process::{ExecutionOutput, ExecutionOutputView};

verus! {

/// The chunk that reports a successful compilation.
pub open spec fn compile_success_chunk() -> ChunkView {
    ChunkView { text: compile_success_text(), is_error: false }
}

/// The chunk that reports a failed compilation. It is tagged as an error.
pub open spec fn compile_failure_chunk() -> ChunkView {
    ChunkView { text: compile_failure_text(), is_error: true }
}

/// The one chunk that sums up the compile stage.
pub open spec fn compile_summary(outcome: CompileOutcomeView) -> ChunkView {
    match outcome {
        CompileOutcomeView::Success { .. } => compile_success_chunk(),
        CompileOutcomeView::Failure => compile_failure_chunk(),
    }
}

/// The chunk for the standard output of the binary, if it wrote any.
pub open spec fn stdout_chunks(output: ExecutionOutputView) -> Seq<ChunkView> {
    if output.stdout.len() > 0 {
        seq![ChunkView { text: output.stdout, is_error: false }]
    } else {
        Seq::empty()
    }
}

/// The chunk for the standard error of the binary, if it wrote any.
pub open spec fn stderr_chunks(output: ExecutionOutputView) -> Seq<ChunkView> {
    if output.stderr.len() > 0 {
        seq![ChunkView { text: output.stderr, is_error: true }]
    } else {
        Seq::empty()
    }
}

/// The chunks of one execution: standard output before standard error,
/// each as one block, and nothing for a stream that stayed empty.
pub open spec fn execution_chunks(output: ExecutionOutputView) -> Seq<ChunkView> {
    stdout_chunks(output) + stderr_chunks(output)
}

/// Merges what the stages produce into the one ordered sequence of chunks
/// that the caller receives.
#[derive(Clone, Copy, Debug, PartialEq, Eq)]
pub struct OutputMultiplexer;

impl OutputMultiplexer {
    /// The summary chunk of the compile stage. The compiler's own
    /// diagnostics are not relayed.
    pub fn compile_summary(outcome: &CompileOutcome) -> (chunk: OutputChunk)
        ensures
            chunk@ == compile_summary(outcome@),
    {
        match outcome {
            CompileOutcome::Success { .. } => OutputChunk::normal(
                "🚀 Compilation successful. Running...".to_owned(),
            ),
            CompileOutcome::Failure => OutputChunk::diagnostic("❌ Compilation failed.".to_owned()),
        }
    }

    /// The chunks of one execution, in the order of delivery.
    pub fn execution_chunks(output: ExecutionOutput) -> (chunks: Vec<OutputChunk>)
        ensures
            chunks.deep_view() == execution_chunks(output@),
    {
        let ghost view = output@;
        let mut chunks: Vec<OutputChunk> = Vec::new();
        if !output.stdout.as_str().is_empty() {
            chunks.push(OutputChunk::normal(output.stdout));
        }
        if !output.stderr.as_str().is_empty() {
            chunks.push(OutputChunk::diagnostic(output.stderr));
        }
        assert(chunks.deep_view() =~= execution_chunks(view));
        chunks
    }
}

} // verus!
