//! Output chunks: the unit of text streamed back to the client.

use vstd::prelude::*;

verus! {

/// One unit of streamed output: a block of text and the tag that tells
/// diagnostic output from normal output.
#[derive(Debug, PartialEq, Eq)]
pub struct OutputChunk {
    pub text: String,
    pub is_error: bool,
}

/// Mathematical value of an [`OutputChunk`].
pub ghost struct ChunkView {
    pub text: Seq<char>,
    pub is_error: bool,
}

impl View for OutputChunk {
    type V = ChunkView;

    open spec fn view(&self) -> ChunkView {
        ChunkView { text: self.text@, is_error: self.is_error }
    }
}

impl Clone for OutputChunk {
    fn clone(&self) -> (copy: OutputChunk)
        ensures
            copy@ == self@,
    {
        OutputChunk { text: self.text.clone(), is_error: self.is_error }
    }
}

impl DeepView for OutputChunk {
    type V = ChunkView;

    open spec fn deep_view(&self) -> ChunkView {
        self@
    }
}

/// Text of the chunk that reports a successful compilation.
pub open spec fn compile_success_text() -> Seq<char> {
    "🚀 Compilation successful. Running..."@
}

/// Text of the chunk that reports a failed compilation.
pub open spec fn compile_failure_text() -> Seq<char> {
    "❌ Compilation failed."@
}

impl OutputChunk {
    /// A chunk of normal output.
    pub fn normal(text: String) -> (chunk: OutputChunk)
        ensures
            chunk@ == (ChunkView { text: text@, is_error: false }),
    {
        OutputChunk { text, is_error: false }
    }

    /// A chunk of diagnostic output.
    pub fn diagnostic(text: String) -> (chunk: OutputChunk)
        ensures
            chunk@ == (ChunkView { text: text@, is_error: true }),
    {
        OutputChunk { text, is_error: true }
    }
}

} // verus!
