//! The compile stage: how the compiler is invoked and what its exit means.

use vstd::prelude::*;
use crate::process::{ExitReport, Invocation, InvocationView};
use crate::workspace::{join, path_join};

verus! {

/// The compile stage of a host: which compiler it runs and what the binary
/// it asks for is called.
#[derive(Debug, PartialEq, Eq)]
pub struct CompileStage {
    pub compiler: String,
    pub binary_name: String,
}

/// Mathematical value of a [`CompileStage`].
pub ghost struct CompileStageView {
    pub compiler: Seq<char>,
    pub binary_name: Seq<char>,
}

impl View for CompileStage {
    type V = CompileStageView;

    open spec fn view(&self) -> CompileStageView {
        CompileStageView { compiler: self.compiler@, binary_name: self.binary_name@ }
    }
}

impl Clone for CompileStage {
    fn clone(&self) -> (copy: CompileStage)
        ensures
            copy@ == self@,
    {
        CompileStage { compiler: self.compiler.clone(), binary_name: self.binary_name.clone() }
    }
}

/// What the compile stage ended in.
#[derive(Debug, PartialEq, Eq)]
pub enum CompileOutcome {
    /// The compiler exited with status zero; the binary is at `binary_path`.
    Success { binary_path: String },
    /// The compiler could not be started or exited with another status.
    Failure,
}

/// Mathematical value of a [`CompileOutcome`].
pub ghost enum CompileOutcomeView {
    Success { binary_path: Seq<char> },
    Failure,
}

impl View for CompileOutcome {
    type V = CompileOutcomeView;

    open spec fn view(&self) -> CompileOutcomeView {
        match self {
            CompileOutcome::Success { binary_path } => CompileOutcomeView::Success {
                binary_path: binary_path@,
            },
            CompileOutcome::Failure => CompileOutcomeView::Failure,
        }
    }
}

impl Clone for CompileOutcome {
    fn clone(&self) -> (copy: CompileOutcome)
        ensures
            copy@ == self@,
    {
        match self {
            CompileOutcome::Success { binary_path } => CompileOutcome::Success {
                binary_path: binary_path.clone(),
            },
            CompileOutcome::Failure => CompileOutcome::Failure,
        }
    }
}

/// The flag that announces the output path to the compiler.
pub open spec fn output_flag() -> Seq<char> {
    "-o"@
}

/// The compiler's arguments: the source file, then the caller's flags as
/// they came, then the output flag and the binary's path.
pub open spec fn compiler_args(
    source_path: Seq<char>,
    flags: Seq<Seq<char>>,
    binary_path: Seq<char>,
) -> Seq<Seq<char>> {
    seq![source_path] + flags + seq![output_flag(), binary_path]
}

/// The compiler run for a source file `file_name` in `workspace`.
pub open spec fn compile_invocation(
    stage: CompileStageView,
    workspace: Seq<char>,
    file_name: Seq<char>,
    flags: Seq<Seq<char>>,
) -> InvocationView {
    InvocationView {
        program: stage.compiler,
        args: compiler_args(
            path_join(workspace, file_name),
            flags,
            path_join(workspace, stage.binary_name),
        ),
        working_dir: workspace,
    }
}

/// What a compiler exit means: only an exit with status zero is a success.
pub open spec fn compile_outcome(
    stage: CompileStageView,
    exit: ExitReport,
    workspace: Seq<char>,
) -> CompileOutcomeView {
    if exit == ExitReport::Success {
        CompileOutcomeView::Success { binary_path: path_join(workspace, stage.binary_name) }
    } else {
        CompileOutcomeView::Failure
    }
}

impl CompileStage {
    /// A compile stage that runs `compiler` and names the binary
    /// `binary_name`.
    pub fn new(compiler: String, binary_name: String) -> (stage: CompileStage)
        ensures
            stage@ == (CompileStageView { compiler: compiler@, binary_name: binary_name@ }),
    {
        CompileStage { compiler, binary_name }
    }

    /// Where the source file `file_name` of a job is written.
    pub fn source_path(workspace: &str, file_name: &str) -> (path: String)
        ensures
            path@ == path_join(workspace@, file_name@),
    {
        join(workspace, file_name)
    }

    /// Where the compiler is told to put the binary.
    pub fn binary_path(&self, workspace: &str) -> (path: String)
        ensures
            path@ == path_join(workspace@, self@.binary_name),
    {
        join(workspace, self.binary_name.as_str())
    }

    /// The argument list of the compiler. The flags are passed through
    /// unchanged and in order; nothing is validated.
    pub fn arguments(
        source_path: String,
        flags: &Vec<String>,
        binary_path: String,
    ) -> (args: Vec<String>)
        ensures
            args.deep_view() == compiler_args(source_path@, flags.deep_view(), binary_path@),
    {
        let ghost source = source_path@;
        let ghost binary = binary_path@;
        let mut args: Vec<String> = Vec::new();
        args.push(source_path);
        let mut i: usize = 0;
        while i < flags.len()
            invariant
                i <= flags.len(),
                args.len() == i + 1,
                args[0]@ == source,
                forall|k: int| 1 <= k < args.len() ==> (#[trigger] args[k])@ == flags[k - 1]@,
            decreases flags.len() - i,
        {
            args.push(flags[i].clone());
            i += 1;
        }
        args.push("-o".to_owned());
        args.push(binary_path);
        proof {
            let expected = compiler_args(source, flags.deep_view(), binary);
            assert(args.deep_view().len() == expected.len());
            assert forall|k: int| 0 <= k < expected.len() implies args.deep_view()[k]
                == expected[k] by {
                if 1 <= k <= flags.len() {
                    assert(args[k]@ == flags[k - 1]@);
                    assert(flags.deep_view()[k - 1] == flags[k - 1]@);
                }
            }
            assert(args.deep_view() =~= expected);
        }
        args
    }

    /// The compiler run for one job: the compiler of this stage on the
    /// job's source file, inside the job's workspace.
    pub fn invocation(
        &self,
        workspace: &str,
        file_name: &str,
        flags: &Vec<String>,
    ) -> (run: Invocation)
        ensures
            run@ == compile_invocation(self@, workspace@, file_name@, flags.deep_view()),
    {
        let source = Self::source_path(workspace, file_name);
        let binary = self.binary_path(workspace);
        Invocation {
            program: self.compiler.clone(),
            args: Self::arguments(source, flags, binary),
            working_dir: workspace.to_owned(),
        }
    }

    /// Reads the compiler's exit. A compiler that could not be started and
    /// one that exited with a non-zero status are the same failure.
    pub fn outcome(&self, exit: ExitReport, workspace: &str) -> (outcome: CompileOutcome)
        ensures
            outcome@ == compile_outcome(self@, exit, workspace@),
    {
        match exit {
            ExitReport::Success => CompileOutcome::Success {
                binary_path: self.binary_path(workspace),
            },
            _ => CompileOutcome::Failure,
        }
    }
}

} // verus!
