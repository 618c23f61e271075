//! Child processes as plain values: what to run, and how a run ended.

use vstd::prelude::*;

verus! {

/// A child process to run: the program, its arguments in order, and the
/// directory it runs in.
#[derive(Debug, PartialEq, Eq)]
pub struct Invocation {
    pub program: String,
    pub args: Vec<String>,
    pub working_dir: String,
}

/// Mathematical value of an [`Invocation`].
pub ghost struct InvocationView {
    pub program: Seq<char>,
    pub args: Seq<Seq<char>>,
    pub working_dir: Seq<char>,
}

impl View for Invocation {
    type V = InvocationView;

    open spec fn view(&self) -> InvocationView {
        InvocationView {
            program: self.program@,
            args: self.args.deep_view(),
            working_dir: self.working_dir@,
        }
    }
}

impl Clone for Invocation {
    fn clone(&self) -> (copy: Invocation)
        ensures
            copy@ == self@,
    {
        let copy = Invocation {
            program: self.program.clone(),
            args: self.args.clone(),
            working_dir: self.working_dir.clone(),
        };
        assert(copy.args.deep_view() =~= self.args.deep_view());
        copy
    }
}

/// How a child process that was waited for ended.
#[derive(Clone, Copy, Debug, PartialEq, Eq, Structural)]
pub enum ExitReport {
    /// The process ran and exited with status zero.
    Success,
    /// The process ran and exited with another status, or was killed.
    Failure,
    /// The process could not be started at all.
    SpawnError,
}

/// The complete standard output and standard error of a finished process,
/// as text.
#[derive(Debug, PartialEq, Eq)]
pub struct ExecutionOutput {
    pub stdout: String,
    pub stderr: String,
}

/// Mathematical value of an [`ExecutionOutput`].
pub ghost struct ExecutionOutputView {
    pub stdout: Seq<char>,
    pub stderr: Seq<char>,
}

impl View for ExecutionOutput {
    type V = ExecutionOutputView;

    open spec fn view(&self) -> ExecutionOutputView {
        ExecutionOutputView { stdout: self.stdout@, stderr: self.stderr@ }
    }
}

impl Clone for ExecutionOutput {
    fn clone(&self) -> (copy: ExecutionOutput)
        ensures
            copy@ == self@,
    {
        ExecutionOutput { stdout: self.stdout.clone(), stderr: self.stderr.clone() }
    }
}

} // verus!
