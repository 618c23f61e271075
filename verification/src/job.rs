//! Jobs: one submitted source file and where it stands in its lifecycle.

use vstd::prelude::*;

verus! {

/// What a client submits: a source file and the flags for its compiler.
#[derive(Debug, PartialEq, Eq)]
pub struct ComputeRequest {
    pub source_code: String,
    pub file_name: String,
    pub compiler_flags: Vec<String>,
}

/// Mathematical value of a [`ComputeRequest`].
pub ghost struct RequestView {
    pub source_code: Seq<char>,
    pub file_name: Seq<char>,
    pub compiler_flags: Seq<Seq<char>>,
}

impl View for ComputeRequest {
    type V = RequestView;

    open spec fn view(&self) -> RequestView {
        RequestView {
            source_code: self.source_code@,
            file_name: self.file_name@,
            compiler_flags: self.compiler_flags.deep_view(),
        }
    }
}

impl Clone for ComputeRequest {
    fn clone(&self) -> (copy: ComputeRequest)
        ensures
            copy@ == self@,
    {
        let copy = ComputeRequest {
            source_code: self.source_code.clone(),
            file_name: self.file_name.clone(),
            compiler_flags: self.compiler_flags.clone(),
        };
        assert(copy.compiler_flags.deep_view() =~= self.compiler_flags.deep_view());
        copy
    }
}

/// The stations of a job.
#[derive(Clone, Copy, Debug, PartialEq, Eq, Structural)]
pub enum JobState {
    /// Accepted; its workspace is being created.
    Created,
    /// The workspace exists; the source file is being written.
    WorkspaceReady,
    /// The compiler is running.
    Compiling,
    /// The compiler failed; the workspace is being removed.
    CompileFailed,
    /// The compiled binary is running.
    Running,
    /// The binary ran and its output was read; the workspace is being
    /// removed.
    Completed,
    /// The workspace could not be created or the binary could not be run;
    /// the workspace is being removed.
    Failed,
    /// The workspace has been removed. Nothing more happens to the job.
    CleanedUp,
}

/// One execution request on the host.
#[derive(Debug, PartialEq, Eq)]
pub struct Job {
    pub id: String,
    pub source_file_name: String,
    pub source_code: String,
    pub compiler_flags: Vec<String>,
    pub workspace_path: String,
    pub state: JobState,
}

/// Mathematical value of a [`Job`].
pub ghost struct JobView {
    pub id: Seq<char>,
    pub source_file_name: Seq<char>,
    pub source_code: Seq<char>,
    pub compiler_flags: Seq<Seq<char>>,
    pub workspace_path: Seq<char>,
    pub state: JobState,
}

impl View for Job {
    type V = JobView;

    open spec fn view(&self) -> JobView {
        JobView {
            id: self.id@,
            source_file_name: self.source_file_name@,
            source_code: self.source_code@,
            compiler_flags: self.compiler_flags.deep_view(),
            workspace_path: self.workspace_path@,
            state: self.state,
        }
    }
}

impl Clone for Job {
    fn clone(&self) -> (copy: Job)
        ensures
            copy@ == self@,
    {
        let copy = Job {
            id: self.id.clone(),
            source_file_name: self.source_file_name.clone(),
            source_code: self.source_code.clone(),
            compiler_flags: self.compiler_flags.clone(),
            workspace_path: self.workspace_path.clone(),
            state: self.state,
        };
        assert(copy.compiler_flags.deep_view() =~= self.compiler_flags.deep_view());
        copy
    }
}

/// The job that a request becomes on arrival, before anything was done
/// for it.
pub open spec fn created_job(id: Seq<char>, workspace_path: Seq<char>, request: RequestView) -> JobView {
    JobView {
        id,
        source_file_name: request.file_name,
        source_code: request.source_code,
        compiler_flags: request.compiler_flags,
        workspace_path,
        state: JobState::Created,
    }
}

impl JobState {
    /// Whether the workspace is expected to exist in this state: from the
    /// moment its creation succeeded until its removal is asked for.
    pub open spec fn holds_workspace(self) -> bool {
        self == JobState::WorkspaceReady || self == JobState::Compiling || self
            == JobState::Running
    }

    /// Whether the job has come to its end.
    pub fn is_final(self) -> (r: bool)
        ensures
            r == (self == JobState::CleanedUp),
    {
        self == JobState::CleanedUp
    }
}

impl Job {
    /// The job for `request` under the identifier `id`, owning the
    /// workspace `workspace_path`.
    pub fn new(id: String, workspace_path: String, request: ComputeRequest) -> (job: Job)
        ensures
            job@ == created_job(id@, workspace_path@, request@),
    {
        Job {
            id,
            source_file_name: request.file_name,
            source_code: request.source_code,
            compiler_flags: request.compiler_flags,
            workspace_path,
            state: JobState::Created,
        }
    }
}

} // verus!
