//! The host: the settings shared by all jobs, and the acceptance of a
//! request as a new job.

use vstd::prelude::*;
use crate::compile::{CompileStage, CompileStageView};
use crate::job::{ComputeRequest, RequestView, created_job};
use crate::pipeline::{Action, JobPipeline, PipelineView, first_actions};
use crate::workspace::{WorkspaceManager, is_within, path_join, separator};

verus! {

/// How many deliveries may wait for the client before a pipeline's driver
/// has to wait in turn.
pub const DELIVERY_QUEUE_CAPACITY: usize = 100;

/// Whether `c` is one of the digits `0` to `9` and `a` to `f`.
pub open spec fn is_lower_hex(c: char) -> bool {
    ('0' <= c && c <= '9') || ('a' <= c && c <= 'f')
}

/// Whether a hyphen stands at index `i` of a job identifier.
pub open spec fn is_hyphen_position(i: int) -> bool {
    i == 8 || i == 13 || i == 18 || i == 23
}

/// The form of a generated job identifier: a random (version 4) UUID in
/// lower-case hyphenated form, such as
/// `67e55044-10b1-426f-9247-bb680e5fe0c8`.
pub open spec fn is_job_id(id: Seq<char>) -> bool {
    &&& id.len() == 36
    &&& forall|i: int|
        0 <= i < 36 ==> if is_hyphen_position(i) {
            #[trigger] id[i] == '-'
        } else {
            is_lower_hex(id[i])
        }
    &&& id[14] == '4'
    &&& (id[19] == '8' || id[19] == '9' || id[19] == 'a' || id[19] == 'b')
}

/// Calls `uuid::Uuid::new_v4` and formats the result with its `Display`
/// impl. Believed of the two: the text is the lower-case hyphenated form
/// of a UUID whose version digit is 4 and whose variant digit is one of
/// `8`, `9`, `a`, `b`. Nothing is claimed about which UUID it is. Where
/// the operating system cannot supply random bytes, the call panics.
#[verifier::external_body]
fn fresh_job_id() -> (id: String)
    ensures
        is_job_id(id@),
{
    uuid::Uuid::new_v4().to_string()
}

/// The host that accepts requests. It fixes, for all its jobs, the scratch
/// root below which the workspaces lie and the compile stage.
#[derive(Debug, PartialEq, Eq)]
pub struct HostExecutor {
    pub workspaces: WorkspaceManager,
    pub stage: CompileStage,
}

/// Mathematical value of a [`HostExecutor`].
pub ghost struct HostView {
    pub scratch_root: Seq<char>,
    pub stage: CompileStageView,
}

impl View for HostExecutor {
    type V = HostView;

    open spec fn view(&self) -> HostView {
        HostView { scratch_root: self.workspaces@, stage: self.stage@ }
    }
}

/// The settings of a host that is made with [`HostExecutor::default`].
pub open spec fn default_host() -> HostView {
    HostView {
        scratch_root: "scratch"@,
        stage: CompileStageView { compiler: "nvcc"@, binary_name: "app.out"@ },
    }
}

/// The pipeline that `host` sets up for `request` under the identifier
/// `id`: a newly created job whose workspace is the entry `id` of the
/// scratch root.
pub open spec fn accepted(host: HostView, id: Seq<char>, request: RequestView) -> PipelineView {
    PipelineView {
        job: created_job(id, path_join(host.scratch_root, id), request),
        stage: host.stage,
    }
}

impl Default for HostExecutor {
    /// A host that keeps its workspaces below `scratch`, compiles with
    /// `nvcc` and names the binary `app.out`.
    fn default() -> (host: HostExecutor)
        ensures
            host@ == default_host(),
    {
        HostExecutor::new("scratch".to_owned(), "nvcc".to_owned(), "app.out".to_owned())
    }
}

impl HostExecutor {
    /// A host that keeps its workspaces below `scratch_root`, compiles
    /// with `compiler` and names the binary `binary_name`.
    pub fn new(scratch_root: String, compiler: String, binary_name: String) -> (host: HostExecutor)
        ensures
            host@ == (HostView {
                scratch_root: scratch_root@,
                stage: CompileStageView { compiler: compiler@, binary_name: binary_name@ },
            }),
    {
        HostExecutor {
            workspaces: WorkspaceManager::new(scratch_root),
            stage: CompileStage::new(compiler, binary_name),
        }
    }

    /// The directory that has to exist before any job is accepted.
    pub fn scratch_root(&self) -> (root: &str)
        ensures
            root@ == self@.scratch_root,
    {
        self.workspaces.scratch_root.as_str()
    }

    /// Accepts `request` as the job `job_id`. Returns the job's pipeline
    /// and what is to be done first. Nothing is asked of `job_id`; jobs
    /// with different identifiers get different workspaces.
    pub fn accept(&self, job_id: String, request: ComputeRequest) -> (started: (
        JobPipeline,
        Vec<Action>,
    ))
        ensures
            started.0@ == accepted(self@, job_id@, request@),
            started.1.deep_view() == first_actions(started.0@.job),
    {
        let workspace = self.workspaces.path_for(job_id.as_str());
        JobPipeline::start(job_id, workspace, request, self.stage.clone())
    }

    /// Accepts `request` as a new job under a freshly generated
    /// identifier. Returns at once, with the job's pipeline and what is to
    /// be done first; nothing has been compiled or run yet.
    pub fn execute_code(&self, request: ComputeRequest) -> (started: (JobPipeline, Vec<Action>))
        ensures
            is_job_id(started.0@.job.id),
            started.0@ == accepted(self@, started.0@.job.id, request@),
            started.1.deep_view() == first_actions(started.0@.job),
    {
        self.accept(fresh_job_id(), request)
    }
}

/// A generated job identifier is a single path component: it is not empty
/// and holds no separator, so the workspace lies directly in the scratch
/// root.
pub proof fn lemma_job_id_is_one_component(id: Seq<char>)
    requires
        is_job_id(id),
    ensures
        id.len() > 0,
        !id.contains(separator()),
{
    assert forall|i: int| 0 <= i < id.len() implies id[i] != separator() by {
        if is_hyphen_position(i) {
            assert(id[i] == '-');
        } else {
            assert(is_lower_hex(id[i]));
        }
    }
}

/// Jobs with different identifiers own different workspaces.
pub proof fn lemma_distinct_jobs_distinct_workspaces(
    host: HostView,
    id_a: Seq<char>,
    request_a: RequestView,
    id_b: Seq<char>,
    request_b: RequestView,
)
    requires
        id_a != id_b,
    ensures
        accepted(host, id_a, request_a).job.workspace_path != accepted(
            host,
            id_b,
            request_b,
        ).job.workspace_path,
{
    if path_join(host.scratch_root, id_a) == path_join(host.scratch_root, id_b) {
        crate::workspace::lemma_path_join_injective(host.scratch_root, id_a, id_b);
    }
}

/// The workspaces of two jobs with different generated identifiers are
/// disjoint: nothing below the one lies below the other, and neither lies
/// below the other.
pub proof fn lemma_workspaces_disjoint(
    scratch_root: Seq<char>,
    id_a: Seq<char>,
    id_b: Seq<char>,
    path: Seq<char>,
)
    requires
        is_job_id(id_a),
        is_job_id(id_b),
        id_a != id_b,
        is_within(path, path_join(scratch_root, id_a)) || path == path_join(scratch_root, id_a),
    ensures
        !is_within(path, path_join(scratch_root, id_b)),
        path != path_join(scratch_root, id_b),
{
    let base = scratch_root + seq![separator()];
    let dir_a = path_join(scratch_root, id_a);
    let dir_b = path_join(scratch_root, id_b);
    assert(dir_a.len() == base.len() + 36);
    assert(dir_b.len() == base.len() + 36);
    assert(path.len() >= dir_a.len());
    assert(path.subrange(0, dir_a.len() as int) =~= dir_a) by {
        if path != dir_a {
            assert((dir_a + seq![separator()]).subrange(0, dir_a.len() as int) =~= dir_a);
        }
    }
    assert(dir_a.subrange(base.len() as int, dir_a.len() as int) =~= id_a);
    assert(dir_b.subrange(base.len() as int, dir_b.len() as int) =~= id_b);
    if is_within(path, dir_b) || path == dir_b {
        assert(path.subrange(0, dir_b.len() as int) =~= dir_b) by {
            if path != dir_b {
                assert((dir_b + seq![separator()]).subrange(0, dir_b.len() as int) =~= dir_b);
            }
        }
        assert(dir_a == dir_b);
        assert(false);
    }
}

} // verus!
