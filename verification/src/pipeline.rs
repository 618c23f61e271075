//! The job pipeline: the state machine that takes one job from its arrival
//! to the removal of its workspace.
//!
//! The pipeline performs nothing itself. It hands out [`Action`]s, which
//! its driver carries out in order, and takes back one [`Event`] for each
//! operation whose result matters. Deliveries to the client need no
//! answer: whether the client still listens changes nothing.

use vstd::prelude::*;
use vstd::string::*;
use crate::chunk::{ChunkView, OutputChunk};
use crate::compile::{
    CompileOutcome,
    CompileOutcomeView,
    CompileStage,
    CompileStageView,
    compile_invocation,
    compile_outcome,
};
use crate::execute::{ExecuteStage, execute_invocation};
use crate::job::{ComputeRequest, Job, JobState, JobView, RequestView, created_job};
use crate::multiplexer::{OutputMultiplexer, compile_summary, execution_chunks};
use crate::process::{
    ExecutionOutput,
    ExecutionOutputView,
    ExitReport,
    Invocation,
    InvocationView,
};
use crate::workspace::path_join;

verus! {

/// The result of an operation that the pipeline asked for.
#[derive(Debug, PartialEq, Eq)]
pub enum Event {
    /// The workspace directory was created.
    WorkspaceCreated,
    /// The workspace directory could not be created; `reason` says why.
    WorkspaceUnavailable { reason: String },
    /// The attempt to write the source file is over, however it went.
    SourceWritten,
    /// The compiler run is over.
    CompilerExited { exit: ExitReport },
    /// The run of the binary is over. `output` is `None` where the binary
    /// could not be started or its output could not be read.
    BinaryExited { output: Option<ExecutionOutput> },
    /// The attempt to remove the workspace is over, however it went.
    WorkspaceRemoved,
}

/// Mathematical value of an [`Event`].
pub ghost enum EventView {
    WorkspaceCreated,
    WorkspaceUnavailable { reason: Seq<char> },
    SourceWritten,
    CompilerExited { exit: ExitReport },
    BinaryExited { output: Option<ExecutionOutputView> },
    WorkspaceRemoved,
}

impl View for Event {
    type V = EventView;

    open spec fn view(&self) -> EventView {
        match self {
            Event::WorkspaceCreated => EventView::WorkspaceCreated,
            Event::WorkspaceUnavailable { reason } => EventView::WorkspaceUnavailable {
                reason: reason@,
            },
            Event::SourceWritten => EventView::SourceWritten,
            Event::CompilerExited { exit } => EventView::CompilerExited { exit: *exit },
            Event::BinaryExited { output } => EventView::BinaryExited {
                output: match output {
                    Some(o) => Some(o@),
                    None => None,
                },
            },
            Event::WorkspaceRemoved => EventView::WorkspaceRemoved,
        }
    }
}

impl Clone for Event {
    fn clone(&self) -> (copy: Event)
        ensures
            copy@ == self@,
    {
        match self {
            Event::WorkspaceCreated => Event::WorkspaceCreated,
            Event::WorkspaceUnavailable { reason } => Event::WorkspaceUnavailable {
                reason: reason.clone(),
            },
            Event::SourceWritten => Event::SourceWritten,
            Event::CompilerExited { exit } => Event::CompilerExited { exit: *exit },
            Event::BinaryExited { output } => Event::BinaryExited {
                output: match output {
                    Some(o) => Some(o.clone()),
                    None => None,
                },
            },
            Event::WorkspaceRemoved => Event::WorkspaceRemoved,
        }
    }
}

/// Something for the driver of a pipeline to do.
#[derive(Debug, PartialEq, Eq)]
pub enum Action {
    /// Create the directory `path` and answer with
    /// [`Event::WorkspaceCreated`] or [`Event::WorkspaceUnavailable`].
    CreateWorkspace { path: String },
    /// Write `contents` to the file `path` and answer with
    /// [`Event::SourceWritten`].
    WriteSource { path: String, contents: String },
    /// Run the compiler, wait for it and answer with
    /// [`Event::CompilerExited`].
    RunCompiler { run: Invocation },
    /// Send `chunk` to the client. No answer is expected.
    Deliver { chunk: OutputChunk },
    /// Tell the client that the host failed internally. No answer is
    /// expected.
    ReportFailure { message: String },
    /// Run the binary to its end, read what it wrote and answer with
    /// [`Event::BinaryExited`].
    RunBinary { run: Invocation },
    /// Remove the directory `path` with all it holds and answer with
    /// [`Event::WorkspaceRemoved`].
    RemoveWorkspace { path: String },
}

/// Mathematical value of an [`Action`].
pub ghost enum ActionView {
    CreateWorkspace { path: Seq<char> },
    WriteSource { path: Seq<char>, contents: Seq<char> },
    RunCompiler { run: InvocationView },
    Deliver { chunk: ChunkView },
    ReportFailure { message: Seq<char> },
    RunBinary { run: InvocationView },
    RemoveWorkspace { path: Seq<char> },
}

impl View for Action {
    type V = ActionView;

    open spec fn view(&self) -> ActionView {
        match self {
            Action::CreateWorkspace { path } => ActionView::CreateWorkspace { path: path@ },
            Action::WriteSource { path, contents } => ActionView::WriteSource {
                path: path@,
                contents: contents@,
            },
            Action::RunCompiler { run } => ActionView::RunCompiler { run: run@ },
            Action::Deliver { chunk } => ActionView::Deliver { chunk: chunk@ },
            Action::ReportFailure { message } => ActionView::ReportFailure { message: message@ },
            Action::RunBinary { run } => ActionView::RunBinary { run: run@ },
            Action::RemoveWorkspace { path } => ActionView::RemoveWorkspace { path: path@ },
        }
    }
}

impl Clone for Action {
    fn clone(&self) -> (copy: Action)
        ensures
            copy@ == self@,
    {
        match self {
            Action::CreateWorkspace { path } => Action::CreateWorkspace { path: path.clone() },
            Action::WriteSource { path, contents } => Action::WriteSource {
                path: path.clone(),
                contents: contents.clone(),
            },
            Action::RunCompiler { run } => Action::RunCompiler { run: run.clone() },
            Action::Deliver { chunk } => Action::Deliver { chunk: chunk.clone() },
            Action::ReportFailure { message } => Action::ReportFailure {
                message: message.clone(),
            },
            Action::RunBinary { run } => Action::RunBinary { run: run.clone() },
            Action::RemoveWorkspace { path } => Action::RemoveWorkspace { path: path.clone() },
        }
    }
}

impl DeepView for Action {
    type V = ActionView;

    open spec fn deep_view(&self) -> ActionView {
        self@
    }
}

/// Why a pipeline refused an event.
#[derive(Clone, Copy, Debug, PartialEq, Eq, Structural)]
pub enum PipelineError {
    /// The job is cleaned up: no event is awaited any more.
    Finished,
    /// The event does not answer the operation that the job waits for.
    UnexpectedEvent,
}

/// Mathematical value of a [`JobPipeline`]: the job and the compile stage
/// it goes through.
pub ghost struct PipelineView {
    pub job: JobView,
    pub stage: CompileStageView,
}

/// Whether `event` answers the operation that a job in `state` waits for.
pub open spec fn awaits(state: JobState, event: EventView) -> bool {
    match state {
        JobState::Created => event is WorkspaceCreated || event is WorkspaceUnavailable,
        JobState::WorkspaceReady => event is SourceWritten,
        JobState::Compiling => event is CompilerExited,
        JobState::Running => event is BinaryExited,
        JobState::CompileFailed | JobState::Completed | JobState::Failed => event
            is WorkspaceRemoved,
        JobState::CleanedUp => false,
    }
}

/// The state that a job enters on `event`, where it awaited it.
pub open spec fn state_after(event: EventView) -> JobState {
    match event {
        EventView::WorkspaceCreated => JobState::WorkspaceReady,
        EventView::WorkspaceUnavailable { .. } => JobState::Failed,
        EventView::SourceWritten => JobState::Compiling,
        EventView::CompilerExited { exit } => if exit == ExitReport::Success {
            JobState::Running
        } else {
            JobState::CompileFailed
        },
        EventView::BinaryExited { output } => if output is Some {
            JobState::Completed
        } else {
            JobState::Failed
        },
        EventView::WorkspaceRemoved => JobState::CleanedUp,
    }
}

/// The message of the internal failure that is reported where the
/// workspace could not be created.
pub open spec fn workspace_failure_message(reason: Seq<char>) -> Seq<char> {
    "Failed to create workspace: "@ + reason
}

/// One delivery for each chunk, in order.
pub open spec fn deliveries(chunks: Seq<ChunkView>) -> Seq<ActionView> {
    chunks.map_values(|chunk: ChunkView| ActionView::Deliver { chunk })
}

/// The removal of the job's workspace.
pub open spec fn removal(job: JobView) -> ActionView {
    ActionView::RemoveWorkspace { path: job.workspace_path }
}

/// What is to be done once a job is accepted: create its workspace.
pub open spec fn first_actions(job: JobView) -> Seq<ActionView> {
    seq![ActionView::CreateWorkspace { path: job.workspace_path }]
}

/// What is to be done, in order, when `event` arrives for a pipeline that
/// awaits it.
pub open spec fn next_actions(pipeline: PipelineView, event: EventView) -> Seq<ActionView>
    recommends
        awaits(pipeline.job.state, event),
{
    let job = pipeline.job;
    match event {
        EventView::WorkspaceCreated => seq![
            ActionView::WriteSource {
                path: path_join(job.workspace_path, job.source_file_name),
                contents: job.source_code,
            },
        ],
        EventView::WorkspaceUnavailable { reason } => seq![
            ActionView::ReportFailure { message: workspace_failure_message(reason) },
            removal(job),
        ],
        EventView::SourceWritten => seq![
            ActionView::RunCompiler {
                run: compile_invocation(
                    pipeline.stage,
                    job.workspace_path,
                    job.source_file_name,
                    job.compiler_flags,
                ),
            },
        ],
        EventView::CompilerExited { exit } => {
            let outcome = compile_outcome(pipeline.stage, exit, job.workspace_path);
            let summary = ActionView::Deliver { chunk: compile_summary(outcome) };
            match outcome {
                CompileOutcomeView::Success { binary_path } => seq![
                    summary,
                    ActionView::RunBinary {
                        run: execute_invocation(binary_path, job.workspace_path),
                    },
                ],
                CompileOutcomeView::Failure => seq![summary, removal(job)],
            }
        },
        EventView::BinaryExited { output } => match output {
            Some(output) => deliveries(execution_chunks(output)) + seq![removal(job)],
            None => seq![removal(job)],
        },
        EventView::WorkspaceRemoved => Seq::empty(),
    }
}

/// The pipeline after `event`.
pub open spec fn advance(pipeline: PipelineView, event: EventView) -> PipelineView
    recommends
        awaits(pipeline.job.state, event),
{
    PipelineView {
        job: JobView { state: state_after(event), ..pipeline.job },
        stage: pipeline.stage,
    }
}

/// The error with which `event` is refused in `state`.
pub open spec fn refusal(state: JobState) -> PipelineError {
    if state == JobState::CleanedUp {
        PipelineError::Finished
    } else {
        PipelineError::UnexpectedEvent
    }
}

/// The unit of work for one job: the job and the compile stage it goes
/// through. Each pipeline is independent of every other.
#[derive(Debug, PartialEq, Eq)]
pub struct JobPipeline {
    job: Job,
    stage: CompileStage,
}

impl View for JobPipeline {
    type V = PipelineView;

    closed spec fn view(&self) -> PipelineView {
        PipelineView { job: self.job@, stage: self.stage@ }
    }
}

impl Clone for JobPipeline {
    fn clone(&self) -> (copy: JobPipeline)
        ensures
            copy@ == self@,
    {
        JobPipeline { job: self.job.clone(), stage: self.stage.clone() }
    }
}

impl JobPipeline {
    /// Accepts `request` as the job `id` with the workspace
    /// `workspace_path`, to be compiled by `stage`. Returns the pipeline
    /// and what is to be done first.
    pub fn start(
        id: String,
        workspace_path: String,
        request: ComputeRequest,
        stage: CompileStage,
    ) -> (started: (JobPipeline, Vec<Action>))
        ensures
            started.0@ == (PipelineView {
                job: created_job(id@, workspace_path@, request@),
                stage: stage@,
            }),
            started.1.deep_view() == first_actions(started.0@.job),
    {
        let job = Job::new(id, workspace_path, request);
        let mut actions: Vec<Action> = Vec::new();
        actions.push(Action::CreateWorkspace { path: job.workspace_path.clone() });
        assert(actions.deep_view() =~= first_actions(job@));
        (JobPipeline { job, stage }, actions)
    }

    /// The job as it stands.
    pub fn job(&self) -> (job: &Job)
        ensures
            job@ == self@.job,
    {
        &self.job
    }

    /// The state of the job.
    pub fn state(&self) -> (state: JobState)
        ensures
            state == self@.job.state,
    {
        self.job.state
    }

    /// Whether the job has come to its end: its workspace was removed and
    /// no event is awaited.
    pub fn is_finished(&self) -> (finished: bool)
        ensures
            finished == (self@.job.state == JobState::CleanedUp),
            finished == (forall|event: EventView| !awaits(self@.job.state, event)),
    {
        proof {
            if self.job.state != JobState::CleanedUp {
                let witness = match self.job.state {
                    JobState::Created => EventView::WorkspaceCreated,
                    JobState::WorkspaceReady => EventView::SourceWritten,
                    JobState::Compiling => EventView::CompilerExited { exit: ExitReport::Success },
                    JobState::Running => EventView::BinaryExited { output: None },
                    _ => EventView::WorkspaceRemoved,
                };
                assert(awaits(self.job.state, witness));
            }
        }
        self.job.state.is_final()
    }

    fn removal(&self) -> (action: Action)
        ensures
            action@ == removal(self@.job),
    {
        Action::RemoveWorkspace { path: self.job.workspace_path.clone() }
    }

    fn on_workspace_created(&self) -> (actions: Vec<Action>)
        ensures
            actions.deep_view() == next_actions(self@, EventView::WorkspaceCreated),
    {
        let path = CompileStage::source_path(
            self.job.workspace_path.as_str(),
            self.job.source_file_name.as_str(),
        );
        let mut actions: Vec<Action> = Vec::new();
        actions.push(Action::WriteSource { path, contents: self.job.source_code.clone() });
        assert(actions.deep_view() =~= next_actions(self@, EventView::WorkspaceCreated));
        actions
    }

    fn on_workspace_unavailable(&self, reason: String) -> (actions: Vec<Action>)
        ensures
            actions.deep_view() == next_actions(
                self@,
                EventView::WorkspaceUnavailable { reason: reason@ },
            ),
    {
        let message = "Failed to create workspace: ".to_owned().concat(reason.as_str());
        let mut actions: Vec<Action> = Vec::new();
        actions.push(Action::ReportFailure { message });
        actions.push(self.removal());
        assert(actions.deep_view() =~= next_actions(
            self@,
            EventView::WorkspaceUnavailable { reason: reason@ },
        ));
        actions
    }

    fn on_source_written(&self) -> (actions: Vec<Action>)
        ensures
            actions.deep_view() == next_actions(self@, EventView::SourceWritten),
    {
        let run = self.stage.invocation(
            self.job.workspace_path.as_str(),
            self.job.source_file_name.as_str(),
            &self.job.compiler_flags,
        );
        let mut actions: Vec<Action> = Vec::new();
        actions.push(Action::RunCompiler { run });
        assert(actions.deep_view() =~= next_actions(self@, EventView::SourceWritten));
        actions
    }

    fn on_compiler_exited(&self, exit: ExitReport) -> (actions: Vec<Action>)
        ensures
            actions.deep_view() == next_actions(self@, EventView::CompilerExited { exit }),
    {
        let outcome = self.stage.outcome(exit, self.job.workspace_path.as_str());
        let summary = OutputMultiplexer::compile_summary(&outcome);
        let mut actions: Vec<Action> = Vec::new();
        actions.push(Action::Deliver { chunk: summary });
        match outcome {
            CompileOutcome::Success { binary_path } => {
                let run = ExecuteStage::invocation(binary_path, self.job.workspace_path.as_str());
                actions.push(Action::RunBinary { run });
            },
            CompileOutcome::Failure => {
                actions.push(self.removal());
            },
        }
        assert(actions.deep_view() =~= next_actions(self@, EventView::CompilerExited { exit }));
        actions
    }

    fn on_binary_exited(&self, output: Option<ExecutionOutput>) -> (actions: Vec<Action>)
        ensures
            actions.deep_view() == next_actions(self@, (Event::BinaryExited { output })@),
    {
        let mut actions: Vec<Action> = Vec::new();
        let ghost mut expected: Seq<ActionView> = Seq::empty();
        match output {
            Some(output) => {
                proof {
                    expected = deliveries(execution_chunks(output@));
                }
                let chunks = OutputMultiplexer::execution_chunks(output);
                let ghost all = chunks@;
                for chunk in iter: chunks
                    invariant
                        iter.seq() == all,
                        actions.len() == iter.index(),
                        forall|k: int|
                            0 <= k < actions.len() ==> (#[trigger] actions[k])@
                                == (ActionView::Deliver { chunk: all[k]@ }),
                {
                    actions.push(Action::Deliver { chunk });
                }
                assert(actions.deep_view() =~= expected);
            },
            None => {},
        }
        assert(actions.deep_view() =~= expected);
        actions.push(self.removal());
        assert(actions.deep_view() =~= expected + seq![removal(self@.job)]);
        actions
    }

    /// Whether `event` answers the operation that the job waits for.
    pub fn accepts(&self, event: &Event) -> (accepted: bool)
        ensures
            accepted == awaits(self@.job.state, event@),
    {
        let state = self.job.state;
        match event {
            Event::WorkspaceCreated => state == JobState::Created,
            Event::WorkspaceUnavailable { .. } => state == JobState::Created,
            Event::SourceWritten => state == JobState::WorkspaceReady,
            Event::CompilerExited { .. } => state == JobState::Compiling,
            Event::BinaryExited { .. } => state == JobState::Running,
            Event::WorkspaceRemoved => state == JobState::CompileFailed || state
                == JobState::Completed || state == JobState::Failed,
        }
    }

    fn successor(event: &Event) -> (state: JobState)
        ensures
            state == state_after(event@),
    {
        match event {
            Event::WorkspaceCreated => JobState::WorkspaceReady,
            Event::WorkspaceUnavailable { .. } => JobState::Failed,
            Event::SourceWritten => JobState::Compiling,
            Event::CompilerExited { exit } => match exit {
                ExitReport::Success => JobState::Running,
                _ => JobState::CompileFailed,
            },
            Event::BinaryExited { output } => match output {
                Some(_) => JobState::Completed,
                None => JobState::Failed,
            },
            Event::WorkspaceRemoved => JobState::CleanedUp,
        }
    }

    fn refuse(state: JobState) -> (error: PipelineError)
        ensures
            error == refusal(state),
    {
        match state {
            JobState::CleanedUp => PipelineError::Finished,
            _ => PipelineError::UnexpectedEvent,
        }
    }

    /// Takes the result of the operation that the job waited for, moves
    /// the job on and returns what is to be done next, in order. An event
    /// that the job does not wait for is refused and changes nothing.
    pub fn step(&mut self, event: Event) -> (result: Result<Vec<Action>, PipelineError>)
        ensures
            match result {
                Ok(actions) => {
                    &&& awaits(old(self)@.job.state, event@)
                    &&& final(self)@ == advance(old(self)@, event@)
                    &&& actions.deep_view() == next_actions(old(self)@, event@)
                },
                Err(error) => {
                    &&& !awaits(old(self)@.job.state, event@)
                    &&& error == refusal(old(self)@.job.state)
                    &&& final(self)@ == old(self)@
                },
            },
    {
        if !self.accepts(&event) {
            return Err(Self::refuse(self.job.state));
        }
        let next = Self::successor(&event);
        let actions = match event {
            Event::WorkspaceCreated => self.on_workspace_created(),
            Event::WorkspaceUnavailable { reason } => self.on_workspace_unavailable(reason),
            Event::SourceWritten => self.on_source_written(),
            Event::CompilerExited { exit } => self.on_compiler_exited(exit),
            Event::BinaryExited { output } => self.on_binary_exited(output),
            Event::WorkspaceRemoved => {
                let actions: Vec<Action> = Vec::new();
                assert(actions.deep_view() =~= Seq::<ActionView>::empty());
                actions
            },
        };
        self.job.state = next;
        Ok(actions)
    }
}

} // verus!
