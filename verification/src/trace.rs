//! Runs of a pipeline: what holds of every sequence of events that a
//! pipeline accepts, and of everything it hands out along the way.

use vstd::prelude::*;
use crate::chunk::ChunkView;
use crate::job::{JobState, JobView};
use crate::multiplexer::{
    compile_failure_chunk,
    compile_success_chunk,
    execution_chunks,
    stderr_chunks,
    stdout_chunks,
};
use crate::pipeline::{
    ActionView,
    EventView,
    PipelineView,
    advance,
    awaits,
    deliveries,
    first_actions,
    next_actions,
    removal,
    state_after,
};
use crate::process::{ExecutionOutputView, ExitReport};

verus! {

/// Whether a pipeline that stands at `pipeline` accepts `events` one after
/// the other.
pub open spec fn accepts_all(pipeline: PipelineView, events: Seq<EventView>) -> bool
    decreases events.len(),
{
    events.len() > 0 ==> awaits(pipeline.job.state, events[0]) && accepts_all(
        advance(pipeline, events[0]),
        events.drop_first(),
    )
}

/// Where a pipeline that stands at `pipeline` stands after `events`.
pub open spec fn after(pipeline: PipelineView, events: Seq<EventView>) -> PipelineView
    decreases events.len(),
{
    if events.len() == 0 {
        pipeline
    } else {
        after(advance(pipeline, events[0]), events.drop_first())
    }
}

/// All that a pipeline that stands at `pipeline` hands out while it takes
/// `events`, in order.
pub open spec fn emitted(pipeline: PipelineView, events: Seq<EventView>) -> Seq<ActionView>
    decreases events.len(),
{
    if events.len() == 0 {
        Seq::empty()
    } else {
        next_actions(pipeline, events[0]) + emitted(
            advance(pipeline, events[0]),
            events.drop_first(),
        )
    }
}

/// All that is handed out for a job from its acceptance on, while its
/// pipeline takes `events`.
pub open spec fn history(start: PipelineView, events: Seq<EventView>) -> Seq<ActionView> {
    first_actions(start.job) + emitted(start, events)
}

/// The chunks that `actions` deliver to the client, in order.
pub open spec fn delivered(actions: Seq<ActionView>) -> Seq<ChunkView>
    decreases actions.len(),
{
    if actions.len() == 0 {
        Seq::empty()
    } else {
        let rest = delivered(actions.drop_first());
        match actions[0] {
            ActionView::Deliver { chunk } => seq![chunk] + rest,
            _ => rest,
        }
    }
}

/// The chunks that an accepted event makes the pipeline deliver.
pub open spec fn chunks_for(event: EventView) -> Seq<ChunkView> {
    match event {
        EventView::CompilerExited { exit } => if exit == ExitReport::Success {
            seq![compile_success_chunk()]
        } else {
            seq![compile_failure_chunk()]
        },
        EventView::BinaryExited { output: Some(output) } => execution_chunks(output),
        _ => Seq::empty(),
    }
}

/// The chunks that accepted events make the pipeline deliver, in order.
#[verifier::opaque]
pub open spec fn produced(events: Seq<EventView>) -> Seq<ChunkView>
    decreases events.len(),
{
    if events.len() == 0 {
        Seq::empty()
    } else {
        chunks_for(events[0]) + produced(events.drop_first())
    }
}

/// Delivery goes by order: what two lists of actions deliver one after the
/// other is what the first delivers, then what the second delivers.
pub proof fn lemma_delivered_concat(a: Seq<ActionView>, b: Seq<ActionView>)
    ensures
        delivered(a + b) == delivered(a) + delivered(b),
    decreases a.len(),
{
    if a.len() == 0 {
        assert(a + b =~= b);
        assert(delivered(a) + delivered(b) =~= delivered(b));
    } else {
        assert((a + b).drop_first() =~= a.drop_first() + b);
        lemma_delivered_concat(a.drop_first(), b);
        assert(delivered(a + b) =~= delivered(a) + delivered(b));
    }
}

/// One delivery per chunk delivers exactly those chunks.
pub proof fn lemma_delivered_deliveries(chunks: Seq<ChunkView>)
    ensures
        delivered(deliveries(chunks)) == chunks,
    decreases chunks.len(),
{
    if chunks.len() == 0 {
        assert(delivered(deliveries(chunks)) =~= chunks);
    } else {
        assert(deliveries(chunks).drop_first() =~= deliveries(chunks.drop_first()));
        lemma_delivered_deliveries(chunks.drop_first());
        assert(delivered(deliveries(chunks)) =~= chunks);
    }
}

/// What one step delivers depends on the event alone.
pub proof fn lemma_delivered_step(pipeline: PipelineView, event: EventView)
    requires
        awaits(pipeline.job.state, event),
    ensures
        delivered(next_actions(pipeline, event)) == chunks_for(event),
{
    let actions = next_actions(pipeline, event);
    reveal_with_fuel(delivered, 3);
    match event {
        EventView::BinaryExited { output: Some(output) } => {
            let sent = deliveries(execution_chunks(output));
            lemma_delivered_concat(sent, seq![removal(pipeline.job)]);
            lemma_delivered_deliveries(execution_chunks(output));
            assert(delivered(actions) =~= chunks_for(event));
        },
        EventView::CompilerExited { exit } => {
            assert(actions.drop_first().len() == 1);
            assert(delivered(actions) =~= chunks_for(event));
        },
        EventView::WorkspaceUnavailable { .. } => {
            assert(actions.drop_first().len() == 1);
            assert(delivered(actions) =~= chunks_for(event));
        },
        _ => {
            assert(delivered(actions) =~= chunks_for(event));
        },
    }
}

/// What a run delivers depends on its events alone.
pub proof fn lemma_delivered_run(pipeline: PipelineView, events: Seq<EventView>)
    requires
        accepts_all(pipeline, events),
    ensures
        delivered(emitted(pipeline, events)) == produced(events),
    decreases events.len(),
{
    reveal(produced);
    if events.len() > 0 {
        let next = advance(pipeline, events[0]);
        lemma_delivered_step(pipeline, events[0]);
        lemma_delivered_run(next, events.drop_first());
        lemma_delivered_concat(next_actions(pipeline, events[0]), emitted(next, events.drop_first()));
    }
}

/// What a job has delivered since its acceptance depends on the events of
/// its run alone.
pub proof fn lemma_delivered_history(start: PipelineView, events: Seq<EventView>)
    requires
        accepts_all(start, events),
    ensures
        delivered(history(start, events)) == produced(events),
{
    lemma_delivered_run(start, events);
    lemma_delivered_concat(first_actions(start.job), emitted(start, events));
    assert(first_actions(start.job).drop_first() =~= Seq::<ActionView>::empty());
    assert(delivered(first_actions(start.job)) =~= Seq::<ChunkView>::empty()) by {
        reveal_with_fuel(delivered, 2);
    }
    assert(delivered(history(start, events)) =~= produced(events));
}

/// The state in which a pipeline that starts in `initial` takes the event
/// at index `k` of `events`.
pub open spec fn state_before(initial: JobState, events: Seq<EventView>, k: int) -> JobState {
    if k <= 0 {
        initial
    } else {
        state_after(events[k - 1])
    }
}

/// How many events a job in `state` can still take at most.
pub open spec fn events_left(state: JobState) -> nat {
    match state {
        JobState::Created => 5,
        JobState::WorkspaceReady => 4,
        JobState::Compiling => 3,
        JobState::Running => 2,
        JobState::CompileFailed | JobState::Completed | JobState::Failed => 1,
        JobState::CleanedUp => 0,
    }
}

/// A run changes nothing of a pipeline but the state of its job, and that
/// state is the one that the last event leads to.
pub proof fn lemma_run_keeps_job(pipeline: PipelineView, events: Seq<EventView>)
    ensures
        after(pipeline, events) == (PipelineView {
            job: JobView {
                state: state_before(pipeline.job.state, events, events.len() as int),
                ..pipeline.job
            },
            stage: pipeline.stage,
        }),
    decreases events.len(),
{
    if events.len() > 0 {
        let next = advance(pipeline, events[0]);
        let rest = events.drop_first();
        lemma_run_keeps_job(next, rest);
        if rest.len() > 0 {
            assert(rest[rest.len() - 1] == events[events.len() - 1]);
        }
    }
}

/// Every event of an accepted run answers what the job waited for when it
/// came.
pub proof fn lemma_run_by_index(pipeline: PipelineView, events: Seq<EventView>, k: int)
    requires
        accepts_all(pipeline, events),
        0 <= k < events.len(),
    ensures
        awaits(state_before(pipeline.job.state, events, k), events[k]),
    decreases events.len(),
{
    if k > 0 {
        let next = advance(pipeline, events[0]);
        let rest = events.drop_first();
        lemma_run_by_index(next, rest, k - 1);
        assert(events[k] == rest[k - 1]);
        if k > 1 {
            assert(events[k - 1] == rest[k - 2]);
        }
    }
}

/// Every step brings a job nearer to its end: a run is never longer than
/// what the job could still take when it began, and when it has taken that
/// much it is cleaned up.
pub proof fn lemma_runs_end(pipeline: PipelineView, events: Seq<EventView>)
    requires
        accepts_all(pipeline, events),
    ensures
        events.len() + events_left(after(pipeline, events).job.state) <= events_left(
            pipeline.job.state,
        ),
    decreases events.len(),
{
    if events.len() > 0 {
        lemma_runs_end(advance(pipeline, events[0]), events.drop_first());
    }
}

/// A run goes on with every event that answers what the job waits for at
/// its end: the longer run is accepted as well, it ends where one more
/// step leads, and it hands out what the shorter one did and then what
/// that step does.
pub proof fn lemma_run_extends(pipeline: PipelineView, events: Seq<EventView>, event: EventView)
    requires
        accepts_all(pipeline, events),
        awaits(after(pipeline, events).job.state, event),
    ensures
        accepts_all(pipeline, events.push(event)),
        after(pipeline, events.push(event)) == advance(after(pipeline, events), event),
        emitted(pipeline, events.push(event)) == emitted(pipeline, events) + next_actions(
            after(pipeline, events),
            event,
        ),
    decreases events.len(),
{
    let longer = events.push(event);
    if events.len() == 0 {
        let next = advance(pipeline, event);
        assert(longer[0] == event);
        assert(longer.drop_first() =~= Seq::<EventView>::empty());
        assert(accepts_all(next, longer.drop_first()));
        assert(after(next, longer.drop_first()) == next);
        assert(emitted(next, longer.drop_first()) =~= Seq::<ActionView>::empty());
        assert(emitted(pipeline, longer) =~= emitted(pipeline, events) + next_actions(
            pipeline,
            event,
        ));
    } else {
        let next = advance(pipeline, events[0]);
        let rest = events.drop_first();
        lemma_run_extends(next, rest, event);
        assert(longer[0] == events[0]);
        assert(longer.drop_first() =~= rest.push(event));
        assert(emitted(pipeline, longer) =~= emitted(pipeline, events) + next_actions(
            after(pipeline, events),
            event,
        ));
    }
}

/// A job that is not cleaned up waits for something: no job is left
/// without a way on. Together with [`lemma_run_extends`] and
/// [`lemma_runs_end`]: as long as the driver reports how each operation
/// ended, every job is cleaned up after five events at most.
pub proof fn lemma_no_dead_end(state: JobState)
    requires
        state != JobState::CleanedUp,
    ensures
        exists|event: EventView| awaits(state, event),
{
    let event = match state {
        JobState::Created => EventView::WorkspaceCreated,
        JobState::WorkspaceReady => EventView::SourceWritten,
        JobState::Compiling => EventView::CompilerExited { exit: ExitReport::Failure },
        JobState::Running => EventView::BinaryExited { output: None },
        _ => EventView::WorkspaceRemoved,
    };
    assert(awaits(state, event));
}

/// The course of a job from its acceptance on. The first event says
/// whether the workspace exists; without it the run ends with the removal.
/// With it the source is written and the compiler runs; a failed
/// compilation ends the run with the removal; after a successful one the
/// binary runs, and the removal ends the run.
pub open spec fn follows_course(events: Seq<EventView>) -> bool {
    &&& events.len() <= 5
    &&& events.len() > 0 ==> events[0] is WorkspaceCreated || events[0] is WorkspaceUnavailable
    &&& events.len() > 1 ==> if events[0] is WorkspaceCreated {
        events[1] is SourceWritten
    } else {
        events[1] is WorkspaceRemoved && events.len() == 2
    }
    &&& events.len() > 2 ==> events[2] is CompilerExited
    &&& events.len() > 3 ==> if events[2]->exit == ExitReport::Success {
        events[3] is BinaryExited
    } else {
        events[3] is WorkspaceRemoved && events.len() == 4
    }
    &&& events.len() > 4 ==> events[4] is WorkspaceRemoved
}

/// Every run of a newly accepted job follows the one course there is.
pub proof fn lemma_run_follows_course(start: PipelineView, events: Seq<EventView>)
    requires
        start.job.state == JobState::Created,
        accepts_all(start, events),
    ensures
        follows_course(events),
{
    lemma_runs_end(start, events);
    if events.len() > 0 {
        lemma_run_by_index(start, events, 0);
    }
    if events.len() > 1 {
        lemma_run_by_index(start, events, 1);
    }
    if events.len() > 2 {
        lemma_run_by_index(start, events, 2);
    }
    if events.len() > 3 {
        lemma_run_by_index(start, events, 3);
    }
    if events.len() > 4 {
        lemma_run_by_index(start, events, 4);
    }
}

/// The chunks that the event at index `k` of `events` makes the pipeline
/// deliver; none where there is no such event.
#[verifier::opaque]
spec fn chunks_at(events: Seq<EventView>, k: int) -> Seq<ChunkView> {
    if 0 <= k < events.len() {
        chunks_for(events[k])
    } else {
        Seq::empty()
    }
}

proof fn lemma_produced_tail(events: Seq<EventView>, k: int)
    requires
        0 <= k <= events.len(),
    ensures
        k < events.len() ==> produced(events.skip(k)) == chunks_at(events, k) + produced(
            events.skip(k + 1),
        ),
        k == events.len() ==> produced(events.skip(k)) == Seq::<ChunkView>::empty(),
{
    reveal(produced);
    reveal(chunks_at);
    if k < events.len() {
        assert(events.skip(k).drop_first() =~= events.skip(k + 1));
        assert(events.skip(k)[0] == events[k]);
    } else {
        assert(events.skip(k).len() == 0);
    }
}

proof fn lemma_chunks_at_end(events: Seq<EventView>)
    ensures
        forall|k: int| k >= events.len() ==> #[trigger] chunks_at(events, k).len() == 0,
{
    reveal(chunks_at);
}

/// The chunks of a run of at most five events, event by event.
proof fn lemma_produced_by_index(events: Seq<EventView>)
    requires
        events.len() <= 5,
    ensures
        produced(events) == chunks_at(events, 0) + chunks_at(events, 1) + chunks_at(events, 2)
            + chunks_at(events, 3) + chunks_at(events, 4),
{
    let n = events.len() as int;
    lemma_chunks_at_end(events);
    assert(events.skip(0) =~= events);
    lemma_produced_tail(events, 0);
    if n >= 1 {
        lemma_produced_tail(events, 1);
    }
    if n >= 2 {
        lemma_produced_tail(events, 2);
    }
    if n >= 3 {
        lemma_produced_tail(events, 3);
    }
    if n >= 4 {
        lemma_produced_tail(events, 4);
    }
    if n >= 5 {
        lemma_produced_tail(events, 5);
    }
    let tail4 = chunks_at(events, 4);
    let tail3 = chunks_at(events, 3) + tail4;
    let tail2 = chunks_at(events, 2) + tail3;
    let tail1 = chunks_at(events, 1) + tail2;
    assert(n >= 4 ==> produced(events.skip(4)) =~= tail4);
    assert(n >= 3 ==> produced(events.skip(3)) =~= tail3);
    assert(n >= 2 ==> produced(events.skip(2)) =~= tail2);
    assert(n >= 1 ==> produced(events.skip(1)) =~= tail1);
    assert(produced(events) =~= chunks_at(events, 0) + tail1);
    assert(chunks_at(events, 0) + tail1 =~= chunks_at(events, 0) + chunks_at(events, 1)
        + chunks_at(events, 2) + chunks_at(events, 3) + chunks_at(events, 4));
}

/// The summary of the compile stage is the first chunk that a client ever
/// receives: whatever a job has delivered so far begins with it.
pub proof fn lemma_compile_summary_comes_first(start: PipelineView, events: Seq<EventView>)
    requires
        start.job.state == JobState::Created,
        accepts_all(start, events),
    ensures
        delivered(history(start, events)).len() > 0 ==> {
            ||| delivered(history(start, events))[0] == compile_success_chunk()
            ||| delivered(history(start, events))[0] == compile_failure_chunk()
        },
        delivered(history(start, events)).len() > 0 <==> events.len() > 2,
{
    lemma_delivered_history(start, events);
    lemma_run_follows_course(start, events);
    lemma_produced_by_index(events);
    reveal(chunks_at);
}

/// Whether `events` hold the exit of a compiler that succeeded.
pub open spec fn compiles(events: Seq<EventView>) -> bool {
    exists|j: int|
        0 <= j < events.len() && #[trigger] events[j] == (EventView::CompilerExited {
            exit: ExitReport::Success,
        })
}

/// Whether `actions` hold the run of a binary.
pub open spec fn runs_binary(actions: Seq<ActionView>) -> bool {
    exists|k: int| 0 <= k < actions.len() && #[trigger] actions[k] is RunBinary
}

/// The binary is run only in answer to a compiler that succeeded.
pub proof fn lemma_binary_needs_compiled(pipeline: PipelineView, events: Seq<EventView>)
    requires
        accepts_all(pipeline, events),
        runs_binary(emitted(pipeline, events)),
    ensures
        compiles(events),
    decreases events.len(),
{
    let all = emitted(pipeline, events);
    let k = choose|k: int| 0 <= k < all.len() && #[trigger] all[k] is RunBinary;
    if events.len() > 0 {
        let fresh = next_actions(pipeline, events[0]);
        let rest = events.drop_first();
        let later = emitted(advance(pipeline, events[0]), rest);
        if k < fresh.len() {
            assert(all[k] == fresh[k]);
            match events[0] {
                EventView::BinaryExited { output: Some(output) } => {
                    let sent = deliveries(execution_chunks(output));
                    if k < sent.len() {
                        assert(fresh[k] == sent[k]);
                    }
                },
                _ => {},
            }
            assert(events[0] == (EventView::CompilerExited { exit: ExitReport::Success }));
        } else {
            assert(all[k] == later[k - fresh.len()]);
            lemma_binary_needs_compiled(advance(pipeline, events[0]), rest);
            let j = choose|j: int|
                0 <= j < rest.len() && #[trigger] rest[j] == (EventView::CompilerExited {
                    exit: ExitReport::Success,
                });
            assert(events[j + 1] == rest[j]);
        }
    }
}

/// Where compilation fails, nothing of the execution stage is ever
/// produced: the failure summary is all that the job delivers, and the
/// binary is never run.
pub proof fn lemma_failed_compile_ends_output(
    start: PipelineView,
    events: Seq<EventView>,
    i: int,
)
    requires
        start.job.state == JobState::Created,
        accepts_all(start, events),
        0 <= i < events.len(),
        events[i] is CompilerExited,
        events[i]->exit != ExitReport::Success,
    ensures
        delivered(history(start, events)) == seq![compile_failure_chunk()],
        !runs_binary(history(start, events)),
        forall|k: int| 0 <= k < events.len() ==> !(#[trigger] events[k] is BinaryExited),
{
    lemma_delivered_history(start, events);
    lemma_run_follows_course(start, events);
    lemma_produced_by_index(events);
    reveal(chunks_at);
    assert(i == 2);
    assert(delivered(history(start, events)) =~= seq![compile_failure_chunk()]);
    assert(!compiles(events));
    let all = history(start, events);
    if runs_binary(all) {
        let k = choose|k: int| 0 <= k < all.len() && #[trigger] all[k] is RunBinary;
        assert(k > 0);
        assert(all[k] == emitted(start, events)[k - 1]);
        lemma_binary_needs_compiled(start, events);
    }
}

/// What a job delivers once its binary has run: the success summary,
/// then the standard output as one chunk of normal output, then the
/// standard error as one chunk of diagnostic output, and no chunk for a
/// stream that stayed empty.
pub proof fn lemma_execution_output_in_order(
    start: PipelineView,
    events: Seq<EventView>,
    i: int,
    output: ExecutionOutputView,
)
    requires
        start.job.state == JobState::Created,
        accepts_all(start, events),
        0 <= i < events.len(),
        events[i] == (EventView::BinaryExited { output: Some(output) }),
    ensures
        delivered(history(start, events)) == seq![compile_success_chunk()] + stdout_chunks(output)
            + stderr_chunks(output),
        output.stdout.len() == 0 ==> stdout_chunks(output).len() == 0,
        output.stderr.len() == 0 ==> stderr_chunks(output).len() == 0,
{
    lemma_delivered_history(start, events);
    lemma_run_follows_course(start, events);
    lemma_produced_by_index(events);
    reveal(chunks_at);
    assert(i == 3);
    assert(delivered(history(start, events)) =~= seq![compile_success_chunk()] + stdout_chunks(
        output,
    ) + stderr_chunks(output));
}

/// Where the binary could not be run, the success summary is all that the
/// job delivers.
pub proof fn lemma_failed_execution_is_silent(
    start: PipelineView,
    events: Seq<EventView>,
    i: int,
)
    requires
        start.job.state == JobState::Created,
        accepts_all(start, events),
        0 <= i < events.len(),
        events[i] == (EventView::BinaryExited { output: None }),
    ensures
        delivered(history(start, events)) == seq![compile_success_chunk()],
{
    lemma_delivered_history(start, events);
    lemma_run_follows_course(start, events);
    lemma_produced_by_index(events);
    reveal(chunks_at);
    assert(i == 3);
    assert(delivered(history(start, events)) =~= seq![compile_success_chunk()]);
}

/// Whether `action` works inside the job's workspace.
pub open spec fn uses_workspace(action: ActionView) -> bool {
    action is WriteSource || action is RunCompiler || action is RunBinary
}

/// Whether `action` keeps to the workspace `workspace`: a source file is
/// written into it, and a process runs in it.
pub open spec fn stays_in(action: ActionView, workspace: Seq<char>) -> bool {
    match action {
        ActionView::WriteSource { path, .. } => crate::workspace::is_within(path, workspace),
        ActionView::RunCompiler { run } => run.working_dir == workspace,
        ActionView::RunBinary { run } => run.working_dir == workspace,
        _ => true,
    }
}

/// Whether the removal of the workspace has been asked for in `state`.
pub open spec fn removal_requested(state: JobState) -> bool {
    state == JobState::CompileFailed || state == JobState::Completed || state == JobState::Failed
        || state == JobState::CleanedUp
}

/// The order that every history of a job keeps. It begins with the
/// creation of the job's workspace, which is asked for only once. The
/// removal of that workspace is asked for only once, as the last thing of
/// all, and it has been asked for exactly in the states from which the
/// job goes to its end. Whatever works inside the workspace stays in it,
/// and is handed out only where the workspace was reported as created.
pub open spec fn orderly(job: JobView, created: bool, actions: Seq<ActionView>) -> bool {
    &&& actions.len() > 0
    &&& actions[0] == (ActionView::CreateWorkspace { path: job.workspace_path })
    &&& forall|k: int| 0 < k < actions.len() ==> !(#[trigger] actions[k] is CreateWorkspace)
    &&& forall|k: int|
        0 <= k < actions.len() && #[trigger] actions[k] is RemoveWorkspace ==> k == actions.len()
            - 1 && actions[k] == removal(job)
    &&& actions.last() is RemoveWorkspace <==> removal_requested(job.state)
    &&& forall|k: int|
        0 <= k < actions.len() && uses_workspace(#[trigger] actions[k]) ==> created && stays_in(
            actions[k],
            job.workspace_path,
        )
    &&& job.state.holds_workspace() ==> created
}

proof fn lemma_step_keeps_order(
    pipeline: PipelineView,
    created: bool,
    past: Seq<ActionView>,
    event: EventView,
)
    requires
        pipeline.job.state != JobState::Created,
        awaits(pipeline.job.state, event),
        orderly(pipeline.job, created, past),
    ensures
        orderly(advance(pipeline, event).job, created, past + next_actions(pipeline, event)),
{
    let job = pipeline.job;
    let next = advance(pipeline, event).job;
    let fresh = next_actions(pipeline, event);
    let all = past + fresh;
    assert(removal(next) == removal(job));
    match event {
        EventView::WorkspaceRemoved => {
            assert(all =~= past);
        },
        EventView::BinaryExited { output: Some(output) } => {
            let sent = deliveries(execution_chunks(output));
            assert forall|k: int| 0 <= k < fresh.len() - 1 implies #[trigger] fresh[k]
                is Deliver by {
                assert(fresh[k] == sent[k]);
            }
            assert(fresh.last() == removal(job));
            assert forall|k: int| 0 <= k < all.len() && k != all.len() - 1 implies !(
            #[trigger] all[k] is RemoveWorkspace) && !uses_workspace(all[k]) || (k < past.len()
                && all[k] == past[k]) by {
                if k >= past.len() {
                    assert(all[k] == fresh[k - past.len()]);
                }
            }
            assert(all.last() == removal(job));
        },
        _ => {
            assert forall|k: int| 0 <= k < all.len() implies #[trigger] all[k] == (if k
                < past.len() {
                past[k]
            } else {
                fresh[k - past.len()]
            }) by {}
            assert(crate::workspace::is_within(
                crate::workspace::path_join(job.workspace_path, job.source_file_name),
                job.workspace_path,
            ));
        },
    }
}

proof fn lemma_run_keeps_order(
    pipeline: PipelineView,
    created: bool,
    past: Seq<ActionView>,
    events: Seq<EventView>,
)
    requires
        pipeline.job.state != JobState::Created,
        accepts_all(pipeline, events),
        orderly(pipeline.job, created, past),
    ensures
        orderly(after(pipeline, events).job, created, past + emitted(pipeline, events)),
    decreases events.len(),
{
    if events.len() == 0 {
        assert(past + emitted(pipeline, events) =~= past);
    } else {
        let next = advance(pipeline, events[0]);
        let fresh = next_actions(pipeline, events[0]);
        lemma_step_keeps_order(pipeline, created, past, events[0]);
        lemma_run_keeps_order(next, created, past + fresh, events.drop_first());
        assert((past + fresh) + emitted(next, events.drop_first()) =~= past + emitted(
            pipeline,
            events,
        ));
    }
}

/// The workspace of a job is there while the job needs it and gone when
/// the job is over. In every run of a newly accepted job the history is
/// [`orderly`]: the workspace is created first; the source file is
/// written, and the compiler and the binary are run, only after the
/// workspace was reported as created, only inside it, and before its
/// removal is asked for; the removal is asked for once, after the last
/// chunk. And a job is cleaned up only after that removal was asked for
/// and answered.
pub proof fn lemma_workspace_lifecycle(start: PipelineView, events: Seq<EventView>)
    requires
        start.job.state == JobState::Created,
        accepts_all(start, events),
    ensures
        orderly(
            after(start, events).job,
            events.len() > 0 && events[0] is WorkspaceCreated,
            history(start, events),
        ),
        after(start, events).job.workspace_path == start.job.workspace_path,
        after(start, events).job.state == JobState::CleanedUp ==> events.last()
            is WorkspaceRemoved && history(start, events).last() == removal(start.job),
{
    let first = first_actions(start.job);
    let created = events.len() > 0 && events[0] is WorkspaceCreated;
    lemma_run_keeps_job(start, events);
    if events.len() == 0 {
        assert(history(start, events) =~= first);
    } else {
        let next = advance(start, events[0]);
        let fresh = next_actions(start, events[0]);
        let past = first + fresh;
        assert(orderly(next.job, created, past)) by {
            assert(crate::workspace::is_within(
                crate::workspace::path_join(start.job.workspace_path, start.job.source_file_name),
                start.job.workspace_path,
            ));
        }
        lemma_run_keeps_order(next, created, past, events.drop_first());
        assert(past + emitted(next, events.drop_first()) =~= history(start, events));
        lemma_run_by_index(start, events, events.len() - 1);
    }
}

} // verus!
