use ferris_compute::chunk::OutputChunk;
use ferris_compute::host::HostExecutor;
use ferris_compute::job::{ComputeRequest, JobState};
use ferris_compute::pipeline::{Action, Event, JobPipeline, PipelineError};
use ferris_compute::process::{ExecutionOutput, ExitReport, Invocation};

const SUCCESS: &str = "🚀 Compilation successful. Running...";
const FAILURE: &str = "❌ Compilation failed.";

fn request(flags: &[&str]) -> ComputeRequest {
    ComputeRequest {
        source_code: "int main() { return 0; }".to_string(),
        file_name: "kernel.cu".to_string(),
        compiler_flags: flags.iter().map(|f| f.to_string()).collect(),
    }
}

fn start(flags: &[&str]) -> (JobPipeline, Vec<Action>) {
    HostExecutor::default().accept("job-1".to_string(), request(flags))
}

fn output(stdout: &str, stderr: &str) -> Event {
    Event::BinaryExited {
        output: Some(ExecutionOutput { stdout: stdout.to_string(), stderr: stderr.to_string() }),
    }
}

/// Feeds `events` to a newly accepted job and returns the pipeline and
/// everything it handed out, the first actions included.
fn drive(events: Vec<Event>) -> (JobPipeline, Vec<Action>) {
    let (mut pipeline, mut history) = start(&[]);
    for event in events {
        history.extend(pipeline.step(event).expect("the event is awaited"));
    }
    (pipeline, history)
}

fn chunks(history: &[Action]) -> Vec<OutputChunk> {
    history
        .iter()
        .filter_map(|action| match action {
            Action::Deliver { chunk } => Some(chunk.clone()),
            _ => None,
        })
        .collect()
}

fn normal(text: &str) -> OutputChunk {
    OutputChunk { text: text.to_string(), is_error: false }
}

fn diagnostic(text: &str) -> OutputChunk {
    OutputChunk { text: text.to_string(), is_error: true }
}

fn removal() -> Action {
    Action::RemoveWorkspace { path: "scratch/job-1".to_string() }
}

#[test]
fn accepted_job_is_created_and_asks_for_its_workspace() {
    let (pipeline, actions) = start(&["-O2"]);
    let job = pipeline.job();
    assert_eq!(job.id, "job-1");
    assert_eq!(job.source_file_name, "kernel.cu");
    assert_eq!(job.source_code, "int main() { return 0; }");
    assert_eq!(job.compiler_flags, vec!["-O2".to_string()]);
    assert_eq!(job.workspace_path, "scratch/job-1");
    assert_eq!(job.state, JobState::Created);
    assert_eq!(pipeline.state(), JobState::Created);
    assert!(!pipeline.is_finished());
    assert_eq!(actions, vec![Action::CreateWorkspace { path: "scratch/job-1".to_string() }]);
}

#[test]
fn created_workspace_leads_to_writing_the_source() {
    let (mut pipeline, _) = start(&[]);
    let actions = pipeline.step(Event::WorkspaceCreated).unwrap();
    assert_eq!(
        actions,
        vec![Action::WriteSource {
            path: "scratch/job-1/kernel.cu".to_string(),
            contents: "int main() { return 0; }".to_string(),
        }]
    );
    assert_eq!(pipeline.state(), JobState::WorkspaceReady);
}

#[test]
fn written_source_leads_to_the_compiler_run() {
    let (mut pipeline, _) = start(&["-arch=sm_80", "-O3"]);
    pipeline.step(Event::WorkspaceCreated).unwrap();
    let actions = pipeline.step(Event::SourceWritten).unwrap();
    assert_eq!(
        actions,
        vec![Action::RunCompiler {
            run: Invocation {
                program: "nvcc".to_string(),
                args: vec![
                    "scratch/job-1/kernel.cu".to_string(),
                    "-arch=sm_80".to_string(),
                    "-O3".to_string(),
                    "-o".to_string(),
                    "scratch/job-1/app.out".to_string(),
                ],
                working_dir: "scratch/job-1".to_string(),
            },
        }]
    );
    assert_eq!(pipeline.state(), JobState::Compiling);
}

#[test]
fn successful_compile_delivers_summary_then_runs_binary() {
    let (mut pipeline, _) = start(&[]);
    pipeline.step(Event::WorkspaceCreated).unwrap();
    pipeline.step(Event::SourceWritten).unwrap();
    let actions = pipeline.step(Event::CompilerExited { exit: ExitReport::Success }).unwrap();
    assert_eq!(
        actions,
        vec![
            Action::Deliver { chunk: normal(SUCCESS) },
            Action::RunBinary {
                run: Invocation {
                    program: "scratch/job-1/app.out".to_string(),
                    args: vec![],
                    working_dir: "scratch/job-1".to_string(),
                },
            },
        ]
    );
    assert_eq!(pipeline.state(), JobState::Running);
}

#[test]
fn scenario_hello_on_standard_output() {
    let (pipeline, history) = drive(vec![
        Event::WorkspaceCreated,
        Event::SourceWritten,
        Event::CompilerExited { exit: ExitReport::Success },
        output("hello", ""),
        Event::WorkspaceRemoved,
    ]);
    let delivered = chunks(&history);
    assert_eq!(delivered, vec![normal(SUCCESS), normal("hello")]);
    assert_eq!(delivered.iter().filter(|c| c.text == "hello" && !c.is_error).count(), 1);
    assert!(delivered.iter().all(|c| !c.is_error));
    assert_eq!(history.last(), Some(&removal()));
    assert_eq!(pipeline.state(), JobState::CleanedUp);
    assert!(pipeline.is_finished());
}

#[test]
fn scenario_compile_error() {
    let (pipeline, history) = drive(vec![
        Event::WorkspaceCreated,
        Event::SourceWritten,
        Event::CompilerExited { exit: ExitReport::Failure },
        Event::WorkspaceRemoved,
    ]);
    assert_eq!(chunks(&history), vec![diagnostic(FAILURE)]);
    assert_eq!(
        &history[3..],
        &[Action::Deliver { chunk: diagnostic(FAILURE) }, removal()]
    );
    assert!(!history.iter().any(|a| matches!(a, Action::RunBinary { .. })));
    assert_eq!(pipeline.state(), JobState::CleanedUp);
}

#[test]
fn scenario_output_on_both_streams() {
    let (pipeline, history) = drive(vec![
        Event::WorkspaceCreated,
        Event::SourceWritten,
        Event::CompilerExited { exit: ExitReport::Success },
        output("result: 42\n", "warning: slow path\n"),
        Event::WorkspaceRemoved,
    ]);
    assert_eq!(
        chunks(&history),
        vec![normal(SUCCESS), normal("result: 42\n"), diagnostic("warning: slow path\n")]
    );
    assert_eq!(pipeline.state(), JobState::CleanedUp);
}

#[test]
fn finished_binary_delivers_output_then_asks_for_removal() {
    let (mut pipeline, _) = start(&[]);
    pipeline.step(Event::WorkspaceCreated).unwrap();
    pipeline.step(Event::SourceWritten).unwrap();
    pipeline.step(Event::CompilerExited { exit: ExitReport::Success }).unwrap();
    let actions = pipeline.step(output("out", "err")).unwrap();
    assert_eq!(
        actions,
        vec![
            Action::Deliver { chunk: normal("out") },
            Action::Deliver { chunk: diagnostic("err") },
            removal(),
        ]
    );
    assert_eq!(pipeline.state(), JobState::Completed);
}

#[test]
fn empty_standard_output_gives_no_chunk() {
    let (_, history) = drive(vec![
        Event::WorkspaceCreated,
        Event::SourceWritten,
        Event::CompilerExited { exit: ExitReport::Success },
        output("", "only diagnostics"),
    ]);
    assert_eq!(chunks(&history), vec![normal(SUCCESS), diagnostic("only diagnostics")]);
}

#[test]
fn empty_standard_error_gives_no_chunk() {
    let (_, history) = drive(vec![
        Event::WorkspaceCreated,
        Event::SourceWritten,
        Event::CompilerExited { exit: ExitReport::Success },
        output("only output", ""),
    ]);
    assert_eq!(chunks(&history), vec![normal(SUCCESS), normal("only output")]);
}

#[test]
fn silent_binary_gives_no_chunk_at_all() {
    let (mut pipeline, _) = start(&[]);
    pipeline.step(Event::WorkspaceCreated).unwrap();
    pipeline.step(Event::SourceWritten).unwrap();
    pipeline.step(Event::CompilerExited { exit: ExitReport::Success }).unwrap();
    assert_eq!(pipeline.step(output("", "")).unwrap(), vec![removal()]);
    assert_eq!(pipeline.state(), JobState::Completed);
}

#[test]
fn compiler_that_cannot_be_started_counts_as_failed_compile() {
    let (pipeline, history) = drive(vec![
        Event::WorkspaceCreated,
        Event::SourceWritten,
        Event::CompilerExited { exit: ExitReport::SpawnError },
    ]);
    assert_eq!(chunks(&history), vec![diagnostic(FAILURE)]);
    assert_eq!(history.last(), Some(&removal()));
    assert_eq!(pipeline.state(), JobState::CompileFailed);
}

#[test]
fn binary_that_cannot_be_run_is_silent_and_still_cleaned_up() {
    let (mut pipeline, _) = start(&[]);
    pipeline.step(Event::WorkspaceCreated).unwrap();
    pipeline.step(Event::SourceWritten).unwrap();
    pipeline.step(Event::CompilerExited { exit: ExitReport::Success }).unwrap();
    let actions = pipeline.step(Event::BinaryExited { output: None }).unwrap();
    assert_eq!(actions, vec![removal()]);
    assert_eq!(pipeline.state(), JobState::Failed);
    assert_eq!(pipeline.step(Event::WorkspaceRemoved).unwrap(), vec![]);
    assert_eq!(pipeline.state(), JobState::CleanedUp);
}

#[test]
fn unavailable_workspace_is_reported_as_internal_failure() {
    let (mut pipeline, _) = start(&[]);
    let actions = pipeline
        .step(Event::WorkspaceUnavailable { reason: "Permission denied (os error 13)".to_string() })
        .unwrap();
    assert_eq!(
        actions,
        vec![
            Action::ReportFailure {
                message: "Failed to create workspace: Permission denied (os error 13)".to_string(),
            },
            removal(),
        ]
    );
    assert_eq!(pipeline.state(), JobState::Failed);
    assert_eq!(pipeline.step(Event::WorkspaceRemoved).unwrap(), vec![]);
    assert!(pipeline.is_finished());
}

#[test]
fn compile_summary_is_the_first_chunk_of_every_run() {
    let runs = vec![
        vec![
            Event::WorkspaceCreated,
            Event::SourceWritten,
            Event::CompilerExited { exit: ExitReport::Success },
            output("a", "b"),
            Event::WorkspaceRemoved,
        ],
        vec![
            Event::WorkspaceCreated,
            Event::SourceWritten,
            Event::CompilerExited { exit: ExitReport::Failure },
            Event::WorkspaceRemoved,
        ],
        vec![
            Event::WorkspaceCreated,
            Event::SourceWritten,
            Event::CompilerExited { exit: ExitReport::Success },
            Event::BinaryExited { output: None },
        ],
    ];
    for run in runs {
        let (_, history) = drive(run);
        let first = chunks(&history).into_iter().next().expect("a summary was delivered");
        assert!(first == normal(SUCCESS) || first == diagnostic(FAILURE));
    }
    let (_, early) = drive(vec![Event::WorkspaceCreated, Event::SourceWritten]);
    assert_eq!(chunks(&early), vec![]);
}

#[test]
fn workspace_is_created_first_and_removed_last() {
    let (pipeline, history) = drive(vec![
        Event::WorkspaceCreated,
        Event::SourceWritten,
        Event::CompilerExited { exit: ExitReport::Success },
        output("x", "y"),
        Event::WorkspaceRemoved,
    ]);
    assert_eq!(history.len(), 8);
    assert_eq!(history[0], Action::CreateWorkspace { path: "scratch/job-1".to_string() });
    assert_eq!(history[7], removal());
    let removals = history.iter().filter(|a| matches!(a, Action::RemoveWorkspace { .. })).count();
    assert_eq!(removals, 1);
    for action in &history[1..7] {
        match action {
            Action::WriteSource { path, .. } => assert!(path.starts_with("scratch/job-1/")),
            Action::RunCompiler { run } | Action::RunBinary { run } => {
                assert_eq!(run.working_dir, "scratch/job-1")
            }
            Action::Deliver { .. } => {}
            other => panic!("out of place: {:?}", other),
        }
    }
    assert!(pipeline.is_finished());
}

#[test]
fn state_says_whether_the_workspace_is_held() {
    let (mut pipeline, _) = start(&[]);
    assert_eq!(pipeline.state(), JobState::Created);
    pipeline.step(Event::WorkspaceCreated).unwrap();
    assert_eq!(pipeline.state(), JobState::WorkspaceReady);
    pipeline.step(Event::SourceWritten).unwrap();
    assert_eq!(pipeline.state(), JobState::Compiling);
    pipeline.step(Event::CompilerExited { exit: ExitReport::Success }).unwrap();
    assert_eq!(pipeline.state(), JobState::Running);
    pipeline.step(output("", "")).unwrap();
    assert_eq!(pipeline.state(), JobState::Completed);
    assert!(!JobState::Completed.is_final());
    pipeline.step(Event::WorkspaceRemoved).unwrap();
    assert_eq!(pipeline.state(), JobState::CleanedUp);
    assert!(JobState::CleanedUp.is_final());
}

#[test]
fn unexpected_event_is_refused_and_changes_nothing() {
    let (mut pipeline, _) = start(&[]);
    let before = pipeline.clone();
    assert!(!pipeline.accepts(&Event::SourceWritten));
    assert_eq!(pipeline.step(Event::SourceWritten), Err(PipelineError::UnexpectedEvent));
    assert_eq!(
        pipeline.step(Event::CompilerExited { exit: ExitReport::Success }),
        Err(PipelineError::UnexpectedEvent)
    );
    assert_eq!(pipeline.step(output("a", "b")), Err(PipelineError::UnexpectedEvent));
    assert_eq!(pipeline.step(Event::WorkspaceRemoved), Err(PipelineError::UnexpectedEvent));
    assert_eq!(pipeline, before);
    assert!(pipeline.accepts(&Event::WorkspaceCreated));
    assert!(pipeline.accepts(&Event::WorkspaceUnavailable { reason: String::new() }));
}

#[test]
fn event_is_accepted_only_once() {
    let (mut pipeline, _) = start(&[]);
    pipeline.step(Event::WorkspaceCreated).unwrap();
    assert_eq!(pipeline.step(Event::WorkspaceCreated), Err(PipelineError::UnexpectedEvent));
    assert_eq!(pipeline.state(), JobState::WorkspaceReady);
}

#[test]
fn cleaned_up_job_takes_no_more_events() {
    let (mut pipeline, _) = drive(vec![
        Event::WorkspaceCreated,
        Event::SourceWritten,
        Event::CompilerExited { exit: ExitReport::Failure },
        Event::WorkspaceRemoved,
    ]);
    assert_eq!(pipeline.step(Event::WorkspaceRemoved), Err(PipelineError::Finished));
    assert_eq!(pipeline.step(Event::WorkspaceCreated), Err(PipelineError::Finished));
    assert!(!pipeline.accepts(&Event::WorkspaceRemoved));
    assert_eq!(pipeline.state(), JobState::CleanedUp);
}

#[test]
fn no_run_takes_more_than_five_events() {
    let (mut pipeline, _) = drive(vec![
        Event::WorkspaceCreated,
        Event::SourceWritten,
        Event::CompilerExited { exit: ExitReport::Success },
        output("", ""),
        Event::WorkspaceRemoved,
    ]);
    for event in [
        Event::WorkspaceCreated,
        Event::SourceWritten,
        Event::CompilerExited { exit: ExitReport::Success },
        output("", ""),
        Event::WorkspaceRemoved,
    ] {
        assert!(pipeline.step(event).is_err());
    }
}
