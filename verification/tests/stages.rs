use ferris_compute::chunk::OutputChunk;
use ferris_compute::compile::{CompileOutcome, CompileStage};
use ferris_compute::execute::ExecuteStage;
use ferris_compute::host::{HostExecutor, DELIVERY_QUEUE_CAPACITY};
use ferris_compute::job::{ComputeRequest, Job, JobState};
use ferris_compute::multiplexer::OutputMultiplexer;
use ferris_compute::pipeline::{Action, JobPipeline};
use ferris_compute::process::{ExecutionOutput, ExitReport, Invocation};
use ferris_compute::workspace::{join, WorkspaceManager};

fn strings(items: &[&str]) -> Vec<String> {
    items.iter().map(|s| s.to_string()).collect()
}

fn empty_request() -> ComputeRequest {
    ComputeRequest { source_code: String::new(), file_name: "a.cu".to_string(), compiler_flags: vec![] }
}

#[test]
fn join_puts_one_separator_between_directory_and_name() {
    assert_eq!(join("scratch", "abc"), "scratch/abc");
    assert_eq!(join("/var/tmp/jobs", "x.cu"), "/var/tmp/jobs/x.cu");
    assert_eq!(join("", ""), "/");
    assert_eq!(join("a/", "/b"), "a///b");
}

#[test]
fn workspace_is_named_by_the_job_id() {
    let manager = WorkspaceManager::new("scratch".to_string());
    assert_eq!(manager.scratch_root, "scratch");
    assert_eq!(
        manager.path_for("67e55044-10b1-426f-9247-bb680e5fe0c8"),
        "scratch/67e55044-10b1-426f-9247-bb680e5fe0c8"
    );
}

#[test]
fn different_jobs_get_different_workspaces() {
    let manager = WorkspaceManager::new("/tmp/root".to_string());
    let a = manager.path_for("67e55044-10b1-426f-9247-bb680e5fe0c8");
    let b = manager.path_for("67e55044-10b1-426f-9247-bb680e5fe0c9");
    assert_ne!(a, b);
    assert!(!format!("{}/kernel.cu", a).starts_with(&format!("{}/", b)));
}

#[test]
fn compiler_arguments_keep_the_flags_verbatim_and_in_order() {
    let args = CompileStage::arguments(
        "ws/main.cu".to_string(),
        &strings(&["-O3", "", "--weird flag", "-O3", "-o", "elsewhere"]),
        "ws/app.out".to_string(),
    );
    assert_eq!(
        args,
        strings(&["ws/main.cu", "-O3", "", "--weird flag", "-O3", "-o", "elsewhere", "-o", "ws/app.out"])
    );
}

#[test]
fn compiler_arguments_without_flags() {
    let args = CompileStage::arguments("s.cu".to_string(), &vec![], "b".to_string());
    assert_eq!(args, strings(&["s.cu", "-o", "b"]));
}

#[test]
fn compile_invocation_runs_in_the_workspace() {
    let stage = CompileStage::new("clang".to_string(), "prog".to_string());
    let run = stage.invocation("/w/7", "main.c", &strings(&["-Wall"]));
    assert_eq!(
        run,
        Invocation {
            program: "clang".to_string(),
            args: strings(&["/w/7/main.c", "-Wall", "-o", "/w/7/prog"]),
            working_dir: "/w/7".to_string(),
        }
    );
    assert_eq!(CompileStage::source_path("/w/7", "main.c"), "/w/7/main.c");
    assert_eq!(stage.binary_path("/w/7"), "/w/7/prog");
}

#[test]
fn compile_stage_clone_keeps_the_settings() {
    let stage = CompileStage::new("nvcc".to_string(), "app.exe".to_string());
    assert_eq!(stage.clone(), stage);
}

#[test]
fn only_exit_status_zero_is_a_successful_compile() {
    let stage = CompileStage::new("nvcc".to_string(), "app.out".to_string());
    assert_eq!(
        stage.outcome(ExitReport::Success, "ws"),
        CompileOutcome::Success { binary_path: "ws/app.out".to_string() }
    );
    assert_eq!(stage.outcome(ExitReport::Failure, "ws"), CompileOutcome::Failure);
    assert_eq!(stage.outcome(ExitReport::SpawnError, "ws"), CompileOutcome::Failure);
}

#[test]
fn compile_summary_texts_and_tags() {
    let ok = OutputMultiplexer::compile_summary(&CompileOutcome::Success {
        binary_path: "ws/app.out".to_string(),
    });
    assert_eq!(ok.text, "🚀 Compilation successful. Running...");
    assert!(!ok.is_error);
    let failed = OutputMultiplexer::compile_summary(&CompileOutcome::Failure);
    assert_eq!(failed.text, "❌ Compilation failed.");
    assert!(failed.is_error);
}

#[test]
fn chunk_constructors_set_the_tag() {
    assert_eq!(OutputChunk::normal("a".to_string()), OutputChunk { text: "a".to_string(), is_error: false });
    assert_eq!(OutputChunk::diagnostic("a".to_string()), OutputChunk { text: "a".to_string(), is_error: true });
}

#[test]
fn execution_chunks_put_standard_output_first() {
    let chunks = OutputMultiplexer::execution_chunks(ExecutionOutput {
        stdout: "out".to_string(),
        stderr: "err".to_string(),
    });
    assert_eq!(
        chunks,
        vec![
            OutputChunk { text: "out".to_string(), is_error: false },
            OutputChunk { text: "err".to_string(), is_error: true },
        ]
    );
}

#[test]
fn execution_chunks_suppress_empty_streams() {
    let none = OutputMultiplexer::execution_chunks(ExecutionOutput {
        stdout: String::new(),
        stderr: String::new(),
    });
    assert_eq!(none, vec![]);
    let only_err = OutputMultiplexer::execution_chunks(ExecutionOutput {
        stdout: String::new(),
        stderr: "e".to_string(),
    });
    assert_eq!(only_err, vec![OutputChunk { text: "e".to_string(), is_error: true }]);
    let only_out = OutputMultiplexer::execution_chunks(ExecutionOutput {
        stdout: " ".to_string(),
        stderr: String::new(),
    });
    assert_eq!(only_out, vec![OutputChunk { text: " ".to_string(), is_error: false }]);
}

#[test]
fn binary_runs_without_arguments_in_the_workspace() {
    let run = ExecuteStage::invocation("ws/app.out".to_string(), "ws");
    assert_eq!(
        run,
        Invocation { program: "ws/app.out".to_string(), args: vec![], working_dir: "ws".to_string() }
    );
}

#[test]
fn capture_decodes_valid_text_unchanged() {
    let output = ExecuteStage::capture(b"hello", "gr\u{fc}\u{df}e \u{1f680}\n".as_bytes());
    assert_eq!(output.stdout, "hello");
    assert_eq!(output.stderr, "gr\u{fc}\u{df}e \u{1f680}\n");
}

#[test]
fn capture_replaces_invalid_bytes() {
    let output = ExecuteStage::capture(b"Hello \xF0\x90\x80World", &[0xff, b'a', 0xc3]);
    assert_eq!(output.stdout, "Hello \u{fffd}World");
    assert_eq!(output.stderr, "\u{fffd}a\u{fffd}");
}

#[test]
fn capture_of_empty_streams_is_empty() {
    let output = ExecuteStage::capture(&[], &[]);
    assert_eq!(output, ExecutionOutput { stdout: String::new(), stderr: String::new() });
    assert_eq!(OutputMultiplexer::execution_chunks(output), vec![]);
}

#[test]
fn new_job_takes_the_request_over() {
    let job = Job::new(
        "id".to_string(),
        "root/id".to_string(),
        ComputeRequest {
            source_code: "code".to_string(),
            file_name: "f.cu".to_string(),
            compiler_flags: strings(&["-g"]),
        },
    );
    assert_eq!(
        job,
        Job {
            id: "id".to_string(),
            source_file_name: "f.cu".to_string(),
            source_code: "code".to_string(),
            compiler_flags: strings(&["-g"]),
            workspace_path: "root/id".to_string(),
            state: JobState::Created,
        }
    );
}

#[test]
fn pipeline_start_uses_the_given_stage() {
    let stage = CompileStage::new("cc".to_string(), "a.out".to_string());
    let (mut pipeline, first) =
        JobPipeline::start("j".to_string(), "/r/j".to_string(), empty_request(), stage);
    assert_eq!(first, vec![Action::CreateWorkspace { path: "/r/j".to_string() }]);
    pipeline.step(ferris_compute::pipeline::Event::WorkspaceCreated).unwrap();
    let actions = pipeline.step(ferris_compute::pipeline::Event::SourceWritten).unwrap();
    assert_eq!(
        actions,
        vec![Action::RunCompiler {
            run: Invocation {
                program: "cc".to_string(),
                args: strings(&["/r/j/a.cu", "-o", "/r/j/a.out"]),
                working_dir: "/r/j".to_string(),
            },
        }]
    );
}

#[test]
fn default_host_settings() {
    let host = HostExecutor::default();
    assert_eq!(host.scratch_root(), "scratch");
    assert_eq!(host.stage.compiler, "nvcc");
    assert_eq!(host.stage.binary_name, "app.out");
    assert_eq!(host, HostExecutor::new("scratch".to_string(), "nvcc".to_string(), "app.out".to_string()));
    assert_eq!(DELIVERY_QUEUE_CAPACITY, 100);
}

#[test]
fn host_with_its_own_scratch_root() {
    let host = HostExecutor::new("/tmp/isolated".to_string(), "nvcc".to_string(), "app.exe".to_string());
    let (pipeline, first) = host.accept("abc".to_string(), empty_request());
    assert_eq!(pipeline.job().workspace_path, "/tmp/isolated/abc");
    assert_eq!(first, vec![Action::CreateWorkspace { path: "/tmp/isolated/abc".to_string() }]);
}

fn is_job_id(id: &str) -> bool {
    let bytes = id.as_bytes();
    bytes.len() == 36
        && bytes.iter().enumerate().all(|(i, b)| match i {
            8 | 13 | 18 | 23 => *b == b'-',
            _ => b.is_ascii_digit() || (b'a'..=b'f').contains(b),
        })
        && bytes[14] == b'4'
        && matches!(bytes[19], b'8' | b'9' | b'a' | b'b')
}

#[test]
fn execute_code_generates_a_uuid_as_job_id() {
    let host = HostExecutor::default();
    for _ in 0..64 {
        let (pipeline, first) = host.execute_code(empty_request());
        let job = pipeline.job();
        assert!(is_job_id(&job.id), "not a version 4 UUID: {}", job.id);
        assert_eq!(job.workspace_path, format!("scratch/{}", job.id));
        assert_eq!(job.state, JobState::Created);
        assert_eq!(first, vec![Action::CreateWorkspace { path: job.workspace_path.clone() }]);
    }
}

#[test]
fn jobs_accepted_together_do_not_share_a_workspace() {
    let host = HostExecutor::default();
    let mut paths: Vec<String> = (0..200)
        .map(|_| host.execute_code(empty_request()).0.job().workspace_path.clone())
        .collect();
    paths.sort();
    paths.dedup();
    assert_eq!(paths.len(), 200);
}
