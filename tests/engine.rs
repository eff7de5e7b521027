use code_executor::container::{image_name, plan_container, prepare_container};
use code_executor::lifecycle::begin_container;
use code_executor::monitor::{input_payload, PeakTracker};
use code_executor::result::{assemble_result, report_for, signal_name};
use code_executor::status::resolve_status;
use code_executor::{
    Action, Controller, Event, ExecError, ExecutionResult, ExecutionStatus, LogChunk, Phase,
    WaitOutcome, WaitReport,
};

fn report(outcome: WaitOutcome) -> WaitReport {
    WaitReport { outcome, detail: String::new(), elapsed_ms: 1234, peak_memory_bytes: Some(4096) }
}

fn out(s: &str) -> LogChunk {
    LogChunk::StdOut(s.as_bytes().to_vec())
}

fn err(s: &str) -> LogChunk {
    LogChunk::StdErr(s.as_bytes().to_vec())
}

/// Drives a container execution against a scripted backend and records the
/// actions asked for.
fn run_container(
    code: &str,
    input: &[&str],
    outcome: WaitOutcome,
    chunks: Vec<LogChunk>,
    oom: bool,
) -> (ExecutionResult, Vec<Action>, String) {
    let lines: Vec<String> = input.iter().map(|s| s.to_string()).collect();
    let (_plan, mut c, mut a) =
        begin_container(code, "cpp", "23", 5, 128, &lines).expect("supported runtime");
    let mut actions = vec![a];
    let mut delivered = String::new();
    let mut chunks = Some(chunks);
    loop {
        let e = match a {
            Action::Create => Event::Created,
            Action::Start => Event::Started,
            Action::DeliverInput => {
                delivered = input_payload(&lines);
                Event::InputDelivered
            }
            Action::Wait { timeout_seconds } => {
                assert_eq!(timeout_seconds, 5);
                Event::WaitFinished(report(outcome))
            }
            Action::Kill => Event::Killed,
            Action::CollectOutput => Event::OutputCollected(chunks.take().unwrap()),
            Action::InspectOom => Event::Inspected(oom),
            Action::Destroy => Event::Destroyed,
            Action::Finish => break,
        };
        a = c.step(e);
        actions.push(a);
    }
    let r = c.outcome().unwrap().expect("no setup failure");
    (r, actions, delivered)
}

#[test]
fn sum_of_range_completes() {
    let (r, actions, _) =
        run_container("print(sum(range(10)))", &[], WaitOutcome::Exited(0), vec![out("45\n")], false);
    assert_eq!(r.stdout, "45\n");
    assert_eq!(r.status, ExecutionStatus::Completed);
    assert_eq!(r.exit_code, Some(0));
    assert_eq!(r.stderr, "");
    assert_eq!(r.execution_time_ms, 1234);
    assert_eq!(r.memory_used_bytes, Some(4096));
    assert_eq!(actions.last(), Some(&Action::Finish));
    assert!(actions.contains(&Action::Destroy));
}

#[test]
fn infinite_loop_times_out_and_is_killed() {
    let chunks = vec![out("Still running...\n"), out("Still running...\n")];
    let (r, actions, _) = run_container("loop", &[], WaitOutcome::TimedOut, chunks, false);
    assert_eq!(r.status, ExecutionStatus::Timeout);
    assert_eq!(r.stdout, "Still running...\nStill running...\n");
    assert_eq!(r.exit_code, None);
    let kill = actions.iter().position(|a| *a == Action::Kill).unwrap();
    let collect = actions.iter().position(|a| *a == Action::CollectOutput).unwrap();
    let destroy = actions.iter().position(|a| *a == Action::Destroy).unwrap();
    assert!(kill < collect && collect < destroy);
}

#[test]
fn memory_hog_exceeds_limit() {
    let (r, _, _) = run_container("x = [0] * (1 << 30)", &[], WaitOutcome::Exited(137), vec![], true);
    assert_eq!(r.status, ExecutionStatus::MemoryLimitExceeded);
    assert_eq!(r.stderr, "Memory limit exceeded (OOMKilled)\n");
    assert_eq!(r.exit_code, Some(137));
}

#[test]
fn syntax_error_fails() {
    let text = "  File \"main.py\", line 1\n    print((1)\nSyntaxError: '(' was never closed\n";
    let (r, _, _) = run_container("print((1)", &[], WaitOutcome::Exited(1), vec![err(text)], false);
    assert_eq!(r.status, ExecutionStatus::Failed);
    assert!(r.stderr.contains("SyntaxError"));
    assert_eq!(r.stdout, "");
}

#[test]
fn input_lines_are_echoed_in_order() {
    let (r, actions, delivered) = run_container(
        "print(input()); print(input())",
        &["hello", "world"],
        WaitOutcome::Exited(0),
        vec![out("hello\n"), out("world\n")],
        false,
    );
    assert_eq!(delivered, "hello\nworld\n");
    assert!(actions.contains(&Action::DeliverInput));
    assert_eq!(r.stdout, "hello\nworld\n");
    assert_eq!(r.status, ExecutionStatus::Completed);
}

#[test]
fn no_input_skips_delivery() {
    let (_, actions, delivered) = run_container("pass", &[], WaitOutcome::Exited(0), vec![], false);
    assert!(!actions.contains(&Action::DeliverInput));
    assert_eq!(delivered, "");
}

#[test]
fn unsupported_runtime_fails_before_create() {
    let r = begin_container("x", "cobol", "1", 5, 128, &vec![]);
    match r {
        Err(e) => {
            assert_eq!(e.status(), ExecutionStatus::SystemError);
            assert_eq!(e.message(), "Unsupported language or version: cobol 1");
        }
        Ok(_) => panic!("cobol is not supported"),
    }
    assert!(begin_container("x", "python", "2.7", 5, 128, &vec![]).is_err());
    assert!(prepare_container("x", "ruby", "3.1", 5, 128).is_err());
}

#[test]
fn timeout_wins_over_oom() {
    assert_eq!(resolve_status(WaitOutcome::TimedOut, true), ExecutionStatus::Timeout);
    let r = assemble_result(&report(WaitOutcome::TimedOut), &vec![], true, false);
    assert_eq!(r.status, ExecutionStatus::Timeout);
}

#[test]
fn status_priority_table() {
    assert_eq!(resolve_status(WaitOutcome::Exited(0), false), ExecutionStatus::Completed);
    assert_eq!(resolve_status(WaitOutcome::Exited(2), false), ExecutionStatus::Failed);
    assert_eq!(resolve_status(WaitOutcome::Exited(0), true), ExecutionStatus::MemoryLimitExceeded);
    assert_eq!(resolve_status(WaitOutcome::Signaled(9), false), ExecutionStatus::Failed);
    assert_eq!(resolve_status(WaitOutcome::Indeterminate, false), ExecutionStatus::Failed);
    assert_eq!(resolve_status(WaitOutcome::WaitError, false), ExecutionStatus::RuntimeError);
    assert_eq!(resolve_status(WaitOutcome::WaitError, true), ExecutionStatus::MemoryLimitExceeded);
}

#[test]
fn wait_notes_are_appended_to_stderr() {
    let mut rep = report(WaitOutcome::WaitError);
    rep.detail = "daemon gone".to_string();
    let r = assemble_result(&rep, &vec![err("boom\n")], false, false);
    assert_eq!(r.stderr, "boom\nContainer error: daemon gone");
    assert_eq!(r.status, ExecutionStatus::RuntimeError);
    let r = assemble_result(&report(WaitOutcome::Indeterminate), &vec![], false, false);
    assert_eq!(r.stderr, "Container did not return an exit status.\n");
}

#[test]
fn signal_note_opens_stderr() {
    let rep = report_for(WaitOutcome::Signaled(9), 10, None);
    assert_eq!(rep.detail, "SIGKILL");
    let r = assemble_result(&rep, &vec![err("x")], false, false);
    assert_eq!(r.stderr, "Process terminated by signal: SIGKILLx");
    assert_eq!(r.status, ExecutionStatus::Failed);
    assert_eq!(r.exit_code, None);
}

#[test]
fn signal_names() {
    assert_eq!(signal_name(9), "SIGKILL");
    assert_eq!(signal_name(15), "SIGTERM");
    assert_eq!(signal_name(1000), "1000");
    assert_eq!(signal_name(-3), "-3");
    assert_eq!(report_for(WaitOutcome::Exited(0), 1, Some(2)).detail, "");
}

#[test]
fn character_split_across_frames_survives() {
    let chunks = vec![
        LogChunk::StdOut(vec![0x63, 0x61, 0x66, 0xc3]),
        LogChunk::StdErr(vec![0xe2, 0x82]),
        LogChunk::StdOut(vec![0xa9, 0x0a]),
        LogChunk::StdErr(vec![0xac]),
    ];
    let r = assemble_result(&report(WaitOutcome::Exited(0)), &chunks, false, false);
    assert_eq!(r.stdout, "caf\u{e9}\n");
    assert_eq!(r.stderr, "\u{20ac}");
}

#[test]
fn read_error_settles_the_stderr_run() {
    let chunks = vec![err("a"), LogChunk::ReadError("eof".to_string()), err("b")];
    let r = assemble_result(&report(WaitOutcome::Exited(0)), &chunks, false, false);
    assert_eq!(r.stderr, "aError reading logs: eofb");
}

#[test]
fn log_frames_are_demultiplexed() {
    let chunks = vec![
        out("a"),
        err("b"),
        LogChunk::Other,
        out("c"),
        LogChunk::ReadError("broken pipe".to_string()),
        LogChunk::StdOut(vec![0x66, 0xff, 0x67]),
    ];
    let r = assemble_result(&report(WaitOutcome::Exited(0)), &chunks, false, false);
    assert_eq!(r.stdout, "ac\u{66}\u{fffd}\u{67}");
    assert_eq!(r.stderr, "bError reading logs: broken pipe");
}

#[test]
fn timing_block_is_extracted_and_removed() {
    let text = "warn\n===CODE_EXEC_TIME_BEGIN===\nElapsed (wall clock) time: 1:02.50\nMaximum resident set size (kbytes): 9876\n===CODE_EXEC_TIME_END===\nlast\n";
    let r = assemble_result(&report(WaitOutcome::Exited(0)), &vec![err(text)], false, true);
    assert_eq!(r.stderr, "warn\nlast\n");
    assert_eq!(r.execution_time_ms, 62500);
    assert_eq!(r.memory_used_bytes, Some(9876 * 1024));
}

#[test]
fn timing_block_lines_need_the_prefix_at_line_start() {
    let text = "===CODE_EXEC_TIME_BEGIN===\nElapsed (wall clock) time: 0.07\nMaximum resident set size (kbytes): lots\n===CODE_EXEC_TIME_END===";
    let r = assemble_result(&report(WaitOutcome::Exited(0)), &vec![err(text)], false, true);
    assert_eq!(r.stderr, "");
    assert_eq!(r.execution_time_ms, 70);
    assert_eq!(r.memory_used_bytes, Some(0));
}

#[test]
fn without_timing_block_measured_values_are_kept() {
    let r = assemble_result(&report(WaitOutcome::Exited(0)), &vec![err("x\r\ny")], true, false);
    assert_eq!(r.stderr, "x\r\nyMemory limit exceeded (OOMKilled)\n");
    assert_eq!(r.execution_time_ms, 1234);
    assert_eq!(r.memory_used_bytes, Some(4096));
}

#[test]
fn create_failure_needs_no_cleanup() {
    let (mut c, a) = Controller::new(5, false, true, false);
    assert_eq!(a, Action::Create);
    let a = c.step(Event::Failed("no such image".to_string()));
    assert_eq!(a, Action::Finish);
    assert!(!c.created);
    match c.outcome() {
        Some(Err(ExecError::Backend { message })) => assert_eq!(message, "no such image"),
        _ => panic!("expected a setup failure"),
    }
}

#[test]
fn start_failure_still_destroys() {
    let (mut c, _) = Controller::new(5, true, true, false);
    assert_eq!(c.step(Event::Created), Action::Start);
    assert_eq!(c.step(Event::Failed("start refused".to_string())), Action::Destroy);
    assert!(c.outcome().is_none());
    assert_eq!(c.step(Event::Destroyed), Action::Finish);
    assert!(c.destroyed);
    assert_eq!(c.phase, Phase::Done);
    assert!(matches!(c.outcome(), Some(Err(_))));
}

#[test]
fn stray_events_repeat_the_pending_action() {
    let (mut c, _) = Controller::new(7, false, false, false);
    assert_eq!(c.step(Event::Killed), Action::Create);
    assert_eq!(c.step(Event::Created), Action::Start);
    assert_eq!(c.step(Event::Started), Action::Wait { timeout_seconds: 7 });
    assert_eq!(c.step(Event::Destroyed), Action::Wait { timeout_seconds: 7 });
}

#[test]
fn container_plan_carries_limits_and_environment() {
    let p = plan_container("print(1)", "python", "code-executor-python-3.12", 5, 128, "abc");
    assert_eq!(p.name, "code-exec-python-abc");
    assert!(p.timing_block);
    let c = &p.config;
    assert_eq!(c.image.as_deref(), Some("code-executor-python-3.12"));
    assert_eq!(c.cmd, Some(vec![]));
    assert_eq!(c.working_dir.as_deref(), Some("/workspace"));
    assert_eq!(c.network_disabled, Some(true));
    assert_eq!(c.open_stdin, Some(true));
    assert_eq!(
        c.env.clone().unwrap(),
        vec!["MEMORY_LIMIT=128", "TIMEOUT=5", "USER_CODE=print(1)", "EXECUTION_ID=abc"]
    );
    let h = c.host_config.clone().unwrap();
    assert_eq!(h.memory, Some(134217728));
    assert_eq!(h.memory_swap, Some(134217728));
    assert_eq!(h.cpu_period, Some(100000));
    assert_eq!(h.cpu_quota, Some(50000));
    assert_eq!(h.security_opt, Some(vec!["no-new-privileges".to_string()]));
    assert_eq!(h.network_mode, None);
}

#[test]
fn prepared_plan_has_fresh_uuid() {
    let a = prepare_container("1", "ruby", "3.2", 3, 64).unwrap();
    let b = prepare_container("1", "ruby", "3.2", 3, 64).unwrap();
    assert_eq!(a.execution_id.len(), 36);
    assert_ne!(a.execution_id, b.execution_id);
    assert_eq!(a.name, format!("code-exec-ruby-{}", a.execution_id));
    assert_eq!(a.config.image.as_deref(), Some("code-executor-ruby-3.2"));
    let cpp = prepare_container("1", "cpp", "23", 3, 64).unwrap();
    assert!(!cpp.timing_block);
}

#[test]
fn image_table() {
    assert_eq!(image_name("cpp", "23"), Some("code-executor-cpp-23"));
    assert_eq!(image_name("python", "3.12"), Some("code-executor-python-3.12"));
    assert_eq!(image_name("ruby", "3.2"), Some("code-executor-ruby-3.2"));
    assert_eq!(image_name("cpp", "20"), None);
    assert_eq!(image_name("", ""), None);
}

#[test]
fn peak_tracker_keeps_running_maximum() {
    let mut t = PeakTracker::new();
    for u in [10u64, 50, 20, 50, 5] {
        t.observe(u);
    }
    assert_eq!(t.peak, 50);
}

#[test]
fn empty_input_payload() {
    assert_eq!(input_payload(&vec![]), "");
    assert_eq!(input_payload(&vec!["".to_string()]), "\n");
}
