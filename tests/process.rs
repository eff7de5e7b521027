use code_executor::config::ContainerConfig;
use code_executor::runner::{poll_decision, ChildStatus, LimitKind, ResourceLimit};
use code_executor::text::{push_decimal, push_signed_decimal};
use code_executor::{
    create_seccomp_profile, Action, Event, ExecError, ExecutionConfig, ExecutionStatus, LogChunk,
    Runner, WaitOutcome, WaitReport,
};

fn config(language: &str) -> ExecutionConfig {
    ExecutionConfig {
        timeout_seconds: 5,
        memory_limit_mb: 100,
        language: language.to_string(),
        code: "print(1)".to_string(),
    }
}

#[test]
fn language_commands() {
    for (l, p, e) in [
        ("python", "python3", "py"),
        ("python3", "python3", "py"),
        ("javascript", "node", "js"),
        ("node", "node", "js"),
        ("ruby", "ruby", "rb"),
    ] {
        let c = Runner::new(config(l)).language_command().unwrap();
        assert_eq!(c.program, p);
        assert_eq!(c.extension, e);
    }
    match Runner::new(config("perl")).language_command() {
        Err(ExecError::UnsupportedLanguage { language }) => assert_eq!(language, "perl"),
        _ => panic!("perl is not supported"),
    }
}

#[test]
fn resource_limits_in_order() {
    let l = Runner::new(config("python")).resource_limits();
    let expect = [
        (LimitKind::AddressSpace, 104857600),
        (LimitKind::CpuTime, 6),
        (LimitKind::CoreSize, 0),
        (LimitKind::FileSize, 52428800),
        (LimitKind::Processes, 10),
        (LimitKind::OpenFiles, 100),
    ];
    assert_eq!(l.len(), expect.len());
    for (got, (k, v)) in l.iter().zip(expect.iter()) {
        assert_eq!(*got, ResourceLimit { kind: *k, soft: *v, hard: *v });
    }
}

#[test]
fn begin_refuses_unsupported_language_and_huge_memory() {
    assert!(Runner::new(config("cobol")).begin().is_err());
    let mut c = config("python");
    c.memory_limit_mb = u64::MAX;
    assert!(Runner::new(c).begin().is_err());
    let (_, limits, ctl, a) = Runner::new(config("ruby")).begin().unwrap();
    assert_eq!(limits.len(), 6);
    assert_eq!(a, Action::Create);
    assert!(!ctl.inspects_oom && !ctl.has_input && !ctl.timing_block);
}

#[test]
fn poll_decisions() {
    assert_eq!(poll_decision(ChildStatus::StillAlive, 4999, 5), None);
    assert_eq!(poll_decision(ChildStatus::StillAlive, 5000, 5), None);
    assert_eq!(poll_decision(ChildStatus::StillAlive, 5001, 5), Some(WaitOutcome::TimedOut));
    assert_eq!(poll_decision(ChildStatus::Exited(3), 99999, 5), Some(WaitOutcome::Exited(3)));
    assert_eq!(poll_decision(ChildStatus::Signaled(9), 0, 5), Some(WaitOutcome::Signaled(9)));
    assert_eq!(poll_decision(ChildStatus::WaitFailed, 0, 5), Some(WaitOutcome::WaitError));
}

#[test]
fn process_execution_without_oom_inspection() {
    let (_, _, mut c, _) = Runner::new(config("python")).begin().unwrap();
    assert_eq!(c.step(Event::Created), Action::Start);
    assert_eq!(c.step(Event::Started), Action::Wait { timeout_seconds: 5 });
    let rep = WaitReport {
        outcome: WaitOutcome::Exited(0),
        detail: String::new(),
        elapsed_ms: 42,
        peak_memory_bytes: None,
    };
    assert_eq!(c.step(Event::WaitFinished(rep)), Action::CollectOutput);
    let chunks = vec![LogChunk::StdOut(b"1\n".to_vec()), LogChunk::StdErr(Vec::new())];
    assert_eq!(c.step(Event::OutputCollected(chunks)), Action::Destroy);
    assert_eq!(c.step(Event::Destroyed), Action::Finish);
    let r = c.outcome().unwrap().unwrap();
    assert_eq!(r.stdout, "1\n");
    assert_eq!(r.status, ExecutionStatus::Completed);
    assert_eq!(r.execution_time_ms, 42);
    assert_eq!(r.memory_used_bytes, None);
}

#[test]
fn seccomp_profile_and_container_config() {
    let s = create_seccomp_profile();
    assert_eq!(s.host_config.memory, Some(536870912));
    assert_eq!(s.host_config.memory_swap, Some(536870912));
    assert_eq!(s.host_config.security_opt, Some(vec!["seccomp=unconfined".to_string()]));
    let c: ContainerConfig = s.apply_to_container_config();
    assert_eq!(c.env, Some(vec!["MEMORY_LIMIT=512".to_string()]));
    assert_eq!(c.working_dir.as_deref(), Some("/workspace"));
    assert_eq!(c.network_disabled, Some(true));
    assert_eq!(c.host_config.unwrap().cpu_quota, Some(50000));
}

#[test]
fn negative_memory_divides_toward_zero() {
    let mut s = create_seccomp_profile();
    s.host_config.memory = Some(-3 * 1048576 - 5);
    s.host_config.network_mode = Some("bridge".to_string());
    let c = s.apply_to_container_config();
    assert_eq!(c.env, Some(vec!["MEMORY_LIMIT=-3".to_string()]));
    assert_eq!(c.network_disabled, Some(false));
    s.host_config.memory = Some(-5);
    assert_eq!(s.apply_to_container_config().env, Some(vec!["MEMORY_LIMIT=0".to_string()]));
}

#[test]
fn decimal_rendering() {
    let mut s = String::from("n=");
    push_decimal(&mut s, 0);
    push_decimal(&mut s, 1234567890);
    push_decimal(&mut s, u64::MAX);
    assert_eq!(s, "n=0123456789018446744073709551615");
    let mut t = String::new();
    push_signed_decimal(&mut t, i64::MIN);
    assert_eq!(t, "-9223372036854775808");
}
