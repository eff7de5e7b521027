//! The process backend: interpreter selection, the ordered list of POSIX
//! resource limits applied before the interpreter starts, and the decision
//! taken at each poll of the child.
use vstd::prelude::*;
pub use crate::status::ExecutionStatus;
pub use crate::result::ExecutionResult;
use crate::error::ExecError;
use crate::lifecycle::{Action, Controller, Phase};
use crate::status::WaitOutcome;
use crate::text::str_is;

verus! {

/// Pause between two polls of the child, in milliseconds.
pub const POLL_INTERVAL_MS: u64 = 10;

/// Largest file the child may write, in bytes.
pub const MAX_FILE_SIZE: u64 = 52428800;

/// Largest number of processes the child's user may run.
pub const MAX_PROCESSES: u64 = 10;

/// Largest number of files the child may hold open.
pub const MAX_OPEN_FILES: u64 = 100;

/// Configuration of one process-backend execution.
#[derive(Debug, Clone)]
pub struct ExecutionConfig {
    pub timeout_seconds: u32,
    pub memory_limit_mb: u64,
    pub language: String,
    pub code: String,
}

/// Runs one piece of code as a restricted child process.
#[derive(Debug, Clone)]
pub struct Runner {
    pub config: ExecutionConfig,
}

/// A POSIX resource whose limit the child gets.
#[derive(Debug, Clone, Copy, PartialEq, Eq, Structural)]
pub enum LimitKind {
    AddressSpace,
    CpuTime,
    CoreSize,
    FileSize,
    Processes,
    OpenFiles,
}

/// One resource limit: soft and hard values.
#[derive(Debug, Clone, Copy, PartialEq, Eq, Structural)]
pub struct ResourceLimit {
    pub kind: LimitKind,
    pub soft: u64,
    pub hard: u64,
}

/// How to run code of one language.
#[derive(Debug, Clone)]
pub struct LanguageCommand {
    /// The interpreter.
    pub program: String,
    /// The file extension the interpreter expects on the code file.
    pub extension: String,
}

/// The interpreter and file extension of a language, if it is supported.
pub open spec fn command_for(language: Seq<char>) -> Option<(Seq<char>, Seq<char>)> {
    if language == "python"@ || language == "python3"@ {
        Some(("python3"@, "py"@))
    } else if language == "javascript"@ || language == "node"@ {
        Some(("node"@, "js"@))
    } else if language == "ruby"@ {
        Some(("ruby"@, "rb"@))
    } else {
        None
    }
}

/// The limits, in the order they are applied: address space, CPU seconds
/// (the timeout plus one, since CPU and wall-clock time differ), no core
/// dumps, file size, process count and open files.
pub open spec fn limit_plan(timeout_seconds: nat, memory_limit_mb: nat) -> Seq<ResourceLimit> {
    let mem = (memory_limit_mb * 1048576) as u64;
    let cpu = (timeout_seconds + 1) as u64;
    seq![
        ResourceLimit { kind: LimitKind::AddressSpace, soft: mem, hard: mem },
        ResourceLimit { kind: LimitKind::CpuTime, soft: cpu, hard: cpu },
        ResourceLimit { kind: LimitKind::CoreSize, soft: 0, hard: 0 },
        ResourceLimit { kind: LimitKind::FileSize, soft: MAX_FILE_SIZE, hard: MAX_FILE_SIZE },
        ResourceLimit { kind: LimitKind::Processes, soft: MAX_PROCESSES, hard: MAX_PROCESSES },
        ResourceLimit { kind: LimitKind::OpenFiles, soft: MAX_OPEN_FILES, hard: MAX_OPEN_FILES },
    ]
}

/// What one poll of the child saw.
#[derive(Debug, Clone, Copy, PartialEq, Eq, Structural)]
pub enum ChildStatus {
    Exited(i32),
    Signaled(i32),
    StillAlive,
    WaitFailed,
}

/// The decision after one poll: `None` to sleep and poll again, or how the
/// wait ended. Past the deadline a live child has timed out.
pub open spec fn poll_outcome(status: ChildStatus, elapsed_ms: u64, timeout_seconds: u32) -> Option<WaitOutcome> {
    match status {
        ChildStatus::Exited(c) => Some(WaitOutcome::Exited(c as i64)),
        ChildStatus::Signaled(s) => Some(WaitOutcome::Signaled(s)),
        ChildStatus::WaitFailed => Some(WaitOutcome::WaitError),
        ChildStatus::StillAlive => if elapsed_ms > timeout_seconds as int * 1000 {
            Some(WaitOutcome::TimedOut)
        } else {
            None
        },
    }
}

/// Decides what to do after one poll of the child.
pub fn poll_decision(status: ChildStatus, elapsed_ms: u64, timeout_seconds: u32) -> (r: Option<WaitOutcome>)
    ensures
        r == poll_outcome(status, elapsed_ms, timeout_seconds),
{
    match status {
        ChildStatus::Exited(c) => Some(WaitOutcome::Exited(c as i64)),
        ChildStatus::Signaled(s) => Some(WaitOutcome::Signaled(s)),
        ChildStatus::WaitFailed => Some(WaitOutcome::WaitError),
        ChildStatus::StillAlive => {
            if elapsed_ms as u128 > timeout_seconds as u128 * 1000 {
                Some(WaitOutcome::TimedOut)
            } else {
                None
            }
        },
    }
}

impl Runner {
    /// A runner for one configuration.
    pub fn new(config: ExecutionConfig) -> (r: Runner)
        ensures
            r.config == config,
    {
        Runner { config }
    }

    /// The interpreter and file extension of the configured language.
    pub fn language_command(&self) -> (r: Result<LanguageCommand, ExecError>)
        ensures
            r is Err <==> command_for(self.config.language@) is None,
            r matches Err(e) ==> e matches ExecError::UnsupportedLanguage { language }
                && language@ == self.config.language@,
            r matches Ok(c) ==> command_for(self.config.language@) == Some((c.program@, c.extension@)),
    {
        let l = self.config.language.as_str();
        if str_is(l, "python") || str_is(l, "python3") {
            Ok(LanguageCommand { program: "python3".to_owned(), extension: "py".to_owned() })
        } else if str_is(l, "javascript") || str_is(l, "node") {
            Ok(LanguageCommand { program: "node".to_owned(), extension: "js".to_owned() })
        } else if str_is(l, "ruby") {
            Ok(LanguageCommand { program: "ruby".to_owned(), extension: "rb".to_owned() })
        } else {
            Err(ExecError::UnsupportedLanguage { language: self.config.language.clone() })
        }
    }

    /// The resource limits to apply to the child, in order.
    pub fn resource_limits(&self) -> (r: Vec<ResourceLimit>)
        requires
            self.config.memory_limit_mb * 1048576 <= u64::MAX,
        ensures
            r@ == limit_plan(self.config.timeout_seconds as nat, self.config.memory_limit_mb as nat),
    {
        let mem = self.config.memory_limit_mb * 1048576;
        let cpu = self.config.timeout_seconds as u64 + 1;
        let mut v: Vec<ResourceLimit> = Vec::new();
        v.push(ResourceLimit { kind: LimitKind::AddressSpace, soft: mem, hard: mem });
        v.push(ResourceLimit { kind: LimitKind::CpuTime, soft: cpu, hard: cpu });
        v.push(ResourceLimit { kind: LimitKind::CoreSize, soft: 0, hard: 0 });
        v.push(ResourceLimit { kind: LimitKind::FileSize, soft: MAX_FILE_SIZE, hard: MAX_FILE_SIZE });
        v.push(ResourceLimit { kind: LimitKind::Processes, soft: MAX_PROCESSES, hard: MAX_PROCESSES });
        v.push(ResourceLimit { kind: LimitKind::OpenFiles, soft: MAX_OPEN_FILES, hard: MAX_OPEN_FILES });
        assert(v@ =~= limit_plan(self.config.timeout_seconds as nat, self.config.memory_limit_mb as nat));
        v
    }

    /// Plans a process execution and starts its controller. An unsupported
    /// language fails at once, before anything is written or spawned; a
    /// memory limit too large to express in bytes is refused the same way.
    pub fn begin(&self) -> (r: Result<(LanguageCommand, Vec<ResourceLimit>, Controller, Action), ExecError>)
        ensures
            r is Err <==> command_for(self.config.language@) is None || self.config.memory_limit_mb
                * 1048576 > u64::MAX,
            r matches Ok((cmd, limits, c, a)) ==> {
                &&& command_for(self.config.language@) == Some((cmd.program@, cmd.extension@))
                &&& limits@ == limit_plan(self.config.timeout_seconds as nat, self.config.memory_limit_mb as nat)
                &&& c.wf() && c.phase == Phase::Creating
                &&& c.timeout_seconds == self.config.timeout_seconds
                &&& !c.has_input && !c.inspects_oom && !c.timing_block
                &&& a == Action::Create
            },
    {
        let cmd = self.language_command()?;
        if self.config.memory_limit_mb > 17592186044415 {
            return Err(ExecError::Backend { message: "Memory limit too large".to_owned() });
        }
        let limits = self.resource_limits();
        let (c, a) = Controller::new(self.config.timeout_seconds, false, false, false);
        Ok((cmd, limits, c, a))
    }
}

} // verus!
