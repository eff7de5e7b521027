//! The unified status type and the fixed-priority status resolver.
use vstd::prelude::*;

verus! {

/// Final or transient state of one execution. `Pending` and `Running` are
/// transient and never appear in a finished result.
#[derive(Debug, Clone, Copy, PartialEq, Eq, Structural)]
pub enum ExecutionStatus {
    Pending,
    Running,
    Completed,
    Failed,
    Timeout,
    MemoryLimitExceeded,
    RuntimeError,
    SystemError,
}

/// What a bounded wait on a sandbox observed.
#[derive(Debug, Clone, Copy, PartialEq, Eq, Structural)]
pub enum WaitOutcome {
    /// The sandbox exited with this code.
    Exited(i64),
    /// The sandbox was terminated by this signal.
    Signaled(i32),
    /// The wait ended without an exit status.
    Indeterminate,
    /// The deadline passed first; the sandbox must be killed.
    TimedOut,
    /// The wait primitive itself failed.
    WaitError,
}

impl ExecutionStatus {
    /// A status that may stand in a finished result.
    pub open spec fn is_final(self) -> bool {
        !(self is Pending) && !(self is Running)
    }
}

/// The fixed priority rule: timeout, then out-of-memory, then the exit outcome.
pub open spec fn resolved_status(outcome: WaitOutcome, oom: bool) -> ExecutionStatus {
    match outcome {
        WaitOutcome::TimedOut => ExecutionStatus::Timeout,
        _ => if oom {
            ExecutionStatus::MemoryLimitExceeded
        } else {
            match outcome {
                WaitOutcome::Exited(code) => if code == 0 {
                    ExecutionStatus::Completed
                } else {
                    ExecutionStatus::Failed
                },
                WaitOutcome::WaitError => ExecutionStatus::RuntimeError,
                _ => ExecutionStatus::Failed,
            }
        },
    }
}

/// Combines the wait outcome and the out-of-memory flag into the one final
/// status of an execution.
pub fn resolve_status(outcome: WaitOutcome, oom: bool) -> (r: ExecutionStatus)
    ensures
        r == resolved_status(outcome, oom),
        r.is_final(),
{
    match outcome {
        WaitOutcome::TimedOut => ExecutionStatus::Timeout,
        _ => {
            if oom {
                ExecutionStatus::MemoryLimitExceeded
            } else {
                match outcome {
                    WaitOutcome::Exited(code) => {
                        if code == 0 {
                            ExecutionStatus::Completed
                        } else {
                            ExecutionStatus::Failed
                        }
                    },
                    WaitOutcome::WaitError => ExecutionStatus::RuntimeError,
                    _ => ExecutionStatus::Failed,
                }
            }
        },
    }
}

/// A timeout that coincides with an out-of-memory report resolves to
/// `Timeout`, never to `MemoryLimitExceeded`.
pub proof fn lemma_timeout_beats_oom()
    ensures
        resolved_status(WaitOutcome::TimedOut, true) == ExecutionStatus::Timeout,
        resolved_status(WaitOutcome::TimedOut, true) != ExecutionStatus::MemoryLimitExceeded,
{
}

/// Whenever the sandbox reports an out-of-memory termination and no timeout
/// occurred, the status is `MemoryLimitExceeded`.
pub proof fn lemma_oom_without_timeout(outcome: WaitOutcome)
    requires
        !(outcome is TimedOut),
    ensures
        resolved_status(outcome, true) == ExecutionStatus::MemoryLimitExceeded,
{
}

/// A clean exit with no timeout and no out-of-memory report is `Completed`,
/// and `Completed` is reached only that way.
pub proof fn lemma_zero_exit_completes(outcome: WaitOutcome, oom: bool)
    ensures
        outcome == WaitOutcome::Exited(0) && !oom ==> resolved_status(outcome, oom)
            == ExecutionStatus::Completed,
        resolved_status(outcome, oom) == ExecutionStatus::Completed ==> outcome
            == WaitOutcome::Exited(0) && !oom,
{
}

} // verus!
