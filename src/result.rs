//! The result of one execution, assembled from what the backend observed.
use vstd::prelude::*;
use crate::status::{ExecutionStatus, WaitOutcome, resolve_status, resolved_status};
use crate::output::{LogChunk, demux, demux_logs, out_bytes, block_scan, timing_scan, capped,
    split_timing_block};
use crate::text::{lines_of, signed_decimal, push_signed_decimal};
use vstd::utf8::{valid_utf8, decode_utf8};

verus! {

/// Note added to stderr when the wait primitive failed.
pub const WAIT_ERROR_NOTE: &'static str = "Container error: ";

/// Note added to stderr when the wait ended without an exit status.
pub const NO_STATUS_NOTE: &'static str = "Container did not return an exit status.\n";

/// Note that opens stderr when the sandbox was terminated by a signal; the
/// signal's name follows it.
pub const SIGNAL_NOTE: &'static str = "Process terminated by signal: ";

/// Note added to stderr when the sandbox was killed for exceeding memory.
pub const OOM_NOTE: &'static str = "Memory limit exceeded (OOMKilled)\n";

/// What the bounded wait of one execution reported.
#[derive(Debug, Clone)]
pub struct WaitReport {
    pub outcome: WaitOutcome,
    /// The wait primitive's message when it failed, or the name of the
    /// terminating signal.
    pub detail: String,
    /// Wall-clock time from start to the end of the wait, in milliseconds.
    pub elapsed_ms: u64,
    /// The peak memory sampled while the sandbox ran, in bytes, where the
    /// backend samples it.
    pub peak_memory_bytes: Option<u64>,
}

/// The outcome of one execution.
#[derive(Debug, Clone)]
pub struct ExecutionResult {
    pub stdout: String,
    pub stderr: String,
    pub status: ExecutionStatus,
    /// Wall-clock execution time, in milliseconds.
    pub execution_time_ms: u64,
    /// Peak memory used, in bytes, where the backend observes it.
    pub memory_used_bytes: Option<u64>,
    /// The exit code, when the sandbox exited on its own.
    pub exit_code: Option<i64>,
}

/// The note that a terminating signal puts before the captured stderr.
pub open spec fn signal_note(outcome: WaitOutcome, detail: Seq<char>) -> Seq<char> {
    match outcome {
        WaitOutcome::Signaled(_) => SIGNAL_NOTE@ + detail,
        _ => seq![],
    }
}

/// The note that the wait outcome adds after the captured stderr.
pub open spec fn wait_note(outcome: WaitOutcome, detail: Seq<char>) -> Seq<char> {
    match outcome {
        WaitOutcome::WaitError => WAIT_ERROR_NOTE@ + detail,
        WaitOutcome::Indeterminate => NO_STATUS_NOTE@,
        _ => seq![],
    }
}

/// The stderr text before any timing block is removed.
pub open spec fn raw_stderr(report: WaitReport, chunks: Seq<LogChunk>, oom: bool) -> Seq<char> {
    signal_note(report.outcome, report.detail@) + demux(chunks).1 + wait_note(report.outcome, report.detail@) + if oom {
        OOM_NOTE@
    } else {
        seq![]
    }
}

/// `r` is the result of an execution with this wait report, captured log
/// stream and out-of-memory flag.
pub open spec fn result_matches(
    r: ExecutionResult,
    report: WaitReport,
    chunks: Seq<LogChunk>,
    oom: bool,
    timing_block: bool,
) -> bool {
    let raw = raw_stderr(report, chunks, oom);
    &&& r.stdout@ == demux(chunks).0
    &&& valid_utf8(out_bytes(chunks)) ==> r.stdout@ == decode_utf8(out_bytes(chunks))
    &&& r.status == resolved_status(report.outcome, oom)
    &&& r.exit_code == match report.outcome {
        WaitOutcome::Exited(c) => Some(c),
        _ => None,
    }
    &&& if timing_block {
        let inner = block_scan(lines_of(raw)).2;
        &&& r.stderr@ == block_scan(lines_of(raw)).1
        &&& r.execution_time_ms == match capped(timing_scan(inner).0) {
            Some(t) => t,
            None => 0u64,
        }
        &&& r.memory_used_bytes == Some(
            match timing_scan(inner).1 {
                Some(k) => (k as u64 * 1024) as u64,
                None => 0u64,
            },
        )
    } else {
        &&& r.stderr@ == raw
        &&& r.execution_time_ms == report.elapsed_ms
        &&& r.memory_used_bytes == report.peak_memory_bytes
    }
}

/// Assembles the result of an execution: demultiplexed output, notes on how
/// the wait ended, the timing block where the image writes one, and the one
/// final status.
pub fn assemble_result(report: &WaitReport, chunks: &Vec<LogChunk>, oom: bool, timing_block: bool) -> (r: ExecutionResult)
    ensures
        result_matches(r, *report, chunks@, oom, timing_block),
        r.status.is_final(),
{
    let (stdout, captured) = demux_logs(chunks);
    let mut stderr = String::new();
    match report.outcome {
        WaitOutcome::Signaled(_) => {
            stderr.append(SIGNAL_NOTE);
            stderr.append(report.detail.as_str());
        },
        _ => {},
    }
    stderr.append(captured.as_str());
    match report.outcome {
        WaitOutcome::WaitError => {
            stderr.append(WAIT_ERROR_NOTE);
            stderr.append(report.detail.as_str());
        },
        WaitOutcome::Indeterminate => {
            stderr.append(NO_STATUS_NOTE);
        },
        _ => {},
    }
    assert(stderr@ =~= signal_note(report.outcome, report.detail@) + captured@ + wait_note(
        report.outcome,
        report.detail@,
    ));
    if oom {
        stderr.append(OOM_NOTE);
    }
    assert(stderr@ =~= raw_stderr(*report, chunks@, oom));
    let status = resolve_status(report.outcome, oom);
    let exit_code = match report.outcome {
        WaitOutcome::Exited(c) => Some(c),
        _ => None,
    };
    if timing_block {
        let t = split_timing_block(stderr.as_str());
        let time = match t.elapsed_ms {
            Some(ms) => ms,
            None => 0,
        };
        let kb: u64 = match t.max_rss_kb {
            Some(k) => k as u64,
            None => 0,
        };
        ExecutionResult {
            stdout,
            stderr: t.stderr,
            status,
            execution_time_ms: time,
            memory_used_bytes: Some(kb * 1024),
            exit_code,
        }
    } else {
        ExecutionResult {
            stdout,
            stderr,
            status,
            execution_time_ms: report.elapsed_ms,
            memory_used_bytes: report.peak_memory_bytes,
            exit_code,
        }
    }
}

/// A sandbox that exits with code zero, with no timeout and no
/// out-of-memory report, yields `Completed` with exit code 0, and its stdout
/// is what it wrote there, decoded as a whole: byte for byte when it is
/// valid UTF-8, with no note or timing text added.
pub proof fn lemma_clean_exit_result(
    r: ExecutionResult,
    report: WaitReport,
    chunks: Seq<LogChunk>,
    timing_block: bool,
)
    requires
        report.outcome == WaitOutcome::Exited(0),
        result_matches(r, report, chunks, false, timing_block),
    ensures
        r.status == ExecutionStatus::Completed,
        r.exit_code == Some(0i64),
        r.stdout@ == demux(chunks).0,
        valid_utf8(out_bytes(chunks)) ==> r.stdout@ == decode_utf8(out_bytes(chunks)),
{
}

/// With both a timeout and an out-of-memory report, the result's status is
/// `Timeout`; with an out-of-memory report and no timeout, it is
/// `MemoryLimitExceeded`.
pub proof fn lemma_result_priority(
    r: ExecutionResult,
    report: WaitReport,
    chunks: Seq<LogChunk>,
    timing_block: bool,
)
    requires
        result_matches(r, report, chunks, true, timing_block),
    ensures
        report.outcome is TimedOut ==> r.status == ExecutionStatus::Timeout,
        !(report.outcome is TimedOut) ==> r.status == ExecutionStatus::MemoryLimitExceeded,
{
}

/// Relies on nix's `Signal::try_from`, which accepts exactly the signal
/// numbers of the platform, and `Signal::as_str`, whose names all begin
/// with `SIG`.
#[verifier::external_body]
fn platform_signal_name(sig: i32) -> (r: Option<&'static str>)
    ensures
        r matches Some(n) ==> n@.len() > 3 && n@.subrange(0, 3) == "SIG"@,
{
    nix::sys::signal::Signal::try_from(sig).ok().map(|s| s.as_str())
}

/// The name of a signal: the platform's `SIG` name where it has one, else
/// the number in decimal.
pub fn signal_name(sig: i32) -> (r: String)
    ensures
        (r@.len() > 3 && r@.subrange(0, 3) == "SIG"@) || r@ == signed_decimal(sig as int),
{
    match platform_signal_name(sig) {
        Some(n) => n.to_owned(),
        None => {
            let mut s = String::new();
            push_signed_decimal(&mut s, sig as i64);
            s
        },
    }
}

/// The wait report of a backend whose wait primitive gives no message of its
/// own: a terminating signal is described by its name, anything else by
/// nothing.
pub fn report_for(outcome: WaitOutcome, elapsed_ms: u64, peak_memory_bytes: Option<u64>) -> (r: WaitReport)
    ensures
        r.outcome == outcome,
        r.elapsed_ms == elapsed_ms,
        r.peak_memory_bytes == peak_memory_bytes,
        outcome matches WaitOutcome::Signaled(s) ==> (r.detail@.len() > 3 && r.detail@.subrange(0, 3)
            == "SIG"@) || r.detail@ == signed_decimal(s as int),
        !(outcome is Signaled) ==> r.detail@.len() == 0,
{
    let detail = match outcome {
        WaitOutcome::Signaled(s) => signal_name(s),
        _ => String::new(),
    };
    WaitReport { outcome, detail, elapsed_ms, peak_memory_bytes }
}

} // verus!
