//! The lifecycle controller: a state machine that decides, from each event a
//! backend reports, the next operation on the sandbox. The caller performs
//! the operations; the controller guarantees that a created sandbox is always
//! destroyed before the execution finishes.
use vstd::prelude::*;
use crate::container::{ContainerPlan, image_for, is_uuid_text, plan_matches, prepare_container};
use crate::error::ExecError;
use crate::output::LogChunk;
use crate::result::{ExecutionResult, WaitReport, assemble_result, result_matches};
use crate::status::{ExecutionStatus, WaitOutcome, resolved_status};

verus! {

/// Where an execution stands.
#[derive(Debug, Clone, Copy, PartialEq, Eq, Structural)]
pub enum Phase {
    Creating,
    Starting,
    FeedingInput,
    Waiting,
    Killing,
    Collecting,
    Inspecting,
    Destroying,
    Done,
}

/// The next operation to perform on the sandbox.
#[derive(Debug, Clone, Copy, PartialEq, Eq, Structural)]
pub enum Action {
    /// Allocate the sandbox, limits applied, without running user code.
    Create,
    /// Begin running user code.
    Start,
    /// Write the input lines and close the input stream.
    DeliverInput,
    /// Wait for the sandbox to end, for at most this many seconds.
    Wait { timeout_seconds: u32 },
    /// Forcibly terminate the sandbox.
    Kill,
    /// Drain the captured output.
    CollectOutput,
    /// Ask whether the sandbox was killed for exceeding its memory.
    InspectOom,
    /// Release every resource of the sandbox; errors are ignored.
    Destroy,
    /// The execution is over; its outcome is ready.
    Finish,
}

/// What the backend reports after performing an action.
#[derive(Debug, Clone)]
pub enum Event {
    Created,
    Started,
    InputDelivered,
    WaitFinished(WaitReport),
    /// The kill was attempted; its errors are ignored.
    Killed,
    OutputCollected(Vec<LogChunk>),
    Inspected(bool),
    /// The destroy was attempted; its errors are ignored.
    Destroyed,
    /// The last action failed with this message.
    Failed(String),
}

/// The state of one execution.
#[derive(Debug, Clone)]
pub struct Controller {
    pub phase: Phase,
    pub timeout_seconds: u32,
    pub has_input: bool,
    pub inspects_oom: bool,
    pub timing_block: bool,
    pub created: bool,
    pub destroyed: bool,
    pub report: Option<WaitReport>,
    pub chunks: Vec<LogChunk>,
    pub oom: bool,
    pub error: Option<String>,
}

/// The action that a phase waits to see performed.
pub open spec fn pending(p: Phase, timeout_seconds: u32) -> Action {
    match p {
        Phase::Creating => Action::Create,
        Phase::Starting => Action::Start,
        Phase::FeedingInput => Action::DeliverInput,
        Phase::Waiting => Action::Wait { timeout_seconds },
        Phase::Killing => Action::Kill,
        Phase::Collecting => Action::CollectOutput,
        Phase::Inspecting => Action::InspectOom,
        Phase::Destroying => Action::Destroy,
        Phase::Done => Action::Finish,
    }
}

impl Controller {
    /// The state is consistent: a sandbox exists exactly in the phases after
    /// creation and before destruction, and a wait report exists once the
    /// wait has ended without an earlier failure.
    pub open spec fn wf(self) -> bool {
        &&& (self.phase is Creating) ==> !self.created && !self.destroyed
        &&& !(self.phase is Creating) && !(self.phase is Done) ==> self.created && !self.destroyed
        &&& (self.phase is Done) ==> (self.created <==> self.destroyed)
        &&& (self.phase is Done) && !self.created ==> self.error is Some
        &&& !(self.phase is Destroying || self.phase is Done) ==> self.error is None
        &&& (self.phase is Killing || self.phase is Collecting || self.phase is Inspecting)
            ==> self.report is Some
        &&& (self.phase is Destroying || self.phase is Done) && self.error is None
            ==> self.report is Some
    }

    /// The state after `e`, and the action it asks for.
    pub open spec fn next(self, e: Event) -> (Controller, Action) {
        let s = self;
        let d = match (s.phase, e) {
            (Phase::Creating, Event::Created) => Controller { phase: Phase::Starting, created: true, ..s },
            (Phase::Creating, Event::Failed(m)) => Controller { phase: Phase::Done, error: Some(m), ..s },
            (Phase::Starting, Event::Started) => Controller {
                phase: if s.has_input {
                    Phase::FeedingInput
                } else {
                    Phase::Waiting
                },
                ..s
            },
            (Phase::FeedingInput, Event::InputDelivered) => Controller { phase: Phase::Waiting, ..s },
            (Phase::Waiting, Event::WaitFinished(r)) => Controller {
                phase: if r.outcome is TimedOut {
                    Phase::Killing
                } else {
                    Phase::Collecting
                },
                report: Some(r),
                ..s
            },
            (Phase::Killing, Event::Killed) => Controller { phase: Phase::Collecting, ..s },
            (Phase::Collecting, Event::OutputCollected(c)) => Controller {
                phase: if s.inspects_oom {
                    Phase::Inspecting
                } else {
                    Phase::Destroying
                },
                chunks: c,
                ..s
            },
            (Phase::Inspecting, Event::Inspected(b)) => Controller { phase: Phase::Destroying, oom: b, ..s },
            (Phase::Starting, Event::Failed(m)) => Controller { phase: Phase::Destroying, error: Some(m), ..s },
            (Phase::FeedingInput, Event::Failed(m)) => Controller { phase: Phase::Destroying, error: Some(m), ..s },
            (Phase::Inspecting, Event::Failed(m)) => Controller { phase: Phase::Destroying, error: Some(m), ..s },
            (Phase::Destroying, Event::Destroyed) => Controller { phase: Phase::Done, destroyed: true, ..s },
            _ => s,
        };
        (d, pending(d.phase, d.timeout_seconds))
    }

    /// A controller for a new execution, and its first action, `Create`.
    pub fn new(timeout_seconds: u32, has_input: bool, inspects_oom: bool, timing_block: bool) -> (r: (Controller, Action))
        ensures
            r.0.wf(),
            r.0.phase == Phase::Creating,
            r.0.timeout_seconds == timeout_seconds,
            r.0.has_input == has_input,
            r.0.inspects_oom == inspects_oom,
            r.0.timing_block == timing_block,
            !r.0.created && !r.0.destroyed && !r.0.oom,
            r.0.report is None && r.0.error is None && r.0.chunks@.len() == 0,
            r.1 == Action::Create,
    {
        let c = Controller {
            phase: Phase::Creating,
            timeout_seconds,
            has_input,
            inspects_oom,
            timing_block,
            created: false,
            destroyed: false,
            report: None,
            chunks: Vec::new(),
            oom: false,
            error: None,
        };
        (c, Action::Create)
    }

    /// Takes the event that the last action produced and returns the next
    /// action. An event that does not belong to the current phase changes
    /// nothing and the pending action is asked for again.
    pub fn step(&mut self, e: Event) -> (r: Action)
        requires
            old(self).wf(),
        ensures
            final(self).wf(),
            (*final(self), r) == old(self).next(e),
    {
        match (self.phase, e) {
            (Phase::Creating, Event::Created) => {
                self.phase = Phase::Starting;
                self.created = true;
            },
            (Phase::Creating, Event::Failed(m)) => {
                self.phase = Phase::Done;
                self.error = Some(m);
            },
            (Phase::Starting, Event::Started) => {
                self.phase = if self.has_input {
                    Phase::FeedingInput
                } else {
                    Phase::Waiting
                };
            },
            (Phase::FeedingInput, Event::InputDelivered) => {
                self.phase = Phase::Waiting;
            },
            (Phase::Waiting, Event::WaitFinished(r)) => {
                self.phase = match r.outcome {
                    WaitOutcome::TimedOut => Phase::Killing,
                    _ => Phase::Collecting,
                };
                self.report = Some(r);
            },
            (Phase::Killing, Event::Killed) => {
                self.phase = Phase::Collecting;
            },
            (Phase::Collecting, Event::OutputCollected(c)) => {
                self.phase = if self.inspects_oom {
                    Phase::Inspecting
                } else {
                    Phase::Destroying
                };
                self.chunks = c;
            },
            (Phase::Inspecting, Event::Inspected(b)) => {
                self.phase = Phase::Destroying;
                self.oom = b;
            },
            (Phase::Starting, Event::Failed(m)) | (Phase::FeedingInput, Event::Failed(m)) | (
                Phase::Inspecting,
                Event::Failed(m),
            ) => {
                self.phase = Phase::Destroying;
                self.error = Some(m);
            },
            (Phase::Destroying, Event::Destroyed) => {
                self.phase = Phase::Done;
                self.destroyed = true;
            },
            _ => {},
        }
        self.pending_action()
    }

    /// The action that the current phase waits for.
    pub fn pending_action(&self) -> (r: Action)
        ensures
            r == pending(self.phase, self.timeout_seconds),
    {
        match self.phase {
            Phase::Creating => Action::Create,
            Phase::Starting => Action::Start,
            Phase::FeedingInput => Action::DeliverInput,
            Phase::Waiting => Action::Wait { timeout_seconds: self.timeout_seconds },
            Phase::Killing => Action::Kill,
            Phase::Collecting => Action::CollectOutput,
            Phase::Inspecting => Action::InspectOom,
            Phase::Destroying => Action::Destroy,
            Phase::Done => Action::Finish,
        }
    }

    /// The outcome of a finished execution: the failure of a setup step, or
    /// the assembled result. `None` before the execution is finished.
    pub fn outcome(&self) -> (r: Option<Result<ExecutionResult, ExecError>>)
        requires
            self.wf(),
        ensures
            r is None <==> !(self.phase is Done),
            r matches Some(x) ==> (x is Err <==> self.error is Some),
            r matches Some(Err(x)) ==> self.error matches Some(m) && x matches ExecError::Backend { message } && message@ == m@,
            r matches Some(Ok(x)) ==> self.error is None && result_matches(
                x,
                self.report.unwrap(),
                self.chunks@,
                self.oom,
                self.timing_block,
            ),
    {
        if !matches!(self.phase, Phase::Done) {
            return None;
        }
        match &self.error {
            Some(m) => Some(Err(ExecError::Backend { message: m.clone() })),
            None => match &self.report {
                Some(rep) => Some(Ok(assemble_result(rep, &self.chunks, self.oom, self.timing_block))),
                None => None,
            },
        }
    }
}

/// Every step keeps the state consistent, and the execution finishes only
/// once its sandbox, if one was created, has been destroyed.
pub proof fn lemma_cleanup_before_finish(c: Controller, e: Event)
    requires
        c.wf(),
    ensures
        c.next(e).0.wf(),
        c.next(e).1 == Action::Finish ==> (c.next(e).0.created ==> c.next(e).0.destroyed),
        c.created && !c.destroyed ==> c.next(e).1 != Action::Finish || c.next(e).0.destroyed,
{
}

/// While the sandbox runs, the controller waits for it at most the
/// execution's timeout; when that deadline passes the next action is a kill,
/// output is collected only after it, and the status is `Timeout` whatever
/// else is reported.
pub proof fn lemma_timeout_forces_kill(c: Controller, r: WaitReport, oom: bool)
    requires
        c.wf(),
        c.phase == Phase::Waiting,
        r.outcome is TimedOut,
    ensures
        pending(c.phase, c.timeout_seconds) == (Action::Wait { timeout_seconds: c.timeout_seconds }),
        c.next(Event::WaitFinished(r)).1 == Action::Kill,
        c.next(Event::WaitFinished(r)).0.next(Event::Killed).1 == Action::CollectOutput,
        resolved_status(r.outcome, oom) == ExecutionStatus::Timeout,
{
}

/// Plans a container execution and starts its controller. An unsupported
/// language and version fails at once: no `Create` is ever asked for.
pub fn begin_container(
    code: &str,
    language: &str,
    version: &str,
    timeout_seconds: u32,
    memory_limit_mb: u32,
    input: &Vec<String>,
) -> (r: Result<(ContainerPlan, Controller, Action), ExecError>)
    ensures
        r is Err <==> image_for(language@, version@) is None,
        r matches Err(e) ==> e matches ExecError::UnsupportedRuntime { language: l, version: v }
            && l@ == language@ && v@ == version@,
        r matches Ok((p, c, a)) ==> {
            &&& is_uuid_text(p.execution_id@)
            &&& plan_matches(
                p,
                code@,
                language@,
                image_for(language@, version@).unwrap(),
                timeout_seconds as nat,
                memory_limit_mb as nat,
                p.execution_id@,
            )
            &&& c.wf() && c.phase == Phase::Creating && !c.created
            &&& c.timeout_seconds == timeout_seconds
            &&& c.has_input == (input@.len() > 0)
            &&& c.inspects_oom
            &&& c.timing_block == p.timing_block
            &&& a == Action::Create
        },
{
    let plan = prepare_container(code, language, version, timeout_seconds, memory_limit_mb)?;
    let (c, a) = Controller::new(timeout_seconds, input.len() > 0, true, plan.timing_block);
    Ok((plan, c, a))
}

} // verus!
