//! Process Supervisor: the single managed-process slot and its transitions.
//!
//! The supervisor owns at most one record of a running worker — that there is
//! at most one is structural (the slot is an `Option`). The operating-system
//! effects (polling, signalling, waiting, spawning) happen outside; each
//! operation here takes their observed results as plain values and performs
//! the decision and the state change, so every check-then-act sequence is a
//! verified function of the slot and the observation. Each transition is
//! mirrored by a spec-level step function over the slot's view, and the
//! supervisor's laws are proved over those steps.

use vstd::prelude::*;

verus! {

use crate::builder::StartRequest;
use crate::errors::SupervisorError;
use crate::text::dec_str;
use vstd::string::StrSliceExecFns;
use vstd::string::StringExecFns;

/// The reported address of a worker launched on `host`:`port`.
pub open spec fn url_of(host: Seq<char>, port: u16) -> Seq<char> {
    "http://"@ + host + seq![':'] + dec_str(port as nat)
}

/// Build the reported address.
pub fn format_url(host: &str, port: u16) -> (r: String)
    ensures
        r@ == url_of(host@, port),
{
    let mut s = String::from_str("http://");
    s.append(host);
    s.append(":");
    let p = u32_port_string(port);
    s.append(p.as_str());
    proof {
        reveal_strlit(":");
        assert(":"@ =~= seq![':']);
        assert(s@ =~= url_of(host@, port));
    }
    s
}

fn u32_port_string(port: u16) -> (r: String)
    ensures
        r@ == dec_str(port as nat),
{
    crate::text::u32_to_string(port as u32)
}

/// The record of the one currently running long-lived worker.
#[derive(Debug)]
pub struct ManagedProcess {
    /// Operating-system process identifier; the handle itself stays with the
    /// caller that spawned the process.
    pub pid: u32,
    /// Address the worker is expected to be reachable at (constructed, not
    /// verified, at launch time).
    pub url: String,
    /// First half of the identity tuple the worker was launched for.
    pub workspace_dir: String,
    /// Second half of the identity tuple.
    pub project_id: String,
}

/// Mathematical view of a managed-process record.
pub ghost struct ManagedProcessV {
    pub pid: u32,
    pub url: Seq<char>,
    pub workspace_dir: Seq<char>,
    pub project_id: Seq<char>,
}

impl View for ManagedProcess {
    type V = ManagedProcessV;

    open spec fn view(&self) -> ManagedProcessV {
        ManagedProcessV {
            pid: self.pid,
            url: self.url@,
            workspace_dir: self.workspace_dir@,
            project_id: self.project_id@,
        }
    }
}

/// Caller-facing status of the supervisor: idle, or running with the
/// worker's address, process identifier and target key.
#[derive(Debug)]
pub struct ManagerWebStatus {
    pub running: bool,
    pub url: Option<String>,
    pub pid: Option<u32>,
    pub workspace_dir: Option<String>,
    pub project_id: Option<String>,
}

/// Mathematical view of a status.
pub ghost struct ManagerWebStatusV {
    pub running: bool,
    pub url: Option<Seq<char>>,
    pub pid: Option<u32>,
    pub workspace_dir: Option<Seq<char>>,
    pub project_id: Option<Seq<char>>,
}

impl View for ManagerWebStatus {
    type V = ManagerWebStatusV;

    open spec fn view(&self) -> ManagerWebStatusV {
        ManagerWebStatusV {
            running: self.running,
            url: self.url.deep_view(),
            pid: self.pid,
            workspace_dir: self.workspace_dir.deep_view(),
            project_id: self.project_id.deep_view(),
        }
    }
}

/// The idle status: not running, every field absent.
pub open spec fn idle_status() -> ManagerWebStatusV {
    ManagerWebStatusV {
        running: false,
        url: Option::None,
        pid: Option::None,
        workspace_dir: Option::None,
        project_id: Option::None,
    }
}

/// The running status reporting process `p`.
pub open spec fn status_of(p: ManagedProcessV) -> ManagerWebStatusV {
    ManagerWebStatusV {
        running: true,
        url: Option::Some(p.url),
        pid: Option::Some(p.pid),
        workspace_dir: Option::Some(p.workspace_dir),
        project_id: Option::Some(p.project_id),
    }
}

impl ManagerWebStatus {
    /// The idle status.
    pub fn idle() -> (r: Self)
        ensures
            r@ == idle_status(),
    {
        ManagerWebStatus {
            running: false,
            url: None,
            pid: None,
            workspace_dir: None,
            project_id: None,
        }
    }
}

/// The running status reporting process `p`.
pub fn status_from_managed(p: &ManagedProcess) -> (r: ManagerWebStatus)
    ensures
        r@ == status_of(p@),
{
    ManagerWebStatus {
        running: true,
        url: Some(p.url.clone()),
        pid: Some(p.pid),
        workspace_dir: Some(p.workspace_dir.clone()),
        project_id: Some(p.project_id.clone()),
    }
}

/// The supervisor's process-wide state: the one optional managed-process
/// slot. The caller serializes access to it (one exclusive lock around every
/// operation); within an operation, every read and write goes through the
/// verified transitions below.
pub struct UiProcessState {
    pub process: Option<ManagedProcess>,
}

impl View for UiProcessState {
    type V = Option<ManagedProcessV>;

    open spec fn view(&self) -> Option<ManagedProcessV> {
        match self.process {
            Option::Some(p) => Option::Some(p@),
            Option::None => Option::None,
        }
    }
}

impl UiProcessState {
    /// A supervisor with an empty slot.
    pub fn new() -> (r: Self)
        ensures
            r@ is None,
    {
        UiProcessState { process: None }
    }
}

/// Result of a non-blocking liveness poll of the managed process.
#[derive(Clone, Copy, Debug, PartialEq, Eq, Structural)]
pub enum PollOutcome {
    /// The process is still running.
    Alive,
    /// The process has exited.
    Exited,
    /// The poll itself failed.
    Failed,
}

/// Result of delivering the termination signal.
#[derive(Clone, Copy, Debug, PartialEq, Eq, Structural)]
pub enum KillResult {
    /// The signal was delivered.
    Delivered,
    /// The process no longer exists; termination counts as done.
    NoSuchProcess,
    /// The signal could not be delivered for any other reason.
    Failed,
}

/// Result of the blocking wait for the terminated process.
#[derive(Clone, Copy, Debug, PartialEq, Eq, Structural)]
pub enum WaitResult {
    Exited,
    Failed,
}

/// The view of an operation result: the status view on success, the error
/// unchanged.
pub open spec fn result_view(r: Result<ManagerWebStatus, SupervisorError>) -> Result<
    ManagerWebStatusV,
    SupervisorError,
> {
    match r {
        Ok(s) => Ok(s@),
        Err(e) => Err(e),
    }
}

/// Spec-level status step: an empty slot reports idle; a populated slot
/// reports the process while it is alive, empties exactly once when it has
/// exited, and is left untouched when the poll fails.
pub open spec fn status_step(slot: Option<ManagedProcessV>, poll: PollOutcome) -> (
    Option<ManagedProcessV>,
    Result<ManagerWebStatusV, SupervisorError>,
) {
    match slot {
        Option::None => (Option::None, Ok(idle_status())),
        Option::Some(p) => match poll {
            PollOutcome::Alive => (Option::Some(p), Ok(status_of(p))),
            PollOutcome::Exited => (Option::None, Ok(idle_status())),
            PollOutcome::Failed => (Option::Some(p), Err(SupervisorError::PollFailed)),
        },
    }
}

/// Report the current status. `poll` is the observed liveness of the
/// recorded process; it is read only when the slot is populated, so the
/// caller need poll only then. No mutation of the underlying process occurs.
pub fn manager_web_status(state: &mut UiProcessState, poll: PollOutcome) -> (r: Result<
    ManagerWebStatus,
    SupervisorError,
>)
    ensures
        final(state)@ == status_step(old(state)@, poll).0,
        result_view(r) == status_step(old(state)@, poll).1,
{
    match &state.process {
        None => Ok(ManagerWebStatus::idle()),
        Some(existing) => match poll {
            PollOutcome::Alive => Ok(status_from_managed(existing)),
            PollOutcome::Exited => {
                state.process = None;
                Ok(ManagerWebStatus::idle())
            },
            PollOutcome::Failed => Err(SupervisorError::PollFailed),
        },
    }
}

/// Spec-level termination decision (see `terminate_child`).
pub open spec fn terminate_spec(
    already_exited: bool,
    kill: Option<KillResult>,
    wait: Option<WaitResult>,
) -> Result<(), SupervisorError> {
    if already_exited {
        Ok(())
    } else if kill == Option::Some(KillResult::Failed) {
        Err(SupervisorError::KillFailed)
    } else if wait == Option::Some(WaitResult::Failed) {
        Err(SupervisorError::WaitFailed)
    } else {
        Ok(())
    }
}

/// Decide the outcome of a termination attempt from the observed results of
/// its steps: a process found already exited is success with nothing more to
/// do; otherwise the signal is sent — a process that vanished concurrently
/// counts as signalled — and the blocking wait confirms the exit. The
/// `requires` clauses state the protocol: kill only when not already exited,
/// wait only after a signal that did not outright fail.
pub fn terminate_child(
    already_exited: bool,
    kill: Option<KillResult>,
    wait: Option<WaitResult>,
) -> (r: Result<(), SupervisorError>)
    requires
        kill is Some <==> !already_exited,
        wait is Some <==> (!already_exited && kill != Some(KillResult::Failed)),
    ensures
        r == terminate_spec(already_exited, kill, wait),
{
    if already_exited {
        return Ok(());
    }
    match kill {
        Some(KillResult::Failed) => {
            return Err(SupervisorError::KillFailed);
        },
        _ => {},
    }
    match wait {
        Some(WaitResult::Exited) => Ok(()),
        Some(WaitResult::Failed) => Err(SupervisorError::WaitFailed),
        None => Ok(()),
    }
}

/// Spec-level stop step: the slot is cleared regardless; the result is idle
/// unless an actual termination attempt failed, and a stop with nothing
/// recorded is a successful no-op.
pub open spec fn stop_step(
    slot: Option<ManagedProcessV>,
    term: Option<Result<(), SupervisorError>>,
) -> (Option<ManagedProcessV>, Result<ManagerWebStatusV, SupervisorError>) {
    match slot {
        Option::None => (Option::None, Ok(idle_status())),
        Option::Some(_) => match term {
            Option::Some(Ok(())) => (Option::None, Ok(idle_status())),
            Option::Some(Err(e)) => (Option::None, Err(e)),
            Option::None => (Option::None, Ok(idle_status())),
        },
    }
}

/// Stop the worker. `term` is the outcome of the caller's termination
/// attempt on the recorded process; it is required exactly when a process is
/// recorded. The slot is cleared on every path — termination is attempted at
/// most once per recorded process — and stopping with an empty slot is a
/// successful no-op.
pub fn stop_manager_web(state: &mut UiProcessState, term: Option<Result<(), SupervisorError>>) -> (
    r: Result<ManagerWebStatus, SupervisorError>
)
    requires
        term is Some <==> old(state)@ is Some,
    ensures
        final(state)@ == stop_step(old(state)@, term).0,
        final(state)@ is None,
        result_view(r) == stop_step(old(state)@, term).1,
{
    match &state.process {
        None => Ok(ManagerWebStatus::idle()),
        Some(_) => {
            state.process = None;
            match term {
                Some(Ok(())) => Ok(ManagerWebStatus::idle()),
                Some(Err(e)) => Err(e),
                None => Ok(ManagerWebStatus::idle()),
            }
        },
    }
}

/// What Start must do next, after validation and resolution succeeded.
pub enum StartDecision {
    /// A live worker for the same target key is already recorded: return its
    /// status unchanged, spawn nothing.
    Reuse(ManagerWebStatus),
    /// A live worker for a different target key is recorded: it must be
    /// terminated (and the slot cleared) before anything is spawned.
    MustTerminate,
    /// The slot is free: spawn the new worker.
    ReadyToSpawn,
    /// The recorded process could not be inspected.
    Fail(SupervisorError),
}

/// Spec-level view of a start decision.
pub ghost enum StartDecisionV {
    Reuse(ManagerWebStatusV),
    MustTerminate,
    ReadyToSpawn,
    Fail(SupervisorError),
}

/// The view of a start decision.
pub open spec fn decision_view(d: StartDecision) -> StartDecisionV {
    match d {
        StartDecision::Reuse(s) => StartDecisionV::Reuse(s@),
        StartDecision::MustTerminate => StartDecisionV::MustTerminate,
        StartDecision::ReadyToSpawn => StartDecisionV::ReadyToSpawn,
        StartDecision::Fail(e) => StartDecisionV::Fail(e),
    }
}

/// Spec-level start preparation step over the slot: an empty slot is ready;
/// a recorded process that has exited is cleared and the slot is ready; a
/// live process is reused when its target key equals the requested one and
/// must be terminated when it differs; a failed poll changes nothing.
pub open spec fn start_prepare_step(
    slot: Option<ManagedProcessV>,
    poll: Option<PollOutcome>,
    workspace_dir: Seq<char>,
    project_id: Seq<char>,
) -> (Option<ManagedProcessV>, StartDecisionV) {
    match slot {
        Option::None => (Option::None, StartDecisionV::ReadyToSpawn),
        Option::Some(p) => match poll {
            Option::Some(PollOutcome::Alive) => if p.workspace_dir == workspace_dir
                && p.project_id == project_id {
                (Option::Some(p), StartDecisionV::Reuse(status_of(p)))
            } else {
                (Option::Some(p), StartDecisionV::MustTerminate)
            },
            Option::Some(PollOutcome::Exited) => (Option::None, StartDecisionV::ReadyToSpawn),
            _ => (Option::Some(p), StartDecisionV::Fail(SupervisorError::PollFailed)),
        },
    }
}

/// Prepare the slot for a start request: decide between reusing the live
/// worker, demanding its termination first, or going straight to the spawn.
/// `poll` is the observed liveness of the recorded process, required exactly
/// when one is recorded.
pub fn start_prepare(
    state: &mut UiProcessState,
    poll: Option<PollOutcome>,
    workspace_dir: &str,
    project_id: &str,
) -> (r: StartDecision)
    requires
        poll is Some <==> old(state)@ is Some,
    ensures
        final(state)@ == start_prepare_step(old(state)@, poll, workspace_dir@, project_id@).0,
        decision_view(r) == start_prepare_step(old(state)@, poll, workspace_dir@, project_id@).1,
{
    match &state.process {
        None => StartDecision::ReadyToSpawn,
        Some(existing) => match poll {
            Some(PollOutcome::Alive) => {
                let same = crate::text::str_eq(existing.workspace_dir.as_str(), workspace_dir)
                    && crate::text::str_eq(existing.project_id.as_str(), project_id);
                if same {
                    StartDecision::Reuse(status_from_managed(existing))
                } else {
                    StartDecision::MustTerminate
                }
            },
            Some(PollOutcome::Exited) => {
                state.process = None;
                StartDecision::ReadyToSpawn
            },
            _ => StartDecision::Fail(SupervisorError::PollFailed),
        },
    }
}

/// Spec-level step applying a termination outcome during Start: on success
/// the old worker is gone and the slot empties; on failure the slot keeps
/// the old record and the error propagates.
pub open spec fn after_terminate_step(
    slot: Option<ManagedProcessV>,
    term: Result<(), SupervisorError>,
) -> (Option<ManagedProcessV>, Result<(), SupervisorError>) {
    match term {
        Ok(()) => (Option::None, Ok(())),
        Err(e) => (slot, Err(e)),
    }
}

/// Apply the outcome of terminating the differently-targeted worker during
/// Start. Only a confirmed termination clears the slot; a failure leaves the
/// old record in place and aborts the start.
pub fn start_after_terminate(state: &mut UiProcessState, term: Result<(), SupervisorError>) -> (r:
    Result<(), SupervisorError>)
    requires
        old(state)@ is Some,
    ensures
        final(state)@ == after_terminate_step(old(state)@, term).0,
        r == after_terminate_step(old(state)@, term).1,
{
    match term {
        Ok(()) => {
            state.process = None;
            Ok(())
        },
        Err(e) => Err(e),
    }
}

/// The record a successful spawn creates for a validated request.
pub open spec fn spawned_process(req: StartRequest, pid: u32) -> ManagedProcessV {
    ManagedProcessV {
        pid: pid,
        url: url_of(req.host@, req.port),
        workspace_dir: req.workspace_dir@,
        project_id: req.project_id@,
    }
}

/// Record a successful spawn: the slot must be empty (the prior worker, if
/// any, was confirmed exited first), and afterwards it holds exactly the new
/// worker, whose running status is returned. A failed spawn records nothing
/// — there is no transition for it.
pub fn record_spawn(state: &mut UiProcessState, req: &StartRequest, pid: u32) -> (r:
    ManagerWebStatus)
    requires
        old(state)@ is None,
    ensures
        final(state)@ == Option::Some(spawned_process(*req, pid)),
        r@ == status_of(spawned_process(*req, pid)),
{
    let url = format_url(req.host.as_str(), req.port);
    let managed = ManagedProcess {
        pid,
        url,
        workspace_dir: req.workspace_dir.clone(),
        project_id: req.project_id.clone(),
    };
    let status = status_from_managed(&managed);
    state.process = Some(managed);
    status
}

/// Starting with the same target key as the live worker is idempotent: the
/// decision is to reuse, the returned status is exactly the recorded
/// worker's, the slot is unchanged, and nothing is spawned.
pub proof fn lemma_start_same_target_idempotent(p: ManagedProcessV)
    ensures
        start_prepare_step(
            Option::Some(p),
            Option::Some(PollOutcome::Alive),
            p.workspace_dir,
            p.project_id,
        ) == (Option::Some(p), StartDecisionV::Reuse(status_of(p))),
{
}

/// Starting with a different target key than the live worker first demands
/// termination with the old record still in place; only a confirmed
/// termination empties the slot, and recording the new spawn then yields a
/// slot holding exactly the new worker — at no point are two workers
/// recorded, and the old one is confirmed gone before the new one appears.
pub proof fn lemma_start_switch_target(
    p: ManagedProcessV,
    workspace_dir: Seq<char>,
    project_id: Seq<char>,
)
    requires
        p.workspace_dir != workspace_dir || p.project_id != project_id,
    ensures
        start_prepare_step(
            Option::Some(p),
            Option::Some(PollOutcome::Alive),
            workspace_dir,
            project_id,
        ) == (Option::Some(p), StartDecisionV::MustTerminate),
        after_terminate_step(Option::Some(p), Ok(())).0 is None,
        after_terminate_step(Option::Some(p), Err(SupervisorError::KillFailed)).0 == Option::Some(
            p,
        ),
{
}

/// Observing the exit of the underlying process empties the slot exactly
/// once: the first status call after the exit returns idle and clears the
/// record, and a second status call returns idle again without error,
/// whatever it observes of the (now absent) process.
pub proof fn lemma_status_exit_transitions_once(p: ManagedProcessV, later: PollOutcome)
    ensures
        status_step(Option::Some(p), PollOutcome::Exited) == (
            Option::<ManagedProcessV>::None,
            Ok::<ManagerWebStatusV, SupervisorError>(idle_status()),
        ),
        status_step(status_step(Option::Some(p), PollOutcome::Exited).0, later) == (
            Option::<ManagedProcessV>::None,
            Ok::<ManagerWebStatusV, SupervisorError>(idle_status()),
        ),
{
}

/// Stop is idempotent: one stop always empties the slot, and a second stop —
/// which then finds nothing recorded and needs no termination attempt —
/// yields idle and never errors. Stopping with nothing running is the same
/// successful no-op.
pub proof fn lemma_stop_idempotent(
    slot: Option<ManagedProcessV>,
    term: Option<Result<(), SupervisorError>>,
)
    requires
        term is Some <==> slot is Some,
    ensures
        stop_step(slot, term).0 is None,
        stop_step(stop_step(slot, term).0, Option::None) == (
            Option::<ManagedProcessV>::None,
            Ok::<ManagerWebStatusV, SupervisorError>(idle_status()),
        ),
{
}

} // verus!
