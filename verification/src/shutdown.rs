//! The course of a shutdown, a forced kill and a start, as state machines.
//!
//! The caller owns the process, its timers and its locks.  It hands each
//! machine what it observed (an event, with the server's status as it reads
//! it at that moment) and gets back the next state and an order to carry
//! out.  The machines decide; the caller only acts and reports.

use vstd::prelude::*;
use crate::lifecycle::{
    ProcessError, conflict, exit_outcome, restarts_after_crash, is_live, has_ended, check_can_stop, check_can_kill, stop_gate, StopGate,
    GraceEvent, GraceAction, grace_action, on_grace_event, on_process_exit, decide_restart, sigkill_target, needs_directory_scan,
    status_after_cancelled_stop,
};
use crate::time::DateTimeUtc;
use crate::types::server::{ServerRuntime, ServerStatus};

verus! {

// ─── Graceful stop ───

/// Where a graceful stop is.
#[derive(Clone, Copy, Debug, PartialEq, Eq, Structural)]
pub enum StopStage {
    /// About to run stop step `next`: its progress is announced, then the
    /// stop checks whether it goes on.
    Steps { next: usize },
    /// Stop step `index` is running.
    InStep { index: usize },
    /// Waiting for the process to exit within the grace period.
    Grace,
    /// The grace period is over: the process group is to be killed.
    KillDue,
    /// The kill was sent (or there was nothing to kill); waiting briefly for
    /// the exit.
    Killed,
    /// No exit was noticed: the server directory is being scanned for
    /// leftover processes.
    Scanning,
    /// The stop is over.
    Over,
}

/// A graceful stop in progress: its stage, the number of stop steps, and
/// the server's status once the last order is carried out.
#[derive(Clone, Copy, Debug, PartialEq, Eq, Structural)]
pub struct StopRun {
    pub stage: StopStage,
    pub steps: usize,
    pub status: ServerStatus,
}

/// What the caller observed.
#[derive(Clone, Copy, Debug, PartialEq, Eq, Structural)]
pub enum StopEvent {
    /// Before the next stop step: whether the stop was cancelled, and the
    /// status.
    BeforeStep { cancelled: bool, status: ServerStatus },
    /// The running stop step is over.
    StepDone,
    /// An event of the grace period, and the status.
    Grace { event: GraceEvent, status: ServerStatus },
    /// Ready to kill: the process's pid, if it has one, and the status.
    KillReady { pid: Option<u32>, status: ServerStatus },
    /// The brief wait after the kill is over: whether an exit was noticed,
    /// and the status.
    AfterKill { exit_noticed: bool, status: ServerStatus },
    /// The directory scan is over, and the status.
    ScanDone { status: ServerStatus },
}

/// What the caller does next.
#[derive(Clone, Copy, Debug, PartialEq, Eq, Structural)]
pub enum StopOrder {
    /// Announce the progress of stop step `i` (see `stop_step_info`), check
    /// for a cancellation and read the status, then report `BeforeStep`.
    AnnounceStep(usize),
    /// Run stop step `i` (see `stop_step_command`), then report `StepDone`.
    RunStep(usize),
    /// Send the configured stop command or signal (see `legacy_stop`), then
    /// wait for the exit.
    LegacyStop,
    /// Announce the wait for the exit and wait (report `Grace` events).
    WaitForExit,
    /// Report the progress and keep waiting.
    Report,
    /// Keep waiting.
    KeepWaiting,
    /// Announce the kill; read the pid and the status, then report
    /// `KillReady`.
    PrepareKill,
    /// Kill the process group of this pid, wait briefly for the exit, then
    /// report `AfterKill`.
    Kill(u32),
    /// Nothing to kill: wait briefly for the exit, then report `AfterKill`.
    WaitAfterKill,
    /// Scan the server directory and kill what runs there, then report
    /// `ScanDone`.
    ScanDirectory,
    /// The stop was cancelled: the server runs again (a stopping status
    /// becomes running); announce it.
    Revert,
    /// The process has ended: the stop is done.
    Finish,
    /// The process did not end visibly: record it as stopped, without a pid.
    ForceStopped,
    /// The event does not belong to this stage; nothing changes.
    Ignore,
}

/// The next state and order of a graceful stop for an event.
pub open spec fn stop_transition(run: StopRun, event: StopEvent) -> (StopRun, StopOrder) {
    match (run.stage, event) {
        (StopStage::Steps { next }, StopEvent::BeforeStep { cancelled, status }) => if cancelled {
            (
                StopRun {
                    stage: StopStage::Over,
                    status: if status == ServerStatus::Stopping {
                        ServerStatus::Running
                    } else {
                        status
                    },
                    ..run
                },
                StopOrder::Revert,
            )
        } else if has_ended(status) || next >= run.steps {
            (StopRun { stage: StopStage::Grace, status, ..run }, StopOrder::WaitForExit)
        } else {
            (StopRun { stage: StopStage::InStep { index: next }, status, ..run }, StopOrder::RunStep(next))
        },
        (StopStage::InStep { index }, StopEvent::StepDone) => if index + 1 < run.steps {
            (
                StopRun { stage: StopStage::Steps { next: (index + 1) as usize }, ..run },
                StopOrder::AnnounceStep((index + 1) as usize),
            )
        } else {
            (StopRun { stage: StopStage::Grace, ..run }, StopOrder::WaitForExit)
        },
        (StopStage::Grace, StopEvent::Grace { event, status }) => match grace_action(
            event,
            status,
        ) {
            GraceAction::ForceKill => (
                StopRun { stage: StopStage::KillDue, status, ..run },
                StopOrder::PrepareKill,
            ),
            GraceAction::Done => (
                StopRun { stage: StopStage::Over, status, ..run },
                StopOrder::Finish,
            ),
            GraceAction::Revert => (
                StopRun {
                    stage: StopStage::Over,
                    status: if status == ServerStatus::Stopping {
                        ServerStatus::Running
                    } else {
                        status
                    },
                    ..run
                },
                StopOrder::Revert,
            ),
            GraceAction::Report => (StopRun { status, ..run }, StopOrder::Report),
            GraceAction::KeepWaiting => (StopRun { status, ..run }, StopOrder::KeepWaiting),
        },
        (StopStage::KillDue, StopEvent::KillReady { pid, status }) => (
            StopRun { stage: StopStage::Killed, status, ..run },
            match sigkill_target_spec(pid, status) {
                Some(p) => StopOrder::Kill(p),
                None => StopOrder::WaitAfterKill,
            },
        ),
        (StopStage::Killed, StopEvent::AfterKill { exit_noticed, status }) => if has_ended(status) {
            (StopRun { stage: StopStage::Over, status, ..run }, StopOrder::Finish)
        } else if !exit_noticed {
            (StopRun { stage: StopStage::Scanning, status, ..run }, StopOrder::ScanDirectory)
        } else {
            (
                StopRun { stage: StopStage::Over, status: ServerStatus::Stopped, ..run },
                StopOrder::ForceStopped,
            )
        },
        (StopStage::Scanning, StopEvent::ScanDone { status }) => if has_ended(status) {
            (StopRun { stage: StopStage::Over, status, ..run }, StopOrder::Finish)
        } else {
            (
                StopRun { stage: StopStage::Over, status: ServerStatus::Stopped, ..run },
                StopOrder::ForceStopped,
            )
        },
        _ => (run, StopOrder::Ignore),
    }
}

/// The process group killed after the grace period (see `sigkill_target`).
pub open spec fn sigkill_target_spec(pid: Option<u32>, status: ServerStatus) -> Option<u32> {
    if status == ServerStatus::Stopping {
        pid
    } else {
        None
    }
}

/// How a stop begins, for a server whose process handle has status
/// `current` (`None`: no handle) and with `steps` stop steps.
pub open spec fn stop_begins(current: Option<ServerStatus>, steps: usize, r: Result<
    (StopRun, StopOrder),
    ProcessError,
>) -> bool {
    match current {
        Some(s) => if is_live(s) {
            r matches Ok((run, order)) && run.status == ServerStatus::Stopping && run.steps == steps
                && if steps > 0 {
                run.stage == (StopStage::Steps { next: 0 }) && order == StopOrder::AnnounceStep(0)
            } else {
                run.stage == StopStage::Grace && order == StopOrder::LegacyStop
            }
        } else {
            r matches Err(e) && conflict(e, "Server is not running"@)
        },
        None => r matches Err(e) && conflict(e, "Server has no active process"@),
    }
}

/// Begin a graceful stop: refused unless the process is running or
/// starting; otherwise the server is marked stopping and either the stop
/// steps run or, when there are none, the configured stop command or signal
/// is sent.
pub fn begin_stop(current: Option<ServerStatus>, steps: usize) -> (r: Result<
    (StopRun, StopOrder),
    ProcessError,
>)
    ensures
        stop_begins(current, steps, r),
{
    match check_can_stop(current) {
        Err(e) => Err(e),
        Ok(()) => {
            if steps > 0 {
                Ok(
                    (
                        StopRun {
                            stage: StopStage::Steps { next: 0 },
                            steps,
                            status: ServerStatus::Stopping,
                        },
                        StopOrder::AnnounceStep(0),
                    ),
                )
            } else {
                Ok(
                    (
                        StopRun { stage: StopStage::Grace, steps, status: ServerStatus::Stopping },
                        StopOrder::LegacyStop,
                    ),
                )
            }
        },
    }
}

/// Advance a graceful stop by one event (see [`stop_transition`]).
pub fn on_stop_event(run: StopRun, event: StopEvent) -> (r: (StopRun, StopOrder))
    ensures
        r == stop_transition(run, event),
{
    match (run.stage, event) {
        (StopStage::Steps { next }, StopEvent::BeforeStep { cancelled, status }) => {
            match stop_gate(cancelled, status) {
                StopGate::Cancel => (
                    StopRun {
                        stage: StopStage::Over,
                        status: status_after_cancelled_stop(status),
                        ..run
                    },
                    StopOrder::Revert,
                ),
                StopGate::Exited => (
                    StopRun { stage: StopStage::Grace, status, ..run },
                    StopOrder::WaitForExit,
                ),
                StopGate::Proceed => if next >= run.steps {
                    (StopRun { stage: StopStage::Grace, status, ..run }, StopOrder::WaitForExit)
                } else {
                    (
                        StopRun { stage: StopStage::InStep { index: next }, status, ..run },
                        StopOrder::RunStep(next),
                    )
                },
            }
        },
        (StopStage::InStep { index }, StopEvent::StepDone) => {
            if run.steps > 0 && index < run.steps - 1 {
                (
                    StopRun { stage: StopStage::Steps { next: index + 1 }, ..run },
                    StopOrder::AnnounceStep(index + 1),
                )
            } else {
                (StopRun { stage: StopStage::Grace, ..run }, StopOrder::WaitForExit)
            }
        },
        (StopStage::Grace, StopEvent::Grace { event, status }) => match on_grace_event(
            event,
            status,
        ) {
            GraceAction::ForceKill => (
                StopRun { stage: StopStage::KillDue, status, ..run },
                StopOrder::PrepareKill,
            ),
            GraceAction::Done => (
                StopRun { stage: StopStage::Over, status, ..run },
                StopOrder::Finish,
            ),
            GraceAction::Revert => (
                StopRun {
                    stage: StopStage::Over,
                    status: status_after_cancelled_stop(status),
                    ..run
                },
                StopOrder::Revert,
            ),
            GraceAction::Report => (StopRun { status, ..run }, StopOrder::Report),
            GraceAction::KeepWaiting => (StopRun { status, ..run }, StopOrder::KeepWaiting),
        },
        (StopStage::KillDue, StopEvent::KillReady { pid, status }) => {
            let order = match sigkill_target(pid, status) {
                Some(p) => StopOrder::Kill(p),
                None => StopOrder::WaitAfterKill,
            };
            (StopRun { stage: StopStage::Killed, status, ..run }, order)
        },
        (StopStage::Killed, StopEvent::AfterKill { exit_noticed, status }) => {
            if status == ServerStatus::Stopped || status == ServerStatus::Crashed {
                (StopRun { stage: StopStage::Over, status, ..run }, StopOrder::Finish)
            } else if needs_directory_scan(status, exit_noticed) {
                (StopRun { stage: StopStage::Scanning, status, ..run }, StopOrder::ScanDirectory)
            } else {
                (
                    StopRun { stage: StopStage::Over, status: ServerStatus::Stopped, ..run },
                    StopOrder::ForceStopped,
                )
            }
        },
        (StopStage::Scanning, StopEvent::ScanDone { status }) => {
            if status == ServerStatus::Stopped || status == ServerStatus::Crashed {
                (StopRun { stage: StopStage::Over, status, ..run }, StopOrder::Finish)
            } else {
                (
                    StopRun { stage: StopStage::Over, status: ServerStatus::Stopped, ..run },
                    StopOrder::ForceStopped,
                )
            }
        },
        _ => (run, StopOrder::Ignore),
    }
}

/// The state of a graceful stop after `events`, in order.
pub open spec fn stop_after(run: StopRun, events: Seq<StopEvent>) -> StopRun
    decreases events.len(),
{
    if events.len() == 0 {
        run
    } else {
        stop_after(stop_transition(run, events[0]).0, events.drop_first())
    }
}

/// A stop that is over has left the stopping status.
pub open spec fn stop_settled(run: StopRun) -> bool {
    run.stage == StopStage::Over ==> run.status != ServerStatus::Stopping
}

/// A stop that ends leaves the server running again (it was cancelled) or
/// stopped (its process ended, or it is recorded as stopped): never
/// stopping.  It ends only with one of the orders `Revert`, `Finish` or
/// `ForceStopped`; once over, it ignores every further event.
pub proof fn law_stop_ends_settled(run: StopRun, event: StopEvent)
    requires
        stop_settled(run),
    ensures
        stop_settled(stop_transition(run, event).0),
        run.stage != StopStage::Over && stop_transition(run, event).0.stage == StopStage::Over
            ==> stop_transition(run, event).1 == StopOrder::Revert || stop_transition(run, event).1
            == StopOrder::Finish || stop_transition(run, event).1 == StopOrder::ForceStopped,
        run.stage == StopStage::Over ==> stop_transition(run, event) == (run, StopOrder::Ignore),
        stop_transition(run, event).1 == StopOrder::Revert ==> stop_transition(run, event).0.status
            != ServerStatus::Stopping,
{
}

/// However the events of a begun stop come, whenever it is over the server
/// is not left stopping.
pub proof fn law_stop_never_left_stopping(run: StopRun, events: Seq<StopEvent>)
    requires
        stop_settled(run),
    ensures
        stop_settled(stop_after(run, events)),
    decreases events.len(),
{
    if events.len() > 0 {
        law_stop_ends_settled(run, events[0]);
        law_stop_never_left_stopping(stop_transition(run, events[0]).0, events.drop_first());
    }
}

/// The stop steps run in order, each once and each announced first: step
/// `i` runs only from the stage before it, once its announcement was
/// answered; that stage is entered only with the announcement of step `i`;
/// after step `i` the stop moves on to step `i + 1` or to the wait for the
/// exit.  The process group is killed only when the server is still
/// stopping, and only with the pid it reported.
pub proof fn law_stop_steps_in_order(run: StopRun, event: StopEvent, i: usize, p: u32)
    ensures
        stop_transition(run, event).1 == StopOrder::RunStep(i) ==> run.stage == (StopStage::Steps {
            next: i,
        }) && event is BeforeStep && i < run.steps && stop_transition(run, event).0.stage == (
        StopStage::InStep { index: i }),
        stop_transition(run, event).0.stage == (StopStage::Steps { next: i }) && run.stage != (
        StopStage::Steps { next: i }) ==> stop_transition(run, event).1 == StopOrder::AnnounceStep(
            i,
        ) && run.stage == (StopStage::InStep { index: (i - 1) as usize }) && i < run.steps,
        run.stage == (StopStage::InStep { index: i }) && event == StopEvent::StepDone ==> (
        stop_transition(run, event).0.stage == (StopStage::Steps { next: (i + 1) as usize })
            || stop_transition(run, event).0.stage == StopStage::Grace),
        stop_transition(run, event).1 == StopOrder::Kill(p) ==> (event matches StopEvent::KillReady {
            pid,
            status,
        } && status == ServerStatus::Stopping && pid == Some(p)),
{
}

/// A begun stop is settled: it has not ended yet.
pub proof fn law_begun_stop_settled(current: Option<ServerStatus>, steps: usize, r: Result<
    (StopRun, StopOrder),
    ProcessError,
>)
    requires
        stop_begins(current, steps, r),
    ensures
        r matches Ok((run, _)) ==> stop_settled(run) && run.stage != StopStage::Over,
{
}

// ─── Forced kill ───

/// Begin a forced kill: refused unless the process is running, starting or
/// stopping; otherwise the server is marked stopping (so that it is not
/// restarted) and its process group, if it has a pid, is killed at once.
/// The result is the status to record and the pid to kill.
pub fn begin_kill(current: Option<ServerStatus>, pid: Option<u32>) -> (r: Result<
    (ServerStatus, Option<u32>),
    ProcessError,
>)
    ensures
        match current {
            Some(s) => if is_live(s) || s == ServerStatus::Stopping {
                r == Ok::<(ServerStatus, Option<u32>), ProcessError>((ServerStatus::Stopping, pid))
            } else {
                r matches Err(e) && conflict(e, "Server is not running"@)
            },
            None => r matches Err(e) && conflict(e, "Server has no active process"@),
        },
{
    match check_can_kill(current) {
        Err(e) => Err(e),
        Ok(()) => Ok((ServerStatus::Stopping, pid)),
    }
}

/// After the kill and a brief wait: the status to record, and whether it
/// is forced (the pid cleared and the monitor aborted).  A process that
/// ended keeps its status; otherwise the server is recorded as stopped.
/// Either way it is no longer stopping.
pub fn kill_outcome(status: ServerStatus) -> (r: (ServerStatus, bool))
    ensures
        r == (if has_ended(status) {
            (status, false)
        } else {
            (ServerStatus::Stopped, true)
        }),
        r.0 != ServerStatus::Stopping,
        has_ended(r.0),
{
    if status == ServerStatus::Stopped || status == ServerStatus::Crashed {
        (status, false)
    } else {
        (ServerStatus::Stopped, true)
    }
}

// ─── Start ───

/// The runtime record of a process being started: starting, with no pid
/// yet, started now, no restart pending, and the restart count carried over
/// from the previous handle (0 without one).
pub fn fresh_runtime(server_id: uuid::Uuid, previous_restarts: Option<u32>, now: DateTimeUtc) -> (r:
    ServerRuntime)
    ensures
        r.server_id == server_id,
        r.status == ServerStatus::Starting,
        r.pid is None,
        r.started_at == Some(now),
        r.restart_count == (match previous_restarts {
            Some(c) => c,
            None => 0,
        }),
        r.next_restart_at is None,
{
    ServerRuntime {
        server_id,
        status: ServerStatus::Starting,
        pid: None,
        started_at: Some(now),
        restart_count: match previous_restarts {
            Some(c) => c,
            None => 0,
        },
        next_restart_at: None,
    }
}

/// The runtime record of a process adopted at start-up: running with its
/// recorded pid, its start time unknown, no restarts counted and none
/// pending.
pub fn adopted_runtime(server_id: uuid::Uuid, pid: u32) -> (r: ServerRuntime)
    ensures
        r.server_id == server_id,
        r.status == ServerStatus::Running,
        r.pid == Some(pid),
        r.started_at is None,
        r.restart_count == 0,
        r.next_restart_at is None,
{
    ServerRuntime {
        server_id,
        status: ServerStatus::Running,
        pid: Some(pid),
        started_at: None,
        restart_count: 0,
        next_restart_at: None,
    }
}

// ─── The stored server ───

/// The text of an identifier as `uuid::Uuid` displays it (hyphenated, lower
/// case).
pub uninterp spec fn uuid_text(id: uuid::Uuid) -> Seq<char>;

/// `Uuid`'s `Display`, as a string.  Claimed: the text is the one
/// [`uuid_text`] names for `id`.
#[verifier::external_body]
fn uuid_string(id: uuid::Uuid) -> (r: String)
    ensures
        r@ == uuid_text(id),
{
    id.to_string()
}

/// A lifecycle request needs the server's stored row: the row when it was
/// found (`found`), else `NotFound` with `Server <id> not found`.
pub fn require_server<T>(found: Option<T>, id: uuid::Uuid) -> (r: Result<T, ProcessError>)
    ensures
        match found {
            Some(v) => r == Ok::<T, ProcessError>(v),
            None => r matches Err(ProcessError::NotFound(m)) && m@ == "Server "@ + uuid_text(id)
                + " not found"@,
        },
{
    match found {
        Some(v) => Ok(v),
        None => {
            let mut m = String::from_str("Server ");
            let t = uuid_string(id);
            m.append(t.as_str());
            m.append(" not found");
            Err(ProcessError::NotFound(m))
        },
    }
}

/// The servers that start-up reconciliation looks at: every server listed,
/// none at all when the listing failed (nothing changes then).
pub fn reconcile_targets(listing: Result<Vec<uuid::Uuid>, String>) -> (r: Vec<uuid::Uuid>)
    ensures
        match listing {
            Ok(ids) => r@ == ids@,
            Err(_) => r@.len() == 0,
        },
{
    match listing {
        Ok(ids) => ids,
        Err(_) => Vec::new(),
    }
}

// ─── Spawn and monitor ───

/// The runtime record once the process is spawned: running, with the
/// child's pid (which is also written to the pid file when there is one),
/// started now; nothing else changes.
pub fn on_spawned(rt: ServerRuntime, pid: Option<u32>, now: DateTimeUtc) -> (r: ServerRuntime)
    ensures
        r == (ServerRuntime {
            status: ServerStatus::Running,
            pid,
            started_at: Some(now),
            ..rt
        }),
{
    ServerRuntime { status: ServerStatus::Running, pid, started_at: Some(now), ..rt }
}

/// The runtime record when the process could not be spawned (or a restart
/// could not start it): crashed; nothing else changes.
pub fn on_spawn_failed(rt: ServerRuntime) -> (r: ServerRuntime)
    ensures
        r == (ServerRuntime { status: ServerStatus::Crashed, ..rt }),
{
    ServerRuntime { status: ServerStatus::Crashed, ..rt }
}

/// What follows the exit of a monitored process.
#[derive(Clone, Copy, Debug, PartialEq, Eq, Structural)]
pub enum ExitFollowUp {
    /// Nothing: an expected exit, or no restart and no limit to report.
    Nothing,
    /// No restart, and the restart attempts are used up (report it).
    Exhausted,
    /// Schedule a restart.
    Restart,
}

/// The follow-up of an exit from status `status` with `restart_count`
/// restarts made, given the server's restart settings (automatic restart,
/// attempt limit) as stored, `None` when its row could not be read.
pub open spec fn exit_follow_up(
    status: ServerStatus,
    restart_count: u32,
    settings: Option<(bool, u32)>,
) -> ExitFollowUp {
    if !exit_outcome(status).1 {
        ExitFollowUp::Nothing
    } else {
        match settings {
            None => ExitFollowUp::Nothing,
            Some((auto_restart, max_attempts)) => if restarts_after_crash(
                auto_restart,
                restart_count,
                max_attempts,
            ) {
                ExitFollowUp::Restart
            } else if max_attempts > 0 {
                ExitFollowUp::Exhausted
            } else {
                ExitFollowUp::Nothing
            },
        }
    }
}

/// The exit of the monitored process: the pid is cleared and the status
/// becomes what the exit means (see `on_process_exit`); a crash is followed
/// by a restart while the attempts allow it (see [`exit_follow_up`]).
pub fn after_exit(rt: ServerRuntime, settings: Option<(bool, u32)>) -> (r: (
    ServerRuntime,
    ExitFollowUp,
))
    ensures
        r.0 == (ServerRuntime { status: exit_outcome(rt.status).0, pid: None, ..rt }),
        r.1 == exit_follow_up(rt.status, rt.restart_count, settings),
{
    let (status, unexpected) = on_process_exit(rt.status);
    let follow = if !unexpected {
        ExitFollowUp::Nothing
    } else {
        match settings {
            None => ExitFollowUp::Nothing,
            Some((auto_restart, max_attempts)) => {
                let d = decide_restart(auto_restart, rt.restart_count, max_attempts);
                if d.restart {
                    ExitFollowUp::Restart
                } else if d.attempts_exhausted {
                    ExitFollowUp::Exhausted
                } else {
                    ExitFollowUp::Nothing
                }
            },
        }
    };
    (ServerRuntime { status, pid: None, ..rt }, follow)
}

/// A restart is scheduled `delay_secs` seconds after `now`.
pub fn schedule_restart(rt: ServerRuntime, now: DateTimeUtc, delay_secs: u32) -> (r: ServerRuntime)
    requires
        now.secs + delay_secs <= i64::MAX,
    ensures
        r == (ServerRuntime {
            next_restart_at: Some(DateTimeUtc { secs: (now.secs + delay_secs) as i64, nanos: now.nanos }),
            ..rt
        }),
{
    let at = DateTimeUtc { secs: now.secs + delay_secs as i64, nanos: now.nanos };
    ServerRuntime { next_restart_at: Some(at), ..rt }
}

/// The wait before a restart is over: nothing is pending any more; unless
/// the restart was cancelled, one more restart is counted and the server is
/// started again (the result's flag).
pub fn after_restart_wait(rt: ServerRuntime, cancelled: bool) -> (r: (ServerRuntime, bool))
    requires
        !cancelled ==> rt.restart_count < u32::MAX,
    ensures
        r.1 == !cancelled,
        r.0 == (ServerRuntime {
            next_restart_at: None,
            restart_count: if cancelled {
                rt.restart_count
            } else {
                (rt.restart_count + 1) as u32
            },
            ..rt
        }),
{
    if cancelled {
        (ServerRuntime { next_restart_at: None, ..rt }, false)
    } else {
        (ServerRuntime { next_restart_at: None, restart_count: rt.restart_count + 1, ..rt }, true)
    }
}

/// A crash is followed by a restart only while fewer than
/// `max_attempts` restarts were made, and each restart counts one more; so
/// a server that starts with at most `max_attempts` restarts counted never
/// counts more, and at most `max_attempts` automatic restarts happen.
pub proof fn law_restart_count_within_limit(
    rt: ServerRuntime,
    auto_restart: bool,
    max_attempts: u32,
    cancelled: bool,
)
    requires
        rt.restart_count <= max_attempts,
    ensures
        exit_follow_up(rt.status, rt.restart_count, Some((auto_restart, max_attempts)))
            == ExitFollowUp::Restart ==> rt.restart_count < max_attempts && (
        !cancelled ==> (rt.restart_count + 1) as u32 <= max_attempts),
{
}

} // verus!
