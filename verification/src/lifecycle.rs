//! Decisions of a server's process lifecycle: which requests a server in a
//! given state accepts, what an exit means, whether to restart, what each
//! shutdown step does, and the console buffer that subscribers replay.
//!
//! The caller owns the process, its pipes, its timers and its locks; it asks
//! these functions what to do and reports back what happened.

use std::collections::VecDeque;
use vstd::prelude::*;
use crate::types::pipeline::{PhaseStatus, PipelineStep, StepAction};
use crate::types::server::{ServerStatus, StopSignal};
use crate::types::ws::{LogLine, StopStepInfo};
use crate::update_check::substitute_variables;
use crate::text::substitute_all;
use crate::numeric::u32_to_usize;
use crate::text::{chars_of, span, decimal_digits, push_decimal, is_digit};
use crate::numeric::{lemma_decimal_digits_read_back, lemma_digit_run_whole};
use crate::words::{trimmed, trim_bounds, parse_u32, parse_u32_span, is_space, space_len, trailing_space_len};

verus! {

/// Why a lifecycle request was refused.
#[derive(Debug)]
pub enum ProcessError {
    NotFound(String),
    Conflict(String),
    Internal(String),
}

/// The message of a conflict.
pub open spec fn conflict(e: ProcessError, msg: Seq<char>) -> bool {
    e matches ProcessError::Conflict(m) && m@ == msg
}

fn conflict_with(msg: &str) -> (e: ProcessError)
    ensures
        conflict(e, msg@),
{
    ProcessError::Conflict(String::from_str(msg))
}

/// The process is up or coming up.
pub open spec fn is_live(s: ServerStatus) -> bool {
    s == ServerStatus::Running || s == ServerStatus::Starting
}

/// The process has ended.
pub open spec fn has_ended(s: ServerStatus) -> bool {
    s == ServerStatus::Stopped || s == ServerStatus::Crashed
}

/// A start request is accepted unless the server's process is live or
/// still stopping; `current` is the status of its process handle, if any.
pub fn check_can_start(current: Option<ServerStatus>) -> (r: Result<(), ProcessError>)
    ensures
        match current {
            Some(s) => if is_live(s) {
                r matches Err(e) && conflict(e, "Server is already running"@)
            } else if s == ServerStatus::Stopping {
                r matches Err(e) && conflict(
                    e,
                    "Cannot start server while it is still stopping. Cancel the stop first, or wait for it to complete."@,
                )
            } else {
                r is Ok
            },
            None => r is Ok,
        },
{
    match current {
        Some(s) => {
            if s == ServerStatus::Running || s == ServerStatus::Starting {
                Err(conflict_with("Server is already running"))
            } else if s == ServerStatus::Stopping {
                Err(
                    conflict_with(
                        "Cannot start server while it is still stopping. Cancel the stop first, or wait for it to complete.",
                    ),
                )
            } else {
                Ok(())
            }
        },
        None => Ok(()),
    }
}

/// A graceful stop is accepted for a live process only.
pub fn check_can_stop(current: Option<ServerStatus>) -> (r: Result<(), ProcessError>)
    ensures
        match current {
            Some(s) => if is_live(s) {
                r is Ok
            } else {
                r matches Err(e) && conflict(e, "Server is not running"@)
            },
            None => r matches Err(e) && conflict(e, "Server has no active process"@),
        },
{
    match current {
        Some(s) => {
            if s == ServerStatus::Running || s == ServerStatus::Starting {
                Ok(())
            } else {
                Err(conflict_with("Server is not running"))
            }
        },
        None => Err(conflict_with("Server has no active process")),
    }
}

/// A stop can be cancelled only while the server is stopping.
pub fn check_can_cancel_stop(current: Option<ServerStatus>) -> (r: Result<(), ProcessError>)
    ensures
        match current {
            Some(s) => if s == ServerStatus::Stopping {
                r is Ok
            } else {
                r matches Err(e) && conflict(e, "Server is not currently stopping"@)
            },
            None => r matches Err(e) && conflict(e, "Server has no active process"@),
        },
{
    match current {
        Some(s) => {
            if s == ServerStatus::Stopping {
                Ok(())
            } else {
                Err(conflict_with("Server is not currently stopping"))
            }
        },
        None => Err(conflict_with("Server has no active process")),
    }
}

/// A pending automatic restart can be cancelled only for a crashed server
/// that has one; `current` is the status and whether a restart is pending.
pub fn check_can_cancel_restart(current: Option<(ServerStatus, bool)>) -> (r: Result<(), ProcessError>)
    ensures
        match current {
            Some((s, pending)) => if s != ServerStatus::Crashed {
                r matches Err(e) && conflict(e, "Server is not in crashed state"@)
            } else if !pending {
                r matches Err(e) && conflict(e, "Server has no pending restart"@)
            } else {
                r is Ok
            },
            None => r matches Err(e) && conflict(e, "Server has no active process"@),
        },
{
    match current {
        Some((s, pending)) => {
            if s != ServerStatus::Crashed {
                Err(conflict_with("Server is not in crashed state"))
            } else if !pending {
                Err(conflict_with("Server has no pending restart"))
            } else {
                Ok(())
            }
        },
        None => Err(conflict_with("Server has no active process")),
    }
}

/// A forced kill is accepted for a live or stopping process.
pub fn check_can_kill(current: Option<ServerStatus>) -> (r: Result<(), ProcessError>)
    ensures
        match current {
            Some(s) => if is_live(s) || s == ServerStatus::Stopping {
                r is Ok
            } else {
                r matches Err(e) && conflict(e, "Server is not running"@)
            },
            None => r matches Err(e) && conflict(e, "Server has no active process"@),
        },
{
    match current {
        Some(s) => {
            if s == ServerStatus::Running || s == ServerStatus::Starting || s
                == ServerStatus::Stopping {
                Ok(())
            } else {
                Err(conflict_with("Server is not running"))
            }
        },
        None => Err(conflict_with("Server has no active process")),
    }
}

/// Console input is accepted by a running process only.
pub fn check_can_send_command(current: Option<ServerStatus>) -> (r: Result<(), ProcessError>)
    ensures
        match current {
            Some(s) => if s == ServerStatus::Running {
                r is Ok
            } else {
                r matches Err(e) && conflict(e, "Server is not running"@)
            },
            None => r matches Err(e) && conflict(e, "Server has no active process"@),
        },
{
    match current {
        Some(s) => {
            if s == ServerStatus::Running {
                Ok(())
            } else {
                Err(conflict_with("Server is not running"))
            }
        },
        None => Err(conflict_with("Server has no active process")),
    }
}

/// The status after the process exits while in `s`, and whether the exit
/// was unexpected (so that an automatic restart is considered): a stopping
/// server has stopped, a live one has crashed.
pub open spec fn exit_outcome(s: ServerStatus) -> (ServerStatus, bool) {
    if s == ServerStatus::Stopping {
        (ServerStatus::Stopped, false)
    } else if is_live(s) {
        (ServerStatus::Crashed, true)
    } else {
        (s, false)
    }
}

/// What the exit of the process means (see [`exit_outcome`]).
pub fn on_process_exit(s: ServerStatus) -> (r: (ServerStatus, bool))
    ensures
        r == exit_outcome(s),
{
    match s {
        ServerStatus::Stopping => (ServerStatus::Stopped, false),
        ServerStatus::Running | ServerStatus::Starting => (ServerStatus::Crashed, true),
        _ => (s, false),
    }
}

/// After a crash: whether to restart, and whether to report that the
/// restart attempts are used up.
#[derive(Clone, Copy, Debug, PartialEq, Eq, Structural)]
pub struct RestartDecision {
    pub restart: bool,
    pub attempts_exhausted: bool,
}

/// Restart when automatic restarts are on and fewer than `max_attempts`
/// were made; report exhaustion when no restart follows and a limit is set.
pub fn decide_restart(auto_restart: bool, restart_count: u32, max_attempts: u32) -> (r:
    RestartDecision)
    ensures
        r.restart == restarts_after_crash(auto_restart, restart_count, max_attempts),
        r.attempts_exhausted == (!r.restart && max_attempts > 0),
{
    let restart = auto_restart && restart_count < max_attempts;
    RestartDecision { restart, attempts_exhausted: !restart && max_attempts > 0 }
}

/// Whether a crash with `restart_count` restarts made so far is followed by
/// a restart (see [`decide_restart`]).
pub open spec fn restarts_after_crash(auto_restart: bool, restart_count: u32, max_attempts: u32) -> bool {
    auto_restart && restart_count < max_attempts
}

/// The number of restarts made over `crashes` consecutive crashes, starting
/// from `count` restarts already made; each restart adds one to the count.
pub open spec fn restarts_over(auto_restart: bool, count: nat, max_attempts: u32, crashes: nat) -> nat
    decreases crashes,
{
    if crashes == 0 || !(auto_restart && count < max_attempts) {
        count
    } else {
        restarts_over(auto_restart, count + 1, max_attempts, (crashes - 1) as nat)
    }
}

/// Law: however many times a server crashes, automatic restarts stop once
/// the count reaches the limit — the count never passes `max_attempts`, and
/// with restarts on it reaches the limit or the number of crashes.
pub proof fn law_restarts_bounded(auto_restart: bool, count: nat, max_attempts: u32, crashes: nat)
    requires
        count <= max_attempts,
    ensures
        restarts_over(auto_restart, count, max_attempts, crashes) <= max_attempts,
        auto_restart ==> restarts_over(auto_restart, count, max_attempts, crashes) == if count
            + crashes <= max_attempts {
            count + crashes
        } else {
            max_attempts as nat
        },
        !auto_restart ==> restarts_over(auto_restart, count, max_attempts, crashes) == count,
    decreases crashes,
{
    if crashes > 0 && auto_restart && count < max_attempts {
        law_restarts_bounded(auto_restart, count + 1, max_attempts, (crashes - 1) as nat);
    }
}

/// The status after a cancelled shutdown: a stopping server runs again.
pub fn status_after_cancelled_stop(s: ServerStatus) -> (r: ServerStatus)
    ensures
        r == (if s == ServerStatus::Stopping {
            ServerStatus::Running
        } else {
            s
        }),
{
    if s == ServerStatus::Stopping {
        ServerStatus::Running
    } else {
        s
    }
}

/// After the kill and a short wait, a server whose process has not ended is
/// marked stopped by force.
pub fn needs_forced_stop(s: ServerStatus) -> (r: bool)
    ensures
        r == !has_ended(s),
{
    s != ServerStatus::Stopped && s != ServerStatus::Crashed
}

// ─── Stop steps ───

/// The longest a stop step may take, for timed steps.
pub open spec fn action_timeout(a: StepAction) -> Option<u32> {
    match a {
        StepAction::Sleep { seconds } => Some(seconds),
        StepAction::WaitForOutput { timeout_secs, .. } => Some(timeout_secs),
        _ => None,
    }
}

/// Upper bound on the duration of a step's action, for timed actions.
pub fn step_action_timeout(action: &StepAction) -> (r: Option<u32>)
    ensures
        r == action_timeout(*action),
{
    match action {
        StepAction::Sleep { seconds } => Some(*seconds),
        StepAction::WaitForOutput { timeout_secs, .. } => Some(*timeout_secs),
        _ => None,
    }
}

/// Worst-case duration of `steps` in seconds: the sum of their timeouts.
pub open spec fn steps_duration(steps: Seq<PipelineStep>) -> int
    decreases steps.len(),
{
    if steps.len() == 0 {
        0
    } else {
        steps_duration(steps.drop_last()) + match action_timeout(steps.last().action) {
            Some(t) => t as int,
            None => 0,
        }
    }
}

proof fn lemma_steps_duration_bound(steps: Seq<PipelineStep>)
    ensures
        0 <= steps_duration(steps) <= steps.len() * 0xffff_ffff,
    decreases steps.len(),
{
    if steps.len() > 0 {
        lemma_steps_duration_bound(steps.drop_last());
    }
}

/// Estimate the longest the stop steps can take, in whole seconds.
pub fn estimate_steps_secs(steps: &Vec<PipelineStep>) -> (r: u64)
    requires
        steps@.len() < 0x1_0000_0000,
    ensures
        r == steps_duration(steps@),
{
    let mut total: u64 = 0;
    let mut i: usize = 0;
    while i < steps.len()
        invariant
            i <= steps@.len() < 0x1_0000_0000,
            total == steps_duration(steps@.take(i as int)),
        decreases steps@.len() - i,
    {
        proof {
            assert(steps@.take(i + 1).drop_last() =~= steps@.take(i as int));
            lemma_steps_duration_bound(steps@.take(i as int));
            assert(i * 0xffff_ffff <= 0xffff_ffff * 0xffff_ffff) by (nonlinear_arith)
                requires
                    i < 0x1_0000_0000,
            ;
        }
        match step_action_timeout(&steps[i].action) {
            Some(t) => {
                total = total + t as u64;
            },
            None => {},
        }
        i = i + 1;
    }
    assert(steps@.take(i as int) =~= steps@);
    total
}

/// Progress detail for the stop step at `index` of `steps`.
pub fn stop_step_info(steps: &Vec<PipelineStep>, index: usize) -> (r: StopStepInfo)
    requires
        index < steps@.len() <= u32::MAX,
    ensures
        r.index == index,
        r.total == steps@.len(),
        r.name@ == steps@[index as int].name@,
        r.step_timeout_secs == action_timeout(steps@[index as int].action),
{
    StopStepInfo {
        index: index as u32,
        total: steps.len() as u32,
        name: steps[index].name.clone(),
        step_timeout_secs: step_action_timeout(&steps[index].action),
    }
}

/// Whether the stop sequence goes on before a step.
#[derive(Clone, Copy, Debug, PartialEq, Eq, Structural)]
pub enum StopGate {
    /// The user cancelled the stop: revert to running.
    Cancel,
    /// The process already ended: skip the remaining steps.
    Exited,
    /// Run the step.
    Proceed,
}

/// Before each stop step: a cancellation wins, then an ended process.
pub fn stop_gate(cancelled: bool, status: ServerStatus) -> (r: StopGate)
    ensures
        r == (if cancelled {
            StopGate::Cancel
        } else if has_ended(status) {
            StopGate::Exited
        } else {
            StopGate::Proceed
        }),
{
    if cancelled {
        StopGate::Cancel
    } else if status == ServerStatus::Stopped || status == ServerStatus::Crashed {
        StopGate::Exited
    } else {
        StopGate::Proceed
    }
}

/// What one stop step does to the process.
#[derive(Debug)]
pub enum StopCommand {
    /// Write this line (newline included) to the process's stdin.
    WriteInput(String),
    /// Send this signal to the process group, if the process has a PID.
    Signal(StopSignal),
    /// Wait this many seconds, unless cancelled or the process exits.
    Sleep(u32),
    /// Wait until a console line contains this text (ignoring case), for at
    /// most the given seconds.
    WaitForOutput(String, u32),
    /// The action has no meaning in a stop pipeline; skip it.
    Skip,
}

/// `text` with the variables substituted, followed by a newline.
pub open spec fn input_line(text: Seq<char>, vars: Seq<(String, String)>) -> Seq<char> {
    substitute_all(text, vars, "${"@, "}"@).push('\n')
}

/// What the stop step with action `a` does, under the variables `vars`.
pub open spec fn stop_command_spec(a: StepAction, vars: Seq<(String, String)>, c: StopCommand) -> bool {
    match a {
        StepAction::SendInput { text } => c matches StopCommand::WriteInput(l) && l@ == input_line(
            text@,
            vars,
        ),
        StepAction::SendSignal { signal } => c == StopCommand::Signal(signal),
        StepAction::Sleep { seconds } => c == StopCommand::Sleep(seconds),
        StepAction::WaitForOutput { pattern, timeout_secs } => c matches StopCommand::WaitForOutput(
            p,
            t,
        ) && p@ == substitute_all(pattern@, vars, "${"@, "}"@) && t == timeout_secs,
        _ => c is Skip,
    }
}

/// Turn a stop step into what it does to the process.
pub fn stop_step_command(action: &StepAction, vars: &Vec<(String, String)>) -> (r: StopCommand)
    ensures
        stop_command_spec(*action, vars@, r),
{
    match action {
        StepAction::SendInput { text } => {
            let mut line = substitute_variables(text.as_str(), vars);
            line.append("\n");
            proof {
                reveal_strlit("\n");
            }
            assert(line@ =~= input_line(text@, vars@));
            StopCommand::WriteInput(line)
        },
        StepAction::SendSignal { signal } => StopCommand::Signal(*signal),
        StepAction::Sleep { seconds } => StopCommand::Sleep(*seconds),
        StepAction::WaitForOutput { pattern, timeout_secs } => {
            StopCommand::WaitForOutput(substitute_variables(pattern.as_str(), vars), *timeout_secs)
        },
        _ => StopCommand::Skip,
    }
}

/// What a stop without stop steps does.
#[derive(Debug)]
pub enum LegacyStop {
    /// Write this line (newline included) to the process's stdin.
    WriteInput(String),
    /// Send this signal to the process group with this PID.
    Signal(StopSignal, u32),
    /// Nothing can be sent: no stop command and no PID.
    Nothing,
}

/// A stop without stop steps: the stop command set at run time, else the
/// configured one, is written to stdin; without one, the run-time signal,
/// else the configured one, goes to the process group.
pub fn legacy_stop(
    runtime_command: Option<String>,
    config_command: Option<String>,
    runtime_signal: Option<StopSignal>,
    config_signal: StopSignal,
    pid: Option<u32>,
    vars: &Vec<(String, String)>,
) -> (r: LegacyStop)
    ensures
        match (if runtime_command is Some {
            runtime_command
        } else {
            config_command
        }) {
            Some(c) => r matches LegacyStop::WriteInput(l) && l@ == input_line(c@, vars@),
            None => match pid {
                Some(p) => r == LegacyStop::Signal(
                    match runtime_signal {
                        Some(s) => s,
                        None => config_signal,
                    },
                    p,
                ),
                None => r is Nothing,
            },
        },
{
    let command = match runtime_command {
        Some(c) => Some(c),
        None => config_command,
    };
    match command {
        Some(c) => {
            let mut line = substitute_variables(c.as_str(), vars);
            line.append("\n");
            proof {
                reveal_strlit("\n");
            }
            assert(line@ =~= input_line(c@, vars@));
            LegacyStop::WriteInput(line)
        },
        None => match pid {
            Some(p) => {
                let signal = match runtime_signal {
                    Some(s) => s,
                    None => config_signal,
                };
                LegacyStop::Signal(signal, p)
            },
            None => LegacyStop::Nothing,
        },
    }
}

// ─── Console buffer ───

/// How many recent console lines are kept for replay.
pub const LOG_BUFFER_SIZE: usize = 1000;

/// The sequence number that follows `s`; numbering wraps after `u32::MAX`.
pub open spec fn next_seq_after(s: u32) -> u32 {
    if s == u32::MAX {
        0
    } else {
        (s + 1) as u32
    }
}

/// The recent console lines of a server and the sequence number of the
/// next line.
pub struct LogBuffer {
    lines: VecDeque<LogLine>,
    next_seq: u32,
}

impl LogBuffer {
    /// The kept lines, oldest first.
    pub closed spec fn lines(&self) -> Seq<LogLine> {
        self.lines@
    }

    /// The sequence number the next line gets.
    pub closed spec fn next(&self) -> u32 {
        self.next_seq
    }

    /// At most [`LOG_BUFFER_SIZE`] lines are kept, numbered consecutively,
    /// and the next number follows the newest line's.
    pub closed spec fn wf(&self) -> bool {
        &&& self.lines@.len() <= LOG_BUFFER_SIZE
        &&& forall|i: int|
            0 <= i < self.lines@.len() - 1 ==> #[trigger] self.lines@[i + 1].seq == next_seq_after(
                self.lines@[i].seq,
            )
        &&& self.lines@.len() > 0 ==> self.next_seq == next_seq_after(self.lines@.last().seq)
    }

    /// An empty buffer whose first line gets sequence number 0.
    pub fn new() -> (r: LogBuffer)
        ensures
            r.wf(),
            r.lines().len() == 0,
            r.next() == 0,
    {
        LogBuffer { lines: VecDeque::new(), next_seq: 0 }
    }

    /// Record `line`: it gets the next sequence number (which wraps after
    /// `u32::MAX`), and the oldest line goes when the buffer is full.
    /// Returns the line as recorded.
    pub fn push(&mut self, line: LogLine) -> (r: LogLine)
        requires
            old(self).wf(),
        ensures
            final(self).wf(),
            r.seq == old(self).next(),
            r.timestamp == line.timestamp,
            r.line == line.line,
            r.stream == line.stream,
            final(self).next() == next_seq_after(old(self).next()),
            final(self).lines() == (if old(self).lines().len() >= LOG_BUFFER_SIZE {
                old(self).lines().drop_first()
            } else {
                old(self).lines()
            }).push(r),
            (final(self).lines(), final(self).next()) == record_line(
                old(self).lines(),
                old(self).next(),
                line,
            ),
    {
        let seq = self.next_seq;
        self.next_seq = if seq == u32::MAX {
            0
        } else {
            seq + 1
        };
        let recorded = LogLine {
            seq,
            timestamp: line.timestamp,
            line: line.line,
            stream: line.stream,
        };
        if self.lines.len() >= LOG_BUFFER_SIZE {
            self.lines.pop_front();
        }
        let copy = LogLine {
            seq,
            timestamp: recorded.timestamp,
            line: recorded.line.clone(),
            stream: recorded.stream,
        };
        let ghost kept = self.lines@;
        self.lines.push_back(copy);
        proof {
            assert forall|i: int| 0 <= i < self.lines@.len() - 1 implies #[trigger] self.lines@[i
                + 1].seq == next_seq_after(self.lines@[i].seq) by {
                if i + 1 < kept.len() {
                    if old(self).lines@.len() >= LOG_BUFFER_SIZE {
                        assert(kept[i] == old(self).lines@[i + 1]);
                        assert(kept[i + 1] == old(self).lines@[i + 2]);
                    }
                } else {
                    if old(self).lines@.len() >= LOG_BUFFER_SIZE {
                        assert(kept[i] == old(self).lines@[i + 1]);
                    }
                }
            }
        }
        recorded
    }

    /// Law: the kept lines are numbered consecutively, oldest first, and the
    /// next line continues the numbering.
    pub proof fn law_log_seq_consecutive(&self)
        requires
            self.wf(),
        ensures
            forall|i: int|
                0 <= i < self.lines().len() - 1 ==> #[trigger] self.lines()[i + 1].seq
                    == next_seq_after(self.lines()[i].seq),
            self.lines().len() > 0 ==> self.next() == next_seq_after(self.lines().last().seq),
            self.lines().len() <= LOG_BUFFER_SIZE,
    {
    }

    /// Number of kept lines.
    pub fn len(&self) -> (r: usize)
        ensures
            r == self.lines().len(),
    {
        self.lines.len()
    }

    /// The kept line at `i`, oldest first.
    pub fn get(&self, i: usize) -> (r: &LogLine)
        requires
            i < self.lines().len(),
        ensures
            *r == self.lines()[i as int],
    {
        &self.lines[i]
    }
}

/// One recording into a buffer holding `kept` whose next number is `next`
/// (what [`LogBuffer::push`] does): the oldest line goes when the buffer is
/// full, and the line is appended with the next number.
pub open spec fn record_line(kept: Seq<LogLine>, next: u32, line: LogLine) -> (Seq<LogLine>, u32) {
    (
        (if kept.len() >= LOG_BUFFER_SIZE {
            kept.drop_first()
        } else {
            kept
        }).push(LogLine { seq: next, ..line }),
        next_seq_after(next),
    )
}

/// The kept lines and the next number after recording `lines` in order,
/// starting from `kept` and `next`.
pub open spec fn record_lines(kept: Seq<LogLine>, next: u32, lines: Seq<LogLine>) -> (
    Seq<LogLine>,
    u32,
)
    decreases lines.len(),
{
    if lines.len() == 0 {
        (kept, next)
    } else {
        let before = record_lines(kept, next, lines.drop_last());
        record_line(before.0, before.1, lines.last())
    }
}

/// A new buffer that records `lines` numbers them from 0 and keeps the last
/// [`LOG_BUFFER_SIZE`] of them (all of them when fewer), oldest first, each
/// with its own text, time and stream; the next line gets the count.
/// Stated while the count fits a sequence number.
pub proof fn law_log_buffer_keeps_last(lines: Seq<LogLine>)
    requires
        lines.len() <= u32::MAX,
    ensures
        ({
            let (kept, next) = record_lines(seq![], 0, lines);
            let n = lines.len() as int;
            let m = kept.len() as int;
            &&& next == n
            &&& m == (if n < LOG_BUFFER_SIZE {
                n
            } else {
                LOG_BUFFER_SIZE as int
            })
            &&& forall|k: int|
                0 <= k < m ==> (#[trigger] kept[k]).seq == n - m + k && kept[k].line == lines[n - m
                    + k].line && kept[k].timestamp == lines[n - m + k].timestamp && kept[k].stream
                    == lines[n - m + k].stream
        }),
    decreases lines.len(),
{
    if lines.len() > 0 {
        let init = lines.drop_last();
        law_log_buffer_keeps_last(init);
        let (kept0, next0) = record_lines(seq![], 0, init);
        let n0 = init.len() as int;
        let m0 = kept0.len() as int;
        let base = if kept0.len() >= LOG_BUFFER_SIZE {
            kept0.drop_first()
        } else {
            kept0
        };
        let (kept, next) = record_lines(seq![], 0, lines);
        assert(kept == base.push(LogLine { seq: next0, ..lines.last() }));
        let n = lines.len() as int;
        let m = kept.len() as int;
        assert forall|k: int| 0 <= k < m implies (#[trigger] kept[k]).seq == n - m + k
            && kept[k].line == lines[n - m + k].line && kept[k].timestamp == lines[n - m
            + k].timestamp && kept[k].stream == lines[n - m + k].stream by {
            if k < m - 1 {
                if kept0.len() >= LOG_BUFFER_SIZE {
                    assert(kept[k] == kept0[k + 1]);
                    assert(init[n0 - m0 + k + 1] == lines[n0 - m0 + k + 1]);
                } else {
                    assert(kept[k] == kept0[k]);
                    assert(init[n0 - m0 + k] == lines[n0 - m0 + k]);
                }
            }
        }
    }
}

// ─── Log files and recorded process ids ───

/// The size limit of a server's log file, in bytes: `Some` of its limit in
/// megabytes times 1024 * 1024 when it logs to disk, else `None`.
pub fn log_file_limit(log_to_disk: bool, max_log_size_mb: u32) -> (r: Option<u64>)
    ensures
        log_to_disk ==> r == Some((max_log_size_mb * 1048576) as u64),
        !log_to_disk ==> r is None,
{
    if log_to_disk {
        let mb: u64 = max_log_size_mb as u64;
        Some(mb * 1024 * 1024)
    } else {
        None
    }
}

/// The process id recorded in a pid file: its trimmed text read as a `u32`
/// (see [`parse_u32`]).
pub fn pid_from_file(contents: &str) -> (r: Option<u32>)
    ensures
        match parse_u32(trimmed(contents@)) {
            Some(n) => r matches Some(p) && p as int == n,
            None => r is None,
        },
{
    let v = chars_of(contents);
    let (a, b) = trim_bounds(&v);
    assert(span(v@, a, b) == trimmed(contents@));
    parse_u32_span(&v, a, b)
}

/// Text made only of digits is its own trimmed form.
proof fn lemma_digits_untrimmed(s: Seq<char>)
    requires
        s.len() > 0,
        forall|k: int| 0 <= k < s.len() ==> is_digit(#[trigger] s[k]),
    ensures
        trimmed(s) == s,
{
    assert(is_digit(s[0]) && !is_space(s[0]));
    assert(space_len(s) == 0);
    assert(s.skip(0) =~= s);
    assert(is_digit(s.last()) && !is_space(s.last()));
    assert(trailing_space_len(s) == 0);
    assert(s.take(s.len() as int) =~= s);
}

/// Law: a pid file holding the process id written in decimal reads back as
/// that id.
pub proof fn law_pid_file_round_trip(pid: u32)
    ensures
        parse_u32(trimmed(decimal_digits(pid as nat))) == Some(pid as int),
{
    let d = decimal_digits(pid as nat);
    lemma_decimal_digits_read_back(pid as nat);
    lemma_digits_untrimmed(d);
    lemma_digit_run_whole(d);
    assert(!(d[0] == '+'));
}

/// What start-up reconciliation does for a server.
#[derive(Debug, PartialEq, Eq, Structural)]
pub enum Reconciliation {
    /// No pid file: nothing to do.
    Nothing,
    /// The recorded process still runs: adopt it as running.
    Adopt(u32),
    /// The recorded process is gone: remove the stale pid file.
    RemoveStale,
}

/// The reconciliation of a server from its recorded pid (`None` without a
/// pid file) and whether that process is still alive.
pub fn reconciliation(recorded: Option<u32>, alive: bool) -> (r: Reconciliation)
    ensures
        match recorded {
            Some(pid) => if alive {
                r == Reconciliation::Adopt(pid)
            } else {
                r == Reconciliation::RemoveStale
            },
            None => r == Reconciliation::Nothing,
        },
{
    match recorded {
        Some(pid) => if alive {
            Reconciliation::Adopt(pid)
        } else {
            Reconciliation::RemoveStale
        },
        None => Reconciliation::Nothing,
    }
}

/// The console line shown for an adopted process, whose output cannot be
/// read until it restarts.
pub open spec fn adopted_notice_text(pid: u32) -> Seq<char> {
    "Process was already running (PID "@ + decimal_digits(pid as nat)
        + ") \u{2014} console output unavailable until next restart."@
}

/// The console line shown for an adopted process (see
/// [`adopted_notice_text`]).
pub fn adopted_notice(pid: u32) -> (r: String)
    ensures
        r@ == adopted_notice_text(pid),
{
    let mut s = String::new();
    s.append("Process was already running (PID ");
    push_decimal(&mut s, u32_to_usize(pid));
    s.append(") \u{2014} console output unavailable until next restart.");
    s
}

// ─── Start settings ───

/// The stop command and signal a started server keeps: those the start
/// pipeline set, else the configured ones.
pub fn stop_settings(
    pipeline_command: Option<String>,
    pipeline_signal: Option<StopSignal>,
    config_command: Option<String>,
    config_signal: StopSignal,
) -> (r: (Option<String>, StopSignal))
    ensures
        r.0 == (if pipeline_command is Some {
            pipeline_command
        } else {
            config_command
        }),
        r.1 == (match pipeline_signal {
            Some(s) => s,
            None => config_signal,
        }),
{
    let command = match pipeline_command {
        Some(c) => Some(c),
        None => config_command,
    };
    let signal = match pipeline_signal {
        Some(s) => s,
        None => config_signal,
    };
    (command, signal)
}

/// Message when the start pipeline failed.
pub open spec fn start_pipeline_failed() -> Seq<char> {
    "Start pipeline failed \u{2014} server not started"@
}

/// A start goes on unless the start pipeline ended in failure (`status` is
/// its final status, `None` when it left none).
pub fn check_start_pipeline(status: Option<PhaseStatus>) -> (r: Result<(), ProcessError>)
    ensures
        status == Some(PhaseStatus::Failed) ==> (r matches Err(ProcessError::Internal(m)) && m@
            == start_pipeline_failed()),
        status != Some(PhaseStatus::Failed) ==> r is Ok,
{
    match status {
        Some(PhaseStatus::Failed) => Err(
            ProcessError::Internal(String::from_str("Start pipeline failed \u{2014} server not started")),
        ),
        _ => Ok(()),
    }
}

// ─── Grace period and forced kill ───

/// What happened while a stopping server is given time to exit.
#[derive(Clone, Copy, Debug, PartialEq, Eq, Structural)]
pub enum GraceEvent {
    /// The grace period ran out.
    DeadlinePassed,
    /// The process signalled an exit.
    ExitNoticed,
    /// The user cancelled the stop.
    Cancelled,
    /// The once-a-second progress tick.
    Tick,
}

/// What the stop does next during the grace period.
#[derive(Clone, Copy, Debug, PartialEq, Eq, Structural)]
pub enum GraceAction {
    /// Kill the process group.
    ForceKill,
    /// The process has ended: the stop is done.
    Done,
    /// Revert the server to running and end the stop.
    Revert,
    /// Report progress and keep waiting.
    Report,
    /// Keep waiting (an exit signal from an earlier cycle).
    KeepWaiting,
}

/// The grace-period decision for an event, given the server's status.
pub open spec fn grace_action(event: GraceEvent, status: ServerStatus) -> GraceAction {
    match event {
        GraceEvent::DeadlinePassed => GraceAction::ForceKill,
        GraceEvent::ExitNoticed => if has_ended(status) {
            GraceAction::Done
        } else {
            GraceAction::KeepWaiting
        },
        GraceEvent::Cancelled => GraceAction::Revert,
        GraceEvent::Tick => if has_ended(status) {
            GraceAction::Done
        } else {
            GraceAction::Report
        },
    }
}

/// Decide what to do on a grace-period event (see [`grace_action`]).
pub fn on_grace_event(event: GraceEvent, status: ServerStatus) -> (r: GraceAction)
    ensures
        r == grace_action(event, status),
{
    let ended = status == ServerStatus::Stopped || status == ServerStatus::Crashed;
    match event {
        GraceEvent::DeadlinePassed => GraceAction::ForceKill,
        GraceEvent::ExitNoticed => if ended {
            GraceAction::Done
        } else {
            GraceAction::KeepWaiting
        },
        GraceEvent::Cancelled => GraceAction::Revert,
        GraceEvent::Tick => if ended {
            GraceAction::Done
        } else {
            GraceAction::Report
        },
    }
}

/// The process group to kill once the grace period is over: the process's
/// pid, when it has one and the server is still stopping.
pub fn sigkill_target(pid: Option<u32>, status: ServerStatus) -> (r: Option<u32>)
    ensures
        r == (if status == ServerStatus::Stopping {
            pid
        } else {
            None
        }),
{
    if status == ServerStatus::Stopping {
        pid
    } else {
        None
    }
}

/// After the kill, the server directory is scanned for leftover processes
/// when the process has not ended and no exit was noticed in time.
pub fn needs_directory_scan(status: ServerStatus, exit_noticed: bool) -> (r: bool)
    ensures
        r == (!has_ended(status) && !exit_noticed),
{
    status != ServerStatus::Stopped && status != ServerStatus::Crashed && !exit_noticed
}

} // verus!
