//! Messages streamed to console subscribers.

use vstd::prelude::*;
use crate::time::DateTimeUtc;
use super::pipeline::PhaseKind;

verus! {

/// Which output stream a console line came from.
#[derive(Clone, Copy, Debug, PartialEq, Eq, Structural)]
pub enum LogStream {
    Stdout,
    Stderr,
}

/// One line of a server's console output.
#[derive(Clone, Debug)]
pub struct LogLine {
    /// Position of the line in the server's output, assigned when it is
    /// recorded; clients use it to drop duplicates after reconnecting.
    pub seq: u32,
    pub timestamp: DateTimeUtc,
    pub line: String,
    pub stream: LogStream,
}

/// One line of output of a pipeline step.
#[derive(Clone, Debug)]
pub struct PhaseLogLine {
    pub timestamp: DateTimeUtc,
    pub phase: PhaseKind,
    pub step_index: u32,
    pub step_name: String,
    pub line: String,
    pub stream: LogStream,
}

/// Phase of a graceful shutdown.
#[derive(Clone, Copy, Debug, PartialEq, Eq, Structural)]
pub enum StopPhase {
    SendingStopCommand,
    RunningStopSteps,
    WaitingForExit,
    SendingSigkill,
    Cancelled,
}

/// The stop step being run.
#[derive(Clone, Debug)]
pub struct StopStepInfo {
    /// Zero-based index of the step.
    pub index: u32,
    /// Number of stop steps.
    pub total: u32,
    pub name: String,
    /// Upper bound on the step's duration, for timed steps.
    pub step_timeout_secs: Option<u32>,
}

} // verus!
