//! Servers, their configuration, update checks and runtime status.

use std::collections::HashMap;
use vstd::prelude::*;
use crate::time::DateTimeUtc;
use super::auth::EffectivePermission;
use super::pipeline::{ConfigParameter, PhaseProgress, PipelineStep};

verus! {

// ─── Update Check Types ───

/// How and how often the latest available version is checked.
#[derive(Clone, Debug)]
pub struct UpdateCheck {
    pub provider: UpdateCheckProvider,
    /// Background check interval in seconds; `None` or `0` means manual only.
    pub interval_secs: Option<u64>,
    /// How long a successful result is cached, in seconds.
    pub cache_secs: u64,
}

/// The strategy used to determine the latest available version.
#[derive(Clone, Debug)]
pub enum UpdateCheckProvider {
    /// Fetch a JSON API endpoint and extract the latest version.
    Api { url: String, path: Option<String>, pick: VersionPick, value_key: Option<String> },
    /// Compare against the template's default value of the version parameter.
    TemplateDefault,
    /// Run a shell command that prints the latest version.
    Command { command: String, timeout_secs: u32 },
    /// Ask CurseForge for the newest file of a project.
    CurseForge { project_id: u32 },
}

/// Which element of an array is taken as the latest version.
#[derive(Clone, Copy, Debug, PartialEq, Eq, Structural)]
pub enum VersionPick {
    First,
    Last,
}

/// The result of one update check.
#[derive(Clone, Debug)]
pub struct UpdateCheckResult {
    pub server_id: uuid::Uuid,
    pub update_available: bool,
    pub installed_version: Option<String>,
    pub latest_version: Option<String>,
    pub installed_version_display: Option<String>,
    pub latest_version_display: Option<String>,
    pub checked_at: DateTimeUtc,
    /// Human-readable error if the check failed.
    pub error: Option<String>,
}

/// Response of the bulk update-status endpoint.
#[derive(Clone, Debug)]
pub struct UpdateCheckStatusResponse {
    pub results: Vec<UpdateCheckResult>,
}

// ─── Isolation ───

/// Per-server process isolation settings.
#[derive(Clone, Debug)]
pub struct IsolationConfig {
    pub enabled: bool,
    pub extra_read_paths: Vec<String>,
    pub extra_rw_paths: Vec<String>,
    pub pids_max: Option<u64>,
}

impl Default for IsolationConfig {
    fn default() -> (r: Self)
        ensures
            r.enabled,
            r.extra_read_paths@.len() == 0,
            r.extra_rw_paths@.len() == 0,
            r.pids_max is None,
    {
        IsolationConfig {
            enabled: true,
            extra_read_paths: Vec::new(),
            extra_rw_paths: Vec::new(),
            pids_max: None,
        }
    }
}

/// Signal sent to the process group on graceful stop.
#[derive(Clone, Copy, Debug, PartialEq, Eq, Structural)]
pub enum StopSignal {
    Sigterm,
    Sigint,
}

impl Default for StopSignal {
    fn default() -> (r: Self)
        ensures
            r == StopSignal::Sigterm,
    {
        StopSignal::Sigterm
    }
}

// ─── Server Configuration ───

/// A server's configuration.
#[derive(Clone, Debug)]
pub struct ServerConfig {
    pub name: String,
    pub binary: String,
    pub args: Vec<String>,
    pub env: HashMap<String, String>,
    pub working_dir: Option<String>,
    pub auto_start: bool,
    pub auto_restart: bool,
    pub max_restart_attempts: u32,
    pub restart_delay_secs: u32,
    pub stop_command: Option<String>,
    pub stop_signal: StopSignal,
    pub stop_timeout_secs: u32,
    pub sftp_username: Option<String>,
    pub sftp_password: Option<String>,
    pub parameters: Vec<ConfigParameter>,
    pub stop_steps: Vec<PipelineStep>,
    pub start_steps: Vec<PipelineStep>,
    pub install_steps: Vec<PipelineStep>,
    pub update_steps: Vec<PipelineStep>,
    pub uninstall_steps: Vec<PipelineStep>,
    pub isolation: IsolationConfig,
    pub update_check: Option<UpdateCheck>,
    pub log_to_disk: bool,
    pub max_log_size_mb: u32,
    pub enable_java_helper: bool,
    pub enable_dotnet_helper: bool,
    pub steam_app_id: Option<u32>,
}

/// A stored server.
#[derive(Clone, Debug)]
pub struct Server {
    pub id: uuid::Uuid,
    pub owner_id: uuid::Uuid,
    pub config: ServerConfig,
    pub created_at: DateTimeUtc,
    pub updated_at: DateTimeUtc,
    pub parameter_values: HashMap<String, String>,
    pub installed: bool,
    pub installed_at: Option<DateTimeUtc>,
    pub updated_via_pipeline_at: Option<DateTimeUtc>,
    /// Version active when the last install or update completed.
    pub installed_version: Option<String>,
    pub source_template_id: Option<uuid::Uuid>,
}

/// Runtime status of a server process.
#[derive(Clone, Copy, Debug, PartialEq, Eq, Structural)]
pub enum ServerStatus {
    Stopped,
    Starting,
    Running,
    Stopping,
    Crashed,
    Installing,
    Updating,
    Uninstalling,
}

/// Runtime information of a server.
#[derive(Clone, Debug)]
pub struct ServerRuntime {
    pub server_id: uuid::Uuid,
    pub status: ServerStatus,
    pub pid: Option<u32>,
    pub started_at: Option<DateTimeUtc>,
    pub restart_count: u32,
    pub next_restart_at: Option<DateTimeUtc>,
}

/// Request to create a server.
#[derive(Clone, Debug)]
pub struct CreateServerRequest {
    pub config: ServerConfig,
    pub parameter_values: HashMap<String, String>,
    pub source_template_id: Option<uuid::Uuid>,
}

/// Request to update a server.
#[derive(Clone, Debug)]
pub struct UpdateServerRequest {
    pub config: ServerConfig,
    pub parameter_values: HashMap<String, String>,
}

/// A server with its runtime status and the caller's permission.
#[derive(Clone, Debug)]
pub struct ServerWithStatus {
    pub server: Server,
    pub runtime: ServerRuntime,
    pub permission: EffectivePermission,
    pub phase_progress: Option<PhaseProgress>,
}

/// List of servers.
#[derive(Clone, Debug)]
pub struct ServerListResponse {
    pub servers: Vec<ServerWithStatus>,
}

/// Request to send a console command.
#[derive(Clone, Debug)]
pub struct SendCommandRequest {
    pub command: String,
}

} // verus!
