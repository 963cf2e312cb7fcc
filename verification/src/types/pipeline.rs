//! Pipeline model: template parameters, dynamic options, step actions and
//! phase progress.

use std::collections::HashMap;
use vstd::prelude::*;
use crate::time::DateTimeUtc;
use super::server::{StopSignal, VersionPick};

verus! {

// ─── Config Parameters (template variables) ───

/// Kind of a template parameter.
#[derive(Clone, Copy, Debug, PartialEq, Eq, Structural)]
pub enum ConfigParameterType {
    String,
    Number,
    Boolean,
    Select,
    /// A GitHub release tag selector; requires `github_repo`.
    GithubReleaseTag,
    /// A CurseForge file-version selector.
    CurseForgeFileVersion,
}

impl Default for ConfigParameterType {
    fn default() -> (r: Self)
        ensures
            r == ConfigParameterType::String,
    {
        ConfigParameterType::String
    }
}

/// A template parameter (a `${name}` variable of the pipelines).
#[derive(Clone, Debug)]
pub struct ConfigParameter {
    pub name: String,
    pub label: String,
    pub description: Option<String>,
    pub param_type: ConfigParameterType,
    pub default: Option<String>,
    pub required: bool,
    pub options: Vec<String>,
    pub regex: Option<String>,
    /// Marks the parameter that holds the version, for update detection.
    pub is_version: bool,
    pub options_from: Option<OptionsFrom>,
    pub github_repo: Option<String>,
}

impl Default for ConfigParameter {
    fn default() -> (r: Self)
        ensures
            r.name@ == Seq::<char>::empty(),
            r.label@ == Seq::<char>::empty(),
            r.description is None,
            r.param_type == ConfigParameterType::String,
            r.default is None,
            !r.required,
            r.options@.len() == 0,
            r.regex is None,
            !r.is_version,
            r.options_from is None,
            r.github_repo is None,
    {
        ConfigParameter {
            name: String::new(),
            label: String::new(),
            description: None,
            param_type: ConfigParameterType::String,
            default: None,
            required: false,
            options: Vec::new(),
            regex: None,
            is_version: false,
            options_from: None,
            github_repo: None,
        }
    }
}

// ─── Dynamic Options ───

/// Sort order for dynamically fetched options.
#[derive(Clone, Copy, Debug, PartialEq, Eq, Structural)]
pub enum OptionsSortOrder {
    Asc,
    Desc,
}

/// Declarative definition for fetching dropdown options from a JSON API.
#[derive(Clone, Debug)]
pub struct OptionsFrom {
    pub url: String,
    pub path: Option<String>,
    pub value_key: Option<String>,
    pub label_key: Option<String>,
    pub sort: Option<OptionsSortOrder>,
    pub limit: Option<u32>,
    pub cache_secs: Option<u32>,
}

/// A single option in the canonical fetch-options format.
#[derive(Clone, Debug)]
pub struct FetchedOption {
    pub value: String,
    pub label: String,
}

/// Response from the fetch-options endpoint.
#[derive(Clone, Debug)]
pub struct FetchOptionsResponse {
    pub options: Vec<FetchedOption>,
    pub cached: bool,
}

/// Query parameters of the fetch-options endpoint.
#[derive(Clone, Debug)]
pub struct FetchOptionsQuery {
    pub url: String,
    pub path: Option<String>,
    pub value_key: Option<String>,
    pub label_key: Option<String>,
    pub sort: Option<OptionsSortOrder>,
    pub limit: Option<u32>,
    /// JSON-encoded map of parameter values for `{{param}}` substitution.
    pub params: Option<String>,
}

// ─── File Operations ───

/// An edit applied by an `EditFile` step.
#[derive(Clone, Debug)]
pub enum FileOperation {
    Overwrite { content: String },
    Append { content: String },
    Prepend { content: String },
    FindReplace { find: String, replace: String, all: bool },
    RegexReplace { pattern: String, replace: String, all: bool },
    InsertAfter { pattern: String, content: String },
    InsertBefore { pattern: String, content: String },
    ReplaceLine { pattern: String, content: String, all: bool },
}

/// Archive formats understood by `Extract` steps.
#[derive(Clone, Copy, Debug, PartialEq, Eq, Structural)]
pub enum ArchiveFormat {
    Zip,
    TarGz,
    TarBz2,
    TarXz,
    Tar,
    Auto,
}

/// Path conditions guarding a step.
#[derive(Clone, Debug)]
pub struct StepCondition {
    pub path_exists: Option<String>,
    pub path_not_exists: Option<String>,
}

impl Default for StepCondition {
    fn default() -> (r: Self)
        ensures
            r.path_exists is None,
            r.path_not_exists is None,
    {
        StepCondition { path_exists: None, path_not_exists: None }
    }
}

/// Process settings accumulated by start-pipeline steps.
#[derive(Clone, Debug)]
pub struct ProcessConfig {
    pub env: HashMap<String, String>,
    pub working_dir: Option<String>,
    pub stop_command: Option<String>,
    pub stop_signal: Option<StopSignal>,
}

impl Default for ProcessConfig {
    fn default() -> (r: Self)
        ensures
            r.env@.len() == 0,
            r.working_dir is None,
            r.stop_command is None,
            r.stop_signal is None,
    {
        ProcessConfig { env: HashMap::new(), working_dir: None, stop_command: None, stop_signal: None }
    }
}

// ─── Pipeline Step Actions ───

/// What a pipeline step does.
#[derive(Clone, Debug)]
pub enum StepAction {
    Download { url: String, destination: String, filename: Option<String>, executable: bool },
    Extract { source: String, destination: Option<String>, format: ArchiveFormat },
    MoveAction { source: String, destination: String },
    Copy { source: String, destination: String, recursive: bool },
    Delete { path: String, recursive: bool },
    CreateDir { path: String },
    RunCommand {
        command: String,
        args: Vec<String>,
        working_dir: Option<String>,
        env: HashMap<String, String>,
    },
    WriteFile { path: String, content: String },
    EditFile { path: String, operation: FileOperation },
    SetPermissions { path: String, mode: String },
    Glob { pattern: String, destination: String },
    /// Set environment variables for the server process (start pipeline),
    /// as (name, value) pairs in order.
    SetEnv { variables: Vec<(String, String)> },
    /// Set the working directory (start pipeline).
    SetWorkingDir { path: String },
    /// Set the stop command sent to stdin on graceful stop (start pipeline).
    SetStopCommand { command: String },
    /// Set the signal sent on graceful stop (start pipeline).
    SetStopSignal { signal: StopSignal },
    /// Send text to the running server's stdin.
    SendInput { text: String },
    /// Send a signal to the server's process group.
    SendSignal { signal: StopSignal },
    /// Pause for the given number of seconds.
    Sleep { seconds: u32 },
    /// Wait until `pattern` appears in the console output, at most
    /// `timeout_secs` seconds.
    WaitForOutput { pattern: String, timeout_secs: u32 },
    /// Fetch a JSON API, navigate it, and store a value as a variable.
    ResolveVariable {
        url: String,
        path: Option<String>,
        pick: VersionPick,
        value_key: Option<String>,
        variable: String,
    },
    /// Download an asset of a GitHub release.
    DownloadGithubReleaseAsset {
        tag_param: String,
        asset_matcher: String,
        destination: String,
        filename: Option<String>,
        executable: bool,
    },
    /// Download a file of a CurseForge project.
    DownloadCurseForgeFile {
        project_id: u32,
        file_param: String,
        destination: String,
        filename: Option<String>,
    },
    /// Install a Steam application with SteamCMD.
    SteamCmdInstall { app_id: Option<u32>, anonymous: bool, extra_args: Vec<String> },
    /// Update a Steam application with SteamCMD.
    SteamCmdUpdate { app_id: Option<u32>, anonymous: bool, extra_args: Vec<String> },
}

/// One step of a pipeline.
#[derive(Clone, Debug)]
pub struct PipelineStep {
    pub name: String,
    pub description: Option<String>,
    pub action: StepAction,
    pub condition: Option<StepCondition>,
    pub continue_on_error: bool,
}

// ─── Phases ───

/// The pipelines a server has.
#[derive(Clone, Copy, Debug, PartialEq, Eq, Structural)]
pub enum PhaseKind {
    Start,
    Install,
    Update,
    Uninstall,
}

/// Status of a phase or a step.
#[derive(Clone, Copy, Debug, PartialEq, Eq, Structural)]
pub enum PhaseStatus {
    Pending,
    Running,
    Completed,
    Failed,
    Skipped,
}

/// Progress of one step.
#[derive(Clone, Debug)]
pub struct StepProgress {
    pub step_index: u32,
    pub step_name: String,
    pub status: PhaseStatus,
    pub message: Option<String>,
    pub started_at: Option<DateTimeUtc>,
    pub completed_at: Option<DateTimeUtc>,
}

/// Progress of a whole phase.
#[derive(Clone, Debug)]
pub struct PhaseProgress {
    pub server_id: uuid::Uuid,
    pub phase: PhaseKind,
    pub status: PhaseStatus,
    pub steps: Vec<StepProgress>,
    pub started_at: Option<DateTimeUtc>,
    pub completed_at: Option<DateTimeUtc>,
}

} // verus!
