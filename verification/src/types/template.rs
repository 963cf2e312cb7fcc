//! Server templates and the integrations they need.

use vstd::prelude::*;
use crate::time::DateTimeUtc;
use crate::steamcmd::{config_requires_steamcmd, requires_steamcmd};
use super::pipeline::{ConfigParameter, ConfigParameterType, PipelineStep, StepAction};
use super::server::{ServerConfig, UpdateCheckProvider};

verus! {

/// A reusable server configuration.
#[derive(Clone, Debug)]
pub struct ServerTemplate {
    pub id: uuid::Uuid,
    pub name: String,
    pub description: Option<String>,
    pub config: ServerConfig,
    pub created_by: uuid::Uuid,
    pub created_at: DateTimeUtc,
    pub updated_at: DateTimeUtc,
    pub is_builtin: bool,
    /// The configuration uses SteamCMD.
    pub requires_steamcmd: bool,
    /// The configuration uses the CurseForge integration.
    pub requires_curseforge: bool,
    /// The configuration uses the GitHub releases integration.
    pub requires_github: bool,
}

/// A parameter of the given kind appears in `params`.
pub open spec fn has_param_of_type(params: Seq<ConfigParameter>, t: ConfigParameterType) -> bool {
    exists|i: int| 0 <= i < params.len() && (#[trigger] params[i]).param_type == t
}

fn params_have_type(params: &Vec<ConfigParameter>, t: ConfigParameterType) -> (r: bool)
    ensures
        r == has_param_of_type(params@, t),
{
    let mut i: usize = 0;
    while i < params.len()
        invariant
            i <= params@.len(),
            forall|k: int| 0 <= k < i ==> (#[trigger] params@[k]).param_type != t,
        decreases params@.len() - i,
    {
        if params[i].param_type == t {
            return true;
        }
        i = i + 1;
    }
    false
}

/// The step downloads a CurseForge file.
pub open spec fn is_curseforge_step(step: PipelineStep) -> bool {
    step.action is DownloadCurseForgeFile
}

/// The step downloads a GitHub release asset.
pub open spec fn is_github_step(step: PipelineStep) -> bool {
    step.action is DownloadGithubReleaseAsset
}

/// Some step of `steps` downloads from CurseForge.
pub open spec fn has_curseforge_step(steps: Seq<PipelineStep>) -> bool {
    exists|i: int| 0 <= i < steps.len() && is_curseforge_step(#[trigger] steps[i])
}

/// Some step of `steps` downloads a GitHub release asset.
pub open spec fn has_github_step(steps: Seq<PipelineStep>) -> bool {
    exists|i: int| 0 <= i < steps.len() && is_github_step(#[trigger] steps[i])
}

fn steps_use_curseforge(steps: &Vec<PipelineStep>) -> (r: bool)
    ensures
        r == has_curseforge_step(steps@),
{
    let mut i: usize = 0;
    while i < steps.len()
        invariant
            i <= steps@.len(),
            forall|k: int| 0 <= k < i ==> !is_curseforge_step(#[trigger] steps@[k]),
        decreases steps@.len() - i,
    {
        if let StepAction::DownloadCurseForgeFile { .. } = &steps[i].action {
            return true;
        }
        i = i + 1;
    }
    false
}

fn steps_use_github(steps: &Vec<PipelineStep>) -> (r: bool)
    ensures
        r == has_github_step(steps@),
{
    let mut i: usize = 0;
    while i < steps.len()
        invariant
            i <= steps@.len(),
            forall|k: int| 0 <= k < i ==> !is_github_step(#[trigger] steps@[k]),
        decreases steps@.len() - i,
    {
        if let StepAction::DownloadGithubReleaseAsset { .. } = &steps[i].action {
            return true;
        }
        i = i + 1;
    }
    false
}

/// The configuration uses CurseForge: a CurseForge file parameter, a
/// CurseForge update check, or a CurseForge download step.
pub open spec fn requires_curseforge(config: ServerConfig) -> bool {
    ||| has_param_of_type(config.parameters@, ConfigParameterType::CurseForgeFileVersion)
    ||| (config.update_check matches Some(uc) && uc.provider is CurseForge)
    ||| has_curseforge_step(config.install_steps@)
    ||| has_curseforge_step(config.update_steps@)
    ||| has_curseforge_step(config.uninstall_steps@)
    ||| has_curseforge_step(config.start_steps@)
    ||| has_curseforge_step(config.stop_steps@)
}

/// The configuration uses GitHub releases: a release-tag parameter or a
/// release-asset download step.
pub open spec fn requires_github(config: ServerConfig) -> bool {
    ||| has_param_of_type(config.parameters@, ConfigParameterType::GithubReleaseTag)
    ||| has_github_step(config.install_steps@)
    ||| has_github_step(config.update_steps@)
    ||| has_github_step(config.uninstall_steps@)
    ||| has_github_step(config.start_steps@)
    ||| has_github_step(config.stop_steps@)
}

/// Whether a configuration needs the CurseForge integration.
pub fn config_requires_curseforge(config: &ServerConfig) -> (r: bool)
    ensures
        r == requires_curseforge(*config),
{
    if params_have_type(&config.parameters, ConfigParameterType::CurseForgeFileVersion) {
        return true;
    }
    if let Some(uc) = &config.update_check {
        if let UpdateCheckProvider::CurseForge { .. } = &uc.provider {
            return true;
        }
    }
    steps_use_curseforge(&config.install_steps) || steps_use_curseforge(&config.update_steps)
        || steps_use_curseforge(&config.uninstall_steps) || steps_use_curseforge(
        &config.start_steps,
    ) || steps_use_curseforge(&config.stop_steps)
}

/// Whether a configuration needs the GitHub releases integration.
pub fn config_requires_github(config: &ServerConfig) -> (r: bool)
    ensures
        r == requires_github(*config),
{
    if params_have_type(&config.parameters, ConfigParameterType::GithubReleaseTag) {
        return true;
    }
    steps_use_github(&config.install_steps) || steps_use_github(&config.update_steps)
        || steps_use_github(&config.uninstall_steps) || steps_use_github(&config.start_steps)
        || steps_use_github(&config.stop_steps)
}

impl ServerTemplate {
    /// The template with its integration flags computed from its
    /// configuration; everything else is unchanged.
    pub fn with_integration_flags(self) -> (r: Self)
        ensures
            r.requires_steamcmd == requires_steamcmd(self.config),
            r.requires_curseforge == requires_curseforge(self.config),
            r.requires_github == requires_github(self.config),
            r.id == self.id,
            r.name == self.name,
            r.description == self.description,
            r.config == self.config,
            r.created_by == self.created_by,
            r.created_at == self.created_at,
            r.updated_at == self.updated_at,
            r.is_builtin == self.is_builtin,
    {
        let mut t = self;
        t.requires_steamcmd = config_requires_steamcmd(&t.config);
        t.requires_curseforge = config_requires_curseforge(&t.config);
        t.requires_github = config_requires_github(&t.config);
        t
    }

    /// Same as [`ServerTemplate::with_integration_flags`].
    pub fn with_steamcmd_flag(self) -> (r: Self)
        ensures
            r.requires_steamcmd == requires_steamcmd(self.config),
            r.requires_curseforge == requires_curseforge(self.config),
            r.requires_github == requires_github(self.config),
            r.id == self.id,
            r.name == self.name,
            r.description == self.description,
            r.config == self.config,
            r.created_by == self.created_by,
            r.created_at == self.created_at,
            r.updated_at == self.updated_at,
            r.is_builtin == self.is_builtin,
    {
        self.with_integration_flags()
    }
}

/// Request to create a template.
#[derive(Debug)]
pub struct CreateTemplateRequest {
    pub name: String,
    pub description: Option<String>,
    pub config: ServerConfig,
}

/// Request to update a template.
#[derive(Debug)]
pub struct UpdateTemplateRequest {
    pub name: String,
    pub description: Option<String>,
    pub config: ServerConfig,
}

/// The template list, with which integrations are available.
#[derive(Debug)]
pub struct TemplateListResponse {
    pub templates: Vec<ServerTemplate>,
    pub steamcmd_available: bool,
    pub curseforge_available: bool,
    pub github_available: bool,
}

} // verus!
