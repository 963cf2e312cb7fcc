//! Runtime detection results, integration settings and system data.

use vstd::prelude::*;
use crate::time::DateTimeUtc;

verus! {

/// A detected Java runtime.
#[derive(Clone, Debug)]
pub struct JavaRuntime {
    /// Path of the `java` binary.
    pub path: String,
    /// The JAVA_HOME directory of the installation.
    pub java_home: String,
    /// Full version string (e.g. `"21.0.2"`).
    pub version: String,
    /// Major version (e.g. `21`).
    pub major_version: u32,
    /// Runtime/vendor name.
    pub runtime_name: String,
    /// Whether this is the default `java` on PATH.
    pub is_default: bool,
}

/// Detected Java runtimes.
#[derive(Clone, Debug)]
pub struct JavaRuntimesResponse {
    pub runtimes: Vec<JavaRuntime>,
}

/// A detected .NET runtime.
#[derive(Clone, Debug)]
pub struct DotnetRuntime {
    /// Runtime name (e.g. `"Microsoft.NETCore.App"`).
    pub runtime_name: String,
    /// Full version string (e.g. `"8.0.23"`).
    pub version: String,
    /// Major version (e.g. `8`).
    pub major_version: u32,
    /// Directory of the runtime's shared libraries.
    pub runtime_path: String,
    /// Root directory of the .NET installation.
    pub installation_root: String,
    /// Whether it comes from the default `dotnet` on PATH.
    pub is_default: bool,
}

/// Detected .NET runtimes.
#[derive(Clone, Debug)]
pub struct DotnetRuntimesResponse {
    pub runtimes: Vec<DotnetRuntime>,
}

/// Memory usage of the host.
#[derive(Clone, Debug)]
pub struct MemoryMetrics {
    pub total_bytes: u64,
    pub used_bytes: u64,
    pub available_bytes: u64,
    pub swap_total_bytes: u64,
    pub swap_used_bytes: u64,
}

/// Usage of one disk.
#[derive(Clone, Debug)]
pub struct DiskMetrics {
    pub name: String,
    pub mount_point: String,
    pub total_bytes: u64,
    pub used_bytes: u64,
    pub free_bytes: u64,
    pub filesystem: String,
}

/// Traffic of one network interface.
#[derive(Clone, Debug)]
pub struct NetworkMetrics {
    pub interface: String,
    pub rx_bytes: u64,
    pub tx_bytes: u64,
}

/// A GitHub release tag.
#[derive(Clone, Debug)]
pub struct GithubReleaseTag {
    pub name: String,
    pub title: String,
    pub published_at: DateTimeUtc,
    pub body: String,
}

/// Release tags of a repository.
#[derive(Clone, Debug)]
pub struct GithubReleasesResponse {
    pub releases: Vec<GithubReleaseTag>,
    pub cached: bool,
}

/// Query for the releases of a repository.
#[derive(Clone, Debug)]
pub struct GithubReleasesQuery {
    /// `owner/repo`.
    pub repo: String,
}

/// An asset of a GitHub release.
#[derive(Clone, Debug)]
pub struct GithubAsset {
    pub id: u64,
    pub name: String,
    pub browser_download_url: String,
    pub size: u64,
}

/// A GitHub release with its assets.
#[derive(Clone, Debug)]
pub struct GithubRelease {
    pub tag_name: String,
    pub name: String,
    pub published_at: DateTimeUtc,
    pub assets: Vec<GithubAsset>,
}

/// GitHub API settings.
#[derive(Clone, Debug)]
pub struct GithubSettings {
    pub api_token: Option<String>,
}

/// CurseForge API settings.
#[derive(Clone, Debug)]
pub struct CurseForgeSettings {
    pub api_key: Option<String>,
}

/// Request to save the CurseForge key.
#[derive(Clone, Debug)]
pub struct SaveCurseForgeSettingsRequest {
    pub api_key: Option<String>,
}

/// Whether a CurseForge key is configured.
#[derive(Clone, Debug)]
pub struct CurseForgeSettingsResponse {
    pub has_key: bool,
}

/// A CurseForge file version option.
#[derive(Clone, Debug)]
pub struct CurseForgeFileOption {
    pub value: String,
    pub label: String,
}

/// CurseForge file versions.
#[derive(Clone, Debug)]
pub struct CurseForgeFilesResponse {
    pub options: Vec<CurseForgeFileOption>,
}

/// Query for the files of a CurseForge project.
#[derive(Clone, Debug)]
pub struct CurseForgeFilesQuery {
    pub project_id: u32,
}

/// Request to save the GitHub token.
#[derive(Clone, Debug)]
pub struct SaveGithubSettingsRequest {
    pub api_token: Option<String>,
}

/// Whether a GitHub token is configured.
#[derive(Clone, Debug)]
pub struct GithubSettingsResponse {
    pub has_token: bool,
}

/// Which integrations are configured.
#[derive(Clone, Debug)]
pub struct IntegrationStatus {
    pub curseforge_configured: bool,
    pub github_configured: bool,
    pub steamcmd_available: bool,
    pub smtp_configured: bool,
}

} // verus!
