//! Request and response bodies of the HTTP API.

use vstd::prelude::*;
use crate::time::DateTimeUtc;
use super::pipeline::{PhaseKind, PhaseProgress, PhaseStatus, PipelineStep};
use super::server::ServerWithStatus;

verus! {

/// One page of a listing.
#[derive(Debug)]
pub struct PaginatedResponse<T> {
    pub items: Vec<T>,
    pub total: u64,
    pub page: u32,
    pub per_page: u32,
    pub total_pages: u32,
}

/// One page of the server list.
#[derive(Debug)]
pub struct PaginatedServerListResponse {
    pub servers: Vec<ServerWithStatus>,
    pub total: u64,
    pub page: u32,
    pub per_page: u32,
    pub total_pages: u32,
}

/// Query of the server list.
#[derive(Clone, Debug)]
pub struct ListServersParams {
    /// One-based page number.
    pub page: u32,
    pub per_page: u32,
    pub search: Option<String>,
    pub status: Option<String>,
    /// `name`, `created_at` or `status`.
    pub sort: String,
    /// `asc` or `desc`.
    pub order: String,
}

impl Default for ListServersParams {
    fn default() -> (r: Self)
        ensures
            r.page == 1,
            r.per_page == 25,
            r.search is None,
            r.status is None,
            r.sort@ == "name"@,
            r.order@ == "asc"@,
    {
        ListServersParams {
            page: 1,
            per_page: 25,
            search: None,
            status: None,
            sort: String::from_str("name"),
            order: String::from_str("asc"),
        }
    }
}

/// An error body.
#[derive(Clone, Debug)]
pub struct ApiError {
    pub error: String,
    pub details: Option<String>,
}

/// Request to run a pipeline phase; parameter overrides are
/// `(name, value)` pairs with unique names.
#[derive(Debug)]
pub struct RunPhaseRequest {
    pub steps_override: Option<Vec<PipelineStep>>,
    pub parameter_overrides: Option<Vec<(String, String)>>,
}

/// A phase was started.
#[derive(Debug)]
pub struct RunPhaseResponse {
    pub server_id: uuid::Uuid,
    pub phase: PhaseKind,
    pub status: PhaseStatus,
    pub message: String,
}

/// Progress and install state of a server's pipelines.
#[derive(Debug)]
pub struct PhaseStatusResponse {
    pub server_id: uuid::Uuid,
    pub progress: Option<PhaseProgress>,
    pub installed: bool,
    pub installed_at: Option<DateTimeUtc>,
    pub updated_via_pipeline_at: Option<DateTimeUtc>,
}

#[derive(Clone, Debug)]
pub struct DeleteServerResponse {
    pub deleted: bool,
    pub id: String,
}

#[derive(Clone, Debug)]
pub struct ResetServerResponse {
    pub reset: bool,
    pub id: String,
    pub killed_processes: usize,
}

#[derive(Clone, Debug)]
pub struct KillProcessResult {
    pub pid: u32,
    pub command: String,
    pub success: bool,
}

#[derive(Clone, Debug)]
pub struct KillDirectoryProcessesResponse {
    pub killed: usize,
    pub failed: usize,
    pub processes: Vec<KillProcessResult>,
}

#[derive(Clone, Debug)]
pub struct SendCommandResponse {
    pub sent: bool,
    pub command: String,
}

#[derive(Clone, Debug)]
pub struct SendSignalResponse {
    pub sent: bool,
    pub signal: String,
    pub pid: u32,
}

#[derive(Clone, Copy, Debug)]
pub struct CancelStopResponse {
    pub cancelled: bool,
    pub server_id: uuid::Uuid,
}

#[derive(Clone, Debug)]
pub struct ChangePasswordResponse {
    pub changed: bool,
    pub token: String,
}

#[derive(Clone, Debug)]
pub struct CancelPhaseResponse {
    pub cancelled: bool,
    pub server_id: String,
}

#[derive(Clone, Debug)]
pub struct WriteFileResponse {
    pub written: bool,
    pub path: String,
    pub size: usize,
}

#[derive(Clone, Debug)]
pub struct CreateDirResponse {
    pub created: bool,
    pub path: String,
}

#[derive(Clone, Debug)]
pub struct DeletePathResponse {
    pub deleted: bool,
    pub path: String,
}

#[derive(Clone, Debug)]
pub struct ChmodResponse {
    pub path: String,
    pub mode: String,
    pub mode_display: String,
}

#[derive(Clone, Debug)]
pub struct RemovePermissionResponse {
    pub removed: bool,
    pub user_id: String,
    pub server_id: String,
}

#[derive(Clone, Debug)]
pub struct DeleteTemplateResponse {
    pub deleted: bool,
    pub id: String,
}

#[derive(Clone, Debug)]
pub struct DeleteUserResponse {
    pub deleted: bool,
    pub id: String,
    pub username: String,
}

#[derive(Clone, Copy, Debug)]
pub struct MarkInstalledResponse {
    pub server_id: uuid::Uuid,
    pub installed: bool,
    pub installed_at: Option<DateTimeUtc>,
}

} // verus!
