//! Per-server process isolation settings.

use vstd::prelude::*;
use crate::time::{DateTimeUtc, utc_now};
use crate::builtin::uuid_with_bits;

verus! {

/// The isolation applied to a server's process.
#[derive(Clone, Debug)]
pub struct SandboxProfile {
    pub server_id: uuid::Uuid,
    pub enabled: bool,
    pub landlock_enabled: bool,
    pub no_new_privs: bool,
    pub fd_cleanup: bool,
    pub non_dumpable: bool,
    pub namespace_isolation: bool,
    /// Process limit; 0 means unlimited.
    pub pids_max: u64,
    pub extra_read_paths: Vec<String>,
    pub extra_rw_paths: Vec<String>,
    pub network_isolation: bool,
    /// `"off"`, `"basic"` or `"strict"`.
    pub seccomp_mode: String,
    pub updated_at: DateTimeUtc,
}

/// `uuid::Uuid::nil`, the all-zero identifier.  Claimed: it is the
/// identifier that `Uuid::from_u128(0)` builds (see [`uuid_with_bits`]).
#[verifier::external_body]
fn nil_uuid() -> (r: uuid::Uuid)
    ensures
        r == uuid_with_bits(0u128),
{
    uuid::Uuid::nil()
}

impl Default for SandboxProfile {
    /// Everything on but network isolation and seccomp, no process limit
    /// and no extra paths, for the nil server, stamped with the clock.
    fn default() -> (r: Self)
        ensures
            r.server_id == uuid_with_bits(0u128),
            r.enabled,
            r.landlock_enabled,
            r.no_new_privs,
            r.fd_cleanup,
            r.non_dumpable,
            r.namespace_isolation,
            r.pids_max == 0,
            r.extra_read_paths@.len() == 0,
            r.extra_rw_paths@.len() == 0,
            !r.network_isolation,
            r.seccomp_mode@ == "off"@,
    {
        SandboxProfile {
            server_id: nil_uuid(),
            enabled: true,
            landlock_enabled: true,
            no_new_privs: true,
            fd_cleanup: true,
            non_dumpable: true,
            namespace_isolation: true,
            pids_max: 0,
            extra_read_paths: Vec::new(),
            extra_rw_paths: Vec::new(),
            network_isolation: false,
            seccomp_mode: String::from_str("off"),
            updated_at: utc_now(),
        }
    }
}

/// What isolation this host supports.
#[derive(Clone, Copy, Debug)]
pub struct SandboxCapabilities {
    pub landlock_available: bool,
    pub landlock_abi_version: Option<i32>,
    pub namespaces_available: bool,
    pub no_new_privs_available: bool,
    pub fd_cleanup_available: bool,
    pub non_dumpable_available: bool,
    pub rlimit_nproc_available: bool,
    pub feature_enabled: bool,
}

/// Request to change a sandbox profile.
#[derive(Clone, Debug)]
pub struct UpdateSandboxProfileRequest {
    pub enabled: bool,
    pub landlock_enabled: bool,
    pub no_new_privs: bool,
    pub fd_cleanup: bool,
    pub non_dumpable: bool,
    pub namespace_isolation: bool,
    pub pids_max: u64,
    pub extra_read_paths: Vec<String>,
    pub extra_rw_paths: Vec<String>,
    pub network_isolation: bool,
    pub seccomp_mode: String,
}

/// A profile with what the host supports.
#[derive(Debug)]
pub struct SandboxProfileResponse {
    pub profile: SandboxProfile,
    pub capabilities: SandboxCapabilities,
}

/// Request to turn sandbox management on or off.
#[derive(Clone, Copy, Debug)]
pub struct ToggleSandboxFeatureRequest {
    pub enabled: bool,
}

/// Whether sandbox management is on.
#[derive(Clone, Copy, Debug)]
pub struct ToggleSandboxFeatureResponse {
    pub sandbox_management_enabled: bool,
}

} // verus!
