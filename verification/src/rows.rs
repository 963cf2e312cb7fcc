//! Turning stored rows into domain values.
//!
//! Identifiers and timestamps are read here; JSON columns are decoded by the
//! caller and handed in as the outcome of that decoding.  A row is refused
//! with the error of its first field that does not read, in the order the
//! fields are read.

use std::collections::HashMap;
use vstd::prelude::*;
use crate::storage::{
    parse_uuid, parse_timestamp, parse_optional_timestamp, parse_role, parse_permission_level,
    level_named, uuid_parsed, rfc3339_instant,
};
use crate::time::DateTimeUtc;
use crate::steamcmd::{config_requires_steamcmd, requires_steamcmd};
use crate::types::auth::{GlobalCapability, Role, ServerPermission, User};
use crate::types::api_token::{ApiToken, ApiTokenScope};
use crate::types::invite_code::{InviteCode, InvitePermissionGrant};
use crate::types::sandbox::SandboxProfile;
use crate::types::server::{Server, ServerConfig};
use crate::types::template::{
    ServerTemplate, config_requires_curseforge, config_requires_github, requires_curseforge,
    requires_github,
};

verus! {

// ─── Field checks ───

/// `a` when it holds an error, else `b`.
pub open spec fn first_of(a: Option<Seq<char>>, b: Option<Seq<char>>) -> Option<Seq<char>> {
    if a is Some {
        a
    } else {
        b
    }
}

/// The error an identifier column gives, if any.
pub open spec fn uuid_failure(s: Seq<char>) -> Option<Seq<char>> {
    match uuid_parsed(s) {
        Ok(_) => None,
        Err(m) => Some("Invalid UUID: "@ + m),
    }
}

/// The identifier an identifier column holds (when it reads).
pub open spec fn uuid_of(s: Seq<char>) -> uuid::Uuid {
    uuid_parsed(s)->Ok_0
}

/// The identifier an optional identifier column holds (when it reads).
pub open spec fn opt_uuid_of(o: Option<String>) -> Option<uuid::Uuid> {
    match o {
        Some(s) => Some(uuid_of(s@)),
        None => None,
    }
}

/// The error an optional identifier column gives, if any.
pub open spec fn opt_uuid_failure(o: Option<String>) -> Option<Seq<char>> {
    match o {
        Some(s) => uuid_failure(s@),
        None => None,
    }
}

/// The error a timestamp column gives, if any.
pub open spec fn time_failure(s: Seq<char>) -> Option<Seq<char>> {
    match rfc3339_instant(s) {
        Ok(_) => None,
        Err(m) => Some("Invalid timestamp: "@ + m),
    }
}

/// The error an optional timestamp column gives, if any.
pub open spec fn opt_time_failure(o: Option<String>) -> Option<Seq<char>> {
    match o {
        Some(s) => time_failure(s@),
        None => None,
    }
}

/// The error a decoded JSON column gives, if any.
pub open spec fn decode_failure<T>(d: Result<T, String>) -> Option<Seq<char>> {
    match d {
        Ok(_) => None,
        Err(e) => Some("Deserialization error: "@ + e@),
    }
}

/// The error a role column gives, if any.
pub open spec fn role_failure(s: Seq<char>) -> Option<Seq<char>> {
    if s == "admin"@ || s == "user"@ {
        None
    } else {
        Some("Invalid role: "@ + s)
    }
}

/// The role a role column names.
pub open spec fn role_named(s: Seq<char>) -> Role {
    if s == "admin"@ {
        Role::Admin
    } else {
        Role::User
    }
}

/// The error a permission level column gives, if any.
pub open spec fn level_failure(s: Seq<char>) -> Option<Seq<char>> {
    match level_named(s) {
        Some(_) => None,
        None => Some("Invalid permission level: "@ + s),
    }
}

/// The instant a timestamp column holds (when it reads).
pub open spec fn instant_of(s: Seq<char>) -> DateTimeUtc {
    match rfc3339_instant(s) {
        Ok((secs, nanos)) => DateTimeUtc { secs, nanos },
        Err(_) => DateTimeUtc { secs: 0, nanos: 0 },
    }
}

/// The instant an optional timestamp column holds (when it reads).
pub open spec fn opt_instant_of(o: Option<String>) -> Option<DateTimeUtc> {
    match o {
        Some(s) => Some(instant_of(s@)),
        None => None,
    }
}

fn read_uuid(s: &str) -> (r: Result<uuid::Uuid, String>)
    ensures
        match uuid_failure(s@) {
            Some(m) => r matches Err(e) && e@ == m,
            None => r == Ok::<uuid::Uuid, String>(uuid_of(s@)),
        },
{
    parse_uuid(s)
}

fn read_opt_uuid(o: &Option<String>) -> (r: Result<Option<uuid::Uuid>, String>)
    ensures
        match opt_uuid_failure(*o) {
            Some(m) => r matches Err(e) && e@ == m,
            None => r == Ok::<Option<uuid::Uuid>, String>(opt_uuid_of(*o)),
        },
{
    match o {
        Some(s) => match parse_uuid(s.as_str()) {
            Ok(u) => Ok(Some(u)),
            Err(e) => Err(e),
        },
        None => Ok(None),
    }
}

fn read_time(s: &str) -> (r: Result<DateTimeUtc, String>)
    ensures
        match time_failure(s@) {
            Some(m) => r matches Err(e) && e@ == m,
            None => r == Ok::<DateTimeUtc, String>(instant_of(s@)),
        },
{
    parse_timestamp(s)
}

fn read_opt_time(o: &Option<String>) -> (r: Result<Option<DateTimeUtc>, String>)
    ensures
        match opt_time_failure(*o) {
            Some(m) => r matches Err(e) && e@ == m,
            None => r == Ok::<Option<DateTimeUtc>, String>(opt_instant_of(*o)),
        },
{
    parse_optional_timestamp(o)
}

fn read_decoded<T>(d: Result<T, String>) -> (r: Result<T, String>)
    ensures
        match decode_failure(d) {
            Some(m) => r matches Err(e) && e@ == m,
            None => r == d,
        },
{
    match d {
        Ok(v) => Ok(v),
        Err(e) => {
            let mut m = String::from_str("Deserialization error: ");
            m.append(e.as_str());
            Err(m)
        },
    }
}

fn read_role(s: &str) -> (r: Result<Role, String>)
    ensures
        match role_failure(s@) {
            Some(m) => r matches Err(e) && e@ == m,
            None => r == Ok::<Role, String>(role_named(s@)),
        },
{
    parse_role(s)
}

// ─── Permissions ───

/// A stored server permission.
#[derive(Clone, Debug)]
pub struct PermissionRow {
    pub user_id: String,
    pub server_id: String,
    pub level: String,
}

/// The first error a permission row gives, if any.
pub open spec fn permission_row_failure(row: PermissionRow) -> Option<Seq<char>> {
    first_of(
        uuid_failure(row.user_id@),
        first_of(uuid_failure(row.server_id@), level_failure(row.level@)),
    )
}

/// The permission a row holds.
pub fn permission_from_row(row: PermissionRow) -> (r: Result<ServerPermission, String>)
    ensures
        match permission_row_failure(row) {
            Some(m) => r matches Err(e) && e@ == m,
            None => r matches Ok(p) && p.user_id == uuid_of(row.user_id@) && p.server_id == uuid_of(
                row.server_id@,
            ) && level_named(row.level@) == Some(p.level),
        },
{
    let user_id = match read_uuid(row.user_id.as_str()) {
        Ok(u) => u,
        Err(e) => {
            return Err(e);
        },
    };
    let server_id = match read_uuid(row.server_id.as_str()) {
        Ok(u) => u,
        Err(e) => {
            return Err(e);
        },
    };
    let level = match parse_permission_level(row.level.as_str()) {
        Ok(l) => l,
        Err(e) => {
            return Err(e);
        },
    };
    Ok(ServerPermission { user_id, server_id, level })
}

// ─── Users ───

/// A stored user; `global_capabilities` is JSON.
#[derive(Clone, Debug)]
pub struct UserRow {
    pub id: String,
    pub username: String,
    pub password_hash: String,
    pub role: String,
    pub created_at: String,
    pub token_generation: i64,
    pub global_capabilities: String,
}

/// The first error a user row gives, if any, with its capabilities decoded
/// as `capabilities`.
pub open spec fn user_row_failure(
    row: UserRow,
    capabilities: Result<Vec<GlobalCapability>, String>,
) -> Option<Seq<char>> {
    first_of(
        uuid_failure(row.id@),
        first_of(
            role_failure(row.role@),
            first_of(time_failure(row.created_at@), decode_failure(capabilities)),
        ),
    )
}

/// The user a row holds, given the outcome of decoding its capabilities.
pub fn user_from_row(row: UserRow, capabilities: Result<Vec<GlobalCapability>, String>) -> (r:
    Result<User, String>)
    ensures
        match user_row_failure(row, capabilities) {
            Some(m) => r matches Err(e) && e@ == m,
            None => r matches Ok(u) && {
                &&& u.id == uuid_of(row.id@)
                &&& u.username == row.username
                &&& u.password_hash == row.password_hash
                &&& u.role == role_named(row.role@)
                &&& u.created_at == instant_of(row.created_at@)
                &&& u.token_generation == row.token_generation
                &&& capabilities == Ok::<Vec<GlobalCapability>, String>(u.global_capabilities)
            },
        },
{
    let id = match read_uuid(row.id.as_str()) {
        Ok(u) => u,
        Err(e) => {
            return Err(e);
        },
    };
    let role = match read_role(row.role.as_str()) {
        Ok(x) => x,
        Err(e) => {
            return Err(e);
        },
    };
    let created_at = match read_time(row.created_at.as_str()) {
        Ok(t) => t,
        Err(e) => {
            return Err(e);
        },
    };
    let global_capabilities = match read_decoded(capabilities) {
        Ok(c) => c,
        Err(e) => {
            return Err(e);
        },
    };
    Ok(
        User {
            id,
            username: row.username,
            password_hash: row.password_hash,
            role,
            created_at,
            token_generation: row.token_generation,
            global_capabilities,
        },
    )
}

// ─── Templates ───

/// A stored template; `config` is JSON.
#[derive(Clone, Debug)]
pub struct TemplateRow {
    pub id: String,
    pub name: String,
    pub description: Option<String>,
    pub config: String,
    pub created_by: String,
    pub created_at: String,
    pub updated_at: String,
    pub is_builtin: i64,
}

/// The first error a template row gives, if any; its configuration is read
/// first.
pub open spec fn template_row_failure(row: TemplateRow, config: Result<ServerConfig, String>) -> Option<
    Seq<char>,
> {
    first_of(
        decode_failure(config),
        first_of(
            uuid_failure(row.id@),
            first_of(
                uuid_failure(row.created_by@),
                first_of(time_failure(row.created_at@), time_failure(row.updated_at@)),
            ),
        ),
    )
}

/// The template a row holds, given the outcome of decoding its
/// configuration; the integration flags are computed from that
/// configuration.
pub fn template_from_row(row: TemplateRow, config: Result<ServerConfig, String>) -> (r: Result<
    ServerTemplate,
    String,
>)
    ensures
        match template_row_failure(row, config) {
            Some(m) => r matches Err(e) && e@ == m,
            None => r matches Ok(t) && {
                &&& config == Ok::<ServerConfig, String>(t.config)
                &&& t.id == uuid_of(row.id@)
                &&& t.created_by == uuid_of(row.created_by@)
                &&& t.name == row.name
                &&& t.description == row.description
                &&& t.created_at == instant_of(row.created_at@)
                &&& t.updated_at == instant_of(row.updated_at@)
                &&& t.is_builtin == (row.is_builtin != 0)
                &&& t.requires_steamcmd == requires_steamcmd(t.config)
                &&& t.requires_curseforge == requires_curseforge(t.config)
                &&& t.requires_github == requires_github(t.config)
            },
        },
{
    let config = match read_decoded(config) {
        Ok(c) => c,
        Err(e) => {
            return Err(e);
        },
    };
    let requires_steamcmd = config_requires_steamcmd(&config);
    let requires_curseforge = config_requires_curseforge(&config);
    let requires_github = config_requires_github(&config);
    let id = match read_uuid(row.id.as_str()) {
        Ok(u) => u,
        Err(e) => {
            return Err(e);
        },
    };
    let created_by = match read_uuid(row.created_by.as_str()) {
        Ok(u) => u,
        Err(e) => {
            return Err(e);
        },
    };
    let created_at = match read_time(row.created_at.as_str()) {
        Ok(t) => t,
        Err(e) => {
            return Err(e);
        },
    };
    let updated_at = match read_time(row.updated_at.as_str()) {
        Ok(t) => t,
        Err(e) => {
            return Err(e);
        },
    };
    Ok(
        ServerTemplate {
            id,
            name: row.name,
            description: row.description,
            config,
            created_by,
            created_at,
            updated_at,
            is_builtin: row.is_builtin != 0,
            requires_steamcmd,
            requires_curseforge,
            requires_github,
        },
    )
}

// ─── Servers ───

/// A stored server; `config` and `parameter_values` are JSON.
#[derive(Clone, Debug)]
pub struct ServerRow {
    pub id: String,
    pub owner_id: String,
    pub config: String,
    pub created_at: String,
    pub updated_at: String,
    pub parameter_values: String,
    pub installed: i64,
    pub installed_at: Option<String>,
    pub updated_via_pipeline_at: Option<String>,
    pub installed_version: Option<String>,
    pub source_template_id: Option<String>,
}

/// The first error a server row gives, if any, with its JSON columns
/// decoded as given.
pub open spec fn server_row_failure(
    row: ServerRow,
    config: Result<ServerConfig, String>,
    parameter_values: Result<HashMap<String, String>, String>,
) -> Option<Seq<char>> {
    first_of(
        uuid_failure(row.id@),
        first_of(
            uuid_failure(row.owner_id@),
            first_of(
                decode_failure(config),
                first_of(
                    time_failure(row.created_at@),
                    first_of(
                        time_failure(row.updated_at@),
                        first_of(
                            decode_failure(parameter_values),
                            first_of(
                                opt_time_failure(row.installed_at),
                                first_of(
                                    opt_time_failure(row.updated_via_pipeline_at),
                                    opt_uuid_failure(row.source_template_id),
                                ),
                            ),
                        ),
                    ),
                ),
            ),
        ),
    )
}

/// The server a row holds, given the outcomes of decoding its JSON columns.
pub fn server_from_row(
    row: ServerRow,
    config: Result<ServerConfig, String>,
    parameter_values: Result<HashMap<String, String>, String>,
) -> (r: Result<Server, String>)
    ensures
        match server_row_failure(row, config, parameter_values) {
            Some(m) => r matches Err(e) && e@ == m,
            None => r matches Ok(s) && {
                &&& config == Ok::<ServerConfig, String>(s.config)
                &&& s.id == uuid_of(row.id@)
                &&& s.owner_id == uuid_of(row.owner_id@)
                &&& parameter_values == Ok::<HashMap<String, String>, String>(s.parameter_values)
                &&& s.created_at == instant_of(row.created_at@)
                &&& s.updated_at == instant_of(row.updated_at@)
                &&& s.installed == (row.installed != 0)
                &&& s.installed_at == opt_instant_of(row.installed_at)
                &&& s.updated_via_pipeline_at == opt_instant_of(row.updated_via_pipeline_at)
                &&& s.installed_version == row.installed_version
                &&& s.source_template_id == opt_uuid_of(row.source_template_id)
            },
        },
{
    let id = match read_uuid(row.id.as_str()) {
        Ok(u) => u,
        Err(e) => {
            return Err(e);
        },
    };
    let owner_id = match read_uuid(row.owner_id.as_str()) {
        Ok(u) => u,
        Err(e) => {
            return Err(e);
        },
    };
    let config = match read_decoded(config) {
        Ok(c) => c,
        Err(e) => {
            return Err(e);
        },
    };
    let created_at = match read_time(row.created_at.as_str()) {
        Ok(t) => t,
        Err(e) => {
            return Err(e);
        },
    };
    let updated_at = match read_time(row.updated_at.as_str()) {
        Ok(t) => t,
        Err(e) => {
            return Err(e);
        },
    };
    let parameter_values = match read_decoded(parameter_values) {
        Ok(v) => v,
        Err(e) => {
            return Err(e);
        },
    };
    let installed_at = match read_opt_time(&row.installed_at) {
        Ok(t) => t,
        Err(e) => {
            return Err(e);
        },
    };
    let updated_via_pipeline_at = match read_opt_time(&row.updated_via_pipeline_at) {
        Ok(t) => t,
        Err(e) => {
            return Err(e);
        },
    };
    let source_template_id = match read_opt_uuid(&row.source_template_id) {
        Ok(u) => u,
        Err(e) => {
            return Err(e);
        },
    };
    Ok(
        Server {
            id,
            owner_id,
            config,
            created_at,
            updated_at,
            parameter_values,
            installed: row.installed != 0,
            installed_at,
            updated_via_pipeline_at,
            installed_version: row.installed_version,
            source_template_id,
        },
    )
}

// ─── Invite codes ───

/// A stored invite code; the assigned permissions and capabilities are
/// JSON.
#[derive(Clone, Debug)]
pub struct InviteCodeRow {
    pub id: String,
    pub code: String,
    pub created_by: String,
    pub assigned_role: String,
    pub assigned_permissions: String,
    pub assigned_capabilities: String,
    pub expires_at: String,
    pub redeemed_by: Option<String>,
    pub redeemed_at: Option<String>,
    pub created_at: String,
    pub label: Option<String>,
}

/// The first error an invite code row gives, if any, with its JSON columns
/// decoded as given.
pub open spec fn invite_row_failure(
    row: InviteCodeRow,
    permissions: Result<Vec<InvitePermissionGrant>, String>,
    capabilities: Result<Vec<GlobalCapability>, String>,
) -> Option<Seq<char>> {
    first_of(
        uuid_failure(row.id@),
        first_of(
            uuid_failure(row.created_by@),
            first_of(
                role_failure(row.assigned_role@),
                first_of(
                    decode_failure(permissions),
                    first_of(
                        decode_failure(capabilities),
                        first_of(
                            time_failure(row.expires_at@),
                            first_of(
                                opt_uuid_failure(row.redeemed_by),
                                first_of(
                                    opt_time_failure(row.redeemed_at),
                                    time_failure(row.created_at@),
                                ),
                            ),
                        ),
                    ),
                ),
            ),
        ),
    )
}

/// The invite code a row holds, given the outcomes of decoding its JSON
/// columns.
pub fn invite_code_from_row(
    row: InviteCodeRow,
    permissions: Result<Vec<InvitePermissionGrant>, String>,
    capabilities: Result<Vec<GlobalCapability>, String>,
) -> (r: Result<InviteCode, String>)
    ensures
        match invite_row_failure(row, permissions, capabilities) {
            Some(m) => r matches Err(e) && e@ == m,
            None => r matches Ok(c) && {
                &&& c.id == uuid_of(row.id@)
                &&& c.created_by == uuid_of(row.created_by@)
                &&& c.code == row.code
                &&& c.assigned_role == role_named(row.assigned_role@)
                &&& permissions == Ok::<Vec<InvitePermissionGrant>, String>(c.assigned_permissions)
                &&& capabilities == Ok::<Vec<GlobalCapability>, String>(c.assigned_capabilities)
                &&& c.expires_at == instant_of(row.expires_at@)
                &&& c.redeemed_by == opt_uuid_of(row.redeemed_by)
                &&& c.redeemed_at == opt_instant_of(row.redeemed_at)
                &&& c.created_at == instant_of(row.created_at@)
                &&& c.label == row.label
            },
        },
{
    let id = match read_uuid(row.id.as_str()) {
        Ok(u) => u,
        Err(e) => {
            return Err(e);
        },
    };
    let created_by = match read_uuid(row.created_by.as_str()) {
        Ok(u) => u,
        Err(e) => {
            return Err(e);
        },
    };
    let assigned_role = match read_role(row.assigned_role.as_str()) {
        Ok(x) => x,
        Err(e) => {
            return Err(e);
        },
    };
    let assigned_permissions = match read_decoded(permissions) {
        Ok(p) => p,
        Err(e) => {
            return Err(e);
        },
    };
    let assigned_capabilities = match read_decoded(capabilities) {
        Ok(c) => c,
        Err(e) => {
            return Err(e);
        },
    };
    let expires_at = match read_time(row.expires_at.as_str()) {
        Ok(t) => t,
        Err(e) => {
            return Err(e);
        },
    };
    let redeemed_by = match read_opt_uuid(&row.redeemed_by) {
        Ok(u) => u,
        Err(e) => {
            return Err(e);
        },
    };
    let redeemed_at = match read_opt_time(&row.redeemed_at) {
        Ok(t) => t,
        Err(e) => {
            return Err(e);
        },
    };
    let created_at = match read_time(row.created_at.as_str()) {
        Ok(t) => t,
        Err(e) => {
            return Err(e);
        },
    };
    Ok(
        InviteCode {
            id,
            code: row.code,
            created_by,
            assigned_role,
            assigned_permissions,
            assigned_capabilities,
            expires_at,
            redeemed_by,
            redeemed_at,
            created_at,
            label: row.label,
        },
    )
}

// ─── Sandbox profiles ───

/// A stored sandbox profile; the extra paths are JSON.
#[derive(Clone, Debug)]
pub struct SandboxProfileRow {
    pub server_id: String,
    pub enabled: i64,
    pub landlock_enabled: i64,
    pub no_new_privs: i64,
    pub fd_cleanup: i64,
    pub non_dumpable: i64,
    pub namespace_isolation: i64,
    pub pids_max: i64,
    pub extra_read_paths: String,
    pub extra_rw_paths: String,
    pub network_isolation: i64,
    pub seccomp_mode: String,
    pub updated_at: String,
}

/// The first error a sandbox profile row gives, if any, with its path lists
/// decoded as given.
pub open spec fn sandbox_row_failure(
    row: SandboxProfileRow,
    read_paths: Result<Vec<String>, String>,
    rw_paths: Result<Vec<String>, String>,
) -> Option<Seq<char>> {
    first_of(
        uuid_failure(row.server_id@),
        first_of(
            decode_failure(read_paths),
            first_of(decode_failure(rw_paths), time_failure(row.updated_at@)),
        ),
    )
}

/// The sandbox profile a row holds, given the outcomes of decoding its path
/// lists.  Flags are non-zero integers; the process limit is the stored
/// integer as a `u64`.
pub fn sandbox_profile_from_row(
    row: SandboxProfileRow,
    read_paths: Result<Vec<String>, String>,
    rw_paths: Result<Vec<String>, String>,
) -> (r: Result<SandboxProfile, String>)
    ensures
        match sandbox_row_failure(row, read_paths, rw_paths) {
            Some(m) => r matches Err(e) && e@ == m,
            None => r matches Ok(p) && {
                &&& p.server_id == uuid_of(row.server_id@)
                &&& p.enabled == (row.enabled != 0)
                &&& p.landlock_enabled == (row.landlock_enabled != 0)
                &&& p.no_new_privs == (row.no_new_privs != 0)
                &&& p.fd_cleanup == (row.fd_cleanup != 0)
                &&& p.non_dumpable == (row.non_dumpable != 0)
                &&& p.namespace_isolation == (row.namespace_isolation != 0)
                &&& p.pids_max == row.pids_max as u64
                &&& read_paths == Ok::<Vec<String>, String>(p.extra_read_paths)
                &&& rw_paths == Ok::<Vec<String>, String>(p.extra_rw_paths)
                &&& p.network_isolation == (row.network_isolation != 0)
                &&& p.seccomp_mode == row.seccomp_mode
                &&& p.updated_at == instant_of(row.updated_at@)
            },
        },
{
    let server_id = match read_uuid(row.server_id.as_str()) {
        Ok(u) => u,
        Err(e) => {
            return Err(e);
        },
    };
    let extra_read_paths = match read_decoded(read_paths) {
        Ok(p) => p,
        Err(e) => {
            return Err(e);
        },
    };
    let extra_rw_paths = match read_decoded(rw_paths) {
        Ok(p) => p,
        Err(e) => {
            return Err(e);
        },
    };
    let updated_at = match read_time(row.updated_at.as_str()) {
        Ok(t) => t,
        Err(e) => {
            return Err(e);
        },
    };
    Ok(
        SandboxProfile {
            server_id,
            enabled: row.enabled != 0,
            landlock_enabled: row.landlock_enabled != 0,
            no_new_privs: row.no_new_privs != 0,
            fd_cleanup: row.fd_cleanup != 0,
            non_dumpable: row.non_dumpable != 0,
            namespace_isolation: row.namespace_isolation != 0,
            pids_max: row.pids_max as u64,
            extra_read_paths,
            extra_rw_paths,
            network_isolation: row.network_isolation != 0,
            seccomp_mode: row.seccomp_mode,
            updated_at,
        },
    )
}

// ─── API tokens and refresh tokens ───

/// A stored refresh token.
#[derive(Clone, Debug)]
pub struct RefreshTokenRow {
    pub id: String,
    pub user_id: String,
    pub family_id: String,
    pub token_hash: String,
    pub expires_at: String,
    pub created_at: String,
    pub revoked: i64,
}

/// A stored API token; `scope` is JSON.
#[derive(Clone, Debug)]
pub struct ApiTokenRow {
    pub id: String,
    pub user_id: String,
    pub name: String,
    pub token_hash: String,
    pub scope: String,
    pub created_at: String,
    pub expires_at: Option<String>,
    pub last_used_at: Option<String>,
    pub revoked: i64,
}

/// The first error an API token row gives, if any.
pub open spec fn api_token_row_failure(row: ApiTokenRow) -> Option<Seq<char>> {
    first_of(
        uuid_failure(row.id@),
        first_of(
            uuid_failure(row.user_id@),
            first_of(
                time_failure(row.created_at@),
                first_of(opt_time_failure(row.expires_at), opt_time_failure(row.last_used_at)),
            ),
        ),
    )
}

/// The token a row holds, given its scope as read from the row's JSON (the
/// default scope when that does not parse).
pub fn api_token_from_row(row: ApiTokenRow, scope: ApiTokenScope) -> (r: Result<ApiToken, String>)
    ensures
        match api_token_row_failure(row) {
            Some(m) => r matches Err(e) && e@ == m,
            None => r matches Ok(t) && {
                &&& t.id == uuid_of(row.id@)
                &&& t.user_id == uuid_of(row.user_id@)
                &&& t.name == row.name
                &&& t.token_hash == row.token_hash
                &&& t.scope == scope
                &&& t.created_at == instant_of(row.created_at@)
                &&& t.expires_at == opt_instant_of(row.expires_at)
                &&& t.last_used_at == opt_instant_of(row.last_used_at)
                &&& t.revoked == (row.revoked != 0)
            },
        },
{
    let id = match read_uuid(row.id.as_str()) {
        Ok(u) => u,
        Err(e) => {
            return Err(e);
        },
    };
    let user_id = match read_uuid(row.user_id.as_str()) {
        Ok(u) => u,
        Err(e) => {
            return Err(e);
        },
    };
    let created_at = match read_time(row.created_at.as_str()) {
        Ok(t) => t,
        Err(e) => {
            return Err(e);
        },
    };
    let expires_at = match read_opt_time(&row.expires_at) {
        Ok(t) => t,
        Err(e) => {
            return Err(e);
        },
    };
    let last_used_at = match read_opt_time(&row.last_used_at) {
        Ok(t) => t,
        Err(e) => {
            return Err(e);
        },
    };
    Ok(
        ApiToken {
            id,
            user_id,
            name: row.name,
            token_hash: row.token_hash,
            scope,
            created_at,
            expires_at,
            last_used_at,
            revoked: row.revoked != 0,
        },
    )
}

} // verus!
