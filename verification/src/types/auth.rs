//! Users, roles, capabilities, per-server permissions and app settings.

use vstd::prelude::*;
use crate::time::DateTimeUtc;

verus! {

// ─── Global Roles ───

/// Global role of a user.
#[derive(Clone, Copy, Debug, PartialEq, Eq, Structural)]
pub enum Role {
    Admin,
    User,
}

// ─── Global Capabilities ───

/// Feature-level permissions of non-admin users (admins have them all).
#[derive(Clone, Copy, Debug, PartialEq, Eq, Hash, Structural)]
pub enum GlobalCapability {
    CreateServers,
    ManageTemplates,
    ViewSystemHealth,
}

// ─── Per-server permission levels ───

/// Per-server permission level; each level includes all lower ones.
#[derive(Clone, Copy, Debug, PartialEq, Eq, PartialOrd, Ord, Structural)]
pub enum PermissionLevel {
    Viewer,
    Operator,
    Manager,
    Admin,
    Owner,
}

/// Position of a level in the order Viewer < Operator < Manager < Admin < Owner.
pub open spec fn level_rank(l: PermissionLevel) -> int {
    match l {
        PermissionLevel::Viewer => 0,
        PermissionLevel::Operator => 1,
        PermissionLevel::Manager => 2,
        PermissionLevel::Admin => 3,
        PermissionLevel::Owner => 4,
    }
}

impl PermissionLevel {
    /// Position of the level in the order (Viewer is 0, Owner is 4).
    pub fn rank(self) -> (r: u8)
        ensures
            r as int == level_rank(self),
    {
        match self {
            PermissionLevel::Viewer => 0,
            PermissionLevel::Operator => 1,
            PermissionLevel::Manager => 2,
            PermissionLevel::Admin => 3,
            PermissionLevel::Owner => 4,
        }
    }

    /// `self` is at least `other`.
    pub fn at_least(self, other: PermissionLevel) -> (r: bool)
        ensures
            r == (level_rank(self) >= level_rank(other)),
    {
        self.rank() >= other.rank()
    }

    /// Every level may view.
    pub fn can_view(self) -> (r: bool)
        ensures
            r == (level_rank(self) >= 0),
    {
        self.at_least(PermissionLevel::Viewer)
    }

    /// Operator and above may start, stop and send commands.
    pub fn can_operate(self) -> (r: bool)
        ensures
            r == (level_rank(self) >= 1),
    {
        self.at_least(PermissionLevel::Operator)
    }

    /// Manager and above may manage files.
    pub fn can_manage_files(self) -> (r: bool)
        ensures
            r == (level_rank(self) >= 2),
    {
        self.at_least(PermissionLevel::Manager)
    }

    /// Manager and above may edit the configuration.
    pub fn can_edit_config(self) -> (r: bool)
        ensures
            r == (level_rank(self) >= 2),
    {
        self.at_least(PermissionLevel::Manager)
    }

    /// Admin and above may delete the server.
    pub fn can_delete(self) -> (r: bool)
        ensures
            r == (level_rank(self) >= 3),
    {
        self.at_least(PermissionLevel::Admin)
    }

    /// Admin and above may manage permissions.
    pub fn can_manage_permissions(self) -> (r: bool)
        ensures
            r == (level_rank(self) >= 3),
    {
        self.at_least(PermissionLevel::Admin)
    }
}

/// Permission levels are cumulative: whatever a lower level may do, every
/// higher level may do too, and each capability needs the one below it.
pub proof fn law_permission_levels_cumulative(low: PermissionLevel, high: PermissionLevel)
    requires
        level_rank(low) <= level_rank(high),
    ensures
        level_rank(low) >= 1 ==> level_rank(high) >= 1,
        level_rank(low) >= 2 ==> level_rank(high) >= 2,
        level_rank(low) >= 3 ==> level_rank(high) >= 3,
        level_rank(high) >= 0,
        level_rank(high) >= 3 ==> level_rank(high) >= 2,
        level_rank(high) >= 2 ==> level_rank(high) >= 1,
{
}

// ─── User ───

/// A user account.
#[derive(Clone, Debug)]
pub struct User {
    pub id: uuid::Uuid,
    pub username: String,
    pub password_hash: String,
    pub role: Role,
    pub created_at: DateTimeUtc,
    pub token_generation: i64,
    /// Ignored for admins, who have every capability.
    pub global_capabilities: Vec<GlobalCapability>,
}

impl User {
    /// `true` when the user has `cap`, explicitly or as an admin.
    pub fn has_capability(&self, cap: GlobalCapability) -> (r: bool)
        ensures
            r == (self.role == Role::Admin || self.global_capabilities@.contains(cap)),
    {
        if self.role == Role::Admin {
            return true;
        }
        let mut i: usize = 0;
        while i < self.global_capabilities.len()
            invariant
                i <= self.global_capabilities@.len(),
                forall|k: int| 0 <= k < i ==> self.global_capabilities@[k] != cap,
            decreases self.global_capabilities@.len() - i,
        {
            if self.global_capabilities[i] == cap {
                return true;
            }
            i = i + 1;
        }
        false
    }
}

/// Public view of a user.
#[derive(Clone, Debug)]
pub struct UserPublic {
    pub id: uuid::Uuid,
    pub username: String,
    pub role: Role,
    pub created_at: DateTimeUtc,
    pub global_capabilities: Vec<GlobalCapability>,
}

impl UserPublic {
    /// The public view of `u` (everything but the password hash and the
    /// token generation).
    pub fn from_user(u: User) -> (p: UserPublic)
        ensures
            p.id == u.id,
            p.username == u.username,
            p.role == u.role,
            p.created_at == u.created_at,
            p.global_capabilities == u.global_capabilities,
    {
        UserPublic {
            id: u.id,
            username: u.username,
            role: u.role,
            created_at: u.created_at,
            global_capabilities: u.global_capabilities,
        }
    }
}

/// Request to change a user's capabilities.
#[derive(Clone, Debug)]
pub struct UpdateUserCapabilitiesRequest {
    pub global_capabilities: Vec<GlobalCapability>,
}

/// A user's permission on a server.
#[derive(Clone, Debug)]
pub struct ServerPermission {
    pub user_id: uuid::Uuid,
    pub server_id: uuid::Uuid,
    pub level: PermissionLevel,
}

// ─── App-wide settings ───

/// App-wide settings.
#[derive(Clone, Debug)]
pub struct AppSettings {
    pub setup_complete: bool,
    pub registration_enabled: bool,
    pub allow_run_commands: bool,
    /// `"auto"`, `"off"` or `"strict"`.
    pub run_command_sandbox: String,
    pub run_command_default_timeout_secs: u32,
    pub run_command_use_namespaces: bool,
}

impl Default for AppSettings {
    fn default() -> (r: Self)
        ensures
            !r.setup_complete,
            !r.registration_enabled,
            !r.allow_run_commands,
            r.run_command_sandbox@ == "auto"@,
            r.run_command_default_timeout_secs == 300,
            r.run_command_use_namespaces,
    {
        AppSettings {
            setup_complete: false,
            registration_enabled: false,
            allow_run_commands: false,
            run_command_sandbox: "auto".to_string(),
            run_command_default_timeout_secs: 300,
            run_command_use_namespaces: true,
        }
    }
}

// ─── Auth request / response types ───

/// First-run setup request.
#[derive(Clone, Debug)]
pub struct SetupRequest {
    pub username: String,
    pub password: String,
}

/// Login request.
#[derive(Clone, Debug)]
pub struct LoginRequest {
    pub username: String,
    pub password: String,
}

/// Registration request.
#[derive(Clone, Debug)]
pub struct RegisterRequest {
    pub username: String,
    pub password: String,
}

/// Token and user returned by login.
#[derive(Clone, Debug)]
pub struct AuthResponse {
    pub token: String,
    pub user: UserPublic,
}

/// The current user and the app settings.
#[derive(Clone, Debug)]
pub struct MeResponse {
    pub user: UserPublic,
    pub settings: AppSettings,
}

/// List of users.
#[derive(Clone, Debug)]
pub struct UserListResponse {
    pub users: Vec<UserPublic>,
}

/// Request to change a user's role.
#[derive(Clone, Debug)]
pub struct UpdateUserRoleRequest {
    pub role: Role,
}

/// Request to change one's password.
#[derive(Clone, Debug)]
pub struct ChangePasswordRequest {
    pub current_password: String,
    pub new_password: String,
}

/// Request to update the app settings.
#[derive(Clone, Debug)]
pub struct UpdateSettingsRequest {
    pub registration_enabled: bool,
    pub allow_run_commands: bool,
    pub run_command_sandbox: String,
    pub run_command_default_timeout_secs: u32,
    pub run_command_use_namespaces: bool,
}

/// A refreshed access token.
#[derive(Clone, Debug)]
pub struct RefreshResponse {
    pub token: String,
}

/// Result of logging out everywhere.
#[derive(Clone, Debug)]
pub struct LogoutEverywhereResponse {
    pub revoked_count: i64,
    pub token: String,
}

/// A login session.
#[derive(Clone, Debug)]
pub struct SessionInfo {
    pub id: String,
    pub family_id: String,
    pub created_at: DateTimeUtc,
    pub expires_at: DateTimeUtc,
    pub is_current: bool,
}

/// List of sessions.
#[derive(Clone, Debug)]
pub struct SessionListResponse {
    pub sessions: Vec<SessionInfo>,
}

/// Request to revoke a session family.
#[derive(Clone, Debug)]
pub struct RevokeSessionRequest {
    pub family_id: String,
}

/// Number of revoked sessions.
#[derive(Clone, Debug)]
pub struct RevokeSessionResponse {
    pub revoked_count: i64,
}

/// Request for a WebSocket ticket.
#[derive(Clone, Debug)]
pub struct WsTicketRequest {
    pub scope: Option<String>,
}

/// A WebSocket ticket.
#[derive(Clone, Debug)]
pub struct WsTicketResponse {
    pub ticket: String,
}

/// A user and their level on a server.
#[derive(Clone, Debug)]
pub struct ServerPermissionEntry {
    pub user: UserPublic,
    pub level: PermissionLevel,
}

/// The permissions of a server.
#[derive(Clone, Debug)]
pub struct ServerPermissionsResponse {
    pub permissions: Vec<ServerPermissionEntry>,
}

/// Request to grant a level to a user.
#[derive(Clone, Debug)]
pub struct SetPermissionRequest {
    pub user_id: uuid::Uuid,
    pub level: PermissionLevel,
}

/// Request to remove a user's permission.
#[derive(Clone, Debug)]
pub struct RemovePermissionRequest {
    pub user_id: uuid::Uuid,
}

/// A user's effective level on a server.
#[derive(Clone, Copy, Debug)]
pub struct EffectivePermission {
    pub level: PermissionLevel,
    pub is_global_admin: bool,
}

// ─── Import types ───

/// Request to import a config from a URL.
#[derive(Clone, Debug)]
pub struct ImportUrlRequest {
    pub url: String,
}

/// An imported config.
#[derive(Clone, Debug)]
pub struct ImportUrlResponse {
    pub config: super::server::ServerConfig,
}

/// A config file found in a remote folder.
#[derive(Clone, Debug)]
pub struct RemoteConfigEntry {
    pub name: String,
    pub download_url: String,
}

/// Request to list configs of a remote folder.
#[derive(Clone, Debug)]
pub struct ImportFolderRequest {
    pub url: String,
}

/// Configs of a remote folder.
#[derive(Clone, Debug)]
pub struct ImportFolderResponse {
    pub configs: Vec<RemoteConfigEntry>,
}

} // verus!
