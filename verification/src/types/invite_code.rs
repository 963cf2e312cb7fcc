//! Invite codes for controlled registration.

use vstd::prelude::*;
use crate::time::DateTimeUtc;
use super::auth::{GlobalCapability, PermissionLevel, Role, UserPublic};

verus! {

/// A stored invite code.
#[derive(Clone, Debug)]
pub struct InviteCode {
    pub id: uuid::Uuid,
    pub code: String,
    pub created_by: uuid::Uuid,
    pub assigned_role: Role,
    pub assigned_permissions: Vec<InvitePermissionGrant>,
    pub assigned_capabilities: Vec<GlobalCapability>,
    pub expires_at: DateTimeUtc,
    pub redeemed_by: Option<uuid::Uuid>,
    pub redeemed_at: Option<DateTimeUtc>,
    pub created_at: DateTimeUtc,
    pub label: Option<String>,
}

/// A server permission granted on redemption.
#[derive(Clone, Copy, Debug)]
pub struct InvitePermissionGrant {
    pub server_id: uuid::Uuid,
    pub level: PermissionLevel,
}

/// An invite code as listed.
#[derive(Clone, Debug)]
pub struct InviteCodePublic {
    pub id: uuid::Uuid,
    pub code: String,
    pub created_by: uuid::Uuid,
    pub created_by_username: Option<String>,
    pub assigned_role: Role,
    pub assigned_permissions: Vec<InvitePermissionGrant>,
    pub assigned_capabilities: Vec<GlobalCapability>,
    pub expires_at: DateTimeUtc,
    pub redeemed_by: Option<uuid::Uuid>,
    pub redeemed_by_username: Option<String>,
    pub redeemed_at: Option<DateTimeUtc>,
    pub created_at: DateTimeUtc,
    pub label: Option<String>,
    /// Not redeemed and not expired.
    pub is_active: bool,
}

/// How long an invite code stays valid.
#[derive(Clone, Copy, Debug, PartialEq, Eq, Structural)]
pub enum InviteExpiry {
    ThirtyMinutes,
    OneHour,
    OneDay,
    ThreeDays,
    SevenDays,
}

/// The validity of an invite code, in seconds.
pub open spec fn expiry_seconds(e: InviteExpiry) -> i64 {
    match e {
        InviteExpiry::ThirtyMinutes => 1800,
        InviteExpiry::OneHour => 3600,
        InviteExpiry::OneDay => 86400,
        InviteExpiry::ThreeDays => 259200,
        InviteExpiry::SevenDays => 604800,
    }
}

/// The duration `chrono::TimeDelta::seconds` builds from a number of
/// seconds.
pub uninterp spec fn timedelta_of_seconds(secs: i64) -> chrono::TimeDelta;

/// `chrono::TimeDelta::seconds`: a duration of `secs` seconds (it panics
/// beyond about `i64::MAX / 1000` seconds either way, far outside what is
/// admitted here).  Claimed: the result is the one [`timedelta_of_seconds`]
/// names (the duration itself is opaque here).
#[verifier::external_body]
fn duration_of_seconds(secs: i64) -> (r: chrono::TimeDelta)
    requires
        0 <= secs <= 604800,
    ensures
        r == timedelta_of_seconds(secs),
{
    chrono::TimeDelta::seconds(secs)
}

impl InviteExpiry {
    /// The validity in seconds.
    pub fn to_seconds(&self) -> (r: i64)
        ensures
            r == expiry_seconds(*self),
    {
        match self {
            InviteExpiry::ThirtyMinutes => 1800,
            InviteExpiry::OneHour => 3600,
            InviteExpiry::OneDay => 86400,
            InviteExpiry::ThreeDays => 259200,
            InviteExpiry::SevenDays => 604800,
        }
    }

    /// The validity as a duration of [`InviteExpiry::to_seconds`] seconds.
    pub fn to_duration(&self) -> (r: chrono::TimeDelta)
        ensures
            r == timedelta_of_seconds(expiry_seconds(*self)),
    {
        duration_of_seconds(self.to_seconds())
    }
}

/// Request to create an invite code.
#[derive(Debug)]
pub struct CreateInviteCodeRequest {
    pub expiry: InviteExpiry,
    pub assigned_role: Role,
    pub assigned_permissions: Vec<InvitePermissionGrant>,
    pub assigned_capabilities: Vec<GlobalCapability>,
    pub label: Option<String>,
}

/// A created invite code.
#[derive(Debug)]
pub struct CreateInviteCodeResponse {
    pub invite: InviteCodePublic,
}

/// The invite codes.
#[derive(Debug)]
pub struct InviteCodeListResponse {
    pub invites: Vec<InviteCodePublic>,
}

/// Request to change what an invite code grants.
#[derive(Debug)]
pub struct UpdateInvitePermissionsRequest {
    pub assigned_role: Role,
    pub assigned_permissions: Vec<InvitePermissionGrant>,
}

/// Request to register with an invite code.
#[derive(Clone, Debug)]
pub struct RedeemInviteCodeRequest {
    pub code: String,
    pub username: String,
    pub password: String,
}

/// A registration by invite code.
#[derive(Debug)]
pub struct RedeemInviteCodeResponse {
    pub token: String,
    pub user: UserPublic,
}

/// Outcome of deleting an invite code.
#[derive(Clone, Debug)]
pub struct DeleteInviteCodeResponse {
    pub deleted: bool,
    pub id: String,
}

/// A user and the servers they may access.
#[derive(Clone, Debug)]
pub struct UserPermissionSummary {
    pub user_id: uuid::Uuid,
    pub username: String,
    pub role: Role,
    pub server_permissions: Vec<UserServerPermission>,
}

/// A user's permission on one server.
#[derive(Clone, Debug)]
pub struct UserServerPermission {
    pub server_id: uuid::Uuid,
    pub server_name: String,
    pub level: PermissionLevel,
    /// Held through ownership or the admin role rather than a grant.
    pub is_implicit: bool,
}

/// The users and their permissions.
#[derive(Debug)]
pub struct UserPermissionListResponse {
    pub users: Vec<UserPermissionSummary>,
}

} // verus!
