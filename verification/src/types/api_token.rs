//! API tokens: long-lived credentials with a scope.

use vstd::prelude::*;
use crate::text::str_eq;
use crate::time::{DateTimeUtc, earlier, possible_now, utc_now};

verus! {

/// What a token may do: `access` is `"full"` or `"read_only"`; `server_ids`
/// limits it to some servers.
#[derive(Clone, Debug)]
pub struct ApiTokenScope {
    pub access: String,
    pub server_ids: Option<Vec<uuid::Uuid>>,
}

impl Default for ApiTokenScope {
    fn default() -> (r: Self)
        ensures
            r.access@ == "full"@,
            r.server_ids is None,
    {
        ApiTokenScope { access: String::from_str("full"), server_ids: None }
    }
}

impl ApiTokenScope {
    /// The token may only read.
    pub fn is_read_only(&self) -> (r: bool)
        ensures
            r == (self.access@ == "read_only"@),
    {
        str_eq(self.access.as_str(), "read_only")
    }
}

/// A stored API token; only a hash of the secret is kept.
#[derive(Clone, Debug)]
pub struct ApiToken {
    pub id: uuid::Uuid,
    pub user_id: uuid::Uuid,
    pub name: String,
    pub token_hash: String,
    pub scope: ApiTokenScope,
    pub created_at: DateTimeUtc,
    pub expires_at: Option<DateTimeUtc>,
    pub last_used_at: Option<DateTimeUtc>,
    pub revoked: bool,
}

/// The token has an expiry strictly before `now`.
pub open spec fn expired_at(t: ApiToken, now: DateTimeUtc) -> bool {
    t.expires_at matches Some(exp) && earlier(exp, now)
}

impl ApiToken {
    /// Whether the token had expired at `now`.
    pub fn is_expired_at(&self, now: &DateTimeUtc) -> (r: bool)
        ensures
            r == expired_at(*self, *now),
    {
        match &self.expires_at {
            Some(exp) => exp.is_before(now),
            None => false,
        }
    }

    /// Whether the token has expired, by the clock: the answer of
    /// [`ApiToken::is_expired_at`] for the time read, which is not before
    /// the Unix epoch.  So a token without an expiry never expires, and one
    /// whose expiry is before the epoch always has.
    pub fn is_expired(&self) -> (r: bool)
        ensures
            exists|now: DateTimeUtc| possible_now(now) && r == #[trigger] expired_at(*self, now),
            self.expires_at is None ==> !r,
    {
        let now = utc_now();
        self.is_expired_at(&now)
    }

    /// Whether the token can be used at `now`: not revoked and not expired.
    pub fn is_usable_at(&self, now: &DateTimeUtc) -> (r: bool)
        ensures
            r == (!self.revoked && !expired_at(*self, *now)),
    {
        !self.revoked && !self.is_expired_at(now)
    }

    /// Whether the token can be used now, by the clock.  A revoked token
    /// never can; one without an expiry can unless revoked.
    pub fn is_usable(&self) -> (r: bool)
        ensures
            self.revoked ==> !r,
            self.expires_at is None ==> r == !self.revoked,
    {
        let now = utc_now();
        self.is_usable_at(&now)
    }
}

/// Request to create a token.
#[derive(Debug)]
pub struct CreateApiTokenRequest {
    pub name: String,
    pub expires_at: Option<DateTimeUtc>,
    pub scope: ApiTokenScope,
}

/// A created token, with its secret shown once.
#[derive(Debug)]
pub struct CreateApiTokenResponse {
    pub id: uuid::Uuid,
    pub name: String,
    pub token: String,
    pub scope: ApiTokenScope,
    pub created_at: DateTimeUtc,
    pub expires_at: Option<DateTimeUtc>,
}

/// A token as listed: everything but the hash.
#[derive(Debug)]
pub struct ApiTokenInfo {
    pub id: uuid::Uuid,
    pub name: String,
    pub scope: ApiTokenScope,
    pub created_at: DateTimeUtc,
    pub expires_at: Option<DateTimeUtc>,
    pub last_used_at: Option<DateTimeUtc>,
    pub revoked: bool,
}

impl ApiTokenInfo {
    /// The listing entry of `t`.
    pub fn from_token(t: &ApiToken) -> (r: ApiTokenInfo)
        ensures
            r.id == t.id,
            r.name == t.name,
            r.scope.access == t.scope.access,
            r.scope.server_ids is Some <==> t.scope.server_ids is Some,
            r.created_at == t.created_at,
            r.expires_at == t.expires_at,
            r.last_used_at == t.last_used_at,
            r.revoked == t.revoked,
    {
        let server_ids = match &t.scope.server_ids {
            Some(ids) => Some(ids.clone()),
            None => None,
        };
        ApiTokenInfo {
            id: t.id,
            name: t.name.clone(),
            scope: ApiTokenScope { access: t.scope.access.clone(), server_ids },
            created_at: t.created_at,
            expires_at: t.expires_at,
            last_used_at: t.last_used_at,
            revoked: t.revoked,
        }
    }
}

/// The tokens of a user.
#[derive(Debug)]
pub struct ListApiTokensResponse {
    pub tokens: Vec<ApiTokenInfo>,
}

/// Outcome of revoking a token.
#[derive(Clone, Copy, Debug)]
pub struct RevokeApiTokenResponse {
    pub revoked: bool,
}

} // verus!
