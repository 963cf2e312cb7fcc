//! SteamCMD availability and Steam app-ID validation.
//!
//! Looking for the binary on `PATH` and asking the Steam store are done by
//! the caller; this module decides what those findings mean.

use vstd::prelude::*;
use crate::json::{JsonValue, member_of};
use crate::numeric::u32_to_usize;
use crate::text::{decimal_digits, push_decimal};
use crate::types::pipeline::{PipelineStep, StepAction};
use crate::types::server::ServerConfig;

verus! {

/// Result of checking whether SteamCMD is available on this host.
#[derive(Clone, Debug)]
pub struct SteamCmdStatus {
    /// `true` when a `steamcmd` binary was found on `PATH`.
    pub available: bool,
    /// Path of the `steamcmd` binary, if found.
    pub path: Option<String>,
    /// Human-readable message.
    pub message: Option<String>,
}

/// Response of the SteamCMD status endpoint.
#[derive(Clone, Debug)]
pub struct SteamCmdStatusResponse {
    pub status: SteamCmdStatus,
}

/// A validated Steam application.
#[derive(Clone, Debug)]
pub struct SteamAppInfo {
    pub app_id: u32,
    pub name: String,
}

/// Response of the app-validation endpoint.
#[derive(Clone, Debug)]
pub struct ValidateAppResponse {
    pub valid: bool,
    pub app: Option<SteamAppInfo>,
    pub error: Option<String>,
}

/// Query of the app-validation endpoint.
#[derive(Clone, Copy, Debug)]
pub struct ValidateAppQuery {
    pub app_id: u32,
}

/// How long a cached detection result stays fresh, in seconds.
pub const STEAMCMD_CACHE_TTL_SECS: u64 = 60;

/// A cached detection result that is `elapsed_secs` old must be renewed.
pub fn steamcmd_cache_expired(elapsed_secs: u64) -> (r: bool)
    ensures
        r == (elapsed_secs >= STEAMCMD_CACHE_TTL_SECS),
{
    elapsed_secs >= STEAMCMD_CACHE_TTL_SECS
}

/// A copy of `s`.
pub fn copy_status(s: &SteamCmdStatus) -> (r: SteamCmdStatus)
    ensures
        r == *s,
{
    SteamCmdStatus {
        available: s.available,
        path: match &s.path {
            Some(p) => Some(p.clone()),
            None => None,
        },
        message: match &s.message {
            Some(m) => Some(m.clone()),
            None => None,
        },
    }
}

/// The last detection result and when it was made, in seconds on a
/// monotonic clock.
pub struct SteamCmdCache {
    status: Option<SteamCmdStatus>,
    checked_at_secs: u64,
    invalidated: bool,
}

impl SteamCmdCache {
    /// The cached status, if any.
    pub closed spec fn cached(&self) -> Option<SteamCmdStatus> {
        self.status
    }

    /// The cached status may be served at `now`: there is one, it was not
    /// invalidated, and fewer than [`STEAMCMD_CACHE_TTL_SECS`] seconds
    /// passed since it was stored.
    pub closed spec fn fresh_at(&self, now: u64) -> bool {
        &&& self.status is Some
        &&& !self.invalidated
        &&& !(now >= self.checked_at_secs && now - self.checked_at_secs >= STEAMCMD_CACHE_TTL_SECS)
    }

    /// An empty cache.
    pub fn new() -> (r: SteamCmdCache)
        ensures
            r.cached() is None,
            forall|now: u64| !r.fresh_at(now),
    {
        SteamCmdCache { status: None, checked_at_secs: 0, invalidated: false }
    }

    /// Whether a fresh detection is due at `now`.
    pub fn needs_refresh(&self, now: u64) -> (r: bool)
        ensures
            r == !self.fresh_at(now),
    {
        match &self.status {
            None => true,
            Some(_) => self.invalidated || (now >= self.checked_at_secs && steamcmd_cache_expired(
                now - self.checked_at_secs,
            )),
        }
    }

    /// Keep `status`, detected at `now`.
    pub fn store(&mut self, status: SteamCmdStatus, now: u64)
        ensures
            final(self).cached() == Some(status),
            forall|t: u64| now <= t < now + STEAMCMD_CACHE_TTL_SECS ==> final(self).fresh_at(t),
            forall|t: u64| t >= now + STEAMCMD_CACHE_TTL_SECS ==> !final(self).fresh_at(t),
    {
        self.status = Some(status);
        self.checked_at_secs = now;
        self.invalidated = false;
    }

    /// A copy of the cached status.
    pub fn current(&self) -> (r: Option<SteamCmdStatus>)
        ensures
            r == self.cached(),
    {
        match &self.status {
            Some(s) => Some(copy_status(s)),
            None => None,
        }
    }
}

/// Make the next lookup detect afresh, whatever the time.
pub fn invalidate_steamcmd_cache(cache: &mut SteamCmdCache)
    ensures
        final(cache).cached() == old(cache).cached(),
        forall|now: u64| !final(cache).fresh_at(now),
{
    cache.invalidated = true;
}

/// The status for the outcome of the `PATH` lookup: `found` is the path of
/// the `steamcmd` binary when one was found.
pub fn detect_steamcmd(found: Option<String>) -> (r: SteamCmdStatus)
    ensures
        r.available == (found is Some),
        r.path == found,
        r.message matches Some(m) && m@ == (if found is Some {
            "steamcmd found on PATH"@
        } else {
            "steamcmd not found on PATH. Please install SteamCMD and ensure it is in your PATH."@
        }),
{
    match found {
        Some(p) => SteamCmdStatus {
            available: true,
            path: Some(p),
            message: Some(String::from_str("steamcmd found on PATH")),
        },
        None => SteamCmdStatus {
            available: false,
            path: None,
            message: Some(
                String::from_str(
                    "steamcmd not found on PATH. Please install SteamCMD and ensure it is in your PATH.",
                ),
            ),
        },
    }
}

/// The path to run `steamcmd` by, or why it cannot be run, for the outcome
/// of the `PATH` lookup.
pub fn steamcmd_path(found: Option<String>) -> (r: Result<String, String>)
    ensures
        match found {
            Some(p) => r matches Ok(q) && q@ == p@,
            None => r matches Err(e) && e@
                == "steamcmd not found on PATH. Please install SteamCMD and ensure it is in your PATH."@,
        },
{
    let status = detect_steamcmd(found);
    if status.available {
        match status.path {
            Some(p) => Ok(p),
            None => Ok(String::from_str("steamcmd")),
        }
    } else {
        match status.message {
            Some(m) => Err(m),
            None => Err(String::from_str("SteamCMD is not installed or not on PATH")),
        }
    }
}

/// Display name of the dedicated-server apps known without asking Steam.
pub open spec fn known_app_name(app_id: u32) -> Option<Seq<char>> {
    if app_id == 896660 {
        Some("Valheim Dedicated Server"@)
    } else {
        None
    }
}

/// The built-in answer for an app ID, used when the store cannot be asked.
pub fn known_app_fallback(app_id: u32) -> (r: Option<SteamAppInfo>)
    ensures
        match known_app_name(app_id) {
            Some(n) => r matches Some(info) && info.app_id == app_id && info.name@ == n,
            None => r is None,
        },
{
    if app_id == 896660 {
        Some(SteamAppInfo { app_id, name: String::from_str("Valheim Dedicated Server") })
    } else {
        None
    }
}

/// The store URL that describes `app_id`.
pub fn app_details_url(app_id: u32) -> (r: String)
    ensures
        r@ == "https://store.steampowered.com/api/appdetails?appids="@ + decimal_digits(app_id as nat),
{
    let mut s = String::from_str("https://store.steampowered.com/api/appdetails?appids=");
    push_decimal(&mut s, u32_to_usize(app_id));
    s
}

/// What came back when the Steam store was asked about an app.
#[derive(Debug)]
pub enum StoreReply {
    /// The request failed or timed out; the error as printed.
    SendFailed(String),
    /// The store answered with an unsuccessful status; the status as printed.
    HttpStatus(String),
    /// The body was not JSON; the parser's error as printed.
    BadBody(String),
    /// The parsed body.
    Body(JsonValue),
}

/// A boolean member, `false` when it is missing or not a boolean.
pub open spec fn bool_or_false(v: Option<JsonValue>) -> bool {
    match v {
        Some(JsonValue::Bool(b)) => b,
        _ => false,
    }
}

/// A string member's text, `"Unknown"` when it is missing or not a string.
pub open spec fn name_or_unknown(v: Option<JsonValue>) -> Seq<char> {
    match v {
        Some(JsonValue::String(s)) => s@,
        _ => "Unknown"@,
    }
}

/// The store's verdict on `app_id` before any fallback: the app's name, or
/// why there is none.
pub open spec fn store_verdict(app_id: u32, reply: StoreReply) -> Result<Seq<char>, Seq<char>> {
    let id = decimal_digits(app_id as nat);
    match reply {
        StoreReply::SendFailed(e) => Err("Failed to query Steam store API: "@ + e@),
        StoreReply::HttpStatus(st) => Err("Steam store API returned status "@ + st@),
        StoreReply::BadBody(e) => Err("Failed to parse Steam store API response: "@ + e@),
        StoreReply::Body(body) => match member_of(body, id) {
            None => Err("No data returned for app ID "@ + id),
            Some(app) => if !bool_or_false(member_of(app, "success"@)) {
                Err("Steam app ID "@ + id + " is not valid or not publicly accessible"@)
            } else {
                match member_of(app, "data"@) {
                    None => Err("No data section for app ID "@ + id),
                    Some(data) => Ok(name_or_unknown(member_of(data, "name"@))),
                }
            },
        },
    }
}

/// The answer on `app_id`: the store's name when it gave one; otherwise the
/// built-in name when there is one, else the store's reason.
pub open spec fn validation_outcome(app_id: u32, reply: StoreReply) -> Result<Seq<char>, Seq<char>> {
    match store_verdict(app_id, reply) {
        Ok(name) => Ok(name),
        Err(e) => match known_app_name(app_id) {
            Some(n) => Ok(n),
            None => Err(e),
        },
    }
}

fn message_with(prefix: &str, detail: &String) -> (r: String)
    ensures
        r@ == prefix@ + detail@,
{
    let mut s = String::from_str(prefix);
    s.append(detail.as_str());
    s
}

fn message_with_id(prefix: &str, app_id: u32, suffix: &str) -> (r: String)
    ensures
        r@ == prefix@ + decimal_digits(app_id as nat) + suffix@,
{
    let mut s = String::from_str(prefix);
    push_decimal(&mut s, u32_to_usize(app_id));
    s.append(suffix);
    s
}

fn id_message(prefix: &str, app_id: u32) -> (r: String)
    ensures
        r@ == prefix@ + decimal_digits(app_id as nat),
{
    let mut s = String::from_str(prefix);
    push_decimal(&mut s, u32_to_usize(app_id));
    s
}

fn store_name(data: &JsonValue) -> (r: String)
    ensures
        r@ == name_or_unknown(member_of(*data, "name"@)),
{
    match data.get("name") {
        Some(JsonValue::String(s)) => s.clone(),
        _ => String::from_str("Unknown"),
    }
}

fn store_answer(app_id: u32, reply: &StoreReply) -> (r: Result<String, String>)
    ensures
        match store_verdict(app_id, *reply) {
            Ok(n) => r matches Ok(x) && x@ == n,
            Err(e) => r matches Err(x) && x@ == e,
        },
{
    match reply {
        StoreReply::SendFailed(e) => Err(message_with("Failed to query Steam store API: ", e)),
        StoreReply::HttpStatus(st) => Err(message_with("Steam store API returned status ", st)),
        StoreReply::BadBody(e) => Err(message_with("Failed to parse Steam store API response: ", e)),
        StoreReply::Body(body) => {
            let mut key = String::new();
            push_decimal(&mut key, u32_to_usize(app_id));
            assert(key@ =~= decimal_digits(app_id as nat));
            let app = match body.get(key.as_str()) {
                Some(a) => a,
                None => {
                    return Err(id_message("No data returned for app ID ", app_id));
                },
            };
            let success = match app.get("success") {
                Some(JsonValue::Bool(b)) => *b,
                _ => false,
            };
            if !success {
                return Err(
                    message_with_id(
                        "Steam app ID ",
                        app_id,
                        " is not valid or not publicly accessible",
                    ),
                );
            }
            match app.get("data") {
                Some(data) => Ok(store_name(data)),
                None => Err(id_message("No data section for app ID ", app_id)),
            }
        },
    }
}

/// Law: an app on the built-in list validates whatever the store answers
/// (a failed or negative store reply falls back to the built-in name).
pub proof fn law_known_app_always_validates(app_id: u32, reply: StoreReply)
    requires
        known_app_name(app_id) is Some,
    ensures
        validation_outcome(app_id, reply) is Ok,
        store_verdict(app_id, reply) is Err ==> validation_outcome(app_id, reply) == Ok::<
            Seq<char>,
            Seq<char>,
        >(known_app_name(app_id)->0),
{
}

/// Decide whether `app_id` names a Steam application, from what the store
/// answered; a known dedicated-server app is accepted by its built-in name
/// whenever the store gives no name.
pub fn validate_app_reply(app_id: u32, reply: &StoreReply) -> (r: Result<SteamAppInfo, String>)
    ensures
        match validation_outcome(app_id, *reply) {
            Ok(n) => r matches Ok(info) && info.app_id == app_id && info.name@ == n,
            Err(e) => r matches Err(x) && x@ == e,
        },
{
    match store_answer(app_id, reply) {
        Ok(name) => Ok(SteamAppInfo { app_id, name }),
        Err(e) => match known_app_fallback(app_id) {
            Some(info) => Ok(info),
            None => Err(e),
        },
    }
}

/// The step runs SteamCMD.
pub open spec fn is_steamcmd_step(step: PipelineStep) -> bool {
    step.action is SteamCmdInstall || step.action is SteamCmdUpdate
}

/// Some step of `steps` runs SteamCMD.
pub open spec fn has_steamcmd_step(steps: Seq<PipelineStep>) -> bool {
    exists|i: int| 0 <= i < steps.len() && is_steamcmd_step(#[trigger] steps[i])
}

fn steps_use_steamcmd(steps: &Vec<PipelineStep>) -> (r: bool)
    ensures
        r == has_steamcmd_step(steps@),
{
    let mut i: usize = 0;
    while i < steps.len()
        invariant
            i <= steps@.len(),
            forall|k: int| 0 <= k < i ==> !is_steamcmd_step(#[trigger] steps@[k]),
        decreases steps@.len() - i,
    {
        match &steps[i].action {
            StepAction::SteamCmdInstall { .. } | StepAction::SteamCmdUpdate { .. } => {
                return true;
            },
            _ => {},
        }
        i = i + 1;
    }
    false
}

/// The configuration needs SteamCMD: it names a Steam app, or one of its
/// pipelines has a SteamCMD step.
pub open spec fn requires_steamcmd(config: ServerConfig) -> bool {
    ||| config.steam_app_id is Some
    ||| has_steamcmd_step(config.install_steps@)
    ||| has_steamcmd_step(config.update_steps@)
    ||| has_steamcmd_step(config.uninstall_steps@)
    ||| has_steamcmd_step(config.start_steps@)
    ||| has_steamcmd_step(config.stop_steps@)
}

/// The action installs or updates a Steam application with SteamCMD.
pub open spec fn runs_steamcmd(a: StepAction) -> bool {
    a is SteamCmdInstall || a is SteamCmdUpdate
}

/// A configuration needs SteamCMD exactly when it names a Steam app, or a
/// step of one of its pipelines (install, update, uninstall, start or stop)
/// installs or updates with SteamCMD; each pipeline counts on its own.
pub proof fn law_steamcmd_needed_by_any_pipeline(config: ServerConfig, i: int)
    ensures
        0 <= i < config.install_steps@.len() && runs_steamcmd(config.install_steps@[i].action)
            ==> requires_steamcmd(config),
        0 <= i < config.update_steps@.len() && runs_steamcmd(config.update_steps@[i].action)
            ==> requires_steamcmd(config),
        0 <= i < config.uninstall_steps@.len() && runs_steamcmd(
            config.uninstall_steps@[i].action,
        ) ==> requires_steamcmd(config),
        0 <= i < config.start_steps@.len() && runs_steamcmd(config.start_steps@[i].action)
            ==> requires_steamcmd(config),
        0 <= i < config.stop_steps@.len() && runs_steamcmd(config.stop_steps@[i].action)
            ==> requires_steamcmd(config),
        config.steam_app_id is Some ==> requires_steamcmd(config),
        requires_steamcmd(config) ==> config.steam_app_id is Some || (exists|k: int|
            0 <= k < config.install_steps@.len() && runs_steamcmd(
                #[trigger] config.install_steps@[k].action,
            )) || (exists|k: int|
            0 <= k < config.update_steps@.len() && runs_steamcmd(
                #[trigger] config.update_steps@[k].action,
            )) || (exists|k: int|
            0 <= k < config.uninstall_steps@.len() && runs_steamcmd(
                #[trigger] config.uninstall_steps@[k].action,
            )) || (exists|k: int|
            0 <= k < config.start_steps@.len() && runs_steamcmd(
                #[trigger] config.start_steps@[k].action,
            )) || (exists|k: int|
            0 <= k < config.stop_steps@.len() && runs_steamcmd(
                #[trigger] config.stop_steps@[k].action,
            )),
{
    if 0 <= i < config.install_steps@.len() {
        assert(is_steamcmd_step(config.install_steps@[i]) == runs_steamcmd(config.install_steps@[i].action));
    }
    if 0 <= i < config.update_steps@.len() {
        assert(is_steamcmd_step(config.update_steps@[i]) == runs_steamcmd(config.update_steps@[i].action));
    }
    if 0 <= i < config.uninstall_steps@.len() {
        assert(is_steamcmd_step(config.uninstall_steps@[i]) == runs_steamcmd(config.uninstall_steps@[i].action));
    }
    if 0 <= i < config.start_steps@.len() {
        assert(is_steamcmd_step(config.start_steps@[i]) == runs_steamcmd(config.start_steps@[i].action));
    }
    if 0 <= i < config.stop_steps@.len() {
        assert(is_steamcmd_step(config.stop_steps@[i]) == runs_steamcmd(config.stop_steps@[i].action));
    }
}

/// Whether a server configuration uses SteamCMD.
pub fn config_requires_steamcmd(config: &ServerConfig) -> (r: bool)
    ensures
        r == requires_steamcmd(*config),
{
    config.steam_app_id.is_some() || steps_use_steamcmd(&config.install_steps)
        || steps_use_steamcmd(&config.update_steps) || steps_use_steamcmd(&config.uninstall_steps)
        || steps_use_steamcmd(&config.start_steps) || steps_use_steamcmd(&config.stop_steps)
}

} // verus!
