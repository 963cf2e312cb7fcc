//! Email alert settings and events.

use vstd::prelude::*;
use crate::time::DateTimeUtc;

verus! {

/// SMTP server settings, password included.
#[derive(Clone, Debug)]
pub struct SmtpConfig {
    pub host: String,
    pub port: u16,
    pub tls: bool,
    pub username: String,
    pub password: String,
    pub from_address: String,
}

/// SMTP settings as shown to clients: the password only as whether one is set.
#[derive(Clone, Debug)]
pub struct SmtpConfigPublic {
    pub host: String,
    pub port: u16,
    pub tls: bool,
    pub username: String,
    pub password_set: bool,
    pub from_address: String,
}

impl SmtpConfigPublic {
    /// The public view of `c`.
    pub fn from_config(c: &SmtpConfig) -> (r: SmtpConfigPublic)
        ensures
            r.host == c.host,
            r.port == c.port,
            r.tls == c.tls,
            r.username == c.username,
            r.password_set == (c.password@.len() > 0),
            r.from_address == c.from_address,
    {
        SmtpConfigPublic {
            host: c.host.clone(),
            port: c.port,
            tls: c.tls,
            username: c.username.clone(),
            password_set: c.password.unicode_len() > 0,
            from_address: c.from_address.clone(),
        }
    }
}

/// Request to save the SMTP settings; no password keeps the stored one.
#[derive(Clone, Debug)]
pub struct SaveSmtpConfigRequest {
    pub host: String,
    pub port: u16,
    pub tls: bool,
    pub username: String,
    pub password: Option<String>,
    pub from_address: String,
}

/// Request to send a test email.
#[derive(Clone, Debug)]
pub struct TestEmailRequest {
    pub recipient: String,
}

/// Outcome of a test email.
#[derive(Clone, Debug)]
pub struct TestEmailResponse {
    pub success: bool,
    pub error: Option<String>,
}

/// Outcome of deleting the SMTP settings.
#[derive(Clone, Copy, Debug)]
pub struct DeleteSmtpConfigResponse {
    pub deleted: bool,
}

/// Whether alerts of one server are muted.
#[derive(Clone, Copy, Debug)]
pub struct ServerAlertConfig {
    pub server_id: uuid::Uuid,
    pub muted: bool,
}

/// Request to mute or unmute a server's alerts.
#[derive(Clone, Copy, Debug)]
pub struct UpdateServerAlertRequest {
    pub muted: bool,
}

/// The kinds of alert.
#[derive(Clone, Copy, Debug, PartialEq, Eq, Structural, Hash)]
pub enum AlertEventKind {
    ServerCrashed,
    RestartExhausted,
    ServerDown,
    HighMemory,
    HighCpu,
    LowDisk,
}

/// The human-readable name of an alert kind.
pub open spec fn alert_name(k: AlertEventKind) -> Seq<char> {
    match k {
        AlertEventKind::ServerCrashed => "Server Crashed"@,
        AlertEventKind::RestartExhausted => "Restart Attempts Exhausted"@,
        AlertEventKind::ServerDown => "Server Down"@,
        AlertEventKind::HighMemory => "High Memory Usage"@,
        AlertEventKind::HighCpu => "High CPU Usage"@,
        AlertEventKind::LowDisk => "Low Disk Space"@,
    }
}

/// The emoji shown with an alert kind.
pub open spec fn alert_emoji(k: AlertEventKind) -> Seq<char> {
    match k {
        AlertEventKind::ServerCrashed => "💥"@,
        AlertEventKind::RestartExhausted => "🔄"@,
        AlertEventKind::ServerDown => "⬇️"@,
        AlertEventKind::HighMemory => "🧠"@,
        AlertEventKind::HighCpu => "🔥"@,
        AlertEventKind::LowDisk => "💾"@,
    }
}

impl AlertEventKind {
    /// Human-readable name, for subjects and bodies.
    pub fn display_name(&self) -> (r: &'static str)
        ensures
            r@ == alert_name(*self),
    {
        match self {
            AlertEventKind::ServerCrashed => "Server Crashed",
            AlertEventKind::RestartExhausted => "Restart Attempts Exhausted",
            AlertEventKind::ServerDown => "Server Down",
            AlertEventKind::HighMemory => "High Memory Usage",
            AlertEventKind::HighCpu => "High CPU Usage",
            AlertEventKind::LowDisk => "Low Disk Space",
        }
    }

    /// Emoji prefix for subject lines.
    pub fn emoji(&self) -> (r: &'static str)
        ensures
            r@ == alert_emoji(*self),
    {
        match self {
            AlertEventKind::ServerCrashed => "💥",
            AlertEventKind::RestartExhausted => "🔄",
            AlertEventKind::ServerDown => "⬇️",
            AlertEventKind::HighMemory => "🧠",
            AlertEventKind::HighCpu => "🔥",
            AlertEventKind::LowDisk => "💾",
        }
    }
}

/// An alert to be sent.
#[derive(Clone, Debug)]
pub struct AlertEvent {
    pub kind: AlertEventKind,
    pub server_id: uuid::Uuid,
    pub server_name: String,
    pub timestamp: DateTimeUtc,
    pub message: String,
}

} // verus!
