use anyserver::files::{mode_to_octal_string, mode_to_rwx_string, parse_octal_mode};
use anyserver::time::DateTimeUtc;
use anyserver::types::alerts::{AlertEventKind, SmtpConfig, SmtpConfigPublic};
use anyserver::types::api::ListServersParams;
use anyserver::types::api_token::{ApiToken, ApiTokenInfo, ApiTokenScope};
use anyserver::types::auth::PermissionLevel;
use anyserver::types::invite_code::InviteExpiry;
use anyserver::types::sandbox::SandboxProfile;

fn token(expires_at: Option<DateTimeUtc>, revoked: bool) -> ApiToken {
    ApiToken {
        id: uuid::Uuid::nil(),
        user_id: uuid::Uuid::nil(),
        name: "t".into(),
        token_hash: "h".into(),
        scope: ApiTokenScope::default(),
        created_at: DateTimeUtc { secs: 0, nanos: 0 },
        expires_at,
        last_used_at: None,
        revoked,
    }
}

#[test]
fn alert_kind_names() {
    assert_eq!(AlertEventKind::ServerCrashed.display_name(), "Server Crashed");
    assert_eq!(AlertEventKind::RestartExhausted.display_name(), "Restart Attempts Exhausted");
    assert_eq!(AlertEventKind::LowDisk.display_name(), "Low Disk Space");
    assert_eq!(AlertEventKind::HighCpu.emoji(), "🔥");
    assert_eq!(AlertEventKind::ServerDown.emoji(), "⬇️");
}

#[test]
fn smtp_public_view_hides_password() {
    let c = SmtpConfig {
        host: "smtp.example.com".into(),
        port: 587,
        tls: true,
        username: "u".into(),
        password: "secret".into(),
        from_address: "a@example.com".into(),
    };
    let p = SmtpConfigPublic::from_config(&c);
    assert!(p.password_set);
    assert_eq!(p.port, 587);
    let empty = SmtpConfig { password: String::new(), ..c };
    assert!(!SmtpConfigPublic::from_config(&empty).password_set);
}

#[test]
fn api_token_scope_and_expiry() {
    let scope = ApiTokenScope::default();
    assert_eq!(scope.access, "full");
    assert!(!scope.is_read_only());
    let ro = ApiTokenScope { access: "read_only".into(), server_ids: None };
    assert!(ro.is_read_only());
    let now = DateTimeUtc { secs: 100, nanos: 0 };
    assert!(token(Some(DateTimeUtc { secs: 99, nanos: 999 }), false).is_expired_at(&now));
    assert!(!token(Some(DateTimeUtc { secs: 100, nanos: 0 }), false).is_expired_at(&now));
    assert!(!token(None, false).is_expired());
    assert!(token(None, false).is_usable());
    assert!(!token(None, true).is_usable());
    assert!(!token(Some(DateTimeUtc { secs: 1, nanos: 0 }), false).is_usable());
    let info = ApiTokenInfo::from_token(&token(None, true));
    assert!(info.revoked);
    assert_eq!(info.scope.access, "full");
}

#[test]
fn invite_expiry_durations() {
    assert_eq!(InviteExpiry::ThirtyMinutes.to_seconds(), 1800);
    assert_eq!(InviteExpiry::OneHour.to_seconds(), 3600);
    assert_eq!(InviteExpiry::OneDay.to_seconds(), 86400);
    assert_eq!(InviteExpiry::ThreeDays.to_seconds(), 259200);
    assert_eq!(InviteExpiry::SevenDays.to_duration().num_seconds(), 604800);
}

#[test]
fn sandbox_defaults() {
    let p = SandboxProfile::default();
    assert!(p.enabled && p.landlock_enabled && p.no_new_privs && p.fd_cleanup && p.non_dumpable);
    assert!(p.namespace_isolation);
    assert!(!p.network_isolation);
    assert_eq!(p.seccomp_mode, "off");
    assert_eq!(p.pids_max, 0);
    assert!(p.server_id.is_nil());
}

#[test]
fn list_servers_defaults() {
    let p = ListServersParams::default();
    assert_eq!((p.page, p.per_page), (1, 25));
    assert_eq!(p.sort, "name");
    assert_eq!(p.order, "asc");
}

#[test]
fn file_modes() {
    assert_eq!(mode_to_octal_string(0o100755), "755");
    assert_eq!(mode_to_octal_string(0o644), "644");
    assert_eq!(mode_to_rwx_string(0o755), "rwxr-xr-x");
    assert_eq!(mode_to_rwx_string(0o640), "rw-r-----");
    assert_eq!(parse_octal_mode("755"), Some(0o755));
    assert_eq!(parse_octal_mode("+644"), Some(0o644));
    assert_eq!(parse_octal_mode("7777"), Some(0o7777));
    assert_eq!(parse_octal_mode("17777"), None);
    assert_eq!(parse_octal_mode("789"), None);
    assert_eq!(parse_octal_mode(""), None);
}

#[test]
fn permission_levels_are_cumulative() {
    assert!(PermissionLevel::Owner.at_least(PermissionLevel::Viewer));
    assert!(!PermissionLevel::Viewer.at_least(PermissionLevel::Operator));
    assert!(PermissionLevel::Manager.can_manage_files());
    assert!(!PermissionLevel::Operator.can_edit_config());
    assert!(PermissionLevel::Admin.can_manage_permissions());
}

#[test]
fn octal_mode_round_trips() {
    for mode in [0o100755u32, 0o644, 0o7777, 0, 0o40700, 0o1777] {
        assert_eq!(parse_octal_mode(&mode_to_octal_string(mode)), Some(mode & 0o7777));
    }
}
