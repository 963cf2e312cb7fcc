use std::collections::HashMap;

use anyserver::builtin::list;
use anyserver::rows::{
    invite_code_from_row, permission_from_row, sandbox_profile_from_row, server_from_row,
    template_from_row, user_from_row, InviteCodeRow, PermissionRow, SandboxProfileRow, ServerRow,
    TemplateRow, UserRow,
};
use anyserver::time::DateTimeUtc;
use anyserver::types::auth::{GlobalCapability, PermissionLevel, Role};

const ID_A: &str = "550e8400-e29b-41d4-a716-446655440000";
const ID_B: &str = "6ba7b810-9dad-11d1-80b4-00c04fd430c8";
const T0: &str = "2024-01-02T03:04:05Z";

#[test]
fn permission_row_reads() {
    let row = PermissionRow { user_id: ID_A.into(), server_id: ID_B.into(), level: "manager".into() };
    let p = permission_from_row(row).unwrap();
    assert_eq!(p.level, PermissionLevel::Manager);
    assert_eq!(p.user_id.to_string(), ID_A);
    assert_eq!(p.server_id.to_string(), ID_B);
}

#[test]
fn permission_row_reports_first_bad_field() {
    let bad_level = PermissionRow { user_id: ID_A.into(), server_id: ID_B.into(), level: "god".into() };
    assert_eq!(permission_from_row(bad_level).unwrap_err(), "Invalid permission level: god");
    let bad_both = PermissionRow { user_id: ID_A.into(), server_id: "nope".into(), level: "god".into() };
    assert!(permission_from_row(bad_both).unwrap_err().starts_with("Invalid UUID: "));
}

fn user_row(role: &str, created_at: &str) -> UserRow {
    UserRow {
        id: ID_A.into(),
        username: "alice".into(),
        password_hash: "$argon2id$x".into(),
        role: role.into(),
        created_at: created_at.into(),
        token_generation: 3,
        global_capabilities: "[\"create_servers\"]".into(),
    }
}

#[test]
fn user_row_reads() {
    let u = user_from_row(user_row("admin", T0), Ok(vec![GlobalCapability::CreateServers])).unwrap();
    assert_eq!(u.username, "alice");
    assert_eq!(u.role, Role::Admin);
    assert_eq!(u.token_generation, 3);
    assert_eq!(u.created_at, DateTimeUtc { secs: 1704164645, nanos: 0 });
    assert_eq!(u.global_capabilities, vec![GlobalCapability::CreateServers]);
}

#[test]
fn user_row_errors_in_field_order() {
    assert_eq!(user_from_row(user_row("root", "bad"), Ok(vec![])).unwrap_err(), "Invalid role: root");
    assert!(user_from_row(user_row("user", "bad"), Err("x".into())).unwrap_err().starts_with("Invalid timestamp: "));
    assert_eq!(
        user_from_row(user_row("user", T0), Err("expected value at line 1 column 1".into())).unwrap_err(),
        "Deserialization error: expected value at line 1 column 1"
    );
}

#[test]
fn template_row_computes_integration_flags() {
    let builtin = list().into_iter().find(|t| t.requires_steamcmd).unwrap();
    let row = TemplateRow {
        id: ID_A.into(),
        name: "Valheim".into(),
        description: None,
        config: "{}".into(),
        created_by: ID_B.into(),
        created_at: T0.into(),
        updated_at: T0.into(),
        is_builtin: 0,
    };
    let t = template_from_row(row.clone(), Ok(builtin.config.clone())).unwrap();
    assert!(t.requires_steamcmd);
    assert!(!t.is_builtin);
    assert_eq!(t.name, "Valheim");
    let err = template_from_row(TemplateRow { id: "x".into(), ..row }, Err("eof".into())).unwrap_err();
    assert_eq!(err, "Deserialization error: eof");
}

#[test]
fn server_row_reads_optional_columns() {
    let config = list()[0].config.clone();
    let mut values = HashMap::new();
    values.insert("port".to_string(), "25565".to_string());
    let row = ServerRow {
        id: ID_A.into(),
        owner_id: ID_B.into(),
        config: "{}".into(),
        created_at: T0.into(),
        updated_at: T0.into(),
        parameter_values: "{}".into(),
        installed: 1,
        installed_at: Some(T0.into()),
        updated_via_pipeline_at: None,
        installed_version: Some("1.21".into()),
        source_template_id: None,
    };
    let s = server_from_row(row.clone(), Ok(config.clone()), Ok(values)).unwrap();
    assert!(s.installed);
    assert_eq!(s.installed_at, Some(DateTimeUtc { secs: 1704164645, nanos: 0 }));
    assert_eq!(s.updated_via_pipeline_at, None);
    assert_eq!(s.parameter_values.get("port").map(|v| v.as_str()), Some("25565"));
    assert!(s.source_template_id.is_none());
    let bad = ServerRow { source_template_id: Some("zzz".into()), ..row };
    assert!(server_from_row(bad, Ok(config), Ok(HashMap::new())).unwrap_err().starts_with("Invalid UUID: "));
}

#[test]
fn invite_code_row_reads() {
    let row = InviteCodeRow {
        id: ID_A.into(),
        code: "ABCD-1234".into(),
        created_by: ID_B.into(),
        assigned_role: "user".into(),
        assigned_permissions: "[]".into(),
        assigned_capabilities: "[]".into(),
        expires_at: T0.into(),
        redeemed_by: None,
        redeemed_at: None,
        created_at: T0.into(),
        label: Some("friends".into()),
    };
    let c = invite_code_from_row(row.clone(), Ok(vec![]), Ok(vec![GlobalCapability::ManageTemplates])).unwrap();
    assert_eq!(c.code, "ABCD-1234");
    assert_eq!(c.assigned_role, Role::User);
    assert_eq!(c.label.as_deref(), Some("friends"));
    assert!(c.redeemed_by.is_none());
    let err = invite_code_from_row(InviteCodeRow { redeemed_at: Some("never".into()), ..row }, Ok(vec![]), Ok(vec![]));
    assert!(err.unwrap_err().starts_with("Invalid timestamp: "));
}

#[test]
fn sandbox_profile_row_reads() {
    let row = SandboxProfileRow {
        server_id: ID_A.into(),
        enabled: 1,
        landlock_enabled: 0,
        no_new_privs: 1,
        fd_cleanup: 1,
        non_dumpable: 0,
        namespace_isolation: 0,
        pids_max: 256,
        extra_read_paths: "[]".into(),
        extra_rw_paths: "[]".into(),
        network_isolation: 0,
        seccomp_mode: "basic".into(),
        updated_at: T0.into(),
    };
    let p = sandbox_profile_from_row(row.clone(), Ok(vec!["/opt/java".into()]), Ok(vec![])).unwrap();
    assert!(p.enabled && !p.landlock_enabled && p.no_new_privs);
    assert_eq!(p.pids_max, 256);
    assert_eq!(p.extra_read_paths, vec!["/opt/java".to_string()]);
    assert_eq!(p.seccomp_mode, "basic");
    assert_eq!(
        sandbox_profile_from_row(row, Ok(vec![]), Err("bad".into())).unwrap_err(),
        "Deserialization error: bad"
    );
}
