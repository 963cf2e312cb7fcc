use anyserver::rows::{api_token_from_row, ApiTokenRow};
use anyserver::storage::{
    bool_to_int, escape_like, format_permission_level, is_valid_argon2_hash,
    make_search_pattern, page_window, parse_optional_timestamp, parse_permission_level, parse_role,
    parse_timestamp, parse_uuid, server_order_clause, sftp_password_needs_migration,
};
use anyserver::time::DateTimeUtc;
use anyserver::types::api_token::ApiTokenScope;
use anyserver::types::auth::{PermissionLevel, Role};

#[test]
fn like_wildcards_are_escaped() {
    assert_eq!(escape_like("50%_off\\"), "50\\%\\_off\\\\");
    assert_eq!(escape_like("plain"), "plain");
    assert_eq!(make_search_pattern(Some("a_b")), Some("%a\\_b%".to_string()));
    assert_eq!(make_search_pattern(None), None);
}

#[test]
fn order_clauses() {
    assert_eq!(server_order_clause("created_at", "desc"), "s.created_at DESC");
    assert_eq!(server_order_clause("created_at", "asc"), "s.created_at ASC");
    assert_eq!(server_order_clause("name", "desc"), "json_extract(s.config, '$.name') DESC");
    assert_eq!(server_order_clause("anything", "sideways"), "json_extract(s.config, '$.name') ASC");
}

#[test]
fn paging_is_clamped() {
    assert_eq!(page_window(1, 25), (25, 0));
    assert_eq!(page_window(3, 10), (10, 20));
    assert_eq!(page_window(0, 0), (1, 0));
    assert_eq!(page_window(2, 500), (100, 100));
}

#[test]
fn stored_forms() {
    assert_eq!(bool_to_int(true), 1);
    assert_eq!(bool_to_int(false), 0);
    assert_eq!(parse_role("admin").unwrap(), Role::Admin);
    assert_eq!(parse_role("user").unwrap(), Role::User);
    assert_eq!(parse_role("root").unwrap_err(), "Invalid role: root");
    for level in [
        PermissionLevel::Viewer,
        PermissionLevel::Operator,
        PermissionLevel::Manager,
        PermissionLevel::Admin,
        PermissionLevel::Owner,
    ] {
        assert_eq!(parse_permission_level(&format_permission_level(level)).unwrap(), level);
    }
    assert_eq!(format_permission_level(PermissionLevel::Manager), "manager");
    assert_eq!(parse_permission_level("god").unwrap_err(), "Invalid permission level: god");
}

#[test]
fn identifiers_and_timestamps() {
    assert!(parse_uuid("67e55044-10b1-426f-9247-bb680e5fe0c8").is_ok());
    assert!(parse_uuid("nope").unwrap_err().starts_with("Invalid UUID: "));
    assert_eq!(
        parse_timestamp("2025-01-01T00:00:00Z").unwrap(),
        DateTimeUtc { secs: 1_735_689_600, nanos: 0 }
    );
    assert_eq!(
        parse_timestamp("2025-01-01T01:00:00.5+01:00").unwrap(),
        DateTimeUtc { secs: 1_735_689_600, nanos: 500_000_000 }
    );
    assert!(parse_timestamp("yesterday").unwrap_err().starts_with("Invalid timestamp: "));
    assert_eq!(parse_optional_timestamp(&None).unwrap(), None);
}

#[test]
fn token_rows() {
    let row = ApiTokenRow {
        id: "67e55044-10b1-426f-9247-bb680e5fe0c8".into(),
        user_id: "67e55044-10b1-426f-9247-bb680e5fe0c9".into(),
        name: "ci".into(),
        token_hash: "h".into(),
        scope: "{}".into(),
        created_at: "2025-01-01T00:00:00Z".into(),
        expires_at: None,
        last_used_at: Some("2025-01-02T00:00:00Z".into()),
        revoked: 1,
    };
    let token = api_token_from_row(row.clone(), ApiTokenScope::default()).unwrap();
    assert_eq!(token.name, "ci");
    assert!(token.revoked);
    assert_eq!(token.last_used_at, Some(DateTimeUtc { secs: 1_735_776_000, nanos: 0 }));
    let mut bad = row;
    bad.created_at = "never".into();
    assert!(api_token_from_row(bad, ApiTokenScope::default()).is_err());
}

#[test]
fn sftp_password_migration_decision() {
    let hashed = "$argon2id$v=19$m=19456,t=2,p=1$c29tZXNhbHQ$RdescudvJCsgt3ub+b+dWRWJTmaaJObG";
    assert!(is_valid_argon2_hash(hashed));
    assert!(!is_valid_argon2_hash("hunter2"));
    assert!(!is_valid_argon2_hash(""));
    assert!(sftp_password_needs_migration(&Some("hunter2".into())));
    assert!(!sftp_password_needs_migration(&Some(hashed.into())));
    assert!(!sftp_password_needs_migration(&Some(String::new())));
    assert!(!sftp_password_needs_migration(&None));
}

#[test]
fn escaped_search_reads_back_literally() {
    let escaped = escape_like("50%_off\\now");
    assert_eq!(escaped, "50\\%\\_off\\\\now");
    let mut literal = String::new();
    let mut chars = escaped.chars();
    while let Some(c) = chars.next() {
        assert!(c != '%' && c != '_', "unescaped wildcard");
        if c == '\\' {
            literal.push(chars.next().expect("dangling escape"));
        } else {
            literal.push(c);
        }
    }
    assert_eq!(literal, "50%_off\\now");
}

#[test]
fn consecutive_pages_are_adjacent() {
    for per_page in [0u32, 1, 25, 100, 500] {
        for page in 1u32..5 {
            let (size, offset) = page_window(page, per_page);
            let (next_size, next_offset) = page_window(page + 1, per_page);
            assert_eq!(size, next_size);
            assert_eq!(next_offset, offset + size);
        }
    }
}
