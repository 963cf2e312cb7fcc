use anyserver::sftp::{
    confine_to_root, login_accepted, login_hash, sftp_candidate, subsystem_refusal, SubsystemRefusal, DUMMY_HASH,
};

#[test]
fn login_checks_stored_password_when_set() {
    let (hash, real) = login_hash(Some("$argon2id$v=19$stored"));
    assert_eq!(hash, "$argon2id$v=19$stored");
    assert!(real);
}

#[test]
fn login_without_password_uses_dummy_hash() {
    assert_eq!(login_hash(None), (DUMMY_HASH.to_string(), false));
    assert_eq!(login_hash(Some("")), (DUMMY_HASH.to_string(), false));
}

#[test]
fn login_accepted_only_for_real_matching_password() {
    assert!(login_accepted(true, Some(true)));
    assert!(!login_accepted(true, Some(false)));
    assert!(!login_accepted(true, None));
    assert!(!login_accepted(false, Some(true)));
}

#[test]
fn candidate_path_under_root() {
    assert_eq!(sftp_candidate("/data/servers/abc", "/world/level.dat"), "/data/servers/abc/world/level.dat");
    assert_eq!(sftp_candidate("/data/servers/abc", "///"), "/data/servers/abc");
    assert_eq!(sftp_candidate("/data/servers/abc", ""), "/data/servers/abc");
    assert_eq!(sftp_candidate("/data/servers/abc/", "x"), "/data/servers/abc/x");
}

#[test]
fn confinement_refuses_paths_outside_root() {
    assert_eq!(
        confine_to_root("/data/servers/abc", "/data/servers/abc/world".to_string()),
        Some("/data/servers/abc/world".to_string())
    );
    assert_eq!(
        confine_to_root("/data/servers/abc", "/data/servers/abc".to_string()),
        Some("/data/servers/abc".to_string())
    );
    assert_eq!(confine_to_root("/data/servers/abc", "/etc/passwd".to_string()), None);
    assert_eq!(confine_to_root("/data/servers/abc", "/data/servers/abcd".to_string()), None);
}

#[test]
fn subsystem_requests_are_refused() {
    assert_eq!(subsystem_refusal("shell", true, true), SubsystemRefusal::UnknownSubsystem);
    assert_eq!(subsystem_refusal("sftp", false, false), SubsystemRefusal::NotAuthorized);
    assert_eq!(subsystem_refusal("sftp", true, false), SubsystemRefusal::NoRoot);
    assert_eq!(subsystem_refusal("sftp", true, true), SubsystemRefusal::NotImplemented);
}
