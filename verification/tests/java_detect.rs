use anyserver::java::{generate_java_env_vars, java_home_for, parse_major_version, parse_runtime_name, parse_version_string};

fn env_get<'a>(env: &'a [(String, String)], key: &str) -> Option<&'a str> {
    env.iter().find(|(k, _)| k == key).map(|(_, v)| v.as_str())
}

#[test]
fn test_parse_version_openjdk_21() {
    let v = parse_version_string(r#"openjdk version "21.0.2" 2024-01-16"#);
    assert_eq!(v, Some("21.0.2".into()));
}

#[test]
fn test_parse_version_java_8() {
    let v = parse_version_string(r#"java version "1.8.0_392""#);
    assert_eq!(v, Some("1.8.0_392".into()));
}

#[test]
fn test_parse_version_openjdk_17() {
    let v = parse_version_string(r#"openjdk version "17.0.9" 2023-10-17"#);
    assert_eq!(v, Some("17.0.9".into()));
}

#[test]
fn test_parse_major_version_21() {
    assert_eq!(parse_major_version("21.0.2"), 21);
}

#[test]
fn test_parse_major_version_8_old_scheme() {
    assert_eq!(parse_major_version("1.8.0_392"), 8);
}

#[test]
fn test_parse_major_version_17() {
    assert_eq!(parse_major_version("17.0.9"), 17);
}

#[test]
fn test_parse_major_version_11() {
    assert_eq!(parse_major_version("11.0.21"), 11);
}

#[test]
fn test_parse_runtime_name_openjdk() {
    let name = parse_runtime_name("OpenJDK Runtime Environment (build 21.0.2+13-58)");
    assert_eq!(name, "OpenJDK Runtime Environment");
}

#[test]
fn test_parse_runtime_name_graalvm() {
    let name = parse_runtime_name("GraalVM CE 21.0.2+13.1 (build 21.0.2+13-jvmci-23.1-b30)");
    assert_eq!(name, "GraalVM CE 21.0.2+13.1");
}

#[test]
fn test_parse_runtime_name_empty() {
    assert_eq!(parse_runtime_name(""), "Unknown Java Runtime");
}

#[test]
fn test_parse_runtime_name_no_parens() {
    assert_eq!(parse_runtime_name("Some Custom Runtime"), "Some Custom Runtime");
}

#[test]
fn test_generate_java_env_vars() {
    let env = generate_java_env_vars("/usr/lib/jvm/java-21");
    assert_eq!(env_get(&env, "JAVA_HOME").unwrap(), "/usr/lib/jvm/java-21");
    assert_eq!(env.len(), 1, "should only contain JAVA_HOME");
}

#[test]
fn test_generate_java_env_vars_nix_store() {
    let env = generate_java_env_vars("/nix/store/abc123-openjdk-21.0.2");
    assert_eq!(env_get(&env, "JAVA_HOME").unwrap(), "/nix/store/abc123-openjdk-21.0.2");
}

#[test]
fn parse_version_without_quotes_uses_version_word() {
    assert_eq!(parse_version_string("openjdk 21.0.2 2024-01-16"), Some("21.0.2".into()));
    assert_eq!(parse_version_string("no version here"), None);
}

#[test]
fn parse_major_version_unparsable_is_zero() {
    assert_eq!(parse_major_version("abc"), 0);
    assert_eq!(parse_major_version("1"), 1);
}

#[test]
fn test_java_home_derived_from_bin_java() {
    assert_eq!(java_home_for("/usr/lib/jvm/java-21/bin/java"), "/usr/lib/jvm/java-21");
}

#[test]
fn test_java_home_derived_nix_store_path() {
    assert_eq!(
        java_home_for("/nix/store/abc123-zulu-ca-jdk-21.0.8/bin/java"),
        "/nix/store/abc123-zulu-ca-jdk-21.0.8"
    );
}

#[test]
fn test_java_home_fallback_when_not_in_bin() {
    assert_eq!(java_home_for("/opt/custom-java/java"), "/opt/custom-java/java");
}
