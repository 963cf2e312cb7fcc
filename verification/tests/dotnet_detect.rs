use anyserver::dotnet::{generate_dotnet_env_vars, needs_nix_library_paths, parse_major_version, parse_runtime_line};

fn env_get<'a>(env: &'a [(String, String)], key: &str) -> Option<&'a str> {
    env.iter().find(|(k, _)| k == key).map(|(_, v)| v.as_str())
}

#[test]
fn test_parse_runtime_line_netcore() {
    let line = "Microsoft.NETCore.App 6.0.36 [/usr/share/dotnet/shared/Microsoft.NETCore.App]";
    let rt = parse_runtime_line(line, "/usr/share/dotnet", false).unwrap();
    assert_eq!(rt.runtime_name, "Microsoft.NETCore.App");
    assert_eq!(rt.version, "6.0.36");
    assert_eq!(rt.major_version, 6);
    assert_eq!(rt.runtime_path, "/usr/share/dotnet/shared/Microsoft.NETCore.App");
    assert!(!rt.is_default);
}

#[test]
fn test_parse_runtime_line_aspnetcore() {
    let line = "Microsoft.AspNetCore.App 8.0.23 [/usr/share/dotnet/shared/Microsoft.AspNetCore.App]";
    let rt = parse_runtime_line(line, "/usr/share/dotnet", true).unwrap();
    assert_eq!(rt.runtime_name, "Microsoft.AspNetCore.App");
    assert_eq!(rt.version, "8.0.23");
    assert_eq!(rt.major_version, 8);
    assert!(rt.is_default);
}

#[test]
fn test_parse_major_version() {
    assert_eq!(parse_major_version("6.0.36"), 6);
    assert_eq!(parse_major_version("8.0.23"), 8);
    assert_eq!(parse_major_version("9.0.0"), 9);
    assert_eq!(parse_major_version("9.0.0-preview.1"), 9);
    assert_eq!(parse_major_version("7.0.0-rc.2.22472.3"), 7);
}

#[test]
fn test_generate_dotnet_env_vars() {
    let env = generate_dotnet_env_vars("/usr/share/dotnet", Some("/app/server123"), &vec![]);
    assert_eq!(env_get(&env, "DOTNET_ROOT").unwrap(), "/usr/share/dotnet");
    assert_eq!(
        env_get(&env, "DOTNET_BUNDLE_EXTRACT_BASE_DIR").unwrap(),
        "/app/server123/.dotnet_bundle_cache"
    );
}

#[test]
fn test_generate_dotnet_env_vars_no_server_dir() {
    let env = generate_dotnet_env_vars("/opt/dotnet", None, &vec![]);
    assert_eq!(env_get(&env, "DOTNET_ROOT").unwrap(), "/opt/dotnet");
    assert_eq!(
        env_get(&env, "DOTNET_BUNDLE_EXTRACT_BASE_DIR").unwrap(),
        "./.dotnet_bundle_cache"
    );
}

#[test]
fn parse_runtime_line_rejects_short_lines() {
    assert!(parse_runtime_line("", "/opt/dotnet", false).is_none());
    assert!(parse_runtime_line("Microsoft.NETCore.App", "/opt/dotnet", false).is_none());
}

#[test]
fn nix_store_root_gets_library_path() {
    assert!(needs_nix_library_paths("/nix/store/abc-dotnet-sdk-8.0"));
    assert!(!needs_nix_library_paths("/usr/share/dotnet"));
    let libs = vec!["/nix/store/x-icu/lib".to_string(), "/nix/store/y-openssl/lib".to_string()];
    let env = generate_dotnet_env_vars("/nix/store/abc-dotnet-sdk-8.0", None, &libs);
    assert_eq!(env.len(), 3);
}
