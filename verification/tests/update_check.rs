use anyserver::json::{json_navigate, JsonValue};
use anyserver::replies::{api_version_from_reply, command_version_from_reply, update_command, CommandReply, FetchReply};
use anyserver::time::DateTimeUtc;
use anyserver::types::pipeline::ConfigParameter;
use anyserver::types::server::VersionPick;
use anyserver::update_check::{
    build_check_variables, check_result, extract_version, find_version_param_name,
    get_installed_version, substitute_variables, template_default_outcome, curseforge_api_key,
    curseforge_latest, installed_file_id,
};

fn s(v: &str) -> JsonValue {
    JsonValue::String(v.to_string())
}

fn n(v: &str) -> JsonValue {
    JsonValue::Number(v.to_string())
}

fn arr(items: Vec<JsonValue>) -> JsonValue {
    JsonValue::Array(items)
}

fn obj(members: Vec<(&str, JsonValue)>) -> JsonValue {
    JsonValue::Object(members.into_iter().map(|(k, v)| (k.to_string(), v)).collect())
}

fn vars(pairs: &[(&str, &str)]) -> Vec<(String, String)> {
    pairs.iter().map(|(k, v)| (k.to_string(), v.to_string())).collect()
}

fn get<'a>(m: &'a [(String, String)], key: &str) -> Option<&'a String> {
    m.iter().find(|(k, _)| k == key).map(|(_, v)| v)
}

fn now() -> DateTimeUtc {
    DateTimeUtc { secs: 1_700_000_000, nanos: 0 }
}

// ─── json_navigate ───

#[test]
fn update_check_navigate_none_path_returns_root() {
    let data = obj(vec![("a", n("1"))]);
    assert_eq!(json_navigate(&data, None), Some(&data));
}

#[test]
fn update_check_navigate_empty_path_returns_root() {
    let data = obj(vec![("a", n("1"))]);
    assert_eq!(json_navigate(&data, Some("")), Some(&data));
}

#[test]
fn update_check_navigate_single_key() {
    let data = obj(vec![("versions", arr(vec![n("1"), n("2"), n("3")]))]);
    assert_eq!(json_navigate(&data, Some("versions")), Some(&arr(vec![n("1"), n("2"), n("3")])));
}

#[test]
fn update_check_navigate_nested_path() {
    let data = obj(vec![("data", obj(vec![("builds", obj(vec![("latest", s("42"))]))]))]);
    assert_eq!(json_navigate(&data, Some("data.builds.latest")), Some(&s("42")));
}

#[test]
fn update_check_navigate_missing_key_returns_none() {
    let data = obj(vec![("a", n("1"))]);
    assert_eq!(json_navigate(&data, Some("b")), None);
}

#[test]
fn update_check_navigate_through_non_object_returns_none() {
    let data = obj(vec![("a", s("hello"))]);
    assert_eq!(json_navigate(&data, Some("a.b")), None);
}

// ─── extract_version ───

#[test]
fn extract_from_string() {
    assert_eq!(extract_version(&s("1.21.4"), VersionPick::Last, None), Some("1.21.4".into()));
}

#[test]
fn extract_from_number() {
    assert_eq!(extract_version(&n("42"), VersionPick::Last, None), Some("42".into()));
}

#[test]
fn extract_last_from_string_array() {
    let val = arr(vec![s("1.8"), s("1.8.1"), s("1.21.4")]);
    assert_eq!(extract_version(&val, VersionPick::Last, None), Some("1.21.4".into()));
}

#[test]
fn extract_first_from_string_array() {
    let val = arr(vec![s("1.8"), s("1.8.1"), s("1.21.4")]);
    assert_eq!(extract_version(&val, VersionPick::First, None), Some("1.8".into()));
}

#[test]
fn extract_with_value_key_first() {
    let val = arr(vec![
        obj(vec![("tag_name", s("v5.2.1")), ("other", s("x"))]),
        obj(vec![("tag_name", s("v5.2.0")), ("other", s("y"))]),
    ]);
    assert_eq!(extract_version(&val, VersionPick::First, Some("tag_name")), Some("v5.2.1".into()));
}

#[test]
fn extract_with_value_key_last() {
    let val = arr(vec![
        obj(vec![("tag_name", s("v5.2.0")), ("other", s("y"))]),
        obj(vec![("tag_name", s("v5.2.1")), ("other", s("x"))]),
    ]);
    assert_eq!(extract_version(&val, VersionPick::Last, Some("tag_name")), Some("v5.2.1".into()));
}

#[test]
fn extract_empty_array_returns_none() {
    assert_eq!(extract_version(&arr(vec![]), VersionPick::Last, None), None);
}

#[test]
fn extract_object_without_value_key_returns_none() {
    let val = arr(vec![obj(vec![("a", n("1"))])]);
    assert_eq!(extract_version(&val, VersionPick::First, None), None);
}

#[test]
fn extract_with_missing_value_key_returns_none() {
    let val = arr(vec![obj(vec![("a", n("1"))])]);
    assert_eq!(extract_version(&val, VersionPick::First, Some("tag_name")), None);
}

#[test]
fn update_check_extract_numeric_value_key() {
    let val = arr(vec![obj(vec![("build", n("123"))])]);
    assert_eq!(extract_version(&val, VersionPick::First, Some("build")), Some("123".into()));
}

#[test]
fn extract_null_returns_none() {
    assert_eq!(extract_version(&JsonValue::Null, VersionPick::First, None), None);
}

#[test]
fn extract_bool_returns_none() {
    assert_eq!(extract_version(&JsonValue::Bool(true), VersionPick::First, None), None);
}

#[test]
fn papermc_style_response() {
    let response = obj(vec![
        ("project_id", s("paper")),
        ("project_name", s("Paper")),
        ("versions", arr(vec![s("1.8"), s("1.8.1"), s("1.19"), s("1.20"), s("1.21.4")])),
    ]);
    let navigated = json_navigate(&response, Some("versions")).unwrap();
    let version = extract_version(navigated, VersionPick::Last, None).unwrap();
    assert_eq!(version, "1.21.4");
}

#[test]
fn github_releases_style_response() {
    let response = arr(vec![
        obj(vec![("tag_name", s("v5.2.1")), ("name", s("TShock 5.2.1"))]),
        obj(vec![("tag_name", s("v5.2.0")), ("name", s("TShock 5.2.0"))]),
        obj(vec![("tag_name", s("v5.1.0")), ("name", s("TShock 5.1.0"))]),
    ]);
    let navigated = json_navigate(&response, None).unwrap();
    let version = extract_version(navigated, VersionPick::First, Some("tag_name")).unwrap();
    assert_eq!(version, "v5.2.1");
}

#[test]
fn nested_build_number_response() {
    let response = obj(vec![
        ("project", s("paper")),
        ("version", s("1.21.4")),
        (
            "builds",
            arr(vec![
                obj(vec![("build", n("100")), ("channel", s("default"))]),
                obj(vec![("build", n("101")), ("channel", s("default"))]),
                obj(vec![("build", n("102")), ("channel", s("experimental"))]),
            ]),
        ),
    ]);
    let navigated = json_navigate(&response, Some("builds")).unwrap();
    let version = extract_version(navigated, VersionPick::Last, Some("build")).unwrap();
    assert_eq!(version, "102");
}

// ─── substitute_variables ───

#[test]
fn substitute_replaces_placeholders() {
    let v = vars(&[("mc_version", "1.21.4"), ("server_port", "25565")]);
    assert_eq!(
        substitute_variables(
            "https://api.papermc.io/v2/projects/paper/versions/${mc_version}/builds",
            &v
        ),
        "https://api.papermc.io/v2/projects/paper/versions/1.21.4/builds"
    );
}

#[test]
fn substitute_no_vars() {
    assert_eq!(substitute_variables("https://example.com/api", &vars(&[])), "https://example.com/api");
}

// ─── find_version_param_name ───

#[test]
fn find_version_param() {
    let params = vec![
        ConfigParameter {
            name: "memory".into(),
            label: "Memory".into(),
            default: Some("2G".into()),
            ..Default::default()
        },
        ConfigParameter {
            name: "mc_version".into(),
            label: "Minecraft Version".into(),
            default: Some("1.21.4".into()),
            required: true,
            is_version: true,
            ..Default::default()
        },
    ];
    assert_eq!(find_version_param_name(&params), Some("mc_version".into()));
}

#[test]
fn find_version_param_none() {
    let params = vec![ConfigParameter {
        name: "memory".into(),
        label: "Memory".into(),
        default: Some("2G".into()),
        ..Default::default()
    }];
    assert_eq!(find_version_param_name(&params), None);
}

// ─── get_installed_version ───

fn mc_version_param() -> Vec<ConfigParameter> {
    vec![ConfigParameter {
        name: "mc_version".into(),
        label: "MC Version".into(),
        default: Some("1.21.4".into()),
        required: true,
        is_version: true,
        ..Default::default()
    }]
}

#[test]
fn installed_version_prefers_explicit() {
    let pv = vars(&[("mc_version", "1.20.0")]);
    let params = mc_version_param();
    assert_eq!(get_installed_version(&Some("1.19.0".into()), &pv, &params), Some("1.19.0".into()));
}

#[test]
fn installed_version_falls_back_to_param_value() {
    let pv = vars(&[("mc_version", "1.20.0")]);
    let params = mc_version_param();
    assert_eq!(get_installed_version(&None, &pv, &params), Some("1.20.0".into()));
}

#[test]
fn installed_version_none_when_no_version_param() {
    let pv = vars(&[]);
    let params: Vec<ConfigParameter> = vec![];
    assert_eq!(get_installed_version(&None, &pv, &params), None);
}

#[test]
fn build_vars_merges_params_and_defaults() {
    let pv = vars(&[("mc_version", "1.21.4")]);
    let params = vec![
        ConfigParameter {
            name: "mc_version".into(),
            label: "MC Version".into(),
            default: Some("1.20.0".into()),
            required: true,
            is_version: true,
            ..Default::default()
        },
        ConfigParameter {
            name: "memory".into(),
            label: "Memory".into(),
            default: Some("2G".into()),
            ..Default::default()
        },
    ];
    let v = build_check_variables(&pv, &params);
    assert_eq!(get(&v, "mc_version"), Some(&"1.21.4".to_string()));
    assert_eq!(get(&v, "memory"), Some(&"2G".to_string()));
}

// ─── Check outcomes ───

#[test]
fn template_default_update_available() {
    let latest = template_default_outcome(Ok(Some("1.21.4".into())));
    let r = check_result(uuid::Uuid::nil(), Some("1.20.0".into()), latest, None, None, now());
    assert!(r.update_available);
    assert_eq!(r.installed_version, Some("1.20.0".into()));
    assert_eq!(r.latest_version, Some("1.21.4".into()));
    assert!(r.error.is_none());
}

#[test]
fn template_default_up_to_date() {
    let latest = template_default_outcome(Ok(Some("1.21.4".into())));
    let r = check_result(uuid::Uuid::nil(), Some("1.21.4".into()), latest, None, None, now());
    assert!(!r.update_available);
    assert_eq!(r.latest_version, Some("1.21.4".into()));
    assert!(r.error.is_none());
}

#[test]
fn template_default_lookup_error() {
    let latest = template_default_outcome(Err("Template not found".to_string()));
    let r = check_result(uuid::Uuid::nil(), Some("1.21.4".into()), latest, None, None, now());
    assert!(!r.update_available);
    assert!(r.error.unwrap().contains("Template not found"));
}

#[test]
fn template_default_no_installed_version() {
    let latest = template_default_outcome(Ok(Some("2.0.0".to_string())));
    let r = check_result(uuid::Uuid::nil(), None, latest, None, None, now());
    assert!(!r.update_available);
    assert_eq!(r.latest_version, Some("2.0.0".into()));
    assert!(r.error.is_none());
}

#[test]
fn template_default_missing_is_an_error() {
    let latest = template_default_outcome(Ok(None));
    assert_eq!(
        latest.unwrap_err(),
        "Could not determine template default version (template not found or no version parameter)"
    );
}

#[test]
fn empty_latest_display_is_dropped() {
    let r = check_result(
        uuid::Uuid::nil(),
        Some("1".into()),
        Ok("2".into()),
        Some(String::new()),
        Some("Installed".into()),
        now(),
    );
    assert!(r.latest_version_display.is_none());
    assert_eq!(r.installed_version_display, Some("Installed".into()));
}

// ─── API and command providers ───

#[test]
fn api_provider_reads_version_at_path() {
    let reply = FetchReply::Body(br#"{"versions": ["1.20", "1.21.4"]}"#.to_vec());
    let v = api_version_from_reply("https://a.test/p", &reply, Some("versions"), VersionPick::Last, None);
    assert_eq!(v.unwrap(), "1.21.4");
}

#[test]
fn api_provider_reports_unextractable_value() {
    let reply = FetchReply::Body(b"true".to_vec());
    let v = api_version_from_reply("https://a.test/p", &reply, None, VersionPick::Last, None);
    assert_eq!(
        v.unwrap_err(),
        "Could not extract a version string from the resolved value at path '(root)' in response from https://a.test/p"
    );
}

#[test]
fn command_provider_basic() {
    let reply = CommandReply::Finished {
        success: true,
        status: "exit status: 0".into(),
        stdout: b"\n  1.21.5  \nother\n".to_vec(),
        stderr: vec![],
    };
    assert_eq!(command_version_from_reply("echo 1.21.5", 5, &reply).unwrap(), "1.21.5");
}

#[test]
fn command_provider_with_variable_substitution() {
    let cmd = update_command("echo ${mc_version}", &vars(&[("mc_version", "1.21.5")]));
    assert_eq!(cmd, "echo 1.21.5");
}

#[test]
fn command_provider_failures() {
    assert_eq!(
        command_version_from_reply("sleep 10", 2, &CommandReply::TimedOut).unwrap_err(),
        "Update check command timed out after 2s: sleep 10"
    );
    let failed = CommandReply::Finished {
        success: false,
        status: "exit status: 1".into(),
        stdout: vec![],
        stderr: b"  boom \n".to_vec(),
    };
    assert_eq!(
        command_version_from_reply("false", 5, &failed).unwrap_err(),
        "Update check command exited with exit status: 1: boom"
    );
    let silent = CommandReply::Finished {
        success: true,
        status: "exit status: 0".into(),
        stdout: b"  \n\n".to_vec(),
        stderr: vec![],
    };
    assert_eq!(
        command_version_from_reply("true", 5, &silent).unwrap_err(),
        "Update check command produced no output"
    );
    assert_eq!(
        command_version_from_reply("x", 5, &CommandReply::SpawnFailed("no sh".into())).unwrap_err(),
        "Failed to execute update check command: no sh"
    );
}

#[test]
fn curseforge_needs_api_key() {
    assert_eq!(curseforge_api_key(Some("k-123")), Ok("k-123".to_string()));
    assert_eq!(
        curseforge_api_key(None),
        Err("CurseForge API key is not configured. Ask an admin to set it up in Admin Panel \u{2192} CurseForge.".to_string())
    );
}

#[test]
fn curseforge_latest_is_newest_file() {
    let files = vec![(5123456u32, "mod-1.2.jar".to_string()), (5000000u32, "mod-1.1.jar".to_string())];
    assert_eq!(
        curseforge_latest(238222, Ok(files)),
        Ok(("5123456".to_string(), "mod-1.2.jar".to_string()))
    );
    assert_eq!(
        curseforge_latest(238222, Ok(vec![])),
        Err("No available files found for CurseForge project 238222".to_string())
    );
    assert_eq!(
        curseforge_latest(7, Err("HTTP 403".to_string())),
        Err("Failed to fetch CurseForge files for project 7: HTTP 403".to_string())
    );
}

#[test]
fn installed_file_id_reads_number() {
    assert_eq!(installed_file_id(&Some("5123456".to_string())), Some(5123456));
    assert_eq!(installed_file_id(&Some("1.20.1".to_string())), None);
    assert_eq!(installed_file_id(&None), None);
}

#[test]
fn substitution_leaves_text_without_placeholders() {
    let vars = vec![("x".to_string(), "1".to_string()), ("name".to_string(), "srv".to_string())];
    assert_eq!(substitute_variables("java -jar server.jar {x} $x", &vars), "java -jar server.jar {x} $x");
    assert_eq!(substitute_variables("run ${name} ${missing}", &vars), "run srv ${missing}");
}

#[test]
fn curseforge_latest_version_reads_back_as_file_id() {
    let (version, _) = curseforge_latest(1, Ok(vec![(4_294_967_295u32, "big".to_string())])).unwrap();
    assert_eq!(installed_file_id(&Some(version)), Some(4_294_967_295));
    let (version, _) = curseforge_latest(1, Ok(vec![(0u32, "zero".to_string())])).unwrap();
    assert_eq!(installed_file_id(&Some(version)), Some(0));
}

#[test]
fn installed_display_lookup_needs_curseforge_a_file_id_and_a_key() {
    let cf = anyserver::types::server::UpdateCheckProvider::CurseForge { project_id: 42 };
    assert_eq!(
        anyserver::update_check::installed_display_request(&cf, &Some("5150".to_string()), Some("key")),
        Some(("key".to_string(), 42, 5150))
    );
    assert_eq!(anyserver::update_check::installed_display_request(&cf, &Some("v1.2".to_string()), Some("key")), None);
    assert_eq!(anyserver::update_check::installed_display_request(&cf, &None, Some("key")), None);
    assert_eq!(anyserver::update_check::installed_display_request(&cf, &Some("5150".to_string()), None), None);
    assert_eq!(anyserver::update_check::installed_display_request(&anyserver::types::server::UpdateCheckProvider::TemplateDefault, &Some("5150".to_string()), Some("key")), None);
}
