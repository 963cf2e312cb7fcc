use std::collections::HashMap;

use anyserver::json::JsonValue;
use anyserver::steamcmd::{
    app_details_url, config_requires_steamcmd, detect_steamcmd, invalidate_steamcmd_cache,
    known_app_fallback, steamcmd_cache_expired, steamcmd_path, validate_app_reply, SteamCmdCache,
    StoreReply,
};
use anyserver::types::pipeline::{ConfigParameter, ConfigParameterType, PipelineStep, StepAction};
use anyserver::types::server::{IsolationConfig, ServerConfig, StopSignal, UpdateCheck, UpdateCheckProvider};
use anyserver::types::template::{config_requires_curseforge, config_requires_github};

pub fn test_config() -> ServerConfig {
    ServerConfig {
        name: "Test".into(),
        binary: "/bin/echo".into(),
        args: vec![],
        env: HashMap::new(),
        working_dir: None,
        auto_start: false,
        auto_restart: false,
        max_restart_attempts: 0,
        restart_delay_secs: 5,
        stop_command: None,
        stop_signal: StopSignal::default(),
        stop_timeout_secs: 10,
        sftp_username: None,
        sftp_password: None,
        parameters: vec![],
        stop_steps: vec![],
        start_steps: vec![],
        install_steps: vec![],
        update_steps: vec![],
        uninstall_steps: vec![],
        isolation: IsolationConfig::default(),
        update_check: None,
        log_to_disk: true,
        max_log_size_mb: 50,
        enable_java_helper: false,
        enable_dotnet_helper: false,
        steam_app_id: None,
    }
}

fn step(action: StepAction) -> PipelineStep {
    PipelineStep {
        name: "step".into(),
        description: None,
        action,
        condition: None,
        continue_on_error: false,
    }
}

#[test]
fn detect_returns_a_status() {
    for found in [None, Some("/usr/games/steamcmd".to_string())] {
        let status = detect_steamcmd(found);
        if status.available {
            assert!(status.path.is_some());
        } else {
            assert!(status.message.is_some());
        }
    }
}

#[test]
fn steamcmd_path_returns_err_when_not_available() {
    let result = steamcmd_path(None);
    assert_eq!(
        result.unwrap_err(),
        "steamcmd not found on PATH. Please install SteamCMD and ensure it is in your PATH."
    );
    assert_eq!(steamcmd_path(Some("/opt/steamcmd".into())).unwrap(), "/opt/steamcmd");
}

#[test]
fn detect_found_reports_path() {
    let status = detect_steamcmd(Some("/usr/games/steamcmd".into()));
    assert!(status.available);
    assert_eq!(status.path.as_deref(), Some("/usr/games/steamcmd"));
    assert_eq!(status.message.as_deref(), Some("steamcmd found on PATH"));
}

#[test]
fn detect_steamcmd_cached_returns_consistent_result() {
    let mut cache = SteamCmdCache::new();
    assert!(cache.needs_refresh(100));
    cache.store(detect_steamcmd(None), 100);
    assert!(!cache.needs_refresh(100));
    assert!(!cache.needs_refresh(159));
    assert!(cache.needs_refresh(160));
    let first = cache.current().unwrap();
    let second = cache.current().unwrap();
    assert_eq!(first.available, second.available);
    assert_eq!(first.path, second.path);
}

#[test]
fn invalidate_cache_forces_refresh() {
    let mut cache = SteamCmdCache::new();
    cache.store(detect_steamcmd(Some("/x/steamcmd".into())), 10);
    assert!(!cache.needs_refresh(11));
    invalidate_steamcmd_cache(&mut cache);
    assert!(cache.needs_refresh(11));
    cache.store(detect_steamcmd(None), 11);
    let status = cache.current().unwrap();
    assert!(!status.available);
    assert!(status.message.is_some());
}

#[test]
fn cache_ttl_is_sixty_seconds() {
    assert!(!steamcmd_cache_expired(59));
    assert!(steamcmd_cache_expired(60));
}

#[test]
fn config_requires_steamcmd_with_app_id() {
    let mut config = test_config();
    config.steam_app_id = Some(896660);
    assert!(config_requires_steamcmd(&config));
}

#[test]
fn config_requires_steamcmd_with_step() {
    let mut config = test_config();
    config.install_steps.push(PipelineStep {
        name: "Install via SteamCMD".into(),
        description: None,
        action: StepAction::SteamCmdInstall { app_id: None, anonymous: true, extra_args: vec![] },
        condition: None,
        continue_on_error: false,
    });
    assert!(config_requires_steamcmd(&config));
}

#[test]
fn config_does_not_require_steamcmd_plain() {
    let config = test_config();
    assert!(!config_requires_steamcmd(&config));
}

#[test]
fn config_requires_steamcmd_in_stop_steps() {
    let mut config = test_config();
    config.stop_steps.push(step(StepAction::SteamCmdUpdate {
        app_id: Some(1),
        anonymous: false,
        extra_args: vec![],
    }));
    assert!(config_requires_steamcmd(&config));
}

#[test]
fn integrations_detected_from_config() {
    let mut config = test_config();
    assert!(!config_requires_curseforge(&config));
    assert!(!config_requires_github(&config));
    config.update_check = Some(UpdateCheck {
        provider: UpdateCheckProvider::CurseForge { project_id: 7 },
        interval_secs: None,
        cache_secs: 300,
    });
    assert!(config_requires_curseforge(&config));
    let mut config = test_config();
    config.parameters.push(ConfigParameter {
        name: "tag".into(),
        label: "Tag".into(),
        param_type: ConfigParameterType::GithubReleaseTag,
        ..Default::default()
    });
    assert!(config_requires_github(&config));
    let mut config = test_config();
    config.update_steps.push(step(StepAction::DownloadGithubReleaseAsset {
        tag_param: "tag".into(),
        asset_matcher: "*.zip".into(),
        destination: ".".into(),
        filename: None,
        executable: false,
    }));
    assert!(config_requires_github(&config));
    assert!(!config_requires_curseforge(&config));
}

// ─── App validation ───

fn obj(members: Vec<(&str, JsonValue)>) -> JsonValue {
    JsonValue::Object(members.into_iter().map(|(k, v)| (k.to_string(), v)).collect())
}

#[test]
fn app_details_url_names_the_app() {
    assert_eq!(app_details_url(896660), "https://store.steampowered.com/api/appdetails?appids=896660");
}

#[test]
fn validate_reads_store_name() {
    let body = obj(vec![(
        "440",
        obj(vec![
            ("success", JsonValue::Bool(true)),
            ("data", obj(vec![("name", JsonValue::String("Team Fortress 2".into()))])),
        ]),
    )]);
    let info = validate_app_reply(440, &StoreReply::Body(body)).unwrap();
    assert_eq!(info.app_id, 440);
    assert_eq!(info.name, "Team Fortress 2");
}

#[test]
fn validate_errors_without_fallback() {
    assert_eq!(
        validate_app_reply(1, &StoreReply::SendFailed("dns".into())).unwrap_err(),
        "Failed to query Steam store API: dns"
    );
    assert_eq!(
        validate_app_reply(1, &StoreReply::HttpStatus("503 Service Unavailable".into())).unwrap_err(),
        "Steam store API returned status 503 Service Unavailable"
    );
    assert_eq!(
        validate_app_reply(1, &StoreReply::BadBody("eof".into())).unwrap_err(),
        "Failed to parse Steam store API response: eof"
    );
    assert_eq!(
        validate_app_reply(12, &StoreReply::Body(obj(vec![]))).unwrap_err(),
        "No data returned for app ID 12"
    );
    let unsuccessful = obj(vec![("12", obj(vec![("success", JsonValue::Bool(false))]))]);
    assert_eq!(
        validate_app_reply(12, &StoreReply::Body(unsuccessful)).unwrap_err(),
        "Steam app ID 12 is not valid or not publicly accessible"
    );
    let no_data = obj(vec![("12", obj(vec![("success", JsonValue::Bool(true))]))]);
    assert_eq!(
        validate_app_reply(12, &StoreReply::Body(no_data)).unwrap_err(),
        "No data section for app ID 12"
    );
    let no_name = obj(vec![("12", obj(vec![("success", JsonValue::Bool(true)), ("data", obj(vec![]))]))]);
    assert_eq!(validate_app_reply(12, &StoreReply::Body(no_name)).unwrap().name, "Unknown");
}

#[test]
fn validate_falls_back_for_known_app() {
    let info = validate_app_reply(896660, &StoreReply::SendFailed("offline".into())).unwrap();
    assert_eq!(info.name, "Valheim Dedicated Server");
    assert_eq!(known_app_fallback(896660).unwrap().app_id, 896660);
    assert!(known_app_fallback(1).is_none());
}
