use anyserver::builtin::{get, is_builtin, list, minecraft_paper_id, terraria_tshock_id, valheim_id};
use anyserver::types::pipeline::{ConfigParameter, ConfigParameterType, PipelineStep, StepAction};
use anyserver::types::server::{IsolationConfig, StopSignal, UpdateCheckProvider};

#[test]
fn builtin_templates_have_unique_ids() {
    let templates = list();
    let mut ids: Vec<uuid::Uuid> = templates.iter().map(|t| t.id).collect();
    ids.sort();
    ids.dedup();
    assert_eq!(ids.len(), templates.len(), "built-in template IDs must be unique");
}

#[test]
fn builtin_templates_are_marked_builtin() {
    for t in list() {
        assert!(t.is_builtin, "template '{}' must have is_builtin=true", t.name);
    }
}

#[test]
fn builtin_templates_have_valid_configs() {
    for t in list() {
        assert!(!t.name.is_empty());
        assert!(t.description.is_some());
        assert!(!t.config.binary.is_empty());
        assert!(!t.config.install_steps.is_empty());
        assert!(!t.config.parameters.is_empty());
    }
}

#[test]
fn get_returns_correct_template() {
    assert_eq!(get(minecraft_paper_id()).unwrap().name, "Minecraft Paper");
    assert_eq!(get(valheim_id()).unwrap().name, "Valheim Dedicated Server");
    assert_eq!(get(terraria_tshock_id()).unwrap().name, "Terraria (TShock)");
}

#[test]
fn get_returns_none_for_unknown_id() {
    let unknown = uuid::Uuid::from_bytes([0xFF; 16]);
    assert!(get(unknown).is_none());
}

#[test]
fn is_builtin_works() {
    assert!(is_builtin(minecraft_paper_id()));
    assert!(is_builtin(valheim_id()));
    assert!(is_builtin(terraria_tshock_id()));
    assert!(!is_builtin(uuid::Uuid::from_bytes([0xFF; 16])));
}

#[test]
fn builtin_ids_are_the_published_ones() {
    assert_eq!(minecraft_paper_id().to_string(), "00bafeed-0001-4000-8000-000000000001");
    assert_eq!(valheim_id().to_string(), "00bafeed-0001-4000-8000-000000000002");
    assert_eq!(terraria_tshock_id().to_string(), "00bafeed-0001-4000-8000-000000000003");
}

#[test]
fn list_returns_at_least_three_templates() {
    assert!(list().len() >= 3);
}

#[test]
fn templates_cover_different_types() {
    let templates = list();
    assert!(templates.iter().any(|t| t.config.binary == "java"));
    assert!(templates.iter().any(|t| t.config.install_steps.iter().any(|s| matches!(
        &s.action,
        StepAction::SteamCmdInstall { .. } | StepAction::SteamCmdUpdate { .. }
    ))));
    assert!(templates
        .iter()
        .any(|t| t.config.install_steps.iter().any(|s| matches!(&s.action, StepAction::Extract { .. }))));
}

#[test]
fn minecraft_template_has_eula_step() {
    let mc = get(minecraft_paper_id()).unwrap();
    let has_eula = mc.config.install_steps.iter().any(|s| {
        if let StepAction::WriteFile { path, content } = &s.action {
            path.contains("eula") && content.contains("eula=true")
        } else {
            false
        }
    });
    assert!(has_eula);
}

#[test]
fn all_required_params_have_defaults_or_are_documented() {
    for t in list() {
        for p in &t.config.parameters {
            if p.required {
                assert!(p.default.is_some() || p.description.is_some());
            }
        }
    }
}

#[test]
fn parameter_names_are_unique_within_template() {
    for t in list() {
        let mut names: Vec<&str> = t.config.parameters.iter().map(|p| p.name.as_str()).collect();
        let original_len = names.len();
        names.sort();
        names.dedup();
        assert_eq!(names.len(), original_len);
    }
}

#[test]
fn parameter_names_are_valid_identifiers() {
    let ident_re = regex::Regex::new(r"^[a-zA-Z_][a-zA-Z0-9_]*$").unwrap();
    for t in list() {
        for p in &t.config.parameters {
            assert!(
                ident_re.is_match(&p.name),
                "Template '{}': parameter name '{}' is not a valid identifier",
                t.name,
                p.name,
            );
        }
    }
}

#[test]
fn select_parameters_have_options() {
    for t in list() {
        for p in &t.config.parameters {
            if matches!(p.param_type, ConfigParameterType::Select) {
                assert!(!p.options.is_empty());
            }
        }
    }
}

#[test]
fn select_parameter_defaults_are_in_options() {
    for t in list() {
        for p in &t.config.parameters {
            if matches!(p.param_type, ConfigParameterType::Select) {
                if let Some(ref default) = p.default {
                    assert!(p.options.contains(default));
                }
            }
        }
    }
}

#[test]
fn at_most_one_version_parameter_per_template() {
    for t in list() {
        assert!(t.config.parameters.iter().filter(|p| p.is_version).count() <= 1);
    }
}

#[test]
fn version_parameter_is_required() {
    for t in list() {
        for p in &t.config.parameters {
            if p.is_version {
                assert!(p.required);
            }
        }
    }
}

#[test]
fn step_names_are_non_empty() {
    for t in list() {
        let all: Vec<&[PipelineStep]> =
            vec![&t.config.install_steps, &t.config.update_steps, &t.config.start_steps, &t.config.stop_steps];
        for steps in all {
            for step in steps {
                assert!(!step.name.trim().is_empty());
            }
        }
    }
}

#[test]
fn download_steps_have_non_empty_urls() {
    for t in list() {
        for steps in [&t.config.install_steps, &t.config.update_steps] {
            for step in steps {
                if let StepAction::Download { url, .. } = &step.action {
                    let stripped = url.replace("${", "").replace('}', "");
                    assert!(stripped.starts_with("http://") || stripped.starts_with("https://"));
                }
            }
        }
    }
}

#[test]
fn templates_with_version_param_have_update_check() {
    for t in list() {
        if t.config.parameters.iter().any(|p| p.is_version) {
            assert!(t.config.update_check.is_some());
        }
    }
}

#[test]
fn templates_with_update_check_have_update_steps() {
    for t in list() {
        if t.config.update_check.is_some() {
            assert!(!t.config.update_steps.is_empty());
        }
    }
}

#[test]
fn minecraft_paper_resolve_variable_precedes_download() {
    let mc = get(minecraft_paper_id()).unwrap();
    let resolve_idx = mc.config.install_steps.iter().position(
        |s| matches!(&s.action, StepAction::ResolveVariable { variable, .. } if variable == "paper_build"),
    );
    let download_idx = mc.config.install_steps.iter().position(
        |s| matches!(&s.action, StepAction::Download { url, .. } if url.contains("paper_build")),
    );
    assert!(resolve_idx.unwrap() < download_idx.unwrap());
}

#[test]
fn minecraft_paper_update_steps_match_download_logic() {
    let mc = get(minecraft_paper_id()).unwrap();
    assert!(mc.config.update_steps.iter().any(
        |s| matches!(&s.action, StepAction::ResolveVariable { variable, .. } if variable == "paper_build")
    ));
    assert!(mc
        .config
        .update_steps
        .iter()
        .any(|s| matches!(&s.action, StepAction::Download { url, .. } if url.contains("paper"))));
}

#[test]
fn minecraft_paper_server_properties_is_conditional() {
    let mc = get(minecraft_paper_id()).unwrap();
    let step = mc
        .config
        .install_steps
        .iter()
        .find(|s| matches!(&s.action, StepAction::WriteFile { path, .. } if path.contains("server.properties")))
        .unwrap();
    assert!(step.condition.as_ref().unwrap().path_not_exists.is_some());
}

#[test]
fn minecraft_paper_stop_steps_send_stop_command() {
    let mc = get(minecraft_paper_id()).unwrap();
    assert!(mc
        .config
        .stop_steps
        .iter()
        .any(|s| matches!(&s.action, StepAction::SendInput { text } if text.contains("stop"))));
}

#[test]
fn minecraft_paper_has_options_from_for_versions() {
    let mc = get(minecraft_paper_id()).unwrap();
    let param = mc.config.parameters.iter().find(|p| p.name == "mc_version").unwrap();
    assert!(param.options_from.as_ref().unwrap().url.contains("papermc.io"));
}

#[test]
fn valheim_uses_steamcmd_for_install() {
    let v = get(valheim_id()).unwrap();
    assert!(v.config.install_steps.iter().any(|s| matches!(&s.action, StepAction::SteamCmdInstall { .. })));
}

#[test]
fn valheim_has_steamcmd_install_step() {
    let v = get(valheim_id()).unwrap();
    assert!(matches!(
        &v.config.install_steps[0].action,
        StepAction::SteamCmdInstall { app_id, anonymous, .. } if app_id.is_none() && *anonymous
    ));
}

#[test]
fn valheim_has_steam_app_id() {
    assert_eq!(get(valheim_id()).unwrap().config.steam_app_id, Some(896660));
}

#[test]
fn valheim_requires_steamcmd_flag() {
    assert!(get(valheim_id()).unwrap().requires_steamcmd);
}

#[test]
fn valheim_update_uses_steamcmd_update() {
    let v = get(valheim_id()).unwrap();
    assert!(v.config.update_steps.iter().any(|s| matches!(&s.action, StepAction::SteamCmdUpdate { .. })));
}

#[test]
fn valheim_stop_uses_sigint() {
    let v = get(valheim_id()).unwrap();
    assert!(v
        .config
        .stop_steps
        .iter()
        .any(|s| matches!(&s.action, StepAction::SendSignal { signal: StopSignal::Sigint })));
}

#[test]
fn terraria_tshock_installs_via_download_and_extract() {
    let t = get(terraria_tshock_id()).unwrap();
    assert!(t.config.install_steps.iter().any(
        |s| matches!(&s.action, StepAction::DownloadGithubReleaseAsset { tag_param, .. } if tag_param == "tshock_version")
    ));
    assert!(t.config.install_steps.iter().any(|s| matches!(&s.action, StepAction::Extract { .. })));
    assert!(t
        .config
        .install_steps
        .iter()
        .any(|s| matches!(&s.action, StepAction::Delete { path, .. } if path.contains("zip"))));
}

#[test]
fn terraria_tshock_creates_worlds_directory() {
    let t = get(terraria_tshock_id()).unwrap();
    assert!(t
        .config
        .install_steps
        .iter()
        .any(|s| matches!(&s.action, StepAction::CreateDir { path } if path.contains("worlds"))));
}

#[test]
fn terraria_tshock_stop_sends_exit_command() {
    let t = get(terraria_tshock_id()).unwrap();
    assert!(t
        .config
        .stop_steps
        .iter()
        .any(|s| matches!(&s.action, StepAction::SendInput { text } if text.contains("exit"))));
}

#[test]
fn terraria_tshock_update_check_uses_github() {
    let t = get(terraria_tshock_id()).unwrap();
    match &t.config.update_check.as_ref().unwrap().provider {
        UpdateCheckProvider::Api { url, .. } => assert!(url.contains("github.com") && url.contains("TShock")),
        other => panic!("unexpected {:?}", other),
    }
    assert!(t.requires_github);
    assert!(!t.requires_steamcmd);
}

#[test]
fn options_from_urls_are_valid_http() {
    for t in list() {
        for p in &t.config.parameters {
            if let Some(ref opts) = p.options_from {
                assert!(opts.url.starts_with("https://") || opts.url.starts_with("http://"));
            }
        }
    }
}

#[test]
fn all_templates_have_default_isolation() {
    let default_iso = IsolationConfig::default();
    for t in list() {
        assert_eq!(t.config.isolation.enabled, default_iso.enabled);
    }
}

// ── Variable reference integrity ──

/// All `${name}` references in a string.
fn extract_var_refs(s: &str) -> Vec<String> {
    let mut refs = Vec::new();
    let mut rest = s;
    while let Some(start) = rest.find("${") {
        if let Some(end) = rest[start..].find('}') {
            let name = &rest[start + 2..start + end];
            if !name.is_empty() {
                refs.push(name.to_string());
            }
            rest = &rest[start + end + 1..];
        } else {
            break;
        }
    }
    refs
}

/// All `${var}` references of a list of steps, with the step's name.
fn collect_step_var_refs(steps: &[PipelineStep]) -> Vec<(String, String)> {
    let mut refs = Vec::new();
    for step in steps {
        let mut texts: Vec<&str> = Vec::new();
        match &step.action {
            StepAction::Download { url, destination, filename, .. } => {
                texts.push(url);
                texts.push(destination);
                if let Some(f) = filename {
                    texts.push(f);
                }
            }
            StepAction::WriteFile { path, content } => {
                texts.push(path);
                texts.push(content);
            }
            StepAction::RunCommand { command, args, .. } => {
                texts.push(command);
                for a in args {
                    texts.push(a);
                }
            }
            StepAction::Extract { source, destination, .. } => {
                texts.push(source);
                if let Some(d) = destination {
                    texts.push(d);
                }
            }
            StepAction::Delete { path, .. } => texts.push(path),
            StepAction::CreateDir { path } => texts.push(path),
            StepAction::SetPermissions { path, mode } => {
                texts.push(path);
                texts.push(mode);
            }
            StepAction::EditFile { path, .. } => texts.push(path),
            StepAction::ResolveVariable { url, .. } => texts.push(url),
            StepAction::SendInput { text } => texts.push(text),
            StepAction::Glob { pattern, destination } => {
                texts.push(pattern);
                texts.push(destination);
            }
            StepAction::MoveAction { source, destination } => {
                texts.push(source);
                texts.push(destination);
            }
            StepAction::Copy { source, destination, .. } => {
                texts.push(source);
                texts.push(destination);
            }
            StepAction::SetWorkingDir { path } => texts.push(path),
            StepAction::SetStopCommand { command } => texts.push(command),
            StepAction::SetEnv { variables } => {
                for (_, v) in variables {
                    texts.push(v);
                }
            }
            StepAction::WaitForOutput { pattern, .. } => texts.push(pattern),
            StepAction::DownloadGithubReleaseAsset { tag_param, asset_matcher, destination, filename, .. } => {
                texts.push(tag_param);
                texts.push(asset_matcher);
                texts.push(destination);
                if let Some(f) = filename {
                    texts.push(f);
                }
            }
            StepAction::DownloadCurseForgeFile { file_param, destination, filename, .. } => {
                texts.push(file_param);
                texts.push(destination);
                if let Some(f) = filename {
                    texts.push(f);
                }
            }
            StepAction::SteamCmdInstall { extra_args, .. } | StepAction::SteamCmdUpdate { extra_args, .. } => {
                for a in extra_args {
                    texts.push(a);
                }
            }
            StepAction::Sleep { .. } | StepAction::SendSignal { .. } | StepAction::SetStopSignal { .. } => {}
        }
        for t in texts {
            for v in extract_var_refs(t) {
                refs.push((step.name.clone(), v));
            }
        }
    }
    refs
}

/// Names of the variables that ResolveVariable steps produce.
fn collect_resolved_vars(steps: &[PipelineStep]) -> Vec<String> {
    steps
        .iter()
        .filter_map(|s| match &s.action {
            StepAction::ResolveVariable { variable, .. } => Some(variable.clone()),
            _ => None,
        })
        .collect()
}

/// Variables always available when a pipeline runs.
fn builtin_var_names() -> Vec<&'static str> {
    vec!["server_dir", "server_id", "server_name"]
}

/// Every `${var}` of the steps is a parameter, a built-in variable, or the
/// output of a ResolveVariable step.
fn assert_vars_resolvable(template_name: &str, phase_name: &str, steps: &[PipelineStep], params: &[ConfigParameter]) {
    let param_names: Vec<&str> = params.iter().map(|p| p.name.as_str()).collect();
    let resolved_vars = collect_resolved_vars(steps);
    let builtins = builtin_var_names();
    for (step_name, var) in &collect_step_var_refs(steps) {
        let ok = param_names.contains(&var.as_str()) || builtins.contains(&var.as_str()) || resolved_vars.contains(var);
        assert!(
            ok,
            "Template '{}', phase '{}', step '{}': references undefined variable '{}'",
            template_name, phase_name, step_name, var,
        );
    }
}

#[test]
fn install_steps_only_reference_defined_variables() {
    for t in list() {
        assert_vars_resolvable(&t.name, "install", &t.config.install_steps, &t.config.parameters);
    }
}

#[test]
fn update_steps_only_reference_defined_variables() {
    for t in list() {
        assert_vars_resolvable(&t.name, "update", &t.config.update_steps, &t.config.parameters);
    }
}

#[test]
fn start_steps_only_reference_defined_variables() {
    for t in list() {
        assert_vars_resolvable(&t.name, "start", &t.config.start_steps, &t.config.parameters);
    }
}

#[test]
fn stop_steps_only_reference_defined_variables() {
    for t in list() {
        assert_vars_resolvable(&t.name, "stop", &t.config.stop_steps, &t.config.parameters);
    }
}

#[test]
fn args_only_reference_defined_variables() {
    for t in list() {
        let param_names: Vec<&str> = t.config.parameters.iter().map(|p| p.name.as_str()).collect();
        let builtins = builtin_var_names();
        for arg in &t.config.args {
            for var in extract_var_refs(arg) {
                let ok = param_names.contains(&var.as_str()) || builtins.contains(&var.as_str());
                assert!(ok, "Template '{}', args: references undefined variable '{}' in arg '{}'", t.name, var, arg);
            }
        }
    }
}

#[test]
fn resolve_variable_steps_produce_unique_names() {
    for t in list() {
        let all_steps: Vec<(&str, &[PipelineStep])> = vec![("install", &t.config.install_steps), ("update", &t.config.update_steps)];
        for (phase, steps) in all_steps {
            let vars = collect_resolved_vars(steps);
            let mut deduped = vars.clone();
            deduped.sort();
            deduped.dedup();
            assert_eq!(vars.len(), deduped.len(), "Template '{}', phase '{}': duplicate ResolveVariable names", t.name, phase);
        }
    }
}

#[test]
fn resolve_variable_steps_do_not_shadow_parameters() {
    for t in list() {
        let param_names: Vec<&str> = t.config.parameters.iter().map(|p| p.name.as_str()).collect();
        let all_steps: Vec<(&str, &[PipelineStep])> = vec![("install", &t.config.install_steps), ("update", &t.config.update_steps)];
        for (phase, steps) in all_steps {
            for var in &collect_resolved_vars(steps) {
                assert!(
                    !param_names.contains(&var.as_str()),
                    "Template '{}', phase '{}': ResolveVariable '{}' shadows a parameter name",
                    t.name, phase, var,
                );
            }
        }
    }
}

#[test]
fn update_check_api_urls_are_valid() {
    for t in list() {
        if let Some(ref uc) = t.config.update_check {
            if let UpdateCheckProvider::Api { url, .. } = &uc.provider {
                assert!(
                    url.starts_with("https://") || url.starts_with("http://"),
                    "Template '{}': update_check API URL '{}' is not a valid HTTP URL",
                    t.name, url,
                );
            }
        }
    }
}

// ── Parameter patterns ──

#[test]
fn regex_patterns_are_valid() {
    for t in list() {
        for p in &t.config.parameters {
            if let Some(ref pattern) = p.regex {
                let result = regex::Regex::new(pattern);
                assert!(result.is_ok(), "Template '{}': parameter '{}' has invalid regex '{}'", t.name, p.name, pattern);
            }
        }
    }
}

#[test]
fn regex_patterns_accept_default_values() {
    for t in list() {
        for p in &t.config.parameters {
            if let (Some(ref pattern), Some(ref default)) = (&p.regex, &p.default) {
                let re = regex::Regex::new(pattern).unwrap();
                assert!(
                    re.is_match(default),
                    "Template '{}': parameter '{}' default '{}' does not match its own regex '{}'",
                    t.name, p.name, default, pattern,
                );
            }
        }
    }
}

#[test]
fn valheim_password_has_min_length_regex() {
    let v = get(valheim_id()).unwrap();
    let pw_param = v
        .config
        .parameters
        .iter()
        .find(|p| p.name == "password")
        .expect("Valheim should have a password parameter");
    assert!(pw_param.regex.is_some(), "Valheim password should have a regex for minimum length");
    let re = regex::Regex::new(pw_param.regex.as_ref().unwrap()).unwrap();
    assert!(!re.is_match("abcd"), "4-char password should be rejected");
    assert!(re.is_match("abcde"), "5-char password should be accepted");
}

#[test]
fn terraria_world_name_regex_rejects_special_chars() {
    let t = get(terraria_tshock_id()).unwrap();
    let world_param = t
        .config
        .parameters
        .iter()
        .find(|p| p.name == "world_name")
        .expect("TShock should have world_name parameter");
    let re = regex::Regex::new(world_param.regex.as_ref().unwrap()).unwrap();
    assert!(re.is_match("my_world"), "underscores should be allowed");
    assert!(re.is_match("World-1"), "hyphens should be allowed");
    assert!(!re.is_match("my world"), "spaces should be rejected");
    assert!(!re.is_match("world;rm -rf /"), "semicolons should be rejected");
    assert!(!re.is_match("../etc"), "path traversal should be rejected");
}

#[test]
fn all_ones_id_is_not_builtin() {
    let foreign = uuid::Uuid::from_u128(u128::MAX);
    assert!(!is_builtin(foreign));
    assert!(get(foreign).is_none());
}

#[test]
fn valheim_install_uses_anonymous_login_and_template_app() {
    let v = get(valheim_id()).unwrap();
    match &v.config.install_steps[0].action {
        StepAction::SteamCmdInstall { app_id, anonymous, extra_args } => {
            assert_eq!(*app_id, None);
            assert!(*anonymous);
            assert!(extra_args.is_empty());
        }
        other => panic!("unexpected first install step: {:?}", other),
    }
    match &v.config.update_steps[0].action {
        StepAction::SteamCmdUpdate { app_id, anonymous, .. } => {
            assert_eq!(*app_id, None);
            assert!(*anonymous);
        }
        other => panic!("unexpected update step: {:?}", other),
    }
}

#[test]
fn builtin_ids_differ_from_each_other() {
    let ids: Vec<uuid::Uuid> = list().iter().map(|t| t.id).collect();
    assert_ne!(ids[0], ids[1]);
    assert_ne!(ids[0], ids[2]);
    assert_ne!(ids[1], ids[2]);
}
