//! The curated templates shipped with the panel: Minecraft (Paper),
//! Valheim and Terraria (TShock).  They are built in memory and cannot be
//! changed or deleted.

use std::collections::HashMap;
use vstd::prelude::*;
use vstd::std_specs::hash::obeys_key_model;
use crate::steamcmd::requires_steamcmd;
use crate::time::DateTimeUtc;
use crate::types::pipeline::{
    ArchiveFormat, ConfigParameter, ConfigParameterType, OptionsFrom, OptionsSortOrder,
    PipelineStep, StepAction, StepCondition,
};
use crate::types::server::{
    IsolationConfig, ServerConfig, StopSignal, UpdateCheck, UpdateCheckProvider, VersionPick,
};
use crate::types::template::{ServerTemplate, requires_curseforge, requires_github};
use crate::varrefs::{
    action_refs_defined_at, lemma_no_refs, lemma_ref_at, lemma_refs_lone_dollar, lemma_refs_skip,
    phase_refs_defined, refs_defined, refs_from, var_refs,
};

verus! {

// ─── Identifiers ───

/// The identifier `uuid::Uuid::from_u128` builds from these 128 bits.
pub uninterp spec fn uuid_with_bits(bits: u128) -> uuid::Uuid;

/// `uuid::Uuid::from_u128`: the identifier whose bytes are these 128 bits,
/// most significant byte first.  Claimed: the result is the one
/// [`uuid_with_bits`] names, and no other bits name it (the bytes are the
/// bits themselves); the identifier is otherwise opaque here.
#[verifier::external_body]
fn uuid_from_u128(v: u128) -> (r: uuid::Uuid)
    ensures
        r == uuid_with_bits(v),
        forall|b: u128| #[trigger] uuid_with_bits(b) == r ==> b == v,
{
    uuid::Uuid::from_u128(v)
}

/// `Uuid::eq`: two identifiers are equal exactly when they are the same
/// value (the derived comparison of their bytes).
pub assume_specification[ <uuid::Uuid as PartialEq>::eq ](a: &uuid::Uuid, b: &uuid::Uuid) -> (r: bool)
    ensures
        r == (*a == *b),
;

/// Identifier of the Minecraft (Paper) template.
pub fn minecraft_paper_id() -> (r: uuid::Uuid)
    ensures
        r == uuid_with_bits(0x00bafeed_0001_4000_8000_000000000001u128),
        forall|b: u128| #[trigger] uuid_with_bits(b) == r ==> b == 0x00bafeed_0001_4000_8000_000000000001u128,
{
    uuid_from_u128(0x00bafeed_0001_4000_8000_000000000001)
}

/// Identifier of the Valheim template.
pub fn valheim_id() -> (r: uuid::Uuid)
    ensures
        r == uuid_with_bits(0x00bafeed_0001_4000_8000_000000000002u128),
        forall|b: u128| #[trigger] uuid_with_bits(b) == r ==> b == 0x00bafeed_0001_4000_8000_000000000002u128,
{
    uuid_from_u128(0x00bafeed_0001_4000_8000_000000000002)
}

/// Identifier of the Terraria (TShock) template.
pub fn terraria_tshock_id() -> (r: uuid::Uuid)
    ensures
        r == uuid_with_bits(0x00bafeed_0001_4000_8000_000000000003u128),
        forall|b: u128| #[trigger] uuid_with_bits(b) == r ==> b == 0x00bafeed_0001_4000_8000_000000000003u128,
{
    uuid_from_u128(0x00bafeed_0001_4000_8000_000000000003)
}

/// The "system" user that built-in templates are created by.
pub fn system_user_id() -> (r: uuid::Uuid)
    ensures
        r == uuid_with_bits(0x00000000_0000_4000_8000_000000000000u128),
        forall|b: u128| #[trigger] uuid_with_bits(b) == r ==> b == 0x00000000_0000_4000_8000_000000000000u128,
{
    uuid_from_u128(0x00000000_0000_4000_8000_000000000000)
}

/// When built-in templates were created: 2025-01-01T00:00:00Z.
pub fn builtin_timestamp() -> (r: DateTimeUtc)
    ensures
        r == (DateTimeUtc { secs: 1735689600, nanos: 0 }),
{
    DateTimeUtc { secs: 1735689600, nanos: 0 }
}

// ─── Builders ───

fn text(s: &str) -> (r: String)
    ensures
        r@ == s@,
{
    String::from_str(s)
}

fn some_text(s: &str) -> (r: Option<String>)
    ensures
        r matches Some(t) && t@ == s@,
{
    Some(String::from_str(s))
}

/// A step with a description that stops the pipeline when it fails.
fn step_desc(name: &str, desc: &str, action: StepAction) -> (r: PipelineStep)
    ensures
        r.name@ == name@,
        r.description matches Some(d) && d@ == desc@,
        r.action == action,
        r.condition is None,
        !r.continue_on_error,
{
    PipelineStep {
        name: text(name),
        description: some_text(desc),
        action,
        condition: None,
        continue_on_error: false,
    }
}

/// A step with a description and a condition that stops the pipeline when
/// it fails.
fn step_desc_cond(name: &str, desc: &str, action: StepAction, condition: StepCondition) -> (r:
    PipelineStep)
    ensures
        r.name@ == name@,
        r.description matches Some(d) && d@ == desc@,
        r.action == action,
        r.condition == Some(condition),
        !r.continue_on_error,
{
    PipelineStep {
        name: text(name),
        description: some_text(desc),
        action,
        condition: Some(condition),
        continue_on_error: false,
    }
}

/// A step whose failure does not stop the pipeline.
fn tolerant_step(name: &str, desc: &str, action: StepAction, condition: Option<StepCondition>) -> (r:
    PipelineStep)
    ensures
        r.name@ == name@,
        r.description matches Some(d) && d@ == desc@,
        r.action == action,
        r.condition == condition,
        r.continue_on_error,
{
    PipelineStep {
        name: text(name),
        description: some_text(desc),
        action,
        condition,
        continue_on_error: true,
    }
}

/// A template parameter without dynamic options or a GitHub repository.
fn param(
    name: &str,
    label: &str,
    desc: &str,
    param_type: ConfigParameterType,
    default: Option<String>,
    regex: Option<String>,
    options: Vec<String>,
) -> (r: ConfigParameter)
    ensures
        r.name@ == name@,
        r.label@ == label@,
        r.description matches Some(d) && d@ == desc@,
        r.param_type == param_type,
        r.default == default,
        r.required,
        r.options == options,
        r.regex == regex,
        !r.is_version,
        r.options_from is None,
        r.github_repo is None,
{
    ConfigParameter {
        name: text(name),
        label: text(label),
        description: some_text(desc),
        param_type,
        default,
        required: true,
        options,
        regex,
        is_version: false,
        options_from: None,
        github_repo: None,
    }
}

/// A condition on a path existing.
fn if_exists(path: &str) -> (r: StepCondition)
    ensures
        r.path_exists matches Some(p) && p@ == path@,
        r.path_not_exists is None,
{
    StepCondition { path_exists: some_text(path), path_not_exists: None }
}

/// A condition on a path not existing.
fn if_missing(path: &str) -> (r: StepCondition)
    ensures
        r.path_exists is None,
        r.path_not_exists matches Some(p) && p@ == path@,
{
    StepCondition { path_exists: None, path_not_exists: some_text(path) }
}

/// The action writes `content` to `path`.
pub open spec fn writes_file(a: StepAction, path: Seq<char>, content: Seq<char>) -> bool {
    a matches StepAction::WriteFile { path: p, content: c } && p@ == path && c@ == content
}

/// The action sends `text` to the server's stdin.
pub open spec fn sends_input(a: StepAction, text: Seq<char>) -> bool {
    a matches StepAction::SendInput { text: t } && t@ == text
}

/// `o` holds text `v` (both absent, or both present with that text).
pub open spec fn opt_text_is(o: Option<String>, v: Option<Seq<char>>) -> bool {
    match (o, v) {
        (Some(s), Some(t)) => s@ == t,
        (None, None) => true,
        _ => false,
    }
}

/// The texts of `v` are `t`, in order.
pub open spec fn texts_are(v: Seq<String>, t: Seq<Seq<char>>) -> bool {
    v.len() == t.len() && forall|i: int| 0 <= i < v.len() ==> #[trigger] v[i]@ == t[i]
}

/// `p` is a plain parameter (no dynamic options, no repository, not the
/// version) with these texts.
pub open spec fn plain_param_is(
    p: ConfigParameter,
    name: Seq<char>,
    label: Seq<char>,
    desc: Seq<char>,
    param_type: ConfigParameterType,
    default: Option<Seq<char>>,
    regex: Option<Seq<char>>,
    options: Seq<Seq<char>>,
) -> bool {
    &&& p.name@ == name
    &&& p.label@ == label
    &&& opt_text_is(p.description, Some(desc))
    &&& p.param_type == param_type
    &&& opt_text_is(p.default, default)
    &&& opt_text_is(p.regex, regex)
    &&& texts_are(p.options@, options)
    &&& p.required
    &&& !p.is_version
    &&& p.options_from is None
    &&& p.github_repo is None
}

/// `s` is named `name`, described by `desc`, runs under the condition
/// (`path_exists`, `path_not_exists`), and stops the pipeline on failure
/// unless `tolerant`.
pub open spec fn step_is(
    s: PipelineStep,
    name: Seq<char>,
    desc: Seq<char>,
    path_exists: Option<Seq<char>>,
    path_not_exists: Option<Seq<char>>,
    tolerant: bool,
) -> bool {
    &&& s.name@ == name
    &&& opt_text_is(s.description, Some(desc))
    &&& (if path_exists is None && path_not_exists is None {
        s.condition is None
    } else {
        s.condition matches Some(c) && opt_text_is(c.path_exists, path_exists) && opt_text_is(
            c.path_not_exists,
            path_not_exists,
        )
    })
    &&& s.continue_on_error == tolerant
}

/// The isolation settings that `IsolationConfig::default` gives: enabled,
/// no extra paths, no process limit.
pub open spec fn default_isolation(i: IsolationConfig) -> bool {
    i.enabled && i.extra_read_paths@.len() == 0 && i.extra_rw_paths@.len() == 0 && i.pids_max is None
}

// ─── Minecraft (Paper) ───

/// `steps` begin with the two PaperMC lookups that download a Paper jar:
/// resolve the latest build of the chosen version into `paper_build`, then
/// download that build as `paper.jar`; neither may fail.
pub open spec fn downloads_paper(steps: Seq<PipelineStep>) -> bool {
    &&& steps.len() >= 2
    &&& step_is(
        steps[0],
        "Resolve latest Paper build"@,
        "Query the PaperMC API for the latest build number."@,
        None,
        None,
        false,
    )
    &&& steps[0].action matches StepAction::ResolveVariable { url, path, pick, value_key, variable }
        && url@ == "https://api.papermc.io/v2/projects/paper/versions/${mc_version}/builds"@
        && opt_text_is(path, Some("builds"@)) && pick == VersionPick::Last && opt_text_is(
        value_key,
        Some("build"@),
    ) && variable@ == "paper_build"@
    &&& step_is(
        steps[1],
        "Download Paper"@,
        "Download the Paper server jar from the PaperMC API."@,
        None,
        None,
        false,
    )
    &&& steps[1].action matches StepAction::Download { url, destination, filename, executable }
        && url@
        == "https://api.papermc.io/v2/projects/paper/versions/${mc_version}/builds/${paper_build}/downloads/paper-${mc_version}-${paper_build}.jar"@
        && destination@ == "."@ && opt_text_is(filename, Some("paper.jar"@)) && !executable
}

/// The two PaperMC lookups that download a Paper jar: resolve the latest
/// build number of the chosen version, then download that build.
fn paper_download_steps() -> (r: Vec<PipelineStep>)
    ensures
        r@.len() == 2,
        downloads_paper(r@),
{
    vec![
        step_desc(
            "Resolve latest Paper build",
            "Query the PaperMC API for the latest build number.",
            StepAction::ResolveVariable {
                url: text("https://api.papermc.io/v2/projects/paper/versions/${mc_version}/builds"),
                path: some_text("builds"),
                pick: VersionPick::Last,
                value_key: some_text("build"),
                variable: text("paper_build"),
            },
        ),
        step_desc(
            "Download Paper",
            "Download the Paper server jar from the PaperMC API.",
            StepAction::Download {
                url: text(
                    "https://api.papermc.io/v2/projects/paper/versions/${mc_version}/builds/${paper_build}/downloads/paper-${mc_version}-${paper_build}.jar",
                ),
                destination: text("."),
                filename: some_text("paper.jar"),
                executable: false,
            },
        ),
    ]
}

/// `r` is the Minecraft (Paper) template, field by field.
pub open spec fn is_minecraft_paper(r: ServerTemplate) -> bool {
    &&& r.id == uuid_with_bits(0x00bafeed_0001_4000_8000_000000000001u128)
    &&& r.created_by == uuid_with_bits(0x00000000_0000_4000_8000_000000000000u128)
    &&& r.name@ == "Minecraft Paper"@
    &&& r.is_builtin
    &&& r.created_at == (DateTimeUtc { secs: 1735689600, nanos: 0 })
    &&& r.updated_at == (DateTimeUtc { secs: 1735689600, nanos: 0 })
    &&& r.config.binary@ == "java"@
    &&& r.config.auto_restart && r.config.max_restart_attempts == 3
    &&& r.config.stop_command matches Some(c) && c@ == "stop"@
    &&& r.config.stop_signal == StopSignal::Sigterm
    &&& r.config.enable_java_helper && !r.config.enable_dotnet_helper
    &&& r.config.steam_app_id is None
    &&& r.config.parameters@.len() == 3
    &&& r.config.parameters@[0].name@ == "mc_version"@
    &&& r.config.parameters@[0].is_version
    &&& r.config.parameters@[0].options_from matches Some(o) && o.url@
            == "https://api.papermc.io/v2/projects/paper"@
    &&& r.config.stop_steps@.len() == 2
    &&& sends_input(r.config.stop_steps@[0].action, "stop\n"@)
    &&& r.config.stop_steps@[1].action matches StepAction::WaitForOutput { pattern, timeout_secs }
            && pattern@ == "All dimensions are saved"@ && timeout_secs == 30
    &&& r.config.install_steps@.len() == 4
    &&& downloads_paper(r.config.install_steps@)
    &&& downloads_paper(r.config.update_steps@)
    &&& writes_file(
            r.config.install_steps@[2].action,
            "eula.txt"@,
            "# Auto-accepted by AnyServer template\neula=true\n"@,
        )
    &&& r.config.install_steps@[3].condition matches Some(c) && c.path_not_exists matches Some(p)
            && p@ == "server.properties"@
    &&& r.config.update_steps@.len() == 2
    &&& r.config.update_check matches Some(uc) && uc.provider matches UpdateCheckProvider::Api {
            url,
            pick,
            ..
        } && url@ == "https://api.papermc.io/v2/projects/paper"@ && pick == VersionPick::Last
    &&& r.config.update_check matches Some(uc) && uc.provider matches UpdateCheckProvider::Api {
            path,
            value_key,
            ..
        } && opt_text_is(path, Some("versions"@)) && value_key is None && uc.interval_secs == Some(
            3600u64,
        ) && uc.cache_secs == 300
    &&& opt_text_is(
            r.description,
            Some(
                "High-performance Minecraft server based on Paper. Supports plugins, automatic EULA acceptance, and configurable memory allocation. Requires Java 21+ to be installed on the host."@,
            ),
        )
    &&& r.config.name@ == "Minecraft Paper Server"@
    &&& texts_are(
            r.config.args@,
            seq![
                "-Xms${memory}"@,
                "-Xmx${memory}"@,
                "-jar"@,
                "paper.jar"@,
                "--nogui"@,
                "--port"@,
                "${server_port}"@,
            ],
        )
    &&& r.config.env@ == Map::<String, String>::empty()
    &&& r.config.working_dir is None
    &&& !r.config.auto_start
    &&& r.config.restart_delay_secs == 10 && r.config.stop_timeout_secs == 30
    &&& r.config.sftp_username is None && r.config.sftp_password is None
    &&& r.config.parameters@[0].label@ == "Minecraft Version"@
    &&& opt_text_is(
            r.config.parameters@[0].description,
            Some("The Minecraft version to install (e.g. 1.21.4)."@),
        )
    &&& r.config.parameters@[0].param_type == ConfigParameterType::String
    &&& opt_text_is(r.config.parameters@[0].default, Some("1.21.4"@))
    &&& r.config.parameters@[0].required
    &&& r.config.parameters@[0].options@.len() == 0
    &&& opt_text_is(r.config.parameters@[0].regex, Some("^\\d+\\.\\d+(\\.\\d+)?$"@))
    &&& r.config.parameters@[0].github_repo is None
    &&& r.config.parameters@[0].options_from matches Some(o) && opt_text_is(
            o.path,
            Some("versions"@),
        ) && o.value_key is None && o.label_key is None && o.sort == Some(OptionsSortOrder::Desc)
            && o.limit == Some(25u32) && o.cache_secs == Some(300u32)
    &&& plain_param_is(
            r.config.parameters@[1],
            "memory"@,
            "Memory Allocation"@,
            "JVM heap size (e.g. 2G, 4G). Applied to both -Xms and -Xmx."@,
            ConfigParameterType::Select,
            Some("2G"@),
            None,
            seq!["1G"@, "2G"@, "4G"@, "6G"@, "8G"@],
        )
    &&& plain_param_is(
            r.config.parameters@[2],
            "server_port"@,
            "Server Port"@,
            "The port the server listens on."@,
            ConfigParameterType::Number,
            Some("25565"@),
            None,
            seq![],
        )
    &&& step_is(
            r.config.stop_steps@[0],
            "Send stop command"@,
            "Send the 'stop' command to gracefully shut down."@,
            None,
            None,
            false,
        )
    &&& step_is(
            r.config.stop_steps@[1],
            "Wait for shutdown"@,
            "Wait for the server to finish saving."@,
            None,
            None,
            true,
        )
    &&& r.config.start_steps@.len() == 0 && r.config.uninstall_steps@.len() == 0
    &&& step_is(
            r.config.install_steps@[2],
            "Accept EULA"@,
            "Write eula.txt to accept the Minecraft EULA."@,
            None,
            None,
            false,
        )
    &&& step_is(
            r.config.install_steps@[3],
            "Write server.properties"@,
            "Create a default server.properties with the configured port."@,
            None,
            Some("server.properties"@),
            false,
        )
    &&& writes_file(
            r.config.install_steps@[3].action,
            "server.properties"@,
            "# Minecraft Server Properties\n# Generated by AnyServer\nserver-port=${server_port}\nonline-mode=true\nmax-players=20\nview-distance=10\nspawn-protection=0\n"@,
        )
    &&& default_isolation(r.config.isolation)
    &&& r.config.log_to_disk && r.config.max_log_size_mb == 50
    &&& r.requires_steamcmd == requires_steamcmd(r.config)
    &&& r.requires_curseforge == requires_curseforge(r.config)
    &&& r.requires_github == requires_github(r.config)
}

/// The Minecraft (Paper) template: Java, with the version chosen from the
/// PaperMC API, the EULA accepted on install, a `server.properties` written
/// only when there is none, a graceful `stop` on shutdown, and updates
/// checked against the PaperMC API.
pub fn minecraft_paper_template() -> (r: ServerTemplate)
    ensures
        is_minecraft_paper(r),
        forall|b: u128| #[trigger] uuid_with_bits(b) == r.id ==> b == 0x00bafeed_0001_4000_8000_000000000001u128,
{
    let mut install_steps = paper_download_steps();
    install_steps.push(
        step_desc(
            "Accept EULA",
            "Write eula.txt to accept the Minecraft EULA.",
            StepAction::WriteFile {
                path: text("eula.txt"),
                content: text("# Auto-accepted by AnyServer template\neula=true\n"),
            },
        ),
    );
    install_steps.push(
        step_desc_cond(
            "Write server.properties",
            "Create a default server.properties with the configured port.",
            StepAction::WriteFile {
                path: text("server.properties"),
                content: text(
                    "# Minecraft Server Properties\n# Generated by AnyServer\nserver-port=${server_port}\nonline-mode=true\nmax-players=20\nview-distance=10\nspawn-protection=0\n",
                ),
            },
            if_missing("server.properties"),
        ),
    );
    let update_steps = paper_download_steps();
    let mc_version = ConfigParameter {
        name: text("mc_version"),
        label: text("Minecraft Version"),
        description: some_text("The Minecraft version to install (e.g. 1.21.4)."),
        param_type: ConfigParameterType::String,
        default: some_text("1.21.4"),
        required: true,
        options: Vec::new(),
        regex: some_text("^\\d+\\.\\d+(\\.\\d+)?$"),
        is_version: true,
        options_from: Some(
            OptionsFrom {
                url: text("https://api.papermc.io/v2/projects/paper"),
                path: some_text("versions"),
                value_key: None,
                label_key: None,
                sort: Some(OptionsSortOrder::Desc),
                limit: Some(25),
                cache_secs: Some(300),
            },
        ),
        github_repo: None,
    };
    let config = ServerConfig {
        name: text("Minecraft Paper Server"),
        binary: text("java"),
        args: vec![
            text("-Xms${memory}"),
            text("-Xmx${memory}"),
            text("-jar"),
            text("paper.jar"),
            text("--nogui"),
            text("--port"),
            text("${server_port}"),
        ],
        env: HashMap::new(),
        working_dir: None,
        auto_start: false,
        auto_restart: true,
        max_restart_attempts: 3,
        restart_delay_secs: 10,
        stop_command: some_text("stop"),
        stop_signal: StopSignal::Sigterm,
        stop_timeout_secs: 30,
        sftp_username: None,
        sftp_password: None,
        parameters: vec![
            mc_version,
            param(
                "memory",
                "Memory Allocation",
                "JVM heap size (e.g. 2G, 4G). Applied to both -Xms and -Xmx.",
                ConfigParameterType::Select,
                some_text("2G"),
                None,
                vec![text("1G"), text("2G"), text("4G"), text("6G"), text("8G")],
            ),
            param(
                "server_port",
                "Server Port",
                "The port the server listens on.",
                ConfigParameterType::Number,
                some_text("25565"),
                None,
                Vec::new(),
            ),
        ],
        stop_steps: vec![
            step_desc(
                "Send stop command",
                "Send the 'stop' command to gracefully shut down.",
                StepAction::SendInput { text: text("stop\n") },
            ),
            tolerant_step(
                "Wait for shutdown",
                "Wait for the server to finish saving.",
                StepAction::WaitForOutput {
                    pattern: text("All dimensions are saved"),
                    timeout_secs: 30,
                },
                None,
            ),
        ],
        start_steps: Vec::new(),
        install_steps,
        update_steps,
        uninstall_steps: Vec::new(),
        isolation: IsolationConfig::default(),
        update_check: Some(
            UpdateCheck {
                provider: UpdateCheckProvider::Api {
                    url: text("https://api.papermc.io/v2/projects/paper"),
                    path: some_text("versions"),
                    pick: VersionPick::Last,
                    value_key: None,
                },
                interval_secs: Some(3600),
                cache_secs: 300,
            },
        ),
        log_to_disk: true,
        max_log_size_mb: 50,
        enable_java_helper: true,
        enable_dotnet_helper: false,
        steam_app_id: None,
    };
    let t = ServerTemplate {
        id: minecraft_paper_id(),
        name: text("Minecraft Paper"),
        description: some_text(
            "High-performance Minecraft server based on Paper. Supports plugins, automatic EULA acceptance, and configurable memory allocation. Requires Java 21+ to be installed on the host.",
        ),
        config,
        created_by: system_user_id(),
        created_at: builtin_timestamp(),
        updated_at: builtin_timestamp(),
        is_builtin: true,
        requires_steamcmd: false,
        requires_curseforge: false,
        requires_github: false,
    };
    t.with_integration_flags()
}

// ─── Valheim ───

/// The environment map `m` holds a key with text `k`, bound to text `v`.
pub open spec fn env_binds(m: Map<String, String>, k: Seq<char>, v: Seq<char>) -> bool {
    exists|key: String| #[trigger] m.contains_key(key) && key@ == k && m[key]@ == v
}

/// `m` binds exactly `LD_LIBRARY_PATH` to `./linux64:$LD_LIBRARY_PATH` and
/// `SteamAppId` to `892970`.
pub open spec fn valheim_env_is(m: Map<String, String>) -> bool {
    &&& env_binds(m, "LD_LIBRARY_PATH"@, "./linux64:$LD_LIBRARY_PATH"@)
    &&& env_binds(m, "SteamAppId"@, "892970"@)
    &&& forall|key: String|
        #[trigger] m.contains_key(key) ==> (key@ == "LD_LIBRARY_PATH"@ && m[key]@
            == "./linux64:$LD_LIBRARY_PATH"@) || (key@ == "SteamAppId"@ && m[key]@ == "892970"@)
}

/// `v` sets `LD_LIBRARY_PATH` to `./linux64:$LD_LIBRARY_PATH`, then
/// `SteamAppId` to `892970`.
pub open spec fn valheim_env_pairs_are(v: Seq<(String, String)>) -> bool {
    &&& v.len() == 2
    &&& v[0].0@ == "LD_LIBRARY_PATH"@ && v[0].1@ == "./linux64:$LD_LIBRARY_PATH"@
    &&& v[1].0@ == "SteamAppId"@ && v[1].1@ == "892970"@
}

/// The Valheim library path settings, as the pairs a start step sets.
fn valheim_env_pairs() -> (r: Vec<(String, String)>)
    ensures
        valheim_env_pairs_are(r@),
{
    vec![
        (text("LD_LIBRARY_PATH"), text("./linux64:$LD_LIBRARY_PATH")),
        (text("SteamAppId"), text("892970")),
    ]
}

/// The Valheim library path settings, as an environment map: `LD_LIBRARY_PATH`
/// set to `./linux64:$LD_LIBRARY_PATH` and `SteamAppId` to `892970`, and no
/// other key.  (Stated under vstd's model of hash maps, which holds for key
/// types whose hashing and equality agree with their values.)
fn valheim_env() -> (r: HashMap<String, String>)
    ensures
        obeys_key_model::<String>() ==> valheim_env_is(r@),
{
    let mut env: HashMap<String, String> = HashMap::new();
    let k1 = text("LD_LIBRARY_PATH");
    let v1 = text("./linux64:$LD_LIBRARY_PATH");
    let k2 = text("SteamAppId");
    let v2 = text("892970");
    let ghost (gk1, gv1, gk2, gv2) = (k1, v1, k2, v2);
    env.insert(k1, v1);
    env.insert(k2, v2);
    proof {
        broadcast use vstd::std_specs::hash::axiom_random_state_builds_valid_hashers;
        reveal_strlit("LD_LIBRARY_PATH");
        reveal_strlit("SteamAppId");
        if obeys_key_model::<String>() {
            assert(env@ == Map::<String, String>::empty().insert(gk1, gv1).insert(gk2, gv2));
            assert(gk1@.len() == 15 && gk2@.len() == 10);
            assert(gk1 != gk2);
            assert(env@.contains_key(gk1) && env@[gk1] == gv1);
            assert(env@.contains_key(gk2) && env@[gk2] == gv2);
        }
    }
    env
}

/// `r` is the Valheim template, field by field.
pub open spec fn is_valheim(r: ServerTemplate) -> bool {
    &&& r.id == uuid_with_bits(0x00bafeed_0001_4000_8000_000000000002u128)
    &&& r.created_by == uuid_with_bits(0x00000000_0000_4000_8000_000000000000u128)
    &&& r.name@ == "Valheim Dedicated Server"@
    &&& r.is_builtin
    &&& r.created_at == (DateTimeUtc { secs: 1735689600, nanos: 0 })
    &&& r.updated_at == (DateTimeUtc { secs: 1735689600, nanos: 0 })
    &&& r.config.binary@ == "./valheim_server.x86_64"@
    &&& r.config.steam_app_id == Some(896660u32)
    &&& r.config.stop_command is None
    &&& r.config.stop_signal == StopSignal::Sigint
    &&& r.config.parameters@.len() == 4
    &&& r.config.parameters@[2].name@ == "password"@
    &&& r.config.parameters@[2].regex matches Some(x) && x@ == "^.{5,}$"@
    &&& r.config.stop_steps@.len() == 2
    &&& r.config.stop_steps@[0].action == (StepAction::SendSignal { signal: StopSignal::Sigint })
    &&& r.config.stop_steps@[1].action == (StepAction::Sleep { seconds: 10 })
    &&& r.config.install_steps@.len() == 2
    &&& r.config.install_steps@[0].action is SteamCmdInstall
    &&& r.config.update_steps@.len() == 1
    &&& r.config.update_steps@[0].action is SteamCmdUpdate
    &&& r.config.update_check is None
    &&& opt_text_is(
            r.description,
            Some(
                "Valheim dedicated server installed via Steam tools. Requires Steam command-line tooling to be available on PATH. The server is identified by Steam App ID 896660."@,
            ),
        )
    &&& r.config.name@ == "Valheim Server"@
    &&& texts_are(
            r.config.args@,
            seq![
                "-name"@,
                "${server_name}"@,
                "-port"@,
                "${server_port}"@,
                "-world"@,
                "${world_name}"@,
                "-password"@,
                "${password}"@,
                "-public"@,
                "1"@,
            ],
        )
    &&& obeys_key_model::<String>() ==> valheim_env_is(r.config.env@)
    &&& r.config.working_dir is None
    &&& !r.config.auto_start && r.config.auto_restart
    &&& r.config.max_restart_attempts == 3 && r.config.restart_delay_secs == 15
    &&& r.config.stop_timeout_secs == 30
    &&& r.config.sftp_username is None && r.config.sftp_password is None
    &&& plain_param_is(
            r.config.parameters@[0],
            "server_name"@,
            "Server Name"@,
            "The public name shown in the Valheim server browser."@,
            ConfigParameterType::String,
            Some("My Valheim Server"@),
            None,
            seq![],
        )
    &&& plain_param_is(
            r.config.parameters@[1],
            "world_name"@,
            "World Name"@,
            "Name of the world save file."@,
            ConfigParameterType::String,
            Some("Dedicated"@),
            None,
            seq![],
        )
    &&& plain_param_is(
            r.config.parameters@[2],
            "password"@,
            "Server Password"@,
            "Password required to join (must be at least 5 characters)."@,
            ConfigParameterType::String,
            None,
            Some("^.{5,}$"@),
            seq![],
        )
    &&& plain_param_is(
            r.config.parameters@[3],
            "server_port"@,
            "Server Port"@,
            "Base UDP port. Valheim uses this port and port+1."@,
            ConfigParameterType::Number,
            Some("2456"@),
            None,
            seq![],
        )
    &&& step_is(
            r.config.stop_steps@[0],
            "Send SIGINT"@,
            "Valheim handles SIGINT for graceful world save and shutdown."@,
            None,
            None,
            false,
        )
    &&& step_is(
            r.config.stop_steps@[1],
            "Wait for shutdown"@,
            "Wait for the server process to exit cleanly."@,
            None,
            None,
            true,
        )
    &&& r.config.start_steps@.len() == 1
    &&& step_is(
            r.config.start_steps@[0],
            "Set library path"@,
            "Ensure the Valheim shared libraries are on LD_LIBRARY_PATH."@,
            None,
            None,
            false,
        )
    &&& r.config.start_steps@[0].action matches StepAction::SetEnv { variables } && valheim_env_pairs_are(
        variables@,
    )
    &&& step_is(
            r.config.install_steps@[0],
            "Install Valheim server"@,
            "Use SteamCMD to download/install Valheim Dedicated Server (App 896660)."@,
            None,
            None,
            false,
        )
    &&& r.config.install_steps@[0].action matches StepAction::SteamCmdInstall {
            app_id,
            anonymous,
            extra_args,
        } && app_id is None && anonymous && extra_args@.len() == 0
    &&& step_is(
            r.config.install_steps@[1],
            "Make server executable"@,
            "Ensure the server binary has execute permission."@,
            Some("valheim_server.x86_64"@),
            None,
            true,
        )
    &&& r.config.install_steps@[1].action matches StepAction::SetPermissions { path, mode }
            && path@ == "valheim_server.x86_64"@ && mode@ == "755"@
    &&& step_is(
            r.config.update_steps@[0],
            "Update Valheim server"@,
            "Use SteamCMD to update to the latest version."@,
            None,
            None,
            false,
        )
    &&& r.config.update_steps@[0].action matches StepAction::SteamCmdUpdate {
            app_id,
            anonymous,
            extra_args,
        } && app_id is None && anonymous && extra_args@.len() == 0
    &&& r.config.uninstall_steps@.len() == 0
    &&& default_isolation(r.config.isolation)
    &&& r.config.log_to_disk && r.config.max_log_size_mb == 50
    &&& !r.config.enable_java_helper && !r.config.enable_dotnet_helper
    &&& r.requires_steamcmd
    &&& r.requires_steamcmd == requires_steamcmd(r.config)
    &&& r.requires_curseforge == requires_curseforge(r.config)
    &&& r.requires_github == requires_github(r.config)
}

/// The Valheim template: installed and updated with SteamCMD (app 896660),
/// stopped with SIGINT so that the world is saved.
pub fn valheim_template() -> (r: ServerTemplate)
    ensures
        is_valheim(r),
        forall|b: u128| #[trigger] uuid_with_bits(b) == r.id ==> b == 0x00bafeed_0001_4000_8000_000000000002u128,
{
    let config = ServerConfig {
        name: text("Valheim Server"),
        binary: text("./valheim_server.x86_64"),
        args: vec![
            text("-name"),
            text("${server_name}"),
            text("-port"),
            text("${server_port}"),
            text("-world"),
            text("${world_name}"),
            text("-password"),
            text("${password}"),
            text("-public"),
            text("1"),
        ],
        env: valheim_env(),
        working_dir: None,
        auto_start: false,
        auto_restart: true,
        max_restart_attempts: 3,
        restart_delay_secs: 15,
        stop_command: None,
        stop_signal: StopSignal::Sigint,
        stop_timeout_secs: 30,
        sftp_username: None,
        sftp_password: None,
        parameters: vec![
            param(
                "server_name",
                "Server Name",
                "The public name shown in the Valheim server browser.",
                ConfigParameterType::String,
                some_text("My Valheim Server"),
                None,
                Vec::new(),
            ),
            param(
                "world_name",
                "World Name",
                "Name of the world save file.",
                ConfigParameterType::String,
                some_text("Dedicated"),
                None,
                Vec::new(),
            ),
            param(
                "password",
                "Server Password",
                "Password required to join (must be at least 5 characters).",
                ConfigParameterType::String,
                None,
                some_text("^.{5,}$"),
                Vec::new(),
            ),
            param(
                "server_port",
                "Server Port",
                "Base UDP port. Valheim uses this port and port+1.",
                ConfigParameterType::Number,
                some_text("2456"),
                None,
                Vec::new(),
            ),
        ],
        stop_steps: vec![
            step_desc(
                "Send SIGINT",
                "Valheim handles SIGINT for graceful world save and shutdown.",
                StepAction::SendSignal { signal: StopSignal::Sigint },
            ),
            tolerant_step(
                "Wait for shutdown",
                "Wait for the server process to exit cleanly.",
                StepAction::Sleep { seconds: 10 },
                None,
            ),
        ],
        start_steps: vec![
            step_desc(
                "Set library path",
                "Ensure the Valheim shared libraries are on LD_LIBRARY_PATH.",
                StepAction::SetEnv { variables: valheim_env_pairs() },
            ),
        ],
        install_steps: vec![
            step_desc(
                "Install Valheim server",
                "Use SteamCMD to download/install Valheim Dedicated Server (App 896660).",
                StepAction::SteamCmdInstall { app_id: None, anonymous: true, extra_args: Vec::new() },
            ),
            tolerant_step(
                "Make server executable",
                "Ensure the server binary has execute permission.",
                StepAction::SetPermissions { path: text("valheim_server.x86_64"), mode: text("755") },
                Some(if_exists("valheim_server.x86_64")),
            ),
        ],
        update_steps: vec![
            step_desc(
                "Update Valheim server",
                "Use SteamCMD to update to the latest version.",
                StepAction::SteamCmdUpdate { app_id: None, anonymous: true, extra_args: Vec::new() },
            ),
        ],
        uninstall_steps: Vec::new(),
        isolation: IsolationConfig::default(),
        update_check: None,
        log_to_disk: true,
        max_log_size_mb: 50,
        enable_java_helper: false,
        enable_dotnet_helper: false,
        steam_app_id: Some(896660),
    };
    let t = ServerTemplate {
        id: valheim_id(),
        name: text("Valheim Dedicated Server"),
        description: some_text(
            "Valheim dedicated server installed via Steam tools. Requires Steam command-line tooling to be available on PATH. The server is identified by Steam App ID 896660.",
        ),
        config,
        created_by: system_user_id(),
        created_at: builtin_timestamp(),
        updated_at: builtin_timestamp(),
        is_builtin: true,
        requires_steamcmd: true,
        requires_curseforge: false,
        requires_github: false,
    };
    t.with_integration_flags()
}

// ─── Terraria (TShock) ───

/// `steps` are the six steps that fetch and unpack a TShock release:
/// download the release zip of the chosen `tshock_version` from GitHub,
/// extract it, remove it, extract the tar inside, remove the tar, and make
/// the server executable (the three descriptions vary).
pub open spec fn fetches_tshock(
    steps: Seq<PipelineStep>,
    download_desc: Seq<char>,
    tar_desc: Seq<char>,
    chmod_desc: Seq<char>,
) -> bool {
    &&& steps.len() == 6
    &&& step_is(steps[0], "Download TShock"@, download_desc, None, None, false)
    &&& steps[0].action matches StepAction::DownloadGithubReleaseAsset {
        tag_param,
        asset_matcher,
        destination,
        filename,
        executable,
    } && tag_param@ == "tshock_version"@ && asset_matcher@
        == "/TShock-.*-for-Terraria-.*-linux-x64-Release\\.zip$/"@ && destination@ == "."@
        && opt_text_is(filename, Some("tshock.zip"@)) && !executable
    &&& step_is(
        steps[1],
        "Extract zip archive"@,
        "Extract the TShock zip to get the tar file."@,
        None,
        None,
        false,
    )
    &&& steps[1].action matches StepAction::Extract { source, destination, format } && source@
        == "tshock.zip"@ && opt_text_is(destination, Some("."@)) && format == ArchiveFormat::Zip
    &&& step_is(steps[2], "Clean up zip"@, "Remove the downloaded zip file."@, None, None, true)
    &&& steps[2].action matches StepAction::Delete { path, recursive } && path@ == "tshock.zip"@
        && !recursive
    &&& step_is(steps[3], "Extract TShock tar"@, tar_desc, None, None, false)
    &&& steps[3].action matches StepAction::Extract { source, destination, format } && source@
        == "TShock-Beta-linux-x64-Release.tar"@ && opt_text_is(destination, Some("."@)) && format
        == ArchiveFormat::Tar
    &&& step_is(steps[4], "Clean up tar"@, "Remove the extracted tar file."@, None, None, true)
    &&& steps[4].action matches StepAction::Delete { path, recursive } && path@
        == "TShock-Beta-linux-x64-Release.tar"@ && !recursive
    &&& step_is(
        steps[5],
        "Make server executable"@,
        chmod_desc,
        Some("TShock.Server"@),
        None,
        true,
    )
    &&& steps[5].action matches StepAction::SetPermissions { path, mode } && path@
        == "TShock.Server"@ && mode@ == "755"@
}

/// The steps that fetch and unpack a TShock release (see
/// [`fetches_tshock`]).
fn tshock_download_steps(download_desc: &str, tar_desc: &str, chmod_desc: &str) -> (r: Vec<
    PipelineStep,
>)
    ensures
        fetches_tshock(r@, download_desc@, tar_desc@, chmod_desc@),
{
    vec![
        step_desc(
            "Download TShock",
            download_desc,
            StepAction::DownloadGithubReleaseAsset {
                tag_param: text("tshock_version"),
                asset_matcher: text("/TShock-.*-for-Terraria-.*-linux-x64-Release\\.zip$/"),
                destination: text("."),
                filename: some_text("tshock.zip"),
                executable: false,
            },
        ),
        step_desc(
            "Extract zip archive",
            "Extract the TShock zip to get the tar file.",
            StepAction::Extract {
                source: text("tshock.zip"),
                destination: some_text("."),
                format: ArchiveFormat::Zip,
            },
        ),
        tolerant_step(
            "Clean up zip",
            "Remove the downloaded zip file.",
            StepAction::Delete { path: text("tshock.zip"), recursive: false },
            None,
        ),
        step_desc(
            "Extract TShock tar",
            tar_desc,
            StepAction::Extract {
                source: text("TShock-Beta-linux-x64-Release.tar"),
                destination: some_text("."),
                format: ArchiveFormat::Tar,
            },
        ),
        tolerant_step(
            "Clean up tar",
            "Remove the extracted tar file.",
            StepAction::Delete { path: text("TShock-Beta-linux-x64-Release.tar"), recursive: false },
            None,
        ),
        tolerant_step(
            "Make server executable",
            chmod_desc,
            StepAction::SetPermissions { path: text("TShock.Server"), mode: text("755") },
            Some(if_exists("TShock.Server")),
        ),
    ]
}

/// `r` is the Terraria (TShock) template, field by field.
pub open spec fn is_terraria_tshock(r: ServerTemplate) -> bool {
    &&& r.id == uuid_with_bits(0x00bafeed_0001_4000_8000_000000000003u128)
    &&& r.created_by == uuid_with_bits(0x00000000_0000_4000_8000_000000000000u128)
    &&& r.name@ == "Terraria (TShock)"@
    &&& r.is_builtin
    &&& r.created_at == (DateTimeUtc { secs: 1735689600, nanos: 0 })
    &&& r.updated_at == (DateTimeUtc { secs: 1735689600, nanos: 0 })
    &&& r.config.binary@ == "./TShock.Server"@
    &&& r.config.stop_command matches Some(c) && c@ == "exit"@
    &&& r.config.stop_timeout_secs == 15
    &&& r.config.enable_dotnet_helper && !r.config.enable_java_helper
    &&& r.config.steam_app_id is None
    &&& r.config.parameters@.len() == 4
    &&& r.config.parameters@[0].name@ == "tshock_version"@
    &&& r.config.parameters@[0].is_version
    &&& r.config.parameters@[0].param_type == ConfigParameterType::GithubReleaseTag
    &&& r.config.parameters@[0].github_repo matches Some(g) && g@ == "Pryaxis/TShock"@
    &&& r.config.stop_steps@.len() == 2
    &&& sends_input(r.config.stop_steps@[0].action, "exit\n"@)
    &&& r.config.install_steps@.len() == 7
    &&& r.config.install_steps@[0].action matches StepAction::CreateDir { path } && path@
            == "worlds"@
    &&& r.config.install_steps@[1].action is DownloadGithubReleaseAsset
    &&& r.config.install_steps@[2].action is Extract
    &&& r.config.update_steps@.len() == 6
    &&& r.config.update_steps@[0].action is DownloadGithubReleaseAsset
    &&& r.config.update_check matches Some(uc) && uc.provider matches UpdateCheckProvider::Api {
            url,
            pick,
            value_key,
            ..
        } && url@ == "https://api.github.com/repos/Pryaxis/TShock/releases"@ && pick
            == VersionPick::First && (value_key matches Some(k) && k@ == "tag_name"@)
    &&& r.config.update_check matches Some(uc) && uc.provider matches UpdateCheckProvider::Api {
            path,
            ..
        } && path is None && uc.interval_secs == Some(7200u64) && uc.cache_secs == 600
    &&& opt_text_is(
            r.description,
            Some(
                "Terraria server powered by TShock \u{2014} a popular server mod with admin tools, anti-cheat, and plugin support. Downloads the TShock release archive and extracts it.\n\n**Important**: This template requires .NET 6.0+ runtime. When creating your server, you'll see a .NET Runtime selector \u{2014} click \"Detect .NET Runtimes\" and select an appropriate version to automatically configure the required environment variables."@,
            ),
        )
    &&& r.config.name@ == "Terraria TShock Server"@
    &&& texts_are(
            r.config.args@,
            seq![
                "-port"@,
                "${server_port}"@,
                "-maxplayers"@,
                "${max_players}"@,
                "-world"@,
                "worlds/${world_name}.wld"@,
                "-autocreate"@,
                "2"@,
            ],
        )
    &&& r.config.env@ == Map::<String, String>::empty()
    &&& r.config.working_dir is None
    &&& !r.config.auto_start && r.config.auto_restart
    &&& r.config.max_restart_attempts == 3 && r.config.restart_delay_secs == 10
    &&& r.config.stop_signal == StopSignal::Sigterm
    &&& r.config.sftp_username is None && r.config.sftp_password is None
    &&& r.config.parameters@[0].label@ == "TShock Version"@
    &&& opt_text_is(r.config.parameters@[0].description, Some("Select a TShock release tag to install."@))
    &&& r.config.parameters@[0].default is None && r.config.parameters@[0].required
    &&& r.config.parameters@[0].options@.len() == 0 && r.config.parameters@[0].regex is None
    &&& r.config.parameters@[0].options_from is None
    &&& plain_param_is(
            r.config.parameters@[1],
            "max_players"@,
            "Max Players"@,
            "Maximum number of players that can connect."@,
            ConfigParameterType::Select,
            Some("8"@),
            None,
            seq!["4"@, "8"@, "16"@, "32"@, "64"@],
        )
    &&& plain_param_is(
            r.config.parameters@[2],
            "server_port"@,
            "Server Port"@,
            "The TCP port the Terraria server listens on."@,
            ConfigParameterType::Number,
            Some("7777"@),
            None,
            seq![],
        )
    &&& plain_param_is(
            r.config.parameters@[3],
            "world_name"@,
            "World Name"@,
            "Name of the world file. A new world is auto-created if it doesn't exist."@,
            ConfigParameterType::String,
            Some("world"@),
            Some("^[a-zA-Z0-9_-]+$"@),
            seq![],
        )
    &&& step_is(
            r.config.stop_steps@[0],
            "Send exit command"@,
            "Send the 'exit' command to save and shut down gracefully."@,
            None,
            None,
            false,
        )
    &&& step_is(
            r.config.stop_steps@[1],
            "Wait for save"@,
            "Wait for TShock to finish saving."@,
            None,
            None,
            true,
        )
    &&& r.config.stop_steps@[1].action == (StepAction::Sleep { seconds: 5 })
    &&& r.config.start_steps@.len() == 0 && r.config.uninstall_steps@.len() == 0
    &&& step_is(
            r.config.install_steps@[0],
            "Create worlds directory"@,
            "Ensure the worlds directory exists."@,
            None,
            None,
            true,
        )
    &&& fetches_tshock(
            r.config.install_steps@.skip(1),
            "Download the TShock release zip from GitHub."@,
            "Extract the TShock tar archive containing the server files."@,
            "Ensure the TShock server binary has execute permission."@,
        )
    &&& fetches_tshock(
            r.config.update_steps@,
            "Download the latest TShock release zip from GitHub."@,
            "Extract the updated TShock tar archive containing the server files."@,
            "Ensure the TShock server binary has execute permission after update."@,
        )
    &&& default_isolation(r.config.isolation)
    &&& r.config.log_to_disk && r.config.max_log_size_mb == 50
    &&& r.requires_github
    &&& r.requires_steamcmd == requires_steamcmd(r.config)
    &&& r.requires_curseforge == requires_curseforge(r.config)
    &&& r.requires_github == requires_github(r.config)
}

/// The Terraria (TShock) template: a TShock release chosen from GitHub is
/// downloaded and unpacked, `exit` is sent on shutdown, and updates are
/// checked against the GitHub releases of `Pryaxis/TShock`.
pub fn terraria_tshock_template() -> (r: ServerTemplate)
    ensures
        is_terraria_tshock(r),
        forall|b: u128| #[trigger] uuid_with_bits(b) == r.id ==> b == 0x00bafeed_0001_4000_8000_000000000003u128,
{
    let mut install_steps = vec![
        tolerant_step(
            "Create worlds directory",
            "Ensure the worlds directory exists.",
            StepAction::CreateDir { path: text("worlds") },
            None,
        ),
    ];
    let mut fetch = tshock_download_steps(
        "Download the TShock release zip from GitHub.",
        "Extract the TShock tar archive containing the server files.",
        "Ensure the TShock server binary has execute permission.",
    );
    install_steps.append(&mut fetch);
    let update_steps = tshock_download_steps(
        "Download the latest TShock release zip from GitHub.",
        "Extract the updated TShock tar archive containing the server files.",
        "Ensure the TShock server binary has execute permission after update.",
    );
    let tshock_version = ConfigParameter {
        name: text("tshock_version"),
        label: text("TShock Version"),
        description: some_text("Select a TShock release tag to install."),
        param_type: ConfigParameterType::GithubReleaseTag,
        default: None,
        required: true,
        options: Vec::new(),
        regex: None,
        is_version: true,
        options_from: None,
        github_repo: some_text("Pryaxis/TShock"),
    };
    let config = ServerConfig {
        name: text("Terraria TShock Server"),
        binary: text("./TShock.Server"),
        args: vec![
            text("-port"),
            text("${server_port}"),
            text("-maxplayers"),
            text("${max_players}"),
            text("-world"),
            text("worlds/${world_name}.wld"),
            text("-autocreate"),
            text("2"),
        ],
        env: HashMap::new(),
        working_dir: None,
        auto_start: false,
        auto_restart: true,
        max_restart_attempts: 3,
        restart_delay_secs: 10,
        stop_command: some_text("exit"),
        stop_signal: StopSignal::Sigterm,
        stop_timeout_secs: 15,
        sftp_username: None,
        sftp_password: None,
        parameters: vec![
            tshock_version,
            param(
                "max_players",
                "Max Players",
                "Maximum number of players that can connect.",
                ConfigParameterType::Select,
                some_text("8"),
                None,
                vec![text("4"), text("8"), text("16"), text("32"), text("64")],
            ),
            param(
                "server_port",
                "Server Port",
                "The TCP port the Terraria server listens on.",
                ConfigParameterType::Number,
                some_text("7777"),
                None,
                Vec::new(),
            ),
            param(
                "world_name",
                "World Name",
                "Name of the world file. A new world is auto-created if it doesn't exist.",
                ConfigParameterType::String,
                some_text("world"),
                some_text("^[a-zA-Z0-9_-]+$"),
                Vec::new(),
            ),
        ],
        stop_steps: vec![
            step_desc(
                "Send exit command",
                "Send the 'exit' command to save and shut down gracefully.",
                StepAction::SendInput { text: text("exit\n") },
            ),
            tolerant_step(
                "Wait for save",
                "Wait for TShock to finish saving.",
                StepAction::Sleep { seconds: 5 },
                None,
            ),
        ],
        start_steps: Vec::new(),
        install_steps,
        update_steps,
        uninstall_steps: Vec::new(),
        isolation: IsolationConfig::default(),
        update_check: Some(
            UpdateCheck {
                provider: UpdateCheckProvider::Api {
                    url: text("https://api.github.com/repos/Pryaxis/TShock/releases"),
                    path: None,
                    pick: VersionPick::First,
                    value_key: some_text("tag_name"),
                },
                interval_secs: Some(7200),
                cache_secs: 600,
            },
        ),
        log_to_disk: true,
        max_log_size_mb: 50,
        enable_java_helper: false,
        enable_dotnet_helper: true,
        steam_app_id: None,
    };
    let t = ServerTemplate {
        id: terraria_tshock_id(),
        name: text("Terraria (TShock)"),
        description: some_text(
            "Terraria server powered by TShock — a popular server mod with admin tools, anti-cheat, and plugin support. Downloads the TShock release archive and extracts it.\n\n**Important**: This template requires .NET 6.0+ runtime. When creating your server, you'll see a .NET Runtime selector — click \"Detect .NET Runtimes\" and select an appropriate version to automatically configure the required environment variables.",
        ),
        config,
        created_by: system_user_id(),
        created_at: builtin_timestamp(),
        updated_at: builtin_timestamp(),
        is_builtin: true,
        requires_steamcmd: false,
        requires_curseforge: false,
        requires_github: false,
    };
    t.with_integration_flags()
}

// ─── The catalogue ───

/// All built-in templates: Minecraft (Paper), Valheim, Terraria (TShock),
/// with three different identifiers.
pub fn list() -> (r: Vec<ServerTemplate>)
    ensures
        r@.len() == 3,
        is_minecraft_paper(r@[0]),
        is_valheim(r@[1]),
        is_terraria_tshock(r@[2]),
        r@[0].id != r@[1].id && r@[0].id != r@[2].id && r@[1].id != r@[2].id,
        forall|i: int| 0 <= i < r@.len() ==> (#[trigger] r@[i]).is_builtin,
{
    let m = minecraft_paper_template();
    let v = valheim_template();
    let t = terraria_tshock_template();
    assert(uuid_with_bits(0x00bafeed_0001_4000_8000_000000000002u128) != m.id);
    assert(uuid_with_bits(0x00bafeed_0001_4000_8000_000000000003u128) != m.id);
    assert(uuid_with_bits(0x00bafeed_0001_4000_8000_000000000003u128) != v.id);
    vec![m, v, t]
}

/// `id` is the identifier of one of the built-in templates.
pub open spec fn is_builtin_id(id: uuid::Uuid) -> bool {
    id == uuid_with_bits(0x00bafeed_0001_4000_8000_000000000001u128) || id == uuid_with_bits(
        0x00bafeed_0001_4000_8000_000000000002u128,
    ) || id == uuid_with_bits(0x00bafeed_0001_4000_8000_000000000003u128)
}

/// The built-in template with identifier `id`, if there is one: the
/// Minecraft (Paper), Valheim or Terraria (TShock) template for their
/// identifiers, nothing for any other.
pub fn get(id: uuid::Uuid) -> (r: Option<ServerTemplate>)
    ensures
        r is Some <==> is_builtin_id(id),
        r matches Some(t) ==> t.id == id && t.is_builtin,
        id == uuid_with_bits(0x00bafeed_0001_4000_8000_000000000001u128) ==> (r matches Some(t)
            && is_minecraft_paper(t)),
        id == uuid_with_bits(0x00bafeed_0001_4000_8000_000000000002u128) ==> (r matches Some(t)
            && is_valheim(t)),
        id == uuid_with_bits(0x00bafeed_0001_4000_8000_000000000003u128) ==> (r matches Some(t)
            && is_terraria_tshock(t)),
{
    let mut templates = list();
    let ghost all = templates@;
    while templates.len() > 0
        invariant
            all.len() == 3,
            is_minecraft_paper(all[0]),
            is_valheim(all[1]),
            is_terraria_tshock(all[2]),
            all[0].id != all[1].id && all[0].id != all[2].id && all[1].id != all[2].id,
            templates@.len() <= 3,
            templates@ == all.take(templates@.len() as int),
            forall|i: int| templates@.len() <= i < 3 ==> all[i].id != id,
            forall|i: int| 0 <= i < templates@.len() ==> (#[trigger] templates@[i]).is_builtin,
        decreases templates@.len(),
    {
        let ghost before = templates@;
        let t = templates.pop().unwrap();
        assert(before.drop_last() =~= all.take(templates@.len() as int));
        if t.id == id {
            return Some(t);
        }
    }
    None
}

/// Whether `id` is the identifier of a built-in template.
pub fn is_builtin(id: uuid::Uuid) -> (r: bool)
    ensures
        r == is_builtin_id(id),
{
    get(id).is_some()
}

// ─── Catalogue-wide facts ───

/// Every `${name}` in the command line of `t` names a parameter or a
/// built-in variable, and every one in its install, update and stop steps
/// is defined where it is used (a parameter, a built-in variable, or the
/// variable of an earlier `ResolveVariable` step), and so is every one in
/// its start steps.
pub open spec fn template_refs_defined(t: ServerTemplate) -> bool {
    &&& forall|k: int|
        0 <= k < t.config.args@.len() ==> refs_defined(
            (#[trigger] t.config.args@[k])@,
            t,
            Seq::empty(),
            0,
        )
    &&& phase_refs_defined(t, t.config.install_steps@)
    &&& phase_refs_defined(t, t.config.update_steps@)
    &&& phase_refs_defined(t, t.config.stop_steps@)
    &&& phase_refs_defined(t, t.config.start_steps@)
}

/// The references of the Minecraft (Paper) template are defined: each text's
/// references are read off its literal, then matched with the parameters
/// and the earlier resolve steps.
proof fn minecraft_refs_defined(t: ServerTemplate)
    requires
        is_minecraft_paper(t),
    ensures
        template_refs_defined(t),
{
    assert(var_refs("-Xms${memory}"@) =~= seq!["memory"@]) by {
        reveal_strlit("-Xms${memory}");
        reveal_strlit("memory");
        let s = "-Xms${memory}"@;
        lemma_refs_skip(s, 0, 4);
        lemma_ref_at(s, 4, 12);
        assert(s.subrange(6, 12) =~= "memory"@);
        assert(refs_from(s, 13) =~= Seq::<Seq<char>>::empty());
    }
    assert(var_refs("-Xmx${memory}"@) =~= seq!["memory"@]) by {
        reveal_strlit("-Xmx${memory}");
        reveal_strlit("memory");
        let s = "-Xmx${memory}"@;
        lemma_refs_skip(s, 0, 4);
        lemma_ref_at(s, 4, 12);
        assert(s.subrange(6, 12) =~= "memory"@);
        assert(refs_from(s, 13) =~= Seq::<Seq<char>>::empty());
    }
    assert(var_refs("-jar"@) =~= Seq::<Seq<char>>::empty()) by {
        reveal_strlit("-jar");
        lemma_no_refs("-jar"@);
    }
    assert(var_refs("paper.jar"@) =~= Seq::<Seq<char>>::empty()) by {
        reveal_strlit("paper.jar");
        lemma_no_refs("paper.jar"@);
    }
    assert(var_refs("--nogui"@) =~= Seq::<Seq<char>>::empty()) by {
        reveal_strlit("--nogui");
        lemma_no_refs("--nogui"@);
    }
    assert(var_refs("--port"@) =~= Seq::<Seq<char>>::empty()) by {
        reveal_strlit("--port");
        lemma_no_refs("--port"@);
    }
    assert(var_refs("${server_port}"@) =~= seq!["server_port"@]) by {
        reveal_strlit("${server_port}");
        reveal_strlit("server_port");
        let s = "${server_port}"@;
        lemma_ref_at(s, 0, 13);
        assert(s.subrange(2, 13) =~= "server_port"@);
        assert(refs_from(s, 14) =~= Seq::<Seq<char>>::empty());
    }
    assert(var_refs("https://api.papermc.io/v2/projects/paper/versions/${mc_version}/builds"@) =~= seq!["mc_version"@]) by {
        reveal_strlit("https://api.papermc.io/v2/projects/paper/versions/${mc_version}/builds");
        reveal_strlit("mc_version");
        let s = "https://api.papermc.io/v2/projects/paper/versions/${mc_version}/builds"@;
        lemma_refs_skip(s, 0, 50);
        lemma_ref_at(s, 50, 62);
        lemma_refs_skip(s, 63, 70);
        assert(s.subrange(52, 62) =~= "mc_version"@);
        assert(refs_from(s, 70) =~= Seq::<Seq<char>>::empty());
    }
    assert(var_refs("https://api.papermc.io/v2/projects/paper/versions/${mc_version}/builds/${paper_build}/downloads/paper-${mc_version}-${paper_build}.jar"@) =~= seq!["mc_version"@, "paper_build"@, "mc_version"@, "paper_build"@]) by {
        reveal_strlit("https://api.papermc.io/v2/projects/paper/versions/${mc_version}/builds/${paper_build}/downloads/paper-${mc_version}-${paper_build}.jar");
        reveal_strlit("mc_version");
        reveal_strlit("paper_build");
        let s = "https://api.papermc.io/v2/projects/paper/versions/${mc_version}/builds/${paper_build}/downloads/paper-${mc_version}-${paper_build}.jar"@;
        lemma_refs_skip(s, 0, 50);
        lemma_ref_at(s, 50, 62);
        lemma_refs_skip(s, 63, 71);
        lemma_ref_at(s, 71, 84);
        lemma_refs_skip(s, 85, 102);
        lemma_ref_at(s, 102, 114);
        lemma_refs_skip(s, 115, 116);
        lemma_ref_at(s, 116, 129);
        lemma_refs_skip(s, 130, 134);
        assert(s.subrange(52, 62) =~= "mc_version"@);
        assert(s.subrange(73, 84) =~= "paper_build"@);
        assert(s.subrange(104, 114) =~= "mc_version"@);
        assert(s.subrange(118, 129) =~= "paper_build"@);
        assert(refs_from(s, 134) =~= Seq::<Seq<char>>::empty());
    }
    assert(var_refs("."@) =~= Seq::<Seq<char>>::empty()) by {
        reveal_strlit(".");
        lemma_no_refs("."@);
    }
    assert(var_refs("eula.txt"@) =~= Seq::<Seq<char>>::empty()) by {
        reveal_strlit("eula.txt");
        lemma_no_refs("eula.txt"@);
    }
    assert(var_refs("# Auto-accepted by AnyServer template\neula=true\n"@) =~= Seq::<Seq<char>>::empty()) by {
        reveal_strlit("# Auto-accepted by AnyServer template\neula=true\n");
        lemma_no_refs("# Auto-accepted by AnyServer template\neula=true\n"@);
    }
    assert(var_refs("server.properties"@) =~= Seq::<Seq<char>>::empty()) by {
        reveal_strlit("server.properties");
        lemma_no_refs("server.properties"@);
    }
    assert(var_refs("# Minecraft Server Properties\n# Generated by AnyServer\nserver-port=${server_port}\nonline-mode=true\nmax-players=20\nview-distance=10\nspawn-protection=0\n"@) =~= seq!["server_port"@]) by {
        reveal_strlit("# Minecraft Server Properties\n# Generated by AnyServer\nserver-port=${server_port}\nonline-mode=true\nmax-players=20\nview-distance=10\nspawn-protection=0\n");
        reveal_strlit("server_port");
        let s = "# Minecraft Server Properties\n# Generated by AnyServer\nserver-port=${server_port}\nonline-mode=true\nmax-players=20\nview-distance=10\nspawn-protection=0\n"@;
        lemma_refs_skip(s, 0, 67);
        lemma_ref_at(s, 67, 80);
        lemma_refs_skip(s, 81, 150);
        assert(s.subrange(69, 80) =~= "server_port"@);
        assert(refs_from(s, 150) =~= Seq::<Seq<char>>::empty());
    }
    assert(var_refs("stop\n"@) =~= Seq::<Seq<char>>::empty()) by {
        reveal_strlit("stop\n");
        lemma_no_refs("stop\n"@);
    }
    assert(var_refs("All dimensions are saved"@) =~= Seq::<Seq<char>>::empty()) by {
        reveal_strlit("All dimensions are saved");
        lemma_no_refs("All dimensions are saved"@);
    }
    let ps = t.config.parameters@;
    assert(ps[0].name@ == "mc_version"@ && ps[1].name@ == "memory"@ && ps[2].name@ == "server_port"@);
    let args = t.config.args@;
    assert forall|k: int| 0 <= k < args.len() implies refs_defined(
        (#[trigger] args[k])@,
        t,
        Seq::empty(),
        0,
    ) by {
        assert(args[k]@ == seq![
            "-Xms${memory}"@,
            "-Xmx${memory}"@,
            "-jar"@,
            "paper.jar"@,
            "--nogui"@,
            "--port"@,
            "${server_port}"@,
        ][k]);
    }
    let install = t.config.install_steps@;
    assert forall|j: int| 0 <= j < install.len() implies action_refs_defined_at(t, install, j) by {
        if j == 1 {
            assert(install[0].action matches StepAction::ResolveVariable { variable, .. } && variable@
                == "paper_build"@);
        }
    }
    let update = t.config.update_steps@;
    assert forall|j: int| 0 <= j < update.len() implies action_refs_defined_at(t, update, j) by {
        if j == 1 {
            assert(update[0].action matches StepAction::ResolveVariable { variable, .. } && variable@
                == "paper_build"@);
        }
    }
    let stop = t.config.stop_steps@;
    assert forall|j: int| 0 <= j < stop.len() implies action_refs_defined_at(t, stop, j) by {}
}

/// The references of the Valheim template are defined: each text's
/// references are read off its literal, then matched with the parameters
/// and the earlier resolve steps.
proof fn valheim_refs_defined(t: ServerTemplate)
    requires
        is_valheim(t),
    ensures
        template_refs_defined(t),
{
    assert(var_refs("-name"@) =~= Seq::<Seq<char>>::empty()) by {
        reveal_strlit("-name");
        lemma_no_refs("-name"@);
    }
    assert(var_refs("${server_name}"@) =~= seq!["server_name"@]) by {
        reveal_strlit("${server_name}");
        reveal_strlit("server_name");
        let s = "${server_name}"@;
        lemma_ref_at(s, 0, 13);
        assert(s.subrange(2, 13) =~= "server_name"@);
        assert(refs_from(s, 14) =~= Seq::<Seq<char>>::empty());
    }
    assert(var_refs("-port"@) =~= Seq::<Seq<char>>::empty()) by {
        reveal_strlit("-port");
        lemma_no_refs("-port"@);
    }
    assert(var_refs("${server_port}"@) =~= seq!["server_port"@]) by {
        reveal_strlit("${server_port}");
        reveal_strlit("server_port");
        let s = "${server_port}"@;
        lemma_ref_at(s, 0, 13);
        assert(s.subrange(2, 13) =~= "server_port"@);
        assert(refs_from(s, 14) =~= Seq::<Seq<char>>::empty());
    }
    assert(var_refs("-world"@) =~= Seq::<Seq<char>>::empty()) by {
        reveal_strlit("-world");
        lemma_no_refs("-world"@);
    }
    assert(var_refs("${world_name}"@) =~= seq!["world_name"@]) by {
        reveal_strlit("${world_name}");
        reveal_strlit("world_name");
        let s = "${world_name}"@;
        lemma_ref_at(s, 0, 12);
        assert(s.subrange(2, 12) =~= "world_name"@);
        assert(refs_from(s, 13) =~= Seq::<Seq<char>>::empty());
    }
    assert(var_refs("-password"@) =~= Seq::<Seq<char>>::empty()) by {
        reveal_strlit("-password");
        lemma_no_refs("-password"@);
    }
    assert(var_refs("${password}"@) =~= seq!["password"@]) by {
        reveal_strlit("${password}");
        reveal_strlit("password");
        let s = "${password}"@;
        lemma_ref_at(s, 0, 10);
        assert(s.subrange(2, 10) =~= "password"@);
        assert(refs_from(s, 11) =~= Seq::<Seq<char>>::empty());
    }
    assert(var_refs("-public"@) =~= Seq::<Seq<char>>::empty()) by {
        reveal_strlit("-public");
        lemma_no_refs("-public"@);
    }
    assert(var_refs("1"@) =~= Seq::<Seq<char>>::empty()) by {
        reveal_strlit("1");
        lemma_no_refs("1"@);
    }
    assert(var_refs("valheim_server.x86_64"@) =~= Seq::<Seq<char>>::empty()) by {
        reveal_strlit("valheim_server.x86_64");
        lemma_no_refs("valheim_server.x86_64"@);
    }
    assert(var_refs("755"@) =~= Seq::<Seq<char>>::empty()) by {
        reveal_strlit("755");
        lemma_no_refs("755"@);
    }
    assert(var_refs("./linux64:$LD_LIBRARY_PATH"@) =~= Seq::<Seq<char>>::empty()) by {
        reveal_strlit("./linux64:$LD_LIBRARY_PATH");
        let s = "./linux64:$LD_LIBRARY_PATH"@;
        lemma_refs_skip(s, 0, 10);
        lemma_refs_lone_dollar(s, 10);
        lemma_refs_skip(s, 11, 26);
        assert(refs_from(s, 26) =~= Seq::<Seq<char>>::empty());
    }
    assert(var_refs("892970"@) =~= Seq::<Seq<char>>::empty()) by {
        reveal_strlit("892970");
        lemma_no_refs("892970"@);
    }
    let ps = t.config.parameters@;
    assert(ps[0].name@ == "server_name"@ && ps[1].name@ == "world_name"@ && ps[2].name@
        == "password"@ && ps[3].name@ == "server_port"@);
    let args = t.config.args@;
    assert forall|k: int| 0 <= k < args.len() implies refs_defined(
        (#[trigger] args[k])@,
        t,
        Seq::empty(),
        0,
    ) by {
        assert(args[k]@ == seq![
            "-name"@,
            "${server_name}"@,
            "-port"@,
            "${server_port}"@,
            "-world"@,
            "${world_name}"@,
            "-password"@,
            "${password}"@,
            "-public"@,
            "1"@,
        ][k]);
    }
    let install = t.config.install_steps@;
    assert forall|j: int| 0 <= j < install.len() implies action_refs_defined_at(t, install, j) by {}
    let update = t.config.update_steps@;
    assert forall|j: int| 0 <= j < update.len() implies action_refs_defined_at(t, update, j) by {}
    let stop = t.config.stop_steps@;
    assert forall|j: int| 0 <= j < stop.len() implies action_refs_defined_at(t, stop, j) by {}
    let start = t.config.start_steps@;
    assert forall|j: int| 0 <= j < start.len() implies action_refs_defined_at(t, start, j) by {}
}

/// The references of the Terraria (TShock) template are defined: each text's
/// references are read off its literal, then matched with the parameters
/// and the earlier resolve steps.
proof fn terraria_refs_defined(t: ServerTemplate)
    requires
        is_terraria_tshock(t),
    ensures
        template_refs_defined(t),
{
    assert(var_refs("-port"@) =~= Seq::<Seq<char>>::empty()) by {
        reveal_strlit("-port");
        lemma_no_refs("-port"@);
    }
    assert(var_refs("${server_port}"@) =~= seq!["server_port"@]) by {
        reveal_strlit("${server_port}");
        reveal_strlit("server_port");
        let s = "${server_port}"@;
        lemma_ref_at(s, 0, 13);
        assert(s.subrange(2, 13) =~= "server_port"@);
        assert(refs_from(s, 14) =~= Seq::<Seq<char>>::empty());
    }
    assert(var_refs("-maxplayers"@) =~= Seq::<Seq<char>>::empty()) by {
        reveal_strlit("-maxplayers");
        lemma_no_refs("-maxplayers"@);
    }
    assert(var_refs("${max_players}"@) =~= seq!["max_players"@]) by {
        reveal_strlit("${max_players}");
        reveal_strlit("max_players");
        let s = "${max_players}"@;
        lemma_ref_at(s, 0, 13);
        assert(s.subrange(2, 13) =~= "max_players"@);
        assert(refs_from(s, 14) =~= Seq::<Seq<char>>::empty());
    }
    assert(var_refs("-world"@) =~= Seq::<Seq<char>>::empty()) by {
        reveal_strlit("-world");
        lemma_no_refs("-world"@);
    }
    assert(var_refs("worlds/${world_name}.wld"@) =~= seq!["world_name"@]) by {
        reveal_strlit("worlds/${world_name}.wld");
        reveal_strlit("world_name");
        let s = "worlds/${world_name}.wld"@;
        lemma_refs_skip(s, 0, 7);
        lemma_ref_at(s, 7, 19);
        lemma_refs_skip(s, 20, 24);
        assert(s.subrange(9, 19) =~= "world_name"@);
        assert(refs_from(s, 24) =~= Seq::<Seq<char>>::empty());
    }
    assert(var_refs("-autocreate"@) =~= Seq::<Seq<char>>::empty()) by {
        reveal_strlit("-autocreate");
        lemma_no_refs("-autocreate"@);
    }
    assert(var_refs("2"@) =~= Seq::<Seq<char>>::empty()) by {
        reveal_strlit("2");
        lemma_no_refs("2"@);
    }
    assert(var_refs("worlds"@) =~= Seq::<Seq<char>>::empty()) by {
        reveal_strlit("worlds");
        lemma_no_refs("worlds"@);
    }
    assert(var_refs("tshock_version"@) =~= Seq::<Seq<char>>::empty()) by {
        reveal_strlit("tshock_version");
        lemma_no_refs("tshock_version"@);
    }
    assert(var_refs("/TShock-.*-for-Terraria-.*-linux-x64-Release\\.zip$/"@) =~= Seq::<Seq<char>>::empty()) by {
        reveal_strlit("/TShock-.*-for-Terraria-.*-linux-x64-Release\\.zip$/");
        let s = "/TShock-.*-for-Terraria-.*-linux-x64-Release\\.zip$/"@;
        lemma_refs_skip(s, 0, 49);
        lemma_refs_lone_dollar(s, 49);
        lemma_refs_skip(s, 50, 51);
        assert(refs_from(s, 51) =~= Seq::<Seq<char>>::empty());
    }
    assert(var_refs("."@) =~= Seq::<Seq<char>>::empty()) by {
        reveal_strlit(".");
        lemma_no_refs("."@);
    }
    assert(var_refs("tshock.zip"@) =~= Seq::<Seq<char>>::empty()) by {
        reveal_strlit("tshock.zip");
        lemma_no_refs("tshock.zip"@);
    }
    assert(var_refs("TShock-Beta-linux-x64-Release.tar"@) =~= Seq::<Seq<char>>::empty()) by {
        reveal_strlit("TShock-Beta-linux-x64-Release.tar");
        lemma_no_refs("TShock-Beta-linux-x64-Release.tar"@);
    }
    assert(var_refs("TShock.Server"@) =~= Seq::<Seq<char>>::empty()) by {
        reveal_strlit("TShock.Server");
        lemma_no_refs("TShock.Server"@);
    }
    assert(var_refs("755"@) =~= Seq::<Seq<char>>::empty()) by {
        reveal_strlit("755");
        lemma_no_refs("755"@);
    }
    assert(var_refs("exit\n"@) =~= Seq::<Seq<char>>::empty()) by {
        reveal_strlit("exit\n");
        lemma_no_refs("exit\n"@);
    }
    let ps = t.config.parameters@;
    assert(ps[0].name@ == "tshock_version"@ && ps[1].name@ == "max_players"@ && ps[2].name@
        == "server_port"@ && ps[3].name@ == "world_name"@);
    let args = t.config.args@;
    assert forall|k: int| 0 <= k < args.len() implies refs_defined(
        (#[trigger] args[k])@,
        t,
        Seq::empty(),
        0,
    ) by {
        assert(args[k]@ == seq![
            "-port"@,
            "${server_port}"@,
            "-maxplayers"@,
            "${max_players}"@,
            "-world"@,
            "worlds/${world_name}.wld"@,
            "-autocreate"@,
            "2"@,
        ][k]);
    }
    let install = t.config.install_steps@;
    assert forall|j: int| 0 <= j < install.len() implies action_refs_defined_at(t, install, j) by {
        if j > 0 {
            assert(install[j] == install.skip(1)[j - 1]);
        }
    }
    let update = t.config.update_steps@;
    assert forall|j: int| 0 <= j < update.len() implies action_refs_defined_at(t, update, j) by {}
    let stop = t.config.stop_steps@;
    assert forall|j: int| 0 <= j < stop.len() implies action_refs_defined_at(t, stop, j) by {}
}

/// In every built-in template, each `${name}` of its command line names a
/// parameter or a built-in variable (`server_dir`, `server_id`,
/// `server_name`), and each one in the texts of its install, update, stop
/// and start steps names a parameter, a built-in variable, or the variable
/// of an earlier `ResolveVariable` step of the same phase.
pub proof fn law_builtin_references_defined(t: ServerTemplate)
    requires
        is_minecraft_paper(t) || is_valheim(t) || is_terraria_tshock(t),
    ensures
        template_refs_defined(t),
{
    if is_minecraft_paper(t) {
        minecraft_refs_defined(t);
    } else if is_valheim(t) {
        valheim_refs_defined(t);
    } else {
        terraria_refs_defined(t);
    }
}

/// The variables that the `ResolveVariable` steps of a phase store are
/// distinct and none has the name of a parameter.
pub open spec fn resolved_vars_fresh(t: ServerTemplate, steps: Seq<PipelineStep>) -> bool {
    &&& forall|i: int, j: int|
        0 <= i < j < steps.len() && (#[trigger] steps[i].action) is ResolveVariable && (
        #[trigger] steps[j].action) is ResolveVariable ==> steps[i].action->variable@
            != steps[j].action->variable@
    &&& forall|i: int, p: int|
        0 <= i < steps.len() && 0 <= p < t.config.parameters@.len() && (
        #[trigger] steps[i].action) is ResolveVariable ==> steps[i].action->variable@ != (
        #[trigger] t.config.parameters@[p]).name@
}

/// In every built-in template, the install and update steps store their
/// resolved values in distinct variables that shadow no parameter.
pub proof fn law_builtin_resolved_variables_fresh(t: ServerTemplate)
    requires
        is_minecraft_paper(t) || is_valheim(t) || is_terraria_tshock(t),
    ensures
        resolved_vars_fresh(t, t.config.install_steps@),
        resolved_vars_fresh(t, t.config.update_steps@),
{
    let install = t.config.install_steps@;
    let update = t.config.update_steps@;
    let ps = t.config.parameters@;
    if is_minecraft_paper(t) {
        reveal_strlit("paper_build");
        reveal_strlit("mc_version");
        reveal_strlit("memory");
        reveal_strlit("server_port");
        assert("paper_build"@.len() != "mc_version"@.len());
        assert("paper_build"@.len() != "memory"@.len());
        assert("paper_build"@[0] != "server_port"@[0]);
        assert forall|i: int| 0 <= i < install.len() && (#[trigger] install[i].action) is ResolveVariable
            implies i == 0 by {
            if i == 1 {
            } else if i == 2 {
            } else if i == 3 {
            }
        }
        assert forall|i: int| 0 <= i < update.len() && (#[trigger] update[i].action) is ResolveVariable
            implies i == 0 by {
            if i == 1 {
            }
        }
    } else if is_valheim(t) {
        assert forall|i: int| 0 <= i < install.len() implies !((#[trigger] install[i].action) is ResolveVariable) by {
            if i == 1 {
            }
        }
    } else {
        assert forall|i: int| 0 <= i < install.len() implies !((#[trigger] install[i].action) is ResolveVariable) by {
            if i > 0 {
                assert(install[i] == install.skip(1)[i - 1]);
                if i == 2 {
                } else if i == 3 {
                } else if i == 4 {
                } else if i == 5 {
                } else if i == 6 {
                }
            }
        }
        assert forall|i: int| 0 <= i < update.len() implies !((#[trigger] update[i].action) is ResolveVariable) by {
            if i == 1 {
            } else if i == 2 {
            } else if i == 3 {
            } else if i == 4 {
            } else if i == 5 {
            }
        }
    }
}

/// A name that is a valid identifier: an ASCII letter or `_`, then ASCII
/// letters, digits or `_`.
pub open spec fn is_identifier(s: Seq<char>) -> bool {
    &&& s.len() > 0
    &&& ('a' <= s[0] <= 'z' || 'A' <= s[0] <= 'Z' || s[0] == '_')
    &&& forall|i: int|
        0 < i < s.len() ==> ('a' <= #[trigger] s[i] <= 'z' || 'A' <= s[i] <= 'Z' || '0' <= s[i]
            <= '9' || s[i] == '_')
}

/// The parameters of every built-in template have identifier names, no two
/// the same; at most one is the version parameter, which is required and
/// comes with an update check; a template with an update check has update
/// steps; and a select parameter offers its default among its options.
pub proof fn law_builtin_parameter_names(t: ServerTemplate)
    requires
        is_minecraft_paper(t) || is_valheim(t) || is_terraria_tshock(t),
    ensures
        forall|i: int|
            0 <= i < t.config.parameters@.len() ==> is_identifier(
                (#[trigger] t.config.parameters@[i]).name@,
            ),
        forall|i: int, j: int|
            0 <= i < j < t.config.parameters@.len() ==> (#[trigger] t.config.parameters@[i]).name@
                != (#[trigger] t.config.parameters@[j]).name@,
        forall|i: int, j: int|
            0 <= i < t.config.parameters@.len() && 0 <= j < t.config.parameters@.len()
                && (#[trigger] t.config.parameters@[i]).is_version
                && (#[trigger] t.config.parameters@[j]).is_version ==> i == j,
        forall|i: int|
            0 <= i < t.config.parameters@.len() && (#[trigger] t.config.parameters@[i]).is_version
                ==> t.config.parameters@[i].required && t.config.update_check is Some,
        t.config.update_check is Some ==> t.config.update_steps@.len() > 0,
        forall|i: int|
            0 <= i < t.config.parameters@.len() && (#[trigger] t.config.parameters@[i]).param_type
                == ConfigParameterType::Select ==> (t.config.parameters@[i].default matches Some(d)
                && exists|k: int|
                0 <= k < t.config.parameters@[i].options@.len()
                    && #[trigger] t.config.parameters@[i].options@[k]@ == d@),
{
    reveal_strlit("mc_version");
    reveal_strlit("memory");
    reveal_strlit("server_port");
    reveal_strlit("server_name");
    reveal_strlit("world_name");
    reveal_strlit("password");
    reveal_strlit("tshock_version");
    reveal_strlit("max_players");
    let ps = t.config.parameters@;
    assert forall|i: int| 0 <= i < ps.len() implies is_identifier((#[trigger] ps[i]).name@) by {
        let n = ps[i].name@;
        assert forall|k: int| 0 < k < n.len() implies ('a' <= #[trigger] n[k] <= 'z' || 'A' <= n[k]
            <= 'Z' || '0' <= n[k] <= '9' || n[k] == '_') by {}
    }
    assert forall|i: int, j: int| 0 <= i < j < ps.len() implies (#[trigger] ps[i]).name@
        != (#[trigger] ps[j]).name@ by {
        if ps[i].name@ == ps[j].name@ {
            assert(ps[i].name@.len() == ps[j].name@.len());
            assert(ps[i].name@[0] == ps[j].name@[0]);
            assert(ps[i].name@[7] == ps[j].name@[7]);
        }
    }
    if is_minecraft_paper(t) {
        assert(ps[1].options@[1]@ == "2G"@);
    }
    if is_terraria_tshock(t) {
        assert(ps[1].options@[1]@ == "8"@);
    }
}

} // verus!
