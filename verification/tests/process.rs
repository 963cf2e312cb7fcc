use anyserver::exec::{
    crlf_action, file_name, has_carriage_return, is_elf_header, parse_shebang, resolve_script,
    run_via_sh, strip_carriage_returns, CrlfAction, ResolvedExec, Shebang, not_executable_note,
    crlf_too_large_note, crlf_fixed_note,
};
use anyserver::launch::{
    buffer_has_pattern, java_bin_dir, output_matches, path_join, resolve_binary_path, resolve_env,
    resolve_work_dir, with_java_path, spawn_failure_lines,
};
use anyserver::lifecycle::{
    check_can_cancel_restart, check_can_cancel_stop, check_can_kill, check_can_send_command,
    check_can_start, check_can_stop, decide_restart, estimate_steps_secs, legacy_stop,
    needs_forced_stop, on_process_exit, status_after_cancelled_stop, step_action_timeout,
    stop_gate, stop_step_command, stop_step_info, LegacyStop, LogBuffer, ProcessError, StopCommand,
    StopGate, LOG_BUFFER_SIZE, log_file_limit, pid_from_file, reconciliation, Reconciliation,
    adopted_notice, stop_settings, check_start_pipeline, on_grace_event, GraceEvent, GraceAction,
    sigkill_target, needs_directory_scan,
};
use anyserver::time::DateTimeUtc;
use anyserver::types::pipeline::{PhaseStatus, PipelineStep, StepAction};
use anyserver::types::server::{ServerStatus, StopSignal};
use anyserver::types::ws::{LogLine, LogStream};

fn strs(v: &[&str]) -> Vec<String> {
    v.iter().map(|s| s.to_string()).collect()
}

fn pairs(v: &[(&str, &str)]) -> Vec<(String, String)> {
    v.iter().map(|(k, x)| (k.to_string(), x.to_string())).collect()
}

fn get<'a>(m: &'a [(String, String)], key: &str) -> Option<&'a str> {
    m.iter().find(|(k, _)| k == key).map(|(_, v)| v.as_str())
}

fn conflict_message(r: Result<(), ProcessError>) -> String {
    match r {
        Err(ProcessError::Conflict(m)) => m,
        other => panic!("expected a conflict, got {:?}", other),
    }
}

fn log_line(text: &str) -> LogLine {
    LogLine {
        seq: 9999,
        timestamp: DateTimeUtc { secs: 0, nanos: 0 },
        line: text.to_string(),
        stream: LogStream::Stdout,
    }
}

// ─── Resolving how a binary runs ───

#[test]
fn test_resolve_execution_nonexistent_file_passes_through() {
    let resolved = ResolvedExec::passthrough("/nonexistent/path/binary", &strs(&["arg1"]));
    assert_eq!(resolved.command, "/nonexistent/path/binary");
    assert_eq!(resolved.args, vec!["arg1"]);
}

#[test]
fn test_resolve_execution_no_shebang_runs_via_sh() {
    let shebang = parse_shebang(b"echo hello world\n");
    assert!(matches!(shebang, Shebang::Missing));
    let (resolved, note) =
        resolve_script(&shebang, "/srv/noshebang.sh", &strs(&["extra"]), true, false, None, Some("/usr/bin/sh".into()));
    assert_eq!(resolved.command, "/usr/bin/sh");
    assert_eq!(resolved.args[0], "/srv/noshebang.sh");
    assert_eq!(resolved.args[1], "extra");
    assert_eq!(note.unwrap(), "Script 'noshebang.sh' has no #! shebang — running via sh");
}

#[test]
fn test_resolve_execution_identifies_elf_from_header() {
    assert!(is_elf_header(b"\x7fELF\x02\x01\x01"));
    assert!(!is_elf_header(b"#!/bin/sh\n"));
    assert!(!is_elf_header(b"\x7fEL"));
}

#[test]
fn test_resolve_execution_identifies_shebang_script() {
    let shebang = parse_shebang(b"#!/bin/sh\necho hi\n");
    let (resolved, note) = resolve_script(&shebang, "/srv/run.sh", &strs(&["a"]), true, true, None, None);
    assert_eq!(resolved.command, "/srv/run.sh");
    assert_eq!(resolved.args, vec!["a"]);
    assert!(note.is_none());
}

#[test]
fn test_resolve_execution_fixes_crlf_in_small_script() {
    let content = b"#!/bin/sh\r\necho hello\r\n";
    assert!(has_carriage_return(content));
    assert_eq!(crlf_action(content, content.len() as u64), CrlfAction::Strip);
    assert_eq!(strip_carriage_returns(content), b"#!/bin/sh\necho hello\n".to_vec());
}

#[test]
fn test_resolve_execution_does_not_fix_crlf_for_large_file() {
    let header = b"#!/bin/sh\r\n";
    assert_eq!(crlf_action(header, 2 * 1024 * 1024), CrlfAction::TooLarge);
    assert_eq!(crlf_action(b"#!/bin/sh\n", 10), CrlfAction::Keep);
}

#[test]
fn shebang_with_arguments_is_parsed() {
    match parse_shebang(b"#!/usr/bin/env  python3 -u\nprint(1)") {
        Shebang::Interpreter { path, extra_args } => {
            assert_eq!(path, "/usr/bin/env");
            assert_eq!(extra_args, vec!["python3", "-u"]);
        }
        other => panic!("unexpected {:?}", other),
    }
    assert!(matches!(parse_shebang(b"#!   \nx"), Shebang::Empty));
    assert!(matches!(parse_shebang(b""), Shebang::Missing));
}

#[test]
fn non_executable_script_runs_interpreter_explicitly() {
    let shebang = parse_shebang(b"#!/bin/bash -e\n");
    let (resolved, note) = resolve_script(&shebang, "start.sh", &strs(&["x"]), false, true, None, None);
    assert_eq!(resolved.command, "/bin/bash");
    assert_eq!(resolved.args, vec!["-e", "start.sh", "x"]);
    assert!(note.is_none());
}

#[test]
fn missing_interpreter_is_located_by_name() {
    let shebang = parse_shebang(b"#!/bin/bash\n");
    let (resolved, note) =
        resolve_script(&shebang, "start.sh", &strs(&[]), true, false, Some("/run/current-system/sw/bin/bash".into()), None);
    assert_eq!(resolved.command, "/run/current-system/sw/bin/bash");
    assert_eq!(resolved.args, vec!["start.sh"]);
    assert_eq!(
        note.unwrap(),
        "Shebang interpreter '/bin/bash' not found — using '/run/current-system/sw/bin/bash' instead"
    );
    let (fallback, note) = resolve_script(&shebang, "start.sh", &strs(&[]), true, false, None, None);
    assert_eq!(fallback.command, "/bin/sh");
    assert_eq!(fallback.args, vec!["start.sh"]);
    assert_eq!(
        note.unwrap(),
        "Shebang interpreter '/bin/bash' not found and could not be located — falling back to sh"
    );
}

#[test]
fn run_via_sh_defaults_to_bin_sh() {
    let r = run_via_sh("game.sh", &strs(&["-p", "1"]), None);
    assert_eq!(r.command, "/bin/sh");
    assert_eq!(r.args, vec!["game.sh", "-p", "1"]);
}

#[test]
fn file_names_follow_path_rules() {
    assert_eq!(file_name("/bin/bash"), "bash");
    assert_eq!(file_name("/usr/bin/"), "bin");
    assert_eq!(file_name("a/./"), "a");
    assert_eq!(file_name("/"), "");
    assert_eq!(file_name("x/.."), "");
    assert_eq!(file_name("."), "");
    assert_eq!(file_name(""), "");
}

// ─── Launch settings ───

#[test]
fn path_join_follows_path_rules() {
    assert_eq!(path_join("/srv/a", "bin/server"), "/srv/a/bin/server");
    assert_eq!(path_join("/srv/a/", "x"), "/srv/a/x");
    assert_eq!(path_join("/srv/a", "/abs"), "/abs");
    assert_eq!(path_join("", "x"), "x");
}

#[test]
fn binary_resolution() {
    assert_eq!(resolve_binary_path("/opt/java", "/srv/a", false, None), "/opt/java");
    assert_eq!(resolve_binary_path("start.sh", "/srv/a", true, None), "/srv/a/start.sh");
    assert_eq!(resolve_binary_path("java", "/srv/a", false, Some("/usr/bin/java".into())), "/usr/bin/java");
    assert_eq!(resolve_binary_path("java", "/srv/a", false, None), "/srv/a/java");
    assert_eq!(resolve_binary_path("bin/server", "/srv/a", false, Some("/usr/bin/server".into())), "/srv/a/bin/server");
}

#[test]
fn work_dir_resolution() {
    let vars = pairs(&[("world", "w1")]);
    assert_eq!(resolve_work_dir(Some("p"), Some("c"), "/srv/a", &vars), "/srv/a/p");
    assert_eq!(resolve_work_dir(None, Some("data/${world}"), "/srv/a", &vars), "/srv/a/data/w1");
    assert_eq!(resolve_work_dir(None, None, "/srv/a", &vars), "/srv/a");
}

#[test]
fn env_resolution_overlays_pipeline_values() {
    let config = pairs(&[("PORT", "${port}"), ("MODE", "prod")]);
    let vars = pairs(&[("port", "25565")]);
    let overlay = pairs(&[("MODE", "dev"), ("EXTRA", "1")]);
    let env = resolve_env(&config, &vars, &overlay);
    assert_eq!(get(&env, "PORT"), Some("25565"));
    assert_eq!(get(&env, "MODE"), Some("dev"));
    assert_eq!(get(&env, "EXTRA"), Some("1"));
    assert_eq!(env.len(), 3);
}

#[test]
fn java_home_goes_in_front_of_path() {
    let mut env = pairs(&[("JAVA_HOME", "/jdk")]);
    assert_eq!(java_bin_dir(&env).unwrap(), "/jdk/bin");
    with_java_path(&mut env, true, "/usr/bin");
    assert_eq!(get(&env, "PATH"), Some("/jdk/bin:/usr/bin"));
    let mut explicit = pairs(&[("JAVA_HOME", "/jdk"), ("PATH", "/mine")]);
    with_java_path(&mut explicit, true, "/usr/bin");
    assert_eq!(get(&explicit, "PATH"), Some("/mine"));
    let mut missing_dir = pairs(&[("JAVA_HOME", "/jdk")]);
    with_java_path(&mut missing_dir, false, "/usr/bin");
    assert_eq!(get(&missing_dir, "PATH"), None);
}

// ─── Waiting for output ───

#[test]
fn test_wait_for_output_pattern_found_in_buffer() {
    let buffer = vec![log_line("Starting server..."), log_line("Server is ready!"), log_line("Listening on port 25565")];
    assert!(buffer_has_pattern(&buffer, "server is ready"));
}

#[test]
fn test_wait_for_output_pattern_case_insensitive() {
    let buffer = vec![log_line("SERVER READY")];
    assert!(buffer_has_pattern(&buffer, "server ready"));
    assert!(buffer_has_pattern(&buffer, "Server Ready"));
}

#[test]
fn test_wait_for_output_pattern_substring_match() {
    assert!(output_matches("[14:32:05 INFO]: Done (2.5s)! For help, type \"help\"", "Done"));
    assert!(!output_matches("unrelated output", "server ready"));
    assert!(output_matches("anything", ""));
}

// ─── Lifecycle decisions ───

#[test]
fn start_is_refused_while_live_or_stopping() {
    assert_eq!(conflict_message(check_can_start(Some(ServerStatus::Running))), "Server is already running");
    assert_eq!(conflict_message(check_can_start(Some(ServerStatus::Starting))), "Server is already running");
    assert_eq!(
        conflict_message(check_can_start(Some(ServerStatus::Stopping))),
        "Cannot start server while it is still stopping. Cancel the stop first, or wait for it to complete."
    );
    assert!(check_can_start(Some(ServerStatus::Crashed)).is_ok());
    assert!(check_can_start(None).is_ok());
}

#[test]
fn stop_kill_and_command_checks() {
    assert_eq!(conflict_message(check_can_stop(None)), "Server has no active process");
    assert_eq!(conflict_message(check_can_stop(Some(ServerStatus::Stopped))), "Server is not running");
    assert!(check_can_stop(Some(ServerStatus::Starting)).is_ok());
    assert!(check_can_kill(Some(ServerStatus::Stopping)).is_ok());
    assert_eq!(conflict_message(check_can_kill(Some(ServerStatus::Crashed))), "Server is not running");
    assert!(check_can_send_command(Some(ServerStatus::Running)).is_ok());
    assert_eq!(conflict_message(check_can_send_command(Some(ServerStatus::Starting))), "Server is not running");
    assert_eq!(conflict_message(check_can_cancel_stop(Some(ServerStatus::Running))), "Server is not currently stopping");
    assert!(check_can_cancel_stop(Some(ServerStatus::Stopping)).is_ok());
    assert_eq!(
        conflict_message(check_can_cancel_restart(Some((ServerStatus::Running, true)))),
        "Server is not in crashed state"
    );
    assert_eq!(
        conflict_message(check_can_cancel_restart(Some((ServerStatus::Crashed, false)))),
        "Server has no pending restart"
    );
    assert!(check_can_cancel_restart(Some((ServerStatus::Crashed, true))).is_ok());
}

#[test]
fn exit_transitions() {
    assert_eq!(on_process_exit(ServerStatus::Stopping), (ServerStatus::Stopped, false));
    assert_eq!(on_process_exit(ServerStatus::Running), (ServerStatus::Crashed, true));
    assert_eq!(on_process_exit(ServerStatus::Starting), (ServerStatus::Crashed, true));
    assert_eq!(on_process_exit(ServerStatus::Installing), (ServerStatus::Installing, false));
    assert_eq!(status_after_cancelled_stop(ServerStatus::Stopping), ServerStatus::Running);
    assert_eq!(status_after_cancelled_stop(ServerStatus::Stopped), ServerStatus::Stopped);
    assert!(needs_forced_stop(ServerStatus::Stopping));
    assert!(!needs_forced_stop(ServerStatus::Crashed));
}

#[test]
fn restart_decisions() {
    let d = decide_restart(true, 1, 3);
    assert!(d.restart && !d.attempts_exhausted);
    let d = decide_restart(true, 3, 3);
    assert!(!d.restart && d.attempts_exhausted);
    let d = decide_restart(false, 0, 0);
    assert!(!d.restart && !d.attempts_exhausted);
}

fn step(name: &str, action: StepAction) -> PipelineStep {
    PipelineStep { name: name.into(), description: None, action, condition: None, continue_on_error: false }
}

#[test]
fn stop_step_commands() {
    let vars = pairs(&[("cmd", "stop")]);
    match stop_step_command(&StepAction::SendInput { text: "${cmd}".into() }, &vars) {
        StopCommand::WriteInput(l) => assert_eq!(l, "stop\n"),
        other => panic!("unexpected {:?}", other),
    }
    assert!(matches!(
        stop_step_command(&StepAction::SendSignal { signal: StopSignal::Sigint }, &vars),
        StopCommand::Signal(StopSignal::Sigint)
    ));
    assert!(matches!(stop_step_command(&StepAction::Sleep { seconds: 3 }, &vars), StopCommand::Sleep(3)));
    match stop_step_command(&StepAction::WaitForOutput { pattern: "saved ${cmd}".into(), timeout_secs: 9 }, &vars) {
        StopCommand::WaitForOutput(p, t) => {
            assert_eq!(p, "saved stop");
            assert_eq!(t, 9);
        }
        other => panic!("unexpected {:?}", other),
    }
    assert!(matches!(stop_step_command(&StepAction::CreateDir { path: "x".into() }, &vars), StopCommand::Skip));
}

#[test]
fn stop_step_timing() {
    let steps = vec![
        step("a", StepAction::SendInput { text: "stop".into() }),
        step("b", StepAction::Sleep { seconds: 10 }),
        step("c", StepAction::WaitForOutput { pattern: "x".into(), timeout_secs: 30 }),
    ];
    assert_eq!(estimate_steps_secs(&steps), 40);
    assert_eq!(step_action_timeout(&steps[0].action), None);
    let info = stop_step_info(&steps, 2);
    assert_eq!(info.index, 2);
    assert_eq!(info.total, 3);
    assert_eq!(info.name, "c");
    assert_eq!(info.step_timeout_secs, Some(30));
    assert_eq!(stop_gate(true, ServerStatus::Stopped), StopGate::Cancel);
    assert_eq!(stop_gate(false, ServerStatus::Crashed), StopGate::Exited);
    assert_eq!(stop_gate(false, ServerStatus::Stopping), StopGate::Proceed);
}

#[test]
fn legacy_stop_prefers_commands_then_signals() {
    let vars = pairs(&[]);
    match legacy_stop(Some("save-all".into()), Some("stop".into()), None, StopSignal::Sigterm, Some(5), &vars) {
        LegacyStop::WriteInput(l) => assert_eq!(l, "save-all\n"),
        other => panic!("unexpected {:?}", other),
    }
    match legacy_stop(None, None, Some(StopSignal::Sigint), StopSignal::Sigterm, Some(5), &vars) {
        LegacyStop::Signal(s, p) => {
            assert_eq!(s, StopSignal::Sigint);
            assert_eq!(p, 5);
        }
        other => panic!("unexpected {:?}", other),
    }
    assert!(matches!(legacy_stop(None, None, None, StopSignal::Sigterm, None, &vars), LegacyStop::Nothing));
}

// ─── Console buffer ───

#[test]
fn test_log_seq_monotonically_increasing() {
    let mut buf = LogBuffer::new();
    for i in 0..10 {
        buf.push(log_line(&format!("line {}", i)));
    }
    let seqs: Vec<u32> = (0..buf.len()).map(|i| buf.get(i).seq).collect();
    assert_eq!(seqs, (0..10).collect::<Vec<u32>>());
}

#[test]
fn test_log_seq_resets_on_new_handle() {
    let mut first = LogBuffer::new();
    for _ in 0..3 {
        first.push(log_line("a"));
    }
    assert_eq!(first.get(2).seq, 2);
    let mut second = LogBuffer::new();
    second.push(log_line("b"));
    assert_eq!(second.get(0).seq, 0, "new buffer should start seq at 0");
}

#[test]
fn test_log_seq_overwrites_placeholder() {
    let mut buf = LogBuffer::new();
    let recorded = buf.push(log_line("overwrite me"));
    assert_eq!(recorded.seq, 0);
    assert_eq!(buf.get(0).seq, 0);
}

#[test]
fn test_log_seq_preserved_in_broadcast() {
    let mut buf = LogBuffer::new();
    let first = buf.push(log_line("broadcast test"));
    assert_eq!(first.seq, 0);
    assert_eq!(first.line, "broadcast test");
    let second = buf.push(log_line("second"));
    assert_eq!(second.seq, 1);
}

#[test]
fn log_buffer_keeps_the_newest_lines() {
    let mut buf = LogBuffer::new();
    for i in 0..(LOG_BUFFER_SIZE + 5) {
        buf.push(log_line(&format!("{}", i)));
    }
    assert_eq!(buf.len(), LOG_BUFFER_SIZE);
    assert_eq!(buf.get(0).line, "5");
    assert_eq!(buf.get(0).seq, 5);
    assert_eq!(buf.get(LOG_BUFFER_SIZE - 1).seq, (LOG_BUFFER_SIZE + 4) as u32);
}

#[test]
fn log_file_limit_in_bytes() {
    assert_eq!(log_file_limit(true, 50), Some(50 * 1024 * 1024));
    assert_eq!(log_file_limit(false, 50), None);
    assert_eq!(log_file_limit(true, u32::MAX), Some(u32::MAX as u64 * 1024 * 1024));
}

#[test]
fn pid_file_contents() {
    assert_eq!(pid_from_file("12345\n"), Some(12345));
    assert_eq!(pid_from_file("  42 "), Some(42));
    assert_eq!(pid_from_file(""), None);
    assert_eq!(pid_from_file("abc"), None);
    assert_eq!(pid_from_file("99999999999"), None);
}

#[test]
fn reconciliation_of_recorded_processes() {
    assert_eq!(reconciliation(None, true), Reconciliation::Nothing);
    assert_eq!(reconciliation(Some(7), true), Reconciliation::Adopt(7));
    assert_eq!(reconciliation(Some(7), false), Reconciliation::RemoveStale);
}

#[test]
fn adopted_process_notice() {
    assert_eq!(
        adopted_notice(4242),
        "Process was already running (PID 4242) \u{2014} console output unavailable until next restart."
    );
}

#[test]
fn start_keeps_pipeline_stop_settings_first() {
    assert_eq!(
        stop_settings(Some("quit".to_string()), Some(StopSignal::Sigint), Some("stop".to_string()), StopSignal::Sigterm),
        (Some("quit".to_string()), StopSignal::Sigint)
    );
    assert_eq!(
        stop_settings(None, None, Some("stop".to_string()), StopSignal::Sigterm),
        (Some("stop".to_string()), StopSignal::Sigterm)
    );
    assert_eq!(stop_settings(None, None, None, StopSignal::Sigint), (None, StopSignal::Sigint));
}

#[test]
fn failed_start_pipeline_stops_the_start() {
    match check_start_pipeline(Some(PhaseStatus::Failed)) {
        Err(ProcessError::Internal(m)) => assert_eq!(m, "Start pipeline failed \u{2014} server not started"),
        other => panic!("unexpected {:?}", other),
    }
    assert!(check_start_pipeline(Some(PhaseStatus::Completed)).is_ok());
    assert!(check_start_pipeline(None).is_ok());
}

#[test]
fn grace_period_decisions() {
    assert_eq!(on_grace_event(GraceEvent::DeadlinePassed, ServerStatus::Stopping), GraceAction::ForceKill);
    assert_eq!(on_grace_event(GraceEvent::ExitNoticed, ServerStatus::Stopped), GraceAction::Done);
    assert_eq!(on_grace_event(GraceEvent::ExitNoticed, ServerStatus::Stopping), GraceAction::KeepWaiting);
    assert_eq!(on_grace_event(GraceEvent::Cancelled, ServerStatus::Stopping), GraceAction::Revert);
    assert_eq!(on_grace_event(GraceEvent::Tick, ServerStatus::Crashed), GraceAction::Done);
    assert_eq!(on_grace_event(GraceEvent::Tick, ServerStatus::Stopping), GraceAction::Report);
}

#[test]
fn forced_kill_decisions() {
    assert_eq!(sigkill_target(Some(99), ServerStatus::Stopping), Some(99));
    assert_eq!(sigkill_target(Some(99), ServerStatus::Stopped), None);
    assert_eq!(sigkill_target(None, ServerStatus::Stopping), None);
    assert!(needs_directory_scan(ServerStatus::Stopping, false));
    assert!(!needs_directory_scan(ServerStatus::Stopping, true));
    assert!(!needs_directory_scan(ServerStatus::Stopped, false));
}

#[test]
fn spawn_failure_report_for_bare_command() {
    let lines = spawn_failure_lines(
        "No such file or directory (os error 2)",
        "/srv/s1/java",
        &vec!["-jar".to_string(), "server.jar".to_string()],
        "/srv/s1/java",
        "/srv/s1",
        "/srv/s1",
        false,
        false,
    );
    assert_eq!(
        lines,
        vec![
            "Failed to spawn process: No such file or directory (os error 2)".to_string(),
            "  Command: /srv/s1/java [\"-jar\", \"server.jar\"]".to_string(),
            "  Binary : /srv/s1/java".to_string(),
            "  WorkDir: /srv/s1".to_string(),
            "  Hint   : 'java' was not found on this system \u{2014} is it installed and on the PATH?".to_string(),
        ]
    );
}

#[test]
fn spawn_failure_report_for_missing_file_and_command() {
    let missing = spawn_failure_lines("e", "/srv/s1/start.sh", &vec![], "/srv/s1/start.sh", "/srv/s1", "/srv/s1", false, false);
    assert_eq!(
        missing[4],
        "  Hint   : the file '/srv/s1/start.sh' does not exist \u{2014} did you run the install pipeline first?"
    );
    assert_eq!(missing[1], "  Command: /srv/s1/start.sh []");
    let resolved = spawn_failure_lines("e", "/bin/sh", &vec![], "/srv/s1/start.sh", "/srv/s1", "/srv/s1", true, false);
    assert_eq!(resolved.len(), 5);
    assert_eq!(resolved[4], "  Hint   : resolved command '/bin/sh' does not exist");
    let plain = spawn_failure_lines("e", "/bin/sh", &vec![], "/srv/s1/start.sh", "/srv/s1", "/srv/s1", true, true);
    assert_eq!(plain.len(), 4);
}

#[test]
fn script_console_notes() {
    assert_eq!(
        not_executable_note("/srv/s1/start.sh"),
        "Script 'start.sh' is not executable \u{2014} running via interpreter"
    );
    assert_eq!(
        crlf_too_large_note("/srv/s1/start.sh", 2097152),
        "Warning: '/srv/s1/start.sh' has Windows line endings but is too large (2097152 bytes) for automatic CRLF fix. Please convert it manually."
    );
    assert_eq!(crlf_fixed_note("/srv/s1/start.sh"), "Fixed Windows line endings (CRLF \u{2192} LF) in '/srv/s1/start.sh'");
}

#[test]
fn written_pid_reads_back() {
    for pid in [0u32, 7, 4242, u32::MAX] {
        assert_eq!(pid_from_file(&pid.to_string()), Some(pid));
    }
}

#[test]
fn restarts_stop_at_the_limit() {
    for max in [0u32, 1, 3] {
        let mut count = 0u32;
        for _crash in 0..10 {
            if decide_restart(true, count, max).restart {
                count += 1;
            }
        }
        assert_eq!(count, max);
    }
    let mut count = 0u32;
    for _crash in 0..10 {
        if decide_restart(false, count, 5).restart {
            count += 1;
        }
    }
    assert_eq!(count, 0);
}
