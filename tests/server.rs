use omu_dash::python::{Python, PythonVersion};
use omu_dash::server::{
    classify_exit, deprecated_requirements, generate_hash, generate_token, hash_from_seed, judge_oneshot,
    requirements, EnsureAction, EnsureEvent, EnsurePhase, EnsureServer, ExitClass, OneShotOutcome, Server,
    ServerConfig, ServerEnsureError, ServerState,
};
use omu_dash::commands::{reuse_running, StartResult};
use omu_dash::server::{sync_outcome, sync_step_of, SyncStep};
use omu_dash::uv::{Uv, UvEnsureError};

const APP_VERSION: &str = "0.9.1";

fn config() -> ServerConfig {
    ServerConfig { workdir: "/data".to_string(), port: 26423, hash: "h4sh".to_string() }
}

fn python() -> Python {
    Python {
        version: PythonVersion {
            name: "cpython".to_string(),
            arch: "x86_64".to_string(),
            os: "linux".to_string(),
            major: 3,
            minor: 13,
            patch: 2,
            suffix: None,
        },
        path: "/bin/python/3.13.2".to_string(),
        python_bin: "/bin/python/3.13.2/install/bin/python".to_string(),
    }
}

fn uv() -> Uv {
    Uv {
        uv_bin: "/bin/uv/0.5.0/uv".to_string(),
        workdir: "/data".to_string(),
        python_bin: "/bin/python/3.13.2/install/bin/python".to_string(),
        index_url: "https://pypi.org/simple/".to_string(),
    }
}

fn machine() -> EnsureServer {
    EnsureServer::new_with_token(&config(), APP_VERSION, "FRESHTOKEN".to_string())
}

fn kind(a: &EnsureAction) -> String {
    match a {
        EnsureAction::ProbePort { port } => format!("probe {}", port),
        EnsureAction::ReadVersion { path } => format!("read-version {}", path),
        EnsureAction::UninstallDeprecated { .. } => "uninstall-deprecated".to_string(),
        EnsureAction::UpdatePip { spec } => format!("pip {}", spec),
        EnsureAction::UpdateRequirements { .. } => "requirements".to_string(),
        EnsureAction::StopServer { .. } => "stop".to_string(),
        EnsureAction::ReadToken { path } => format!("read-token {}", path),
        EnsureAction::WriteToken { path, token } => format!("write-token {} {}", path, token),
        EnsureAction::CreateDataDir { path } => format!("mkdir {}", path),
        EnsureAction::Finish { .. } => "finish".to_string(),
        EnsureAction::Idle => "idle".to_string(),
    }
}

/// Runs the machine, answering each action with success and the given
/// observations, and returns the actions in order with the final one.
fn run(free: bool, version: Option<&str>, token_on_disk: Option<&str>) -> (Vec<String>, EnsureAction) {
    let mut m = machine();
    let mut seen = Vec::new();
    let mut a = m.step(EnsureEvent::Succeeded);
    loop {
        seen.push(kind(&a));
        let e = match &a {
            EnsureAction::ProbePort { .. } => EnsureEvent::PortProbed { free },
            EnsureAction::ReadVersion { .. } => EnsureEvent::VersionRead { version: version.map(|v| v.to_string()) },
            EnsureAction::ReadToken { .. } => match token_on_disk {
                Some(t) => EnsureEvent::TokenRead { token: t.to_string() },
                None => EnsureEvent::Failed { msg: "token file does not exist".to_string() },
            },
            EnsureAction::Finish { .. } => return (seen, a),
            EnsureAction::Idle => panic!("idle before finishing"),
            _ => EnsureEvent::Succeeded,
        };
        a = m.step(e);
    }
}

#[test]
fn fresh_machine_with_free_port_issues_a_new_token() {
    let (seen, last) = run(true, None, None);
    assert_eq!(
        seen,
        vec![
            "probe 26423",
            "read-version /data/VERSION",
            "write-token /data/token.txt FRESHTOKEN",
            "uninstall-deprecated",
            "pip pip==23.3.2",
            "requirements",
            "mkdir /data",
            "finish",
        ]
    );
    let ensured = match last {
        EnsureAction::Finish { result: Ok(s) } => s,
        _ => panic!("bring-up failed"),
    };
    assert_eq!(ensured.token, "FRESHTOKEN");
    assert!(!ensured.already_started);
    let mut server = Server::new(config(), python(), uv(), ensured);
    assert!(!server.is_running());
    let plan = server.start("/opt/dash").unwrap();
    assert!(server.on_spawn(Ok(())).is_ok());
    assert!(server.is_running());
    assert_eq!(plan.program, "/bin/python/3.13.2/install/bin/python");
    assert_eq!(plan.workdir, "/data");
    assert_eq!(
        plan.args,
        vec![
            "-m", "omuserver", "--token", "FRESHTOKEN", "--port", "26423", "--hash", "h4sh", "--dashboard-path",
            "/opt/dash", "--index-url", "https://pypi.org/simple/",
        ]
    );
}

#[test]
fn compatible_running_server_is_reused() {
    let (seen, last) = run(false, Some(APP_VERSION), Some("DISKTOKEN"));
    assert!(!seen.iter().any(|s| s == "stop"));
    assert!(!seen.iter().any(|s| s.starts_with("write-token")));
    assert!(seen.contains(&"read-token /data/token.txt".to_string()));
    let ensured = match last {
        EnsureAction::Finish { result: Ok(s) } => s,
        _ => panic!("bring-up failed"),
    };
    assert_eq!(ensured.token, "DISKTOKEN");
    assert!(ensured.already_started);
    let server = Server::new(config(), python(), uv(), ensured);
    assert!(matches!(server.start("/opt/dash"), Err(ServerEnsureError::AlreadyRunning { .. })));
    if let Err(ServerEnsureError::AlreadyRunning { msg }) = server.start("/opt/dash") {
        assert_eq!(msg, "Server is already running on port 26423");
    }
}

#[test]
fn older_running_server_is_stopped_and_replaced() {
    let (seen, last) = run(false, Some("0.8.0"), Some("DISKTOKEN"));
    assert_eq!(
        seen,
        vec![
            "probe 26423",
            "read-version /data/VERSION",
            "uninstall-deprecated",
            "pip pip==23.3.2",
            "requirements",
            "stop",
            "write-token /data/token.txt FRESHTOKEN",
            "uninstall-deprecated",
            "pip pip==23.3.2",
            "requirements",
            "mkdir /data",
            "finish",
        ]
    );
    match last {
        EnsureAction::Finish { result: Ok(s) } => {
            assert_eq!(s.token, "FRESHTOKEN");
            assert!(!s.already_started);
        },
        _ => panic!("bring-up failed"),
    }
}

#[test]
fn missing_marker_on_occupied_port_counts_as_mismatch() {
    let (seen, _) = run(false, None, Some("DISKTOKEN"));
    assert!(seen.contains(&"stop".to_string()));
}

#[test]
fn occupied_port_without_token_fails_with_token_read_failed() {
    let (seen, last) = run(false, Some(APP_VERSION), None);
    assert!(!seen.iter().any(|s| s.starts_with("write-token")));
    assert!(matches!(last, EnsureAction::Finish { result: Err(ServerEnsureError::TokenReadFailed { .. }) }));
}

#[test]
fn matching_version_on_free_port_never_stops() {
    let (seen, _) = run(true, Some(APP_VERSION), None);
    assert!(!seen.iter().any(|s| s == "stop"));
    assert!(seen.iter().any(|s| s.starts_with("write-token")));
}

#[test]
fn stop_notice_carries_both_versions() {
    let mut m = machine();
    m.step(EnsureEvent::Succeeded);
    m.step(EnsureEvent::PortProbed { free: false });
    m.step(EnsureEvent::VersionRead { version: Some("0.8.0".to_string()) });
    m.step(EnsureEvent::Succeeded);
    m.step(EnsureEvent::Succeeded);
    match m.step(EnsureEvent::Succeeded) {
        EnsureAction::StopServer { installed, current } => {
            assert_eq!(installed.as_deref(), Some("0.8.0"));
            assert_eq!(current, APP_VERSION);
        },
        _ => panic!("expected a stop"),
    }
    assert_eq!(m.phase, EnsurePhase::Stopping);
}

#[test]
fn failures_map_to_their_errors() {
    let mut m = machine();
    m.step(EnsureEvent::PortProbed { free: true });
    let a = m.step(EnsureEvent::Failed { msg: "unreadable".to_string() });
    assert!(matches!(a, EnsureAction::Finish { result: Err(ServerEnsureError::VersionReadFailed { .. }) }));
    assert!(matches!(m.step(EnsureEvent::Succeeded), EnsureAction::Idle));

    let mut m = machine();
    m.step(EnsureEvent::PortProbed { free: true });
    m.step(EnsureEvent::VersionRead { version: None });
    let a = m.step(EnsureEvent::Failed { msg: "read-only".to_string() });
    assert!(matches!(a, EnsureAction::Finish { result: Err(ServerEnsureError::TokenWriteFailed { .. }) }));

    let mut m = machine();
    m.step(EnsureEvent::PortProbed { free: true });
    m.step(EnsureEvent::VersionRead { version: None });
    m.step(EnsureEvent::Succeeded);
    let a = m.step(EnsureEvent::DependenciesFailed {
        reason: UvEnsureError::UpdatePipFailed { msg: "x".to_string() },
    });
    assert!(matches!(
        a,
        EnsureAction::Finish { result: Err(ServerEnsureError::UpdateDependenciesFailed { .. }) }
    ));

    let mut m = machine();
    m.step(EnsureEvent::PortProbed { free: false });
    m.step(EnsureEvent::VersionRead { version: Some("0.1.0".to_string()) });
    m.step(EnsureEvent::Succeeded);
    m.step(EnsureEvent::Succeeded);
    m.step(EnsureEvent::Succeeded);
    let a = m.step(EnsureEvent::Failed { msg: "stop failed".to_string() });
    assert!(matches!(a, EnsureAction::Finish { result: Err(ServerEnsureError::StopFailed { .. }) }));
}

#[test]
fn unrelated_events_ask_again() {
    let mut m = machine();
    assert!(matches!(m.step(EnsureEvent::Succeeded), EnsureAction::ProbePort { port: 26423 }));
    assert!(matches!(m.step(EnsureEvent::TokenRead { token: "x".to_string() }), EnsureAction::ProbePort { .. }));
    assert_eq!(m.phase, EnsurePhase::Probing);
}

#[test]
fn exit_codes_are_classified() {
    assert_eq!(classify_exit(Some(0)), ExitClass::Normal);
    assert_eq!(classify_exit(None), ExitClass::Killed);
    assert_eq!(classify_exit(Some(100)), ExitClass::Restart);
    assert_eq!(classify_exit(Some(7)), ExitClass::Crash(7));
    assert_eq!(classify_exit(Some(-9)), ExitClass::Crash(-9));
}

fn running_server() -> Server {
    let ensured = omu_dash::server::EnsuredServer { token: "T".to_string(), already_started: false };
    let mut s = Server::new(config(), python(), uv(), ensured);
    s.start("/opt/dash").unwrap();
    assert!(s.on_spawn(Ok(())).is_ok());
    assert!(s.is_running());
    s
}

#[test]
fn exit_zero_reports_nothing_and_clears() {
    let mut s = running_server();
    assert!(s.on_exit(Some(0)).is_none());
    assert!(!s.is_running());
}

#[test]
fn exit_restart_code_reports_restarting_and_clears() {
    let mut s = running_server();
    match s.on_exit(Some(100)) {
        Some(ServerState::ServerRestarting { msg }) => assert_eq!(msg, "Server is restarting"),
        other => panic!("unexpected {:?}", other),
    }
    assert!(!s.is_running());
}

#[test]
fn exit_other_code_reports_stopped_with_code_and_clears() {
    let mut s = running_server();
    match s.on_exit(Some(7)) {
        Some(ServerState::ServerStopped { msg }) => assert_eq!(msg, "Server exited with code 7"),
        other => panic!("unexpected {:?}", other),
    }
    assert!(!s.is_running());
}

#[test]
fn a_running_handle_refuses_a_second_start() {
    let s = running_server();
    assert!(matches!(s.start("/opt/dash"), Err(ServerEnsureError::AlreadyRunning { .. })));
}

#[test]
fn oneshot_commands() {
    let stop = Server::stop_server(&python(), &config());
    assert_eq!(stop.args, vec!["-m", "omuserver", "--port", "26423", "--stop"]);
    assert_eq!(stop.workdir, "/data");
    let uninstall = Server::uninstall(&python(), &config());
    assert_eq!(uninstall.args, vec!["-m", "omuserver", "--port", "26423", "--uninstall"]);
    assert_eq!(uninstall.program, "/bin/python/3.13.2/install/bin/python");
}

#[test]
fn oneshot_outcomes() {
    assert_eq!(judge_oneshot(Ok(Some(0))), Ok(OneShotOutcome::Succeeded));
    assert_eq!(judge_oneshot(Ok(Some(1))), Ok(OneShotOutcome::ExitedWithFailure { code: Some(1) }));
    assert_eq!(judge_oneshot(Ok(None)), Ok(OneShotOutcome::ExitedWithFailure { code: None }));
    assert_eq!(judge_oneshot(Err("no such file".to_string())), Err("no such file".to_string()));
}

#[test]
fn requirement_lists() {
    assert_eq!(
        requirements("1.2.3"),
        "\nomuserver==1.2.3\nomuplugin_obs==1.2.3\nomu_chat==1.2.3\nomu_chat_youtube==1.2.3\nomu_chat_twitch==1.2.3\nomu_chatprovider==1.2.3"
    );
    assert_eq!(deprecated_requirements("1.2.3"), "\nomuplugin_discordrpc==1.2.3");
}

#[test]
fn tokens_are_alphanumeric() {
    let t = generate_token();
    assert_eq!(t.len(), 32);
    assert!(t.chars().all(|c| c.is_ascii_alphanumeric()));
    assert_ne!(generate_token(), generate_token());
}

#[test]
fn hashes_are_hex_digests() {
    let h = generate_hash();
    assert_eq!(h.len(), 64);
    assert!(h.chars().all(|c| c.is_ascii_hexdigit() && !c.is_ascii_uppercase()));
    assert_eq!(hash_from_seed(b"abc"), "ba7816bf8f01cfea414140de5dae2223b00361a396177a9cb410ff61f20015ad");
}

#[test]
fn token_and_version_paths() {
    assert_eq!(config().get_token_path(), "/data/token.txt");
    assert_eq!(config().get_version_path(), "/data/VERSION");
}

#[test]
fn sync_outcomes_map_to_their_step() {
    assert!(sync_outcome(SyncStep::Pip, Ok(Some(0)), "d".to_string()).is_ok());
    assert!(matches!(
        sync_outcome(SyncStep::Pip, Ok(Some(2)), "d".to_string()),
        Err(UvEnsureError::UpdatePipFailed { msg }) if msg == "d"
    ));
    assert!(matches!(
        sync_outcome(SyncStep::Requirements, Err("spawn".to_string()), "e".to_string()),
        Err(UvEnsureError::UpdateRequirementsFailed { msg }) if msg == "e"
    ));
    assert!(matches!(
        sync_outcome(SyncStep::Deprecated, Ok(None), "f".to_string()),
        Err(UvEnsureError::UpdateRequirementsFailed { .. })
    ));
    assert_eq!(sync_step_of(&EnsureAction::UpdatePip { spec: "p".to_string() }), Some(SyncStep::Pip));
    assert_eq!(sync_step_of(&EnsureAction::ProbePort { port: 1 }), None);
}

#[test]
fn a_running_server_is_reused() {
    assert!(reuse_running(&None).is_none());
    let ensured = omu_dash::server::EnsuredServer { token: "T".to_string(), already_started: false };
    let idle = Some(Server::new(config(), python(), uv(), ensured));
    assert!(reuse_running(&idle).is_none());
    let running = Some(running_server());
    assert!(matches!(reuse_running(&running), Some(StartResult::AlreadyRunning { token }) if token == "T"));
}

#[test]
fn exit_without_code_reports_stopped_and_clears() {
    let mut s = running_server();
    match s.on_exit(None) {
        Some(ServerState::ServerStopped { msg }) => assert_eq!(msg, "Server was terminated without an exit code"),
        other => panic!("unexpected {:?}", other),
    }
    assert!(!s.is_running());
}

#[test]
fn failed_spawn_is_start_failed_and_leaves_the_handle_empty() {
    let ensured = omu_dash::server::EnsuredServer { token: "T".to_string(), already_started: false };
    let mut s = Server::new(config(), python(), uv(), ensured);
    match s.on_spawn(Err("No such file or directory".to_string())) {
        Err(ServerEnsureError::StartFailed { msg }) => {
            assert_eq!(msg, "Failed to start server process: No such file or directory")
        },
        other => panic!("unexpected {:?}", other),
    }
    assert!(!s.is_running());
}

fn failure_message(a: EnsureAction) -> String {
    match a {
        EnsureAction::Finish { result: Err(e) } => match e {
            ServerEnsureError::VersionReadFailed { msg }
            | ServerEnsureError::StopFailed { msg }
            | ServerEnsureError::TokenReadFailed { msg }
            | ServerEnsureError::TokenWriteFailed { msg }
            | ServerEnsureError::CreateDataDirFailed { msg } => msg,
            other => panic!("unexpected {:?}", other),
        },
        other => panic!("unexpected {:?}", other),
    }
}

#[test]
fn failures_name_what_was_attempted() {
    let mut m = machine();
    m.step(EnsureEvent::PortProbed { free: true });
    let a = m.step(EnsureEvent::Failed { msg: "denied".to_string() });
    assert_eq!(failure_message(a), "Failed to read version file at /data/VERSION: denied");

    let mut m = machine();
    m.step(EnsureEvent::PortProbed { free: false });
    m.step(EnsureEvent::VersionRead { version: Some(APP_VERSION.to_string()) });
    let a = m.step(EnsureEvent::Failed { msg: "not found".to_string() });
    assert!(matches!(&a, EnsureAction::Finish { result: Err(ServerEnsureError::TokenReadFailed { .. }) }));
    assert_eq!(
        failure_message(a),
        "Port 26423 is already in use, but failed to read token file at /data/token.txt: not found"
    );

    let mut m = machine();
    m.step(EnsureEvent::PortProbed { free: true });
    m.step(EnsureEvent::VersionRead { version: None });
    let a = m.step(EnsureEvent::Failed { msg: "read-only".to_string() });
    assert_eq!(failure_message(a), "Failed to write token file at /data/token.txt: read-only");

    let mut m = machine();
    m.step(EnsureEvent::PortProbed { free: true });
    m.step(EnsureEvent::VersionRead { version: None });
    m.step(EnsureEvent::Succeeded);
    m.step(EnsureEvent::Succeeded);
    m.step(EnsureEvent::Succeeded);
    m.step(EnsureEvent::Succeeded);
    let a = m.step(EnsureEvent::Failed { msg: "disk full".to_string() });
    assert!(matches!(&a, EnsureAction::Finish { result: Err(ServerEnsureError::CreateDataDirFailed { .. }) }));
    assert_eq!(failure_message(a), "Failed to create server data directory at /data: disk full");

    let mut m = machine();
    m.step(EnsureEvent::PortProbed { free: false });
    m.step(EnsureEvent::VersionRead { version: None });
    m.step(EnsureEvent::Succeeded);
    m.step(EnsureEvent::Succeeded);
    m.step(EnsureEvent::Succeeded);
    let a = m.step(EnsureEvent::Failed { msg: "refused".to_string() });
    assert_eq!(failure_message(a), "Failed to stop the server on port 26423: refused");
}
