use whisper_manager::deps::{dependency_probes, probe_ok, DepsReport};
use whisper_manager::job::CommandOutcome;
use whisper_manager::commands::WorkDir;
use whisper_manager::payloads::{ProgressPayload, WhisperStatus};
use whisper_manager::server::{check_installed, ends_listening, react, ServerEvent, ServerReaction};
use whisper_manager::state::WhisperState;
use whisper_manager::updater::{download_finished_line, download_progress_line, install_failed_line, update_notice, UpdateCheck};

#[test]
fn state_starts_idle() {
    let s: WhisperState<u32> = WhisperState::default();
    assert!(s.server_child.is_none());
    assert_eq!(s.port, 8080);
    assert_eq!(s.model, "base.en");
    assert!(!s.installing);
}

#[test]
fn one_install_at_a_time() {
    let mut s: WhisperState<u32> = WhisperState::new();
    assert_eq!(s.begin_install(Some("small".to_string())), Ok("small".to_string()));
    assert!(s.installing);
    assert_eq!(s.model, "small");
    assert_eq!(s.begin_install(None), Err("Installation already in progress".to_string()));
    assert_eq!(s.model, "small");
    s.finish_install();
    assert!(!s.installing);
    assert_eq!(s.begin_install(None), Ok("base.en".to_string()));
    assert_eq!(s.model, "base.en");
}

#[test]
fn one_server_at_a_time() {
    let mut s: WhisperState<u32> = WhisperState::new();
    let start = s.begin_start(Some(9000)).unwrap();
    assert_eq!(start.port, 9000);
    assert_eq!(start.model, "base.en");
    assert_eq!(s.port, 9000);
    s.attach_server(42);
    assert!(s.is_server_running());
    match s.begin_start(None) {
        Err(e) => assert_eq!(e, "Server is already running"),
        Ok(_) => panic!("expected a refusal"),
    }
    assert_eq!(s.port, 9000);
    assert_eq!(s.stop_server(), Ok(42));
    assert!(!s.is_server_running());
    assert_eq!(s.stop_server(), Err("Server is not running".to_string()));
}

#[test]
fn start_defaults_to_port_8080_and_uses_installed_model() {
    let mut s: WhisperState<u32> = WhisperState::new();
    s.port = 1234;
    s.begin_install(Some("medium".to_string())).unwrap();
    s.finish_install();
    let start = s.begin_start(None).unwrap();
    assert_eq!(start.port, 8080);
    assert_eq!(start.model, "medium");
}

#[test]
fn release_lets_go_of_the_server() {
    let mut s: WhisperState<u32> = WhisperState::new();
    assert_eq!(s.release_server(), None);
    s.attach_server(7);
    assert_eq!(s.release_server(), Some(7));
    assert!(!s.is_server_running());
}

#[test]
fn start_needs_binary_and_model() {
    assert_eq!(
        check_installed(false, false, "/m.bin"),
        Err("whisper-server binary not found. Please install first.".to_string())
    );
    assert_eq!(
        check_installed(true, false, "/m.bin"),
        Err("Model file not found: /m.bin. Please install first.".to_string())
    );
    assert_eq!(check_installed(true, true, "/m.bin"), Ok(()));
}

#[test]
fn status_is_composed() {
    let s = WhisperStatus::compose(true, false, true, true, 8080, "base.en".to_string(), "/data/whisper.cpp".to_string());
    assert!(!s.installed);
    assert!(s.binary_exists);
    assert!(!s.model_exists);
    assert!(s.server_running);
    assert!(s.server_healthy);
    assert_eq!(s.port, 8080);
    assert_eq!(s.model, "base.en");
    assert_eq!(s.install_path, "/data/whisper.cpp");
    let s = WhisperStatus::compose(true, true, false, true, 1, String::new(), String::new());
    assert!(s.installed);
    assert!(!s.server_healthy);
}

#[test]
fn progress_payload_keeps_its_parts() {
    let p = ProgressPayload::new("build", "Building", false, true);
    assert_eq!(p.stage, "build");
    assert_eq!(p.message, "Building");
    assert!(!p.done);
    assert!(p.error);
    let q = p.duplicate();
    assert_eq!(q.message, "Building");
}

#[test]
fn server_output_becomes_logs() {
    match react(ServerEvent::Stdout(b"listening".to_vec())) {
        ServerReaction::Log(l) => {
            assert_eq!(l.source, "stdout");
            assert_eq!(l.message, "listening");
        }
        _ => panic!("expected a log"),
    }
    match react(ServerEvent::Stderr(vec![b'a', 0xfe])) {
        ServerReaction::Log(l) => {
            assert_eq!(l.source, "stderr");
            assert_eq!(l.message, "a\u{FFFD}");
        }
        _ => panic!("expected a log"),
    }
    match react(ServerEvent::Error("broken pipe".to_string())) {
        ServerReaction::Log(l) => {
            assert_eq!(l.source, "error");
            assert_eq!(l.message, "broken pipe");
        }
        _ => panic!("expected a log"),
    }
    let r = react(ServerEvent::Other);
    assert!(matches!(r, ServerReaction::Ignore));
    assert!(!ends_listening(&r));
}

#[test]
fn server_exit_ends_listening() {
    let r = react(ServerEvent::Terminated { code: Some(1), signal: None });
    assert!(matches!(r, ServerReaction::Stopped { code: Some(1), signal: None }));
    assert!(ends_listening(&r));
}

#[test]
fn dependency_report() {
    let probes = dependency_probes();
    let names: Vec<(String, Vec<String>)> = probes.iter().map(|c| (c.program.clone(), c.args.clone())).collect();
    assert_eq!(
        names,
        vec![
            ("git".to_string(), vec!["--version".to_string()]),
            ("cmake".to_string(), vec!["--version".to_string()]),
            ("ffmpeg".to_string(), vec!["-version".to_string()]),
            ("cc".to_string(), vec!["--version".to_string()]),
        ]
    );
    assert!(probes.iter().all(|c| c.cwd == WorkDir::TempDir));
    let r = DepsReport::new(true, true, false, true);
    assert!(r.all_ok);
    assert!(!r.ffmpeg);
    let r = DepsReport::new(true, false, true, true);
    assert!(!r.all_ok);
    assert!(probe_ok(&CommandOutcome::Exited { success: true, stderr: vec![] }));
    assert!(!probe_ok(&CommandOutcome::Exited { success: false, stderr: vec![] }));
    assert!(!probe_ok(&CommandOutcome::NotRun("missing".to_string())));
}

#[test]
fn update_notices() {
    let n = update_notice(UpdateCheck::Available { current_version: "0.1.0".to_string(), version: "0.2.0".to_string() });
    assert_eq!(n.line, "Update available: 0.1.0 -> 0.2.0");
    assert!(n.install && !n.to_stderr);
    let n = update_notice(UpdateCheck::UpToDate);
    assert_eq!(n.line, "No update available");
    assert!(!n.install && !n.to_stderr);
    let n = update_notice(UpdateCheck::Failed("offline".to_string()));
    assert_eq!(n.line, "Failed to check for updates: offline");
    assert!(!n.install && n.to_stderr);
    assert_eq!(download_progress_line(512, Some(2048)), "Downloaded 512 of Some(2048) bytes");
    assert_eq!(download_progress_line(0, None), "Downloaded 0 of None bytes");
    assert_eq!(download_progress_line(3, Some(3)), format!("Downloaded {} of {:?} bytes", 3, Some(3u64)));
    assert_eq!(download_finished_line(), "Download finished");
    assert_eq!(install_failed_line("disk full"), "Failed to download and install update: disk full");
}
