use grapevine::installer::ExeCandidate;
use grapevine::launch::{
    DirEntryInfo, DownloadedItem, LaunchAction, LaunchEvent, LaunchSession, LaunchStage, PollOutcome,
    StatusReport,
};
use grapevine::orchestrator::{GameConfig, Orchestrator, Runner};

fn game(id: &str, exe: &str) -> GameConfig {
    GameConfig {
        id: id.to_string(),
        title: id.to_string(),
        source: "Test".to_string(),
        exe_path: exe.to_string(),
        launch_args: vec!["--fullscreen".to_string()],
        runner_path: None,
        env_vars: vec![("DXVK_HUD".to_string(), "1".to_string())],
        dxvk_enabled: true,
        mangohud_enabled: false,
        gamemode_enabled: false,
        play_time_seconds: 7,
        last_played: None,
        download_progress_bits: 0,
        download_speed: String::new(),
        download_eta: String::new(),
        status: "installed".to_string(),
    }
}

fn orchestrator(with_runner: bool) -> Orchestrator {
    let mut o = Orchestrator::with_home(Some("/h".to_string()));
    if with_runner {
        o.runners.push(Runner { name: "System Wine".to_string(), path: "/usr/bin/wine".to_string(), is_proton: false });
    }
    o
}

fn report(status: &str, elapsed: u64) -> LaunchEvent {
    LaunchEvent::Polled(PollOutcome::Running(Some(StatusReport {
        status: status.to_string(),
        active_processes: 1,
        elapsed_seconds: elapsed,
    })))
}

fn now() -> String {
    "2024-05-01 12:00:00".to_string()
}

const PREFIX: &str = "/h/.local/share/grapevine/prefixes/g";
const STATUS: &str = "/h/.local/share/grapevine/prefixes/g/drive_c/grapevine-status.json";

#[test]
fn installed_game_runs_and_counts_play_time() {
    let o = orchestrator(true);
    let mut s = LaunchSession::new(&o, game("g", "C:\\g\\g.exe"));
    let st = s.advance(LaunchEvent::Begin, now());
    assert!(!st.save_config);
    assert!(matches!(st.action, LaunchAction::Prepare { ref game_id } if game_id == "g"));
    let st = s.advance(LaunchEvent::Prepared(Ok(())), now());
    match st.action {
        LaunchAction::Spawn(cmd) => {
            assert_eq!(cmd.program, "/usr/bin/wine");
            let env: Vec<(&str, &str)> = cmd.env.iter().map(|(k, v)| (k.as_str(), v.as_str())).collect();
            assert_eq!(
                env,
                vec![
                    ("WINEPREFIX", PREFIX),
                    ("WINEESYNC", "1"),
                    ("WINEFSYNC", "1"),
                    ("DXVK_HUD", "1"),
                    ("WINEDLLOVERRIDES", "d3d11,dxgi=n,b"),
                ]
            );
            assert_eq!(cmd.args, vec!["C:\\grapevine-helper.exe", "C:\\g\\g.exe", "--fullscreen"]);
        }
        _ => panic!("expected spawn"),
    }
    let st = s.advance(LaunchEvent::Spawned(Ok(())), now());
    assert!(matches!(st.action, LaunchAction::Poll { ref status_file, sleep_first: false } if status_file == STATUS));
    let st = s.advance(report("running", 10), now());
    assert!(matches!(st.action, LaunchAction::Poll { sleep_first: true, .. }));
    assert_eq!(s.config.play_time_seconds, 17);
    let st = s.advance(report("running", 4), now());
    assert!(matches!(st.action, LaunchAction::Poll { sleep_first: true, .. }));
    assert_eq!(s.config.play_time_seconds, 17);
    let st = s.advance(LaunchEvent::Polled(PollOutcome::Running(None)), now());
    assert!(matches!(st.action, LaunchAction::Poll { sleep_first: true, .. }));
    let st = s.advance(report("finished", 9), now());
    assert!(matches!(st.action, LaunchAction::ReadFinalReport { .. }));
    assert_eq!(s.config.play_time_seconds, 22);
    let st = s.advance(LaunchEvent::FinalReport(Some(12)), now());
    assert!(matches!(st.action, LaunchAction::Finish(Ok(()))));
    assert_eq!(s.config.play_time_seconds, 25);
    assert_eq!(s.config.last_played.as_deref(), Some("2024-05-01 12:00:00"));
    assert!(s.stage() == LaunchStage::Finished);
    assert_eq!(s.config.exe_path, "C:\\g\\g.exe");
    assert_eq!(s.config().play_time_seconds, 25);
    assert_eq!(s.config.status, "installed");
    assert!(s.config.dxvk_enabled);
    assert_eq!(s.config.launch_args, vec!["--fullscreen"]);
}

#[test]
fn exit_without_report_keeps_play_time() {
    let mut g = game("g", "C:\\g.exe");
    g.runner_path = Some("/opt/proton/files/bin/wine".to_string());
    g.dxvk_enabled = false;
    g.env_vars.clear();
    let mut s = LaunchSession::new(&orchestrator(false), g);
    s.advance(LaunchEvent::Begin, now());
    match s.advance(LaunchEvent::Prepared(Ok(())), now()).action {
        LaunchAction::Spawn(cmd) => {
            assert_eq!(cmd.program, "/opt/proton/files/bin/wine");
            assert_eq!(cmd.env.len(), 3);
        }
        _ => panic!("expected spawn"),
    }
    s.advance(LaunchEvent::Spawned(Ok(())), now());
    assert!(matches!(s.advance(LaunchEvent::Polled(PollOutcome::Exited), now()).action, LaunchAction::ReadFinalReport { .. }));
    assert!(matches!(s.advance(LaunchEvent::FinalReport(None), now()).action, LaunchAction::Finish(Ok(()))));
    assert_eq!(s.config.play_time_seconds, 7);
}

#[test]
fn launch_failures() {
    let mut s = LaunchSession::new(&orchestrator(false), game("g", "C:\\g.exe"));
    s.advance(LaunchEvent::Begin, now());
    match s.advance(LaunchEvent::Prepared(Ok(())), now()).action {
        LaunchAction::Finish(Err(m)) => assert_eq!(m, "No Wine/Proton runner selected or available on system"),
        _ => panic!(),
    }
    let mut s = LaunchSession::new(&orchestrator(true), game("g", "C:\\g.exe"));
    s.advance(LaunchEvent::Begin, now());
    match s.advance(LaunchEvent::Prepared(Err("Failed to create drive_c directory: denied".to_string())), now()).action {
        LaunchAction::Finish(Err(m)) => assert_eq!(m, "Failed to create drive_c directory: denied"),
        _ => panic!(),
    }
    let mut s = LaunchSession::new(&orchestrator(true), game("g", "C:\\g.exe"));
    s.advance(LaunchEvent::Begin, now());
    s.advance(LaunchEvent::Prepared(Ok(())), now());
    match s.advance(LaunchEvent::Spawned(Err("no such file".to_string())), now()).action {
        LaunchAction::Finish(Err(m)) => assert_eq!(m, "Failed to spawn Wine process: no such file"),
        _ => panic!(),
    }
    assert_eq!(s.config.play_time_seconds, 7);
    assert!(s.config.last_played.is_none());
    assert!(s.failure().is_some());
}

#[test]
fn magnet_download_then_archive() {
    let mut s = LaunchSession::new(&orchestrator(true), game("g", "magnet:?xt=urn:btih:abc"));
    let st = s.advance(LaunchEvent::Begin, now());
    assert!(st.save_config);
    assert_eq!(s.config.status, "downloading");
    assert_eq!(s.config.download_speed, "0.0 B/s");
    assert_eq!(s.config.download_eta, "Unknown");
    match st.action {
        LaunchAction::Download { magnet, dest_dir } => {
            assert_eq!(magnet, "magnet:?xt=urn:btih:abc");
            assert_eq!(dest_dir, format!("{}/drive_c/download", PREFIX));
        }
        _ => panic!(),
    }
    let dl = format!("{}/drive_c/download/game.zip", PREFIX);
    let st = s.advance(LaunchEvent::Downloaded(Ok(dl.clone())), now());
    assert!(st.save_config);
    assert_eq!(s.config.status, "installing");
    assert!(matches!(st.action, LaunchAction::Inspect { ref path } if *path == dl));
    let st = s.advance(LaunchEvent::Inspected(DownloadedItem::File { name: "game.zip".to_string() }), now());
    match st.action {
        LaunchAction::Extract { archive, dest_dir } => {
            assert_eq!(archive, dl);
            assert_eq!(dest_dir, format!("{}/drive_c/game", PREFIX));
        }
        _ => panic!(),
    }
    let st = s.advance(LaunchEvent::Unpacked(Ok(())), now());
    assert!(matches!(st.action, LaunchAction::CleanupAndScan { copy_from: None, .. }));
    let st = s.advance(LaunchEvent::Scanned(Some(vec![ExeCandidate {
        relative_path: "game/Game.exe".to_string(),
        file_name: "Game.exe".to_string(),
        size: 10,
    }])), now());
    assert!(st.save_config);
    assert_eq!(s.config.exe_path, "C:\\game\\Game.exe");
    assert_eq!(s.config.status, "installed");
    assert!(matches!(st.action, LaunchAction::Prepare { .. }));
}

#[test]
fn http_links_are_downloaded_too() {
    let mut s = LaunchSession::new(&orchestrator(true), game("g", "https://example.org/g.zip"));
    assert!(matches!(s.advance(LaunchEvent::Begin, now()).action, LaunchAction::Download { .. }));
}

#[test]
fn download_failures_restore_status() {
    let mut s = LaunchSession::new(&orchestrator(true), game("g", "magnet:?x"));
    s.advance(LaunchEvent::Begin, now());
    let st = s.advance(LaunchEvent::Downloaded(Err("aria2c exited with error code: Some(3)".to_string())), now());
    assert!(st.save_config);
    assert_eq!(s.config.status, "installed");
    match st.action {
        LaunchAction::Finish(Err(m)) => assert_eq!(m, "Download failed: aria2c exited with error code: Some(3)"),
        _ => panic!(),
    }

    let mut s = LaunchSession::new(&orchestrator(true), game("g", "magnet:?x"));
    s.advance(LaunchEvent::Begin, now());
    s.advance(LaunchEvent::Downloaded(Ok("/d/g.tar.xz".to_string())), now());
    s.advance(LaunchEvent::Inspected(DownloadedItem::File { name: "g.tar.xz".to_string() }), now());
    match s.advance(LaunchEvent::Unpacked(Err("bad".to_string())), now()).action {
        LaunchAction::Finish(Err(m)) => assert_eq!(m, "Archive extraction failed: bad"),
        _ => panic!(),
    }
    assert_eq!(s.config.status, "installed");

    let mut s = LaunchSession::new(&orchestrator(true), game("g", "magnet:?x"));
    s.advance(LaunchEvent::Begin, now());
    s.advance(LaunchEvent::Downloaded(Ok("/d/g.bin".to_string())), now());
    let st = s.advance(LaunchEvent::Inspected(DownloadedItem::File { name: "g.bin".to_string() }), now());
    assert!(matches!(st.action, LaunchAction::CleanupAndScan { copy_from: Some(ref p), .. } if p == "/d/g.bin"));
    match s.advance(LaunchEvent::Scanned(None), now()).action {
        LaunchAction::Finish(Err(m)) => assert_eq!(m, "Failed to detect executable inside Wine prefix"),
        _ => panic!(),
    }
    assert_eq!(s.config.status, "installed");
}

fn entry(name: &str, is_file: bool) -> DirEntryInfo {
    DirEntryInfo { path: format!("/d/{}", name), name: name.to_string(), is_file }
}

#[test]
fn downloaded_directory_choices() {
    let listing = vec![entry("a.zip", true), entry("Setup", false), entry("b.tgz", true), entry("GameSETUP.exe", true), entry("c.zip", true)];
    let mut s = LaunchSession::new(&orchestrator(true), game("g", "magnet:?x"));
    s.advance(LaunchEvent::Begin, now());
    s.advance(LaunchEvent::Downloaded(Ok("/d".to_string())), now());
    match s.advance(LaunchEvent::Inspected(DownloadedItem::Directory { entries: listing }), now()).action {
        LaunchAction::RunInstaller { installer, prefix_dir, runner } => {
            assert_eq!(installer, "/d/GameSETUP.exe");
            assert_eq!(prefix_dir, PREFIX);
            assert_eq!(runner, "/usr/bin/wine");
        }
        _ => panic!(),
    }
    match s.advance(LaunchEvent::Unpacked(Err("code 2".to_string())), now()).action {
        LaunchAction::Finish(Err(m)) => assert_eq!(m, "Silent setup installer failed: code 2"),
        _ => panic!(),
    }

    let mut s = LaunchSession::new(&orchestrator(true), game("g", "magnet:?x"));
    s.advance(LaunchEvent::Begin, now());
    s.advance(LaunchEvent::Downloaded(Ok("/d".to_string())), now());
    let listing = vec![entry("a.zip", true), entry("b.tgz", true), entry("readme.txt", true)];
    match s.advance(LaunchEvent::Inspected(DownloadedItem::Directory { entries: listing }), now()).action {
        LaunchAction::Extract { archive, .. } => assert_eq!(archive, "/d/b.tgz"),
        _ => panic!(),
    }

    let mut s = LaunchSession::new(&orchestrator(false), game("g", "magnet:?x"));
    s.advance(LaunchEvent::Begin, now());
    s.advance(LaunchEvent::Downloaded(Ok("/d".to_string())), now());
    let st = s.advance(LaunchEvent::Inspected(DownloadedItem::Directory { entries: vec![entry("install.exe", true)] }), now());
    assert!(!st.save_config);
    match st.action {
        LaunchAction::Finish(Err(m)) => assert_eq!(m, "No Wine runner available for installation"),
        _ => panic!(),
    }
    assert_eq!(s.config.status, "installing");
}

#[test]
fn finished_launch_takes_no_more_reports() {
    let mut s = LaunchSession::new(&orchestrator(true), game("g", "C:\\g.exe"));
    assert!(s.accepts(&LaunchEvent::Begin));
    assert!(!s.accepts(&LaunchEvent::Prepared(Ok(()))));
    s.advance(LaunchEvent::Begin, now());
    s.advance(LaunchEvent::Prepared(Err("x".to_string())), now());
    assert!(s.stage() == LaunchStage::Finished);
    assert!(!s.accepts(&LaunchEvent::Begin));
    assert!(!s.accepts(&LaunchEvent::FinalReport(None)));
    assert_eq!(s.failure().as_deref(), Some("x"));
}

#[test]
fn play_time_overflow_is_refused() {
    let mut g = game("g", "C:\\g.exe");
    g.play_time_seconds = u64::MAX - 1;
    let mut s = LaunchSession::new(&orchestrator(true), g);
    s.advance(LaunchEvent::Begin, now());
    s.advance(LaunchEvent::Prepared(Ok(())), now());
    s.advance(LaunchEvent::Spawned(Ok(())), now());
    assert!(s.accepts(&report("running", 1)));
    assert!(!s.accepts(&report("running", 2)));
}

#[test]
fn downloaded_setup_exe_is_installed_silently() {
    let mut s = LaunchSession::new(&orchestrator(true), game("g", "https://example.org/Game_Setup.exe"));
    assert!(matches!(s.advance(LaunchEvent::Begin, now()).action, LaunchAction::Download { .. }));
    s.advance(LaunchEvent::Downloaded(Ok("/d/Game_Setup.exe".to_string())), now());
    match s.advance(LaunchEvent::Inspected(DownloadedItem::File { name: "Game_Setup.exe".to_string() }), now()).action {
        LaunchAction::RunInstaller { installer, prefix_dir, runner } => {
            assert_eq!(installer, "/d/Game_Setup.exe");
            assert_eq!(prefix_dir, PREFIX);
            assert_eq!(runner, "/usr/bin/wine");
        }
        _ => panic!("expected the installer to run"),
    }
    assert!(matches!(s.advance(LaunchEvent::Unpacked(Ok(())), now()).action, LaunchAction::CleanupAndScan { copy_from: None, .. }));

    let mut s = LaunchSession::new(&orchestrator(false), game("g", "magnet:?x"));
    s.advance(LaunchEvent::Begin, now());
    s.advance(LaunchEvent::Downloaded(Ok("/d/INSTALL.EXE".to_string())), now());
    match s.advance(LaunchEvent::Inspected(DownloadedItem::File { name: "INSTALL.EXE".to_string() }), now()).action {
        LaunchAction::Finish(Err(m)) => assert_eq!(m, "No Wine runner available for installation"),
        _ => panic!(),
    }
}
