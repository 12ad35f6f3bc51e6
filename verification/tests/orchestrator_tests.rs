use grapevine::orchestrator::{
    apply_download_progress, default_status, merge_launch_result, replace_game_config, runner_dirs_in,
    runner_for_entry, GameConfig, Orchestrator, Runner, RunnerDirEntry,
};

pub fn game(id: &str, exe: &str) -> GameConfig {
    GameConfig {
        id: id.to_string(),
        title: format!("Title {}", id),
        source: "Test".to_string(),
        exe_path: exe.to_string(),
        launch_args: vec!["-fullscreen".to_string()],
        runner_path: None,
        env_vars: vec![("DXVK_HUD".to_string(), "1".to_string())],
        dxvk_enabled: false,
        mangohud_enabled: false,
        gamemode_enabled: false,
        play_time_seconds: 0,
        last_played: None,
        download_progress_bits: 0,
        download_speed: String::new(),
        download_eta: String::new(),
        status: "installed".to_string(),
    }
}

#[test]
fn directory_layout() {
    let o = Orchestrator::with_home(Some("/home/u".to_string()));
    assert_eq!(o.base_dir, "/home/u/.local/share/grapevine");
    assert!(o.runners.is_empty());
    assert_eq!(o.get_prefix_dir("tux"), "/home/u/.local/share/grapevine/prefixes/tux");
    assert_eq!(
        o.get_helper_dest_path("tux"),
        "/home/u/.local/share/grapevine/prefixes/tux/drive_c/grapevine-helper.exe"
    );
    assert_eq!(
        o.get_status_file_path("tux"),
        "/home/u/.local/share/grapevine/prefixes/tux/drive_c/grapevine-status.json"
    );
    assert_eq!(o.setup_dxvk("tux").err().unwrap(), "No Wine runner available for DXVK setup");
    let d = Orchestrator::with_home(None);
    assert_eq!(d.base_dir, "./.local/share/grapevine");
    assert_eq!(default_status(), "installed");
}

#[test]
fn runner_detection() {
    let mut o = Orchestrator::with_home(Some("/h".to_string()));
    o.runners.push(Runner { name: "stale".to_string(), path: "/x".to_string(), is_proton: false });
    let entries = vec![
        RunnerDirEntry { path: "/c/GE-Proton9".to_string(), name: "GE-Proton9".to_string(), is_dir: true, has_wine: true, has_proton: true },
        RunnerDirEntry { path: "/c/Proton 8.0".to_string(), name: "Proton 8.0".to_string(), is_dir: true, has_wine: false, has_proton: true },
        RunnerDirEntry { path: "/c/empty".to_string(), name: "empty".to_string(), is_dir: true, has_wine: false, has_proton: false },
        RunnerDirEntry { path: "/c/file".to_string(), name: "file".to_string(), is_dir: false, has_wine: true, has_proton: false },
    ];
    o.detect_runners(Some("/usr/bin/wine\n".to_string()), &entries);
    assert_eq!(o.runners.len(), 3);
    assert_eq!(o.runners[0].name, "System Wine");
    assert_eq!(o.runners[0].path, "/usr/bin/wine");
    assert_eq!(o.runners[1].name, "GE-Proton/Wine-GE (GE-Proton9)");
    assert_eq!(o.runners[1].path, "/c/GE-Proton9/files/bin/wine");
    assert!(!o.runners[1].is_proton);
    assert_eq!(o.runners[2].name, "Steam Proton (Proton 8.0)");
    assert_eq!(o.runners[2].path, "/c/Proton 8.0/files/bin/proton");
    assert!(o.runners[2].is_proton);
    assert_eq!(o.first_runner_path().as_deref(), Some("/usr/bin/wine"));
    o.detect_runners(None, &Vec::new());
    assert!(o.runners.is_empty());
    assert!(runner_for_entry(&entries[2]).is_none());
}

#[test]
fn runner_directories() {
    assert_eq!(
        runner_dirs_in("/h"),
        vec![
            "/h/.local/share/Steam/compatibilitytools.d",
            "/h/.steam/root/compatibilitytools.d",
            "/h/.local/share/bottles/runners",
            "/usr/share/steam/compatibilitytools.d",
        ]
    );
}

#[test]
fn replacing_a_stored_game() {
    let mut games = vec![game("a", "a.exe"), game("b", "b.exe")];
    let mut newer = game("b", "C:\\b2.exe");
    newer.play_time_seconds = 42;
    replace_game_config(&mut games, &newer);
    assert_eq!(games[0].exe_path, "a.exe");
    assert_eq!(games[1].exe_path, "C:\\b2.exe");
    assert_eq!(games[1].play_time_seconds, 42);
    replace_game_config(&mut games, &game("zzz", "z"));
    assert_eq!(games.len(), 2);
}

#[test]
fn progress_and_launch_results() {
    let mut games = vec![game("a", "magnet:?x"), game("b", "b.exe")];
    apply_download_progress(&mut games, "a", 42.5f32.to_bits(), "1MiB", "2m");
    assert_eq!(games[0].status, "downloading");
    assert_eq!(f32::from_bits(games[0].download_progress_bits), 42.5);
    assert_eq!(games[0].download_speed, "1MiB");
    assert_eq!(games[0].download_eta, "2m");
    assert_eq!(games[1].status, "installed");
    let mut done = game("a", "C:\\game\\a.exe");
    done.play_time_seconds = 100;
    done.last_played = Some("2024-01-01 10:00:00".to_string());
    done.title = "ignored".to_string();
    merge_launch_result(&mut games, &done);
    assert_eq!(games[0].exe_path, "C:\\game\\a.exe");
    assert_eq!(games[0].play_time_seconds, 100);
    assert_eq!(games[0].last_played.as_deref(), Some("2024-01-01 10:00:00"));
    assert_eq!(games[0].status, "installed");
    assert_eq!(games[0].title, "Title a");
    assert_eq!(games[0].download_speed, "1MiB");
}

#[test]
fn each_game_has_its_own_prefix() {
    let o = Orchestrator::with_home(Some("/home/u".to_string()));
    assert_ne!(o.get_prefix_dir("a"), o.get_prefix_dir("b"));
    assert_ne!(o.get_prefix_dir("ab"), o.get_prefix_dir("a"));
    assert_eq!(o.get_prefix_dir("/abs"), "/abs");
}

#[test]
fn play_time_parts() {
    assert_eq!(grapevine::orchestrator::play_time_summary(0), (0, 0));
    assert_eq!(grapevine::orchestrator::play_time_summary(3599), (0, 59));
    assert_eq!(grapevine::orchestrator::play_time_summary(7265), (2, 1));
}

#[test]
fn dxvk_overrides_go_into_the_prefix() {
    let mut o = Orchestrator::with_home(Some("/home/u".to_string()));
    o.runners.push(Runner { name: "System Wine".to_string(), path: "/usr/bin/wine".to_string(), is_proton: false });
    let cs = o.setup_dxvk("tux").ok().unwrap();
    assert_eq!(cs.len(), 2);
    for (c, dll) in cs.iter().zip(["d3d11", "dxgi"]) {
        assert_eq!(c.program, "/usr/bin/wine");
        assert_eq!(c.env, vec![("WINEPREFIX".to_string(), "/home/u/.local/share/grapevine/prefixes/tux".to_string())]);
        assert_eq!(
            c.args,
            vec!["reg", "add", "HKEY_CURRENT_USER\\Software\\Wine\\DllOverrides", "/v", dll, "/d", "native,builtin", "/f"]
        );
    }
    assert_eq!(grapevine::orchestrator::play_time_minutes(125), 2);
}
