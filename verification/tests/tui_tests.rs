use grapevine::orchestrator::GameConfig;
use grapevine::plugins::GameInfo;
use grapevine::tui::{game_config_from_info, reload_due, shows_now_playing, ActiveTab, Key, TuiAction, TuiState};

fn game(id: &str, title: &str) -> GameConfig {
    GameConfig {
        id: id.to_string(),
        title: title.to_string(),
        source: "Src".to_string(),
        exe_path: "C:\\x.exe".to_string(),
        launch_args: Vec::new(),
        runner_path: None,
        env_vars: Vec::new(),
        dxvk_enabled: false,
        mangohud_enabled: false,
        gamemode_enabled: false,
        play_time_seconds: 0,
        last_played: None,
        download_progress_bits: 0,
        download_speed: String::new(),
        download_eta: String::new(),
        status: "installed".to_string(),
    }
}

fn info(id: &str) -> GameInfo {
    GameInfo {
        id: id.to_string(),
        title: format!("Game {}", id),
        source: "Custom DB".to_string(),
        exec_path: "magnet:?x".to_string(),
        launch_args: vec!["--fullscreen".to_string()],
        cover_art: None,
    }
}

fn ch(c: char) -> Key {
    Key::Char { c, ctrl: false }
}

#[test]
fn starts_on_library_with_first_selected() {
    let s = TuiState::new(vec![game("a", "Alpha"), game("b", "Beta")]);
    assert!(s.tab == ActiveTab::Home);
    assert_eq!(s.game_selected, Some(0));
    assert_eq!(s.palette_results.len(), 2);
    assert_eq!(s.palette_selected, Some(0));
    let e = TuiState::new(Vec::new());
    assert_eq!(e.game_selected, None);
    assert_eq!(e.palette_selected, None);
}

#[test]
fn palette_filters_by_title() {
    let mut s = TuiState::new(vec![game("a", "SuperTuxKart"), game("b", "OpenTTD"), game("c", "Tux Racer")]);
    assert!(matches!(s.handle_key(Key::Char { c: 'p', ctrl: true }), TuiAction::Nothing));
    assert!(s.palette_active);
    s.handle_key(ch('T'));
    s.handle_key(ch('U'));
    assert_eq!(s.palette_query, "TU");
    let titles: Vec<&str> = s.palette_results.iter().map(|g| g.title.as_str()).collect();
    assert_eq!(titles, vec!["SuperTuxKart", "Tux Racer"]);
    s.handle_key(Key::Down);
    assert_eq!(s.palette_selected, Some(1));
    s.handle_key(Key::Down);
    assert_eq!(s.palette_selected, Some(1));
    match s.handle_key(Key::Enter) {
        TuiAction::Launch(g) => assert_eq!(g.id, "c"),
        _ => panic!(),
    }
    assert!(!s.palette_active);
    s.handle_key(Key::Char { c: 'p', ctrl: true });
    assert_eq!(s.palette_query, "");
    s.handle_key(ch('q'));
    assert!(s.palette_results.is_empty());
    assert_eq!(s.palette_selected, None);
    s.handle_key(Key::Backspace);
    assert_eq!(s.palette_results.len(), 3);
    s.handle_key(Key::Esc);
    assert!(!s.palette_active);
}

#[test]
fn keys_on_library_view() {
    let mut s = TuiState::new(vec![game("a", "A"), game("b", "B")]);
    s.handle_key(Key::Up);
    assert_eq!(s.game_selected, Some(0));
    s.handle_key(Key::Down);
    s.handle_key(Key::Down);
    assert_eq!(s.game_selected, Some(1));
    match s.handle_key(Key::Enter) {
        TuiAction::Launch(g) => assert_eq!(g.id, "b"),
        _ => panic!(),
    }
    s.handle_key(ch('3'));
    assert!(s.tab == ActiveTab::Runners);
    s.handle_key(Key::Tab);
    assert!(s.tab == ActiveTab::Plugins);
    s.handle_key(Key::Tab);
    assert!(s.tab == ActiveTab::Home);
    assert!(matches!(s.handle_key(ch('q')), TuiAction::Quit));
}

#[test]
fn search_and_import() {
    let mut s = TuiState::new(vec![game("a", "A")]);
    s.handle_key(ch('2'));
    assert!(s.tab == ActiveTab::Search);
    assert!(matches!(s.handle_key(ch('t')), TuiAction::Search));
    assert!(matches!(s.handle_key(ch('u')), TuiAction::Search));
    assert!(matches!(s.handle_key(Key::Backspace), TuiAction::Search));
    assert_eq!(s.search_query, "t");
    s.set_search_results(vec![Ok(vec![info("x")]), Err("Plugin broken".to_string()), Ok(vec![info("a"), info("y")])]);
    let ids: Vec<&str> = s.search_results.iter().map(|g| g.id.as_str()).collect();
    assert_eq!(ids, vec!["x", "a", "y"]);
    assert_eq!(s.search_selected, Some(0));
    assert!(matches!(s.handle_key(Key::Enter), TuiAction::SaveLibrary));
    assert!(s.tab == ActiveTab::Home);
    assert_eq!(s.games.len(), 2);
    assert_eq!(s.games[1].id, "x");
    assert!(s.games[1].dxvk_enabled);
    assert_eq!(s.games[1].exe_path, "magnet:?x");
    s.handle_key(ch('2'));
    s.handle_key(Key::Down);
    assert_eq!(s.search_selected, Some(1));
    assert!(matches!(s.handle_key(Key::Enter), TuiAction::Nothing));
    assert_eq!(s.games.len(), 2);
    s.set_search_results(Vec::new());
    assert_eq!(s.search_selected, None);
}

#[test]
fn imported_game_defaults() {
    let g = game_config_from_info(&info("z"));
    assert_eq!(g.status, "installed");
    assert!(g.runner_path.is_none());
    assert!(g.env_vars.is_empty());
    assert!(!g.mangohud_enabled && !g.gamemode_enabled);
    assert_eq!(g.play_time_seconds, 0);
}

#[test]
fn now_playing_only_for_installed_games() {
    assert!(shows_now_playing("C:\\windows\\system32\\winmine.exe"));
    assert!(!shows_now_playing("magnet:?xt=urn:btih:3b1a"));
    assert!(!shows_now_playing("https://proxy.openttd.org/x.zip"));
    assert!(!shows_now_playing("http://x/y.zip"));
}

#[test]
fn reloading_keeps_selection() {
    let mut s = TuiState::new(vec![game("a", "A"), game("b", "B")]);
    s.handle_key(Key::Down);
    s.reload_games(vec![game("c", "C")]);
    assert_eq!(s.games.len(), 1);
    assert_eq!(s.game_selected, Some(1));
}

#[test]
fn library_reloads_only_while_no_game_runs() {
    assert!(reload_due(true, false));
    assert!(!reload_due(true, true));
    assert!(!reload_due(false, false));
}
