use grapevine::plugins::{
    capabilities_of, check_host_call, collect_game_infos, kept_os_functions, plugin_metadata, removed_globals,
    GameInfo, HostFunction, PermissionGrants, PluginCache, RawGameEntry, RawPluginMetadata,
};

fn raw(id: &str) -> RawGameEntry {
    RawGameEntry {
        id: Ok(id.to_string()),
        title: Ok(format!("T{}", id)),
        source: Ok("Custom DB".to_string()),
        exec_path: Ok("magnet:?x".to_string()),
        launch_args: None,
        cover_art: None,
    }
}

#[test]
fn plugin_results_become_games() {
    let mut second = raw("b");
    second.launch_args = Some(vec!["--fullscreen".to_string()]);
    second.cover_art = Some("https://img".to_string());
    let games = collect_game_infos(Some(vec![Ok(raw("a")), Ok(second)])).ok().unwrap();
    assert_eq!(games.len(), 2);
    assert_eq!(games[0].id, "a");
    assert_eq!(games[0].title, "Ta");
    assert!(games[0].launch_args.is_empty());
    assert!(games[0].cover_art.is_none());
    assert_eq!(games[1].launch_args, vec!["--fullscreen"]);
    assert_eq!(games[1].cover_art.as_deref(), Some("https://img"));
    assert!(collect_game_infos(None).ok().unwrap().is_empty());
    assert!(collect_game_infos(Some(Vec::new())).ok().unwrap().is_empty());
}

#[test]
fn first_unreadable_entry_fails_the_list() {
    let mut bad = raw("b");
    bad.title = Err("title: expected string".to_string());
    bad.source = Err("source: expected string".to_string());
    let r = collect_game_infos(Some(vec![Ok(raw("a")), Ok(bad), Err("entry 3 is not a table".to_string())]));
    assert_eq!(r.err().unwrap(), "title: expected string");
    let r = collect_game_infos(Some(vec![Err("entry 1 is not a table".to_string()), Ok(raw("a"))]));
    assert_eq!(r.err().unwrap(), "entry 1 is not a table");
}

#[test]
fn permissions_gate_host_functions() {
    let caps = capabilities_of(&vec!["read_fs".to_string()]);
    assert!(caps.read_fs && !caps.write_fs && !caps.execute);
    assert!(check_host_call(&caps, HostFunction::ReadFile).is_ok());
    assert_eq!(check_host_call(&caps, HostFunction::WriteFile).err().unwrap(), "Permission denied: write_fs");
    assert_eq!(check_host_call(&caps, HostFunction::Execute).err().unwrap(), "Permission denied: execute");
    assert!(check_host_call(&caps, HostFunction::HttpGet).is_ok());
    assert!(check_host_call(&caps, HostFunction::WriteCache).is_ok());
    let none = capabilities_of(&Vec::new());
    assert_eq!(check_host_call(&none, HostFunction::ReadFile).err().unwrap(), "Permission denied: read_fs");
}

#[test]
fn cache_reads_back_writes() {
    let mut c = PluginCache::new();
    assert!(c.get(&"my_api_key".to_string()).is_none());
    c.insert("my_api_key".to_string(), "abcdef123456".to_string());
    c.insert("other".to_string(), "x".to_string());
    assert_eq!(c.get(&"my_api_key".to_string()).as_deref(), Some("abcdef123456"));
    c.insert("my_api_key".to_string(), "new".to_string());
    assert_eq!(c.get(&"my_api_key".to_string()).as_deref(), Some("new"));
    assert_eq!(c.get(&"other".to_string()).as_deref(), Some("x"));
    let mut pairs = c.to_pairs();
    pairs.sort();
    assert_eq!(pairs, vec![("my_api_key".to_string(), "new".to_string()), ("other".to_string(), "x".to_string())]);
    let d = PluginCache::from_pairs(vec![("k".to_string(), "1".to_string()), ("k".to_string(), "2".to_string())]);
    assert_eq!(d.get(&"k".to_string()).as_deref(), Some("2"));
    assert_eq!(d.to_pairs().len(), 1);
}

#[test]
fn first_permission_grant_sticks() {
    let mut g = PermissionGrants::new();
    let id = "my_custom_db".to_string();
    assert!(g.get(&id).is_none());
    let held = g.grant(&id, &vec!["read_fs".to_string()]);
    assert_eq!(held, vec!["read_fs"]);
    let again = g.grant(&id, &vec!["execute".to_string(), "write_fs".to_string()]);
    assert_eq!(again, vec!["read_fs"]);
    assert_eq!(g.get(&id).unwrap(), vec!["read_fs"]);
}

#[test]
fn game_info_clones_fully() {
    let g = GameInfo {
        id: "i".to_string(),
        title: "t".to_string(),
        source: "s".to_string(),
        exec_path: "e".to_string(),
        launch_args: vec!["a".to_string()],
        cover_art: Some("c".to_string()),
    };
    let h = g.clone();
    assert_eq!(h.id, "i");
    assert_eq!(h.launch_args, vec!["a"]);
    assert_eq!(h.cover_art.as_deref(), Some("c"));
}

#[test]
fn plugin_metadata_checks() {
    let ok = plugin_metadata(Ok(Some(RawPluginMetadata {
        id: Some("my_custom_db".to_string()),
        name: Some("My Custom Game Store".to_string()),
        permissions: Some(vec!["read_fs".to_string()]),
    })))
    .ok()
    .unwrap();
    assert_eq!(ok.id, "my_custom_db");
    assert_eq!(ok.name, "My Custom Game Store");
    assert_eq!(ok.permissions, vec!["read_fs"]);
    let no_perms = plugin_metadata(Ok(Some(RawPluginMetadata {
        id: Some("a".to_string()),
        name: Some("b".to_string()),
        permissions: None,
    })))
    .ok()
    .unwrap();
    assert!(no_perms.permissions.is_empty());
    assert_eq!(plugin_metadata(Err("syntax error".to_string())).err().unwrap(), "Lua evaluation failed: syntax error");
    assert_eq!(plugin_metadata(Ok(None)).err().unwrap(), "Missing plugin metadata table");
    let no_id = RawPluginMetadata { id: None, name: None, permissions: None };
    assert_eq!(plugin_metadata(Ok(Some(no_id))).err().unwrap(), "Missing plugin metadata.id");
    let no_name = RawPluginMetadata { id: Some("a".to_string()), name: None, permissions: None };
    assert_eq!(plugin_metadata(Ok(Some(no_name))).err().unwrap(), "Missing plugin metadata.name");
}

#[test]
fn sandbox_policy() {
    assert_eq!(removed_globals(), vec!["dofile", "loadfile", "load", "loadstring", "require", "io", "package"]);
    assert_eq!(kept_os_functions(), vec!["time", "date", "difftime"]);
}

#[test]
fn saved_cache_loads_back_in_any_order() {
    let mut c = PluginCache::new();
    c.insert("a".to_string(), "1".to_string());
    c.insert("b".to_string(), "2".to_string());
    c.insert("c".to_string(), "3".to_string());
    let mut pairs = c.to_pairs();
    pairs.reverse();
    let d = PluginCache::from_pairs(pairs);
    for (k, v) in [("a", "1"), ("b", "2"), ("c", "3")] {
        assert_eq!(d.get(&k.to_string()).as_deref(), Some(v));
    }
    assert_eq!(d.to_pairs().len(), 3);
}
