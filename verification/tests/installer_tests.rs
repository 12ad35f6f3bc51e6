use grapevine::installer::{
    extraction_command, has_exe_extension, is_auxiliary, pick_main_executable, silent_installer_command,
    to_wine_path, ExeCandidate,
};

fn cand(rel: &str, size: u64) -> ExeCandidate {
    let name = rel.rsplit('/').next().unwrap().to_string();
    ExeCandidate { relative_path: rel.to_string(), file_name: name, size }
}

#[test]
fn test_smart_exe_scanner() {
    let cs = vec![
        cand("Program Files/MyGame/game.exe", 5000),
        cand("Program Files/MyGame/unins000.exe", 1000),
        cand("Program Files/MyGame/crash_helper.exe", 6000),
    ];
    let detected = pick_main_executable(&cs).unwrap();
    assert!(detected.contains("game.exe"));
    assert!(!detected.contains("unins"));
    assert!(!detected.contains("helper"));
    assert_eq!(detected, "C:\\Program Files\\MyGame\\game.exe");
}

#[test]
fn main_exe_is_first_of_largest() {
    let cs = vec![cand("a/one.exe", 10), cand("b/two.exe", 30), cand("c/three.exe", 30), cand("d/Setup.exe", 99)];
    assert_eq!(pick_main_executable(&cs).unwrap(), "C:\\b\\two.exe");
}

#[test]
fn no_main_exe_when_all_auxiliary() {
    let cs = vec![cand("x/UNINSTALL.EXE", 1), cand("x/vcredist_x64.exe", 2), cand("x/DXSETUP.exe", 3)];
    assert!(pick_main_executable(&cs).is_none());
    assert!(pick_main_executable(&Vec::new()).is_none());
}

#[test]
fn auxiliary_names() {
    for n in ["unins000.exe", "cleanup.exe", "touchup.exe", "crashpad.exe", "gamehelper.exe", "redist.exe"] {
        assert!(is_auxiliary(n), "{}", n);
    }
    assert!(!is_auxiliary("game.exe"));
}

#[test]
fn wine_path_conversion() {
    assert_eq!(to_wine_path("game/bin/run.exe"), "C:\\game\\bin\\run.exe");
    assert_eq!(to_wine_path(""), "C:\\");
}

#[test]
fn exe_extension_ignores_ascii_case() {
    assert!(has_exe_extension("game.exe"));
    assert!(has_exe_extension("GAME.EXE"));
    assert!(has_exe_extension("a.b.ExE"));
    assert!(!has_exe_extension("game.exec"));
    assert!(!has_exe_extension(".exe"));
    assert!(!has_exe_extension("exe"));
}

#[test]
fn extraction_commands_by_extension() {
    let zip = extraction_command("g.zip", "/d/g.zip", "/p/game").unwrap();
    assert_eq!(zip.program, "unzip");
    assert_eq!(zip.args, vec!["-q", "/d/g.zip", "-d", "/p/game"]);
    let gz = extraction_command("g.tar.gz", "/d/g.tar.gz", "/p/game").unwrap();
    assert_eq!(gz.program, "tar");
    assert_eq!(gz.args, vec!["-xzf", "/d/g.tar.gz", "-C", "/p/game"]);
    let tgz = extraction_command("g.tgz", "a", "b").unwrap();
    assert_eq!(tgz.args[0], "-xzf");
    let xz = extraction_command("g.tar.xz", "a", "b").unwrap();
    assert_eq!(xz.args, vec!["-xJf", "a", "-C", "b"]);
    assert!(xz.env.is_empty());
}

#[test]
fn unsupported_archive_extension() {
    assert_eq!(extraction_command("g.rar", "a", "b").err().unwrap(), "Unsupported archive extension: .rar");
    assert_eq!(extraction_command("README", "a", "b").err().unwrap(), "Unsupported archive extension: .");
    assert_eq!(extraction_command("g.ZIP", "a", "b").err().unwrap(), "Unsupported archive extension: .ZIP");
}

#[test]
fn silent_installer_flags() {
    let c = silent_installer_command("/d/setup.exe", "/p", "/usr/bin/wine");
    assert_eq!(c.program, "/usr/bin/wine");
    assert_eq!(c.env, vec![("WINEPREFIX".to_string(), "/p".to_string())]);
    assert_eq!(c.args, vec!["/d/setup.exe", "/VERYSILENT", "/SUPPRESSMSGBOXES", "/NORESTART", "/SP-", "/S"]);
}
