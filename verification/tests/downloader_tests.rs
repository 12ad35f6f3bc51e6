use grapevine::downloader::{aria2_args, choose_aria2_binary, downloaded_path, local_aria2c_path_in, parse_aria2_line};

#[test]
fn test_aria2_line_parsing() {
    let line = "[#3b1a8d 12.3MiB/45.6MiB(27%) CN:3 DL:2.4MiB ETA:3m45s]";
    let progress = parse_aria2_line(line).unwrap();
    assert_eq!(progress.percentage.parse::<f32>().unwrap(), 27.0);
    assert_eq!(progress.speed, "2.4MiB");
    assert_eq!(progress.eta, "3m45s");
}

#[test]
fn aria2_line_without_markers_is_not_progress() {
    assert!(parse_aria2_line("[NOTICE] Download complete").is_none());
    assert!(parse_aria2_line("(27%) DL:1MiB").is_none());
    assert!(parse_aria2_line("(27% DL:1MiB ETA:1s").is_none());
    assert!(parse_aria2_line("27%) DL:1MiB ETA:1s").is_none());
}

#[test]
fn aria2_fields_end_at_line_end() {
    let p = parse_aria2_line("(5.5%) ETA:10s\r DL:300KiB").unwrap();
    assert_eq!(p.percentage, "5.5");
    assert_eq!(p.speed, "300KiB");
    assert_eq!(p.eta, "10s");
    let q = parse_aria2_line("x(99%)DL:ETA:").unwrap();
    assert_eq!(q.percentage, "99");
    assert_eq!(q.speed, "ETA:");
    assert_eq!(q.eta, "");
}

#[test]
fn aria2_command_line() {
    let args = aria2_args("/tmp/dl", "magnet:?xt=abc");
    assert_eq!(
        args,
        vec!["--enable-rpc=false", "--seed-time=0", "--bt-stop-timeout=120", "--dir", "/tmp/dl", "magnet:?xt=abc"]
    );
}

#[test]
fn aria2_binary_choice() {
    assert_eq!(choose_aria2_binary(true, "/home/u/.local/bin/aria2c", true), "aria2c");
    assert_eq!(choose_aria2_binary(false, "/home/u/.local/bin/aria2c", true), "/home/u/.local/bin/aria2c");
    assert_eq!(choose_aria2_binary(false, "/home/u/.local/bin/aria2c", false), "aria2c");
    assert_eq!(local_aria2c_path_in("/home/u"), "/home/u/.local/bin/aria2c");
}

#[test]
fn downloaded_path_is_first_entry_or_directory() {
    assert_eq!(downloaded_path("/d", Some("/d/game.zip".to_string())), "/d/game.zip");
    assert_eq!(downloaded_path("/d", None), "/d");
}
