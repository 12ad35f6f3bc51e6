use grapevine::parser::{bytes_to_string, PeMetadata, PeMetadataRaw};
use grapevine::text::{file_extension, join_path, pop_char, push_char, str_contains, trim_str};

#[test]
fn join_follows_path_rules() {
    assert_eq!(join_path("/home/u", "games"), "/home/u/games");
    assert_eq!(join_path("/home/u/", "games"), "/home/u/games");
    assert_eq!(join_path("", "games"), "games");
    assert_eq!(join_path("/home/u", "/etc"), "/etc");
    assert_eq!(join_path("a", ""), "a/");
}

#[test]
fn extensions_follow_path_rules() {
    assert_eq!(file_extension("a.tar.gz").as_deref(), Some("gz"));
    assert_eq!(file_extension("foo.").as_deref(), Some(""));
    assert_eq!(file_extension(".zip"), None);
    assert_eq!(file_extension(".a.zip").as_deref(), Some("zip"));
    assert_eq!(file_extension(".."), None);
    assert_eq!(file_extension("noext"), None);
}

#[test]
fn trimming_and_search() {
    assert_eq!(trim_str("  \t Wine 9.0 \n"), "Wine 9.0");
    assert_eq!(trim_str("\u{3000}x\u{a0}"), "x");
    assert_eq!(trim_str("   "), "");
    assert!(str_contains("uninstaller", "inst"));
    assert!(!str_contains("game", "games"));
    assert!(str_contains("game", ""));
    assert_eq!(push_char(&"ab".to_string(), 'c'), "abc");
    assert_eq!(pop_char(&"abc".to_string()), "ab");
    assert_eq!(pop_char(&String::new()), "");
}

#[test]
fn nul_terminated_fields() {
    assert_eq!(bytes_to_string(b"  Game Name \0junk"), "Game Name");
    assert_eq!(bytes_to_string(b"NoTerminator"), "NoTerminator");
    assert_eq!(bytes_to_string(b"\0abc"), "");
    assert_eq!(bytes_to_string(&[0x47, 0xff, 0x0]), "G\u{fffd}");
}

fn raw(valid: bool) -> PeMetadataRaw {
    let mut product_name = [0u8; 128];
    product_name[..5].copy_from_slice(b"Tux  ");
    let mut product_version = [0u8; 64];
    product_version[..3].copy_from_slice(b"1.2");
    let mut company_name = [0u8; 128];
    company_name[..4].copy_from_slice(b"Acme");
    PeMetadataRaw { is_valid: valid, is_64bit: true, product_name, product_version, company_name }
}

#[test]
fn metadata_from_reader_output() {
    let m = PeMetadata::from_raw(true, &raw(true)).unwrap();
    assert!(m.is_64bit);
    assert_eq!(m.product_name, "Tux");
    assert_eq!(m.product_version, "1.2");
    assert_eq!(m.company_name, "Acme");
    assert!(PeMetadata::from_raw(false, &raw(true)).is_none());
    assert!(PeMetadata::from_raw(true, &raw(false)).is_none());
}
