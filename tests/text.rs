use wordforge_desktop::text::{contains, ends_with, parse_u16, starts_with, str_eq, trim};

#[test]
fn parse_u16_follows_std() {
    for s in ["0", "80", "+80", "0065535", "65535", "65536", "", "+", "-1", " 1", "1a", "99999999999"] {
        assert_eq!(parse_u16(s), s.parse::<u16>().ok(), "{s:?}");
    }
}

#[test]
fn trim_follows_std() {
    for s in ["", "  ", " a b ", "\t\nv1\r\n", "\u{3000}x\u{2003}", "x"] {
        assert_eq!(trim(s), s.trim(), "{s:?}");
    }
}

#[test]
fn substring_tests() {
    assert!(contains("opencode-linux-x64.zip", "linux-x64"));
    assert!(!contains("opencode-linux-arm64.zip", "linux-x64"));
    assert!(contains("abc", ""));
    assert!(starts_with("wordforge://x", "wordforge://"));
    assert!(!starts_with("word", "wordforge://"));
    assert!(ends_with("a.tar.gz", ".tar.gz"));
    assert!(!ends_with("gz", ".tar.gz"));
    assert!(str_eq("é", "é"));
    assert!(!str_eq("a", "ab"));
}
