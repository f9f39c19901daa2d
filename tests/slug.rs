use wordforge_desktop::slug::{sanitize_ascii, sanitize_site_name};

fn is_well_formed(s: &str) -> bool {
    !s.is_empty()
        && s.chars().all(|c| c.is_ascii_lowercase() || c.is_ascii_digit() || c == '_' || c == '-')
        && !s.starts_with('-')
        && !s.ends_with('-')
        && !s.contains("--")
}

#[test]
fn sanitize_lowers_and_hyphenates() {
    assert_eq!(sanitize_site_name("My Site"), "my-site");
    assert_eq!(sanitize_site_name("A_b-C"), "a_b-c");
}

#[test]
fn sanitize_collapses_and_strips_hyphens() {
    assert_eq!(sanitize_site_name("  Hello,   World!! "), "hello-world");
    assert_eq!(sanitize_site_name("--x--"), "x");
    assert_eq!(sanitize_ascii("a - - b"), "a-b");
}

#[test]
fn sanitize_transliterates_non_ascii() {
    assert_eq!(sanitize_site_name("Café Münster"), "cafe-munster");
    assert_eq!(sanitize_site_name("Ærø"), "aero");
}

#[test]
fn sanitize_falls_back_when_nothing_survives() {
    assert_eq!(sanitize_site_name(""), "wordpress-site");
    assert_eq!(sanitize_site_name("!!!"), "wordpress-site");
    assert_eq!(sanitize_ascii("---"), "wordpress-site");
}

#[test]
fn sanitize_yields_well_formed_stable_slugs() {
    for name in ["My Site", "  Hello,   World!! ", "Café Münster", "!!!", "x", "Ünïcödé -- Shop_2024", "a/b\\c"] {
        let slug = sanitize_site_name(name);
        assert!(is_well_formed(&slug), "{name:?} gave {slug:?}");
        assert_eq!(sanitize_site_name(name), slug);
        assert_eq!(sanitize_site_name(&slug), slug);
    }
}
