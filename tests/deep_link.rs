use wordforge_desktop::deep_link::ProcessedTokens;

#[test]
fn is_new_is_true_once_per_token() {
    let mut guard = ProcessedTokens::new();
    assert!(guard.is_new("t1"));
    assert!(!guard.is_new("t1"));
    assert!(guard.is_new("t2"));
    assert!(!guard.is_new("t2"));
    assert!(!guard.is_new("t1"));
}

#[test]
fn accept_link_acts_once_on_a_token() {
    let mut guard = ProcessedTokens::new();
    let url = "wordforge://?token=abc&site=https://x.test&name=My%20Site";
    let first = guard.accept_link(url).unwrap();
    assert_eq!(first.url, url);
    assert_eq!(first.site_url, "https://x.test");
    assert_eq!(first.token, "abc");
    assert_eq!(first.name, "My Site");
    assert_eq!(guard.accept_link(url), None);
    assert_eq!(guard.accept_link("wordforge://?token=abc&site=https://y.test"), None);
}

#[test]
fn accept_link_ignores_invalid_links() {
    let mut guard = ProcessedTokens::new();
    assert_eq!(guard.accept_link("https://x.test/?token=abc&site=s"), None);
    assert_eq!(guard.accept_link("wordforge://?site=s"), None);
    assert!(guard.accept_link("wordforge://?token=abc&site=s").is_some());
}

#[test]
fn handle_deep_link_skips_duplicates() {
    let mut guard = ProcessedTokens::new();
    let urls = vec![
        "wordforge://?token=a&site=s1".to_string(),
        "wordforge://?token=a&site=s1".to_string(),
        "wordforge://?site=s2".to_string(),
        "wordforge://?token=b&site=s3".to_string(),
    ];
    let out = guard.handle_deep_link(&urls);
    assert_eq!(out.len(), 2);
    assert_eq!(out[0].token, "a");
    assert_eq!(out[1].token, "b");
    assert_eq!(out[1].site_url, "s3");
    assert!(guard.handle_deep_link(&urls).is_empty());
}

#[test]
fn handle_cli_deep_link_takes_connect_arguments_only() {
    let mut guard = ProcessedTokens::new();
    let args = vec![
        "/usr/bin/wordforge".to_string(),
        "--flag".to_string(),
        "wordforge://?token=cli&site=https://x.test".to_string(),
        "https://other.test/?token=x&site=y".to_string(),
    ];
    let out = guard.handle_cli_deep_link(&args);
    assert_eq!(out.len(), 1);
    assert_eq!(out[0].token, "cli");
    assert_eq!(out[0].site_url, "https://x.test");
    assert!(guard.handle_cli_deep_link(&args).is_empty());
}
