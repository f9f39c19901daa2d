use wordforge_desktop::sites::{refresh_phases, RefreshPhase, SiteError, SiteManager, SitesStore, WordPressSite};

fn site(id: &str, hash: Option<&str>) -> WordPressSite {
    WordPressSite {
        id: id.to_string(),
        name: format!("Site {id}"),
        url: format!("https://{id}.test"),
        rest_url: format!("https://{id}.test/wp-json"),
        mcp_endpoint: format!("https://{id}.test/wp-json/mcp"),
        abilities_url: format!("https://{id}.test/wp-json/abilities"),
        username: "admin".to_string(),
        app_password: "SECRET-REDACTED".to_string(),
        auth: "YWRtaW46cGFzcw==".to_string(),
        project_dir: format!("/sites/{id}"),
        created_at: 10,
        last_used_at: 10,
        config_hash: hash.map(|h| h.to_string()),
        config_updated_at: None,
    }
}

fn manager() -> SiteManager {
    SiteManager::new(SitesStore {
        sites: vec![site("a", Some("h1")), site("b", None), site("c", None)],
        active_site_id: Some("b".to_string()),
        device_id: None,
    })
}

#[test]
fn lookups_follow_the_registry() {
    let m = manager();
    assert_eq!(m.list_sites().len(), 3);
    assert_eq!(m.get_site("c").unwrap().name, "Site c");
    assert!(m.get_site("zzz").is_none());
    assert_eq!(m.get_active_site().unwrap().id, "b");
    assert_eq!(m.get_site_folder("a"), Some("/sites/a".to_string()));
    assert_eq!(m.get_site_folder("zzz"), None);
    assert_eq!(m.resolve_site(Some("a")).unwrap().id, "a");
    assert_eq!(m.resolve_site(None).unwrap().id, "b");
}

#[test]
fn set_active_site_unknown_is_not_found() {
    let mut m = manager();
    assert_eq!(m.set_active_site("zzz", 99), Err(SiteError::NotFound("zzz".to_string())));
    assert_eq!(m.get_active_site().unwrap().id, "b");
}

#[test]
fn set_active_site_stamps_last_use() {
    let mut m = manager();
    assert_eq!(m.set_active_site("c", 99), Ok(()));
    let active = m.get_active_site().unwrap();
    assert_eq!(active.id, "c");
    assert_eq!(active.last_used_at, 99);
    assert_eq!(m.get_site("a").unwrap().last_used_at, 10);
}

#[test]
fn remove_active_site_repicks_first_remaining() {
    let mut m = manager();
    let removed = m.remove_site("b").unwrap();
    assert_eq!(removed.id, "b");
    assert_eq!(m.list_sites().len(), 2);
    assert_eq!(m.get_active_site().unwrap().id, "a");
}

#[test]
fn remove_other_site_keeps_active() {
    let mut m = manager();
    assert!(m.remove_site("c").is_some());
    assert_eq!(m.get_active_site().unwrap().id, "b");
    assert!(m.remove_site("c").is_none());
    assert_eq!(m.list_sites().len(), 2);
}

#[test]
fn remove_last_site_clears_active() {
    let mut m = SiteManager::new(SitesStore {
        sites: vec![site("only", None)],
        active_site_id: Some("only".to_string()),
        device_id: None,
    });
    assert!(m.remove_site("only").is_some());
    assert!(m.get_active_site().is_none());
    assert_eq!(m.store.active_site_id, None);
}

#[test]
fn device_id_is_created_once() {
    let mut m = manager();
    let first = m.get_device_id();
    assert_eq!(first.len(), 36);
    assert_eq!(m.get_device_id(), first);
    assert_eq!(m.store.device_id, Some(first));
}

#[test]
fn register_site_replaces_same_id() {
    let mut m = manager();
    m.register_site(site("a", Some("h9")));
    assert_eq!(m.list_sites().len(), 3);
    assert_eq!(m.get_active_site().unwrap().config_hash.as_deref(), Some("h9"));
    m.register_site(site("d", None));
    assert_eq!(m.list_sites().len(), 4);
    assert_eq!(m.get_active_site().unwrap().id, "d");
}

#[test]
fn record_config_hash_updates_one_site() {
    let mut m = manager();
    assert_eq!(m.record_config_hash("b", "h2".to_string(), 50), Ok(()));
    let b = m.get_site("b").unwrap();
    assert_eq!(b.config_hash.as_deref(), Some("h2"));
    assert_eq!(b.config_updated_at, Some(50));
    assert_eq!(
        m.record_config_hash("zzz", "h2".to_string(), 50),
        Err(SiteError::NotFound("zzz".to_string()))
    );
}

#[test]
fn sync_status_table() {
    let m = manager();
    let s = m.get_config_sync_status(&site("x", Some("h1")), Some("h1"), 7);
    assert!(!s.update_available);
    assert_eq!(s.current_hash.as_deref(), Some("h1"));
    assert_eq!(s.remote_hash.as_deref(), Some("h1"));
    assert_eq!(s.last_checked, Some(7));
    assert!(m.get_config_sync_status(&site("x", None), Some("h1"), 7).update_available);
    assert!(m.get_config_sync_status(&site("x", Some("h1")), Some("h2"), 7).update_available);
    assert!(!m.get_config_sync_status(&site("x", Some("h1")), None, 7).update_available);
    assert!(!m.get_config_sync_status(&site("x", None), None, 7).update_available);
}

#[test]
fn refresh_target_prefers_given_id() {
    let m = manager();
    assert_eq!(m.refresh_target(Some("c".to_string())), Ok("c".to_string()));
    assert_eq!(m.refresh_target(None), Ok("b".to_string()));
    let empty = SiteManager::new(SitesStore::default());
    assert_eq!(empty.refresh_target(None), Err("No active site".to_string()));
}

#[test]
fn refresh_restarts_only_a_running_sidecar() {
    assert_eq!(
        refresh_phases(true, true),
        vec![RefreshPhase::StopSidecar, RefreshPhase::Refresh, RefreshPhase::StartSidecar]
    );
    assert_eq!(refresh_phases(true, false), vec![RefreshPhase::Refresh]);
    assert_eq!(refresh_phases(false, true), vec![RefreshPhase::Refresh]);
}

#[test]
fn active_site_check() {
    let m = manager();
    assert!(m.is_active_site("b"));
    assert!(!m.is_active_site("a"));
    assert!(!m.is_active_site("zzz"));
}

#[test]
fn new_keeps_first_of_duplicate_ids() {
    let m = SiteManager::new(SitesStore {
        sites: vec![site("a", Some("first")), site("b", None), site("a", Some("second"))],
        active_site_id: Some("a".to_string()),
        device_id: Some("dev".to_string()),
    });
    assert_eq!(m.list_sites().len(), 2);
    assert_eq!(m.get_site("a").unwrap().config_hash.as_deref(), Some("first"));
    assert_eq!(m.store.device_id.as_deref(), Some("dev"));
}
