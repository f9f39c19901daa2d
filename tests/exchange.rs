use sha2::Digest;
use wordforge_desktop::connect::{Credentials, ExchangeResponse, SiteInfo};
use wordforge_desktop::exchange::{ExchangeAction, ExchangeStage, TokenExchange};
use wordforge_desktop::sites::{SiteError, SiteManager, SitesStore};

fn envelope(success: bool) -> ExchangeResponse {
    ExchangeResponse {
        success,
        credentials: Credentials {
            username: "admin".to_string(),
            app_password: "SECRET-REDACTED".to_string(),
            auth: "YWRtaW46cGFzcw==".to_string(),
        },
        site: SiteInfo {
            name: "Café Shop!".to_string(),
            url: "https://shop.test/".to_string(),
            rest_url: "https://shop.test/wp-json".to_string(),
            mcp_endpoint: "https://shop.test/wp-json/mcp".to_string(),
            abilities_url: "https://shop.test/wp-json/abilities".to_string(),
        },
    }
}

#[test]
fn exchange_against_mock_remote_registers_active_site() {
    let mut manager = SiteManager::new(SitesStore::default());
    let (flow, action) = TokenExchange::new("https://x.test/");
    assert_eq!(action, ExchangeAction::Post("https://x.test/wp-json/wordforge/v1/desktop/exchange".to_string()));

    let (flow, action) = flow.on_answer(200, "200 OK", "{\"success\":true}", Ok(envelope(true)));
    assert_eq!(action, ExchangeAction::CreateDirectory("cafe-shop".to_string()));

    let dir = "/data/wordforge/sites/cafe-shop".to_string();
    let (flow, action) = flow.on_directory(Ok(dir.clone()));
    let expected_id = hex::encode(&sha2::Sha256::digest(dir.as_bytes())[..20]);
    assert_eq!(
        action,
        ExchangeAction::MarkProject { project_dir: dir.clone(), project_id: expected_id.clone() }
    );

    let (flow, action) = flow.on_marked(Ok(()));
    assert_eq!(
        action,
        ExchangeAction::DownloadConfig {
            url: "https://x.test/wp-json/wordforge/v1/opencode/local-config?runtime=bun".to_string(),
            authorization: "Basic YWRtaW46cGFzcw==".to_string(),
            project_dir: dir.clone(),
        }
    );

    let (flow, action) = flow.on_config(Ok(()));
    assert_eq!(
        action,
        ExchangeAction::CheckHash {
            url: "https://shop.test/wp-json/wordforge/v1/desktop/config-hash".to_string(),
            authorization: "Basic YWRtaW46cGFzcw==".to_string(),
        }
    );

    let (flow, action) = flow.on_hash(&mut manager, None, 1234);
    assert!(matches!(flow.stage, ExchangeStage::Finished));
    let id = match action {
        ExchangeAction::Registered(id) => id,
        other => panic!("unexpected {other:?}"),
    };
    assert_eq!(manager.list_sites().len(), 1);
    let site = manager.get_active_site().unwrap();
    assert_eq!(site.id, id);
    assert_eq!(site.name, "Café Shop!");
    assert_eq!(site.project_dir, dir);
    assert_eq!(site.config_hash, None);
    assert_eq!(site.config_updated_at, Some(1234));
    assert_eq!(site.last_used_at, 1234);
}

#[test]
fn exchange_refused_by_remote_fails_early() {
    let (flow, _) = TokenExchange::new("https://x.test");
    let (flow, action) = flow.on_answer(200, "200 OK", "{}", Ok(envelope(false)));
    assert!(matches!(flow.stage, ExchangeStage::Finished));
    assert_eq!(action, ExchangeAction::Failed(SiteError::TokenExchange("Exchange failed".to_string())));

    let (_, action) = TokenExchange::new("https://x.test").0.on_answer(403, "403 Forbidden", "no", Ok(envelope(true)));
    assert_eq!(action, ExchangeAction::Failed(SiteError::TokenExchange("HTTP 403 Forbidden: no".to_string())));
}

#[test]
fn exchange_failures_after_answer_propagate() {
    let start = || TokenExchange::new("https://x.test").0.on_answer(200, "200 OK", "{}", Ok(envelope(true))).0;

    let (flow, action) = start().on_directory(Err(SiteError::Io("denied".to_string())));
    assert!(matches!(flow.stage, ExchangeStage::Finished));
    assert_eq!(action, ExchangeAction::Failed(SiteError::Io("denied".to_string())));

    let (flow, _) = start().on_directory(Ok("/d".to_string()));
    let (flow, _) = flow.on_marked(Ok(()));
    let (flow, action) = flow.on_config(Err(SiteError::ConfigDownload("HTTP 500".to_string())));
    assert!(matches!(flow.stage, ExchangeStage::Finished));
    assert_eq!(action, ExchangeAction::Failed(SiteError::ConfigDownload("HTTP 500".to_string())));
}
