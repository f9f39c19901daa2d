//! Linking a site, as a sequence of steps: the caller performs each action
//! (a request, a directory, a file) and hands the outcome to the next step.
//! The registry is touched by the last step alone, so a failure anywhere
//! before it leaves no site behind.

use vstd::prelude::*;
use crate::connect::{
    basic_auth_header, check_exchange_response, exchange_outcome, exchanged_site, site_endpoint,
    strip_trailing_slashes, ExchangeResponse, CONFIG_HASH_PATH, EXCHANGE_PATH, LOCAL_CONFIG_PATH,
};
use crate::project::{generate_opencode_project_id, project_id_of};
use crate::sites::{has_site, opt_view, site_at, SiteError, SiteManager};
use crate::slug::{ascii_transliteration_of, sanitize_site_name, slug_of};

verus! {

/// Where a token exchange stands, with what it has learnt so far.
pub enum ExchangeStage {
    /// Waiting for the remote's answer to the exchange request.
    AwaitAnswer,
    /// Waiting for the project directory to be created.
    AwaitDirectory(ExchangeResponse),
    /// Waiting for the project marker to be written into the directory.
    AwaitMarker(ExchangeResponse, String),
    /// Waiting for the configuration bundle to be unpacked there.
    AwaitConfig(ExchangeResponse, String),
    /// Waiting for the first fingerprint check, whose failure is no failure.
    AwaitHash(ExchangeResponse, String),
    /// Linked, or failed.
    Finished,
}

/// What the caller is to do next.
#[derive(Debug, Clone, PartialEq, Eq)]
pub enum ExchangeAction {
    /// POST `{token}` as JSON to this URL.
    Post(String),
    /// Create the directory with this name under the sites root.
    CreateDirectory(String),
    /// Write this project identifier as the project's marker.
    MarkProject { project_dir: String, project_id: String },
    /// GET the bundle from `url` with this `Authorization` header and unpack
    /// it into `project_dir`.
    DownloadConfig { url: String, authorization: String, project_dir: String },
    /// GET the fingerprint from `url` with this `Authorization` header.
    CheckHash { url: String, authorization: String },
    /// The site is registered and active under this id.
    Registered(String),
    /// The exchange failed; nothing was registered.
    Failed(SiteError),
}

/// One token exchange with the site at `site_url`.
pub struct TokenExchange {
    pub site_url: String,
    pub stage: ExchangeStage,
}

/// The action that a failed step reports, and the stage it ends in.
pub open spec fn failed_with(r: (TokenExchange, ExchangeAction), e: SiteError) -> bool {
    r.0.stage is Finished && r.1 == ExchangeAction::Failed(e)
}

impl TokenExchange {
    /// Begins an exchange: the request to send.
    pub fn new(site_url: &str) -> (r: (TokenExchange, ExchangeAction))
        ensures
            r.0.site_url@ == site_url@,
            r.0.stage is AwaitAnswer,
            r.1 matches ExchangeAction::Post(u) && u@ == strip_trailing_slashes(site_url@) + EXCHANGE_PATH@,
    {
        let url = site_endpoint(site_url, EXCHANGE_PATH);
        (TokenExchange { site_url: String::from_str(site_url), stage: ExchangeStage::AwaitAnswer }, ExchangeAction::Post(url))
    }

    /// The remote answered: a refused or undecodable answer ends the exchange;
    /// an accepted one asks for the site's directory, named by the slug of
    /// its display name.
    pub fn on_answer(self, status: u16, status_text: &str, body: &str, parsed: Result<ExchangeResponse, String>)
        -> (r: (TokenExchange, ExchangeAction))
        requires
            self.stage is AwaitAnswer,
        ensures
            r.0.site_url == self.site_url,
            match exchange_outcome(status, status_text@, body@, parsed) {
                Ok(resp) => r.0.stage == ExchangeStage::AwaitDirectory(resp) && (r.1 matches ExchangeAction::CreateDirectory(slug)
                    && slug@ == slug_of(ascii_transliteration_of(resp.site.name@))),
                Err(m) => r.0.stage is Finished && (r.1 matches ExchangeAction::Failed(SiteError::TokenExchange(d)) && d@ == m),
            },
    {
        let TokenExchange { site_url, stage: _ } = self;
        match check_exchange_response(status, status_text, body, parsed) {
            Ok(resp) => {
                let slug = sanitize_site_name(resp.site.name.as_str());
                (TokenExchange { site_url, stage: ExchangeStage::AwaitDirectory(resp) }, ExchangeAction::CreateDirectory(slug))
            },
            Err(e) => (TokenExchange { site_url, stage: ExchangeStage::Finished }, ExchangeAction::Failed(e)),
        }
    }

    /// The directory was created at `project_dir`, or could not be: next, its
    /// marker, holding the project identifier of that path.
    pub fn on_directory(self, created: Result<String, SiteError>) -> (r: (TokenExchange, ExchangeAction))
        requires
            self.stage is AwaitDirectory,
        ensures
            r.0.site_url == self.site_url,
            match created {
                Ok(dir) => r.0.stage == ExchangeStage::AwaitMarker(self.stage->AwaitDirectory_0, dir) && (r.1 matches ExchangeAction::MarkProject { project_dir, project_id }
                    && project_dir == dir && project_id@ == project_id_of(dir@)),
                Err(e) => failed_with(r, e),
            },
    {
        let TokenExchange { site_url, stage } = self;
        match stage {
            ExchangeStage::AwaitDirectory(resp) => match created {
                Ok(dir) => {
                    let project_id = generate_opencode_project_id(dir.as_str());
                    let action = ExchangeAction::MarkProject { project_dir: dir.clone(), project_id };
                    (TokenExchange { site_url, stage: ExchangeStage::AwaitMarker(resp, dir) }, action)
                },
                Err(e) => (TokenExchange { site_url, stage: ExchangeStage::Finished }, ExchangeAction::Failed(e)),
            },
            _ => (TokenExchange { site_url, stage: ExchangeStage::Finished }, ExchangeAction::Failed(SiteError::Io(String::new()))),
        }
    }

    /// The marker was written, or could not be: next, the configuration
    /// bundle from the site as it was asked, with the credential it handed out.
    pub fn on_marked(self, written: Result<(), SiteError>) -> (r: (TokenExchange, ExchangeAction))
        requires
            self.stage is AwaitMarker,
        ensures
            r.0.site_url == self.site_url,
            match written {
                Ok(()) => {
                    let resp = self.stage->AwaitMarker_0;
                    let dir = self.stage->AwaitMarker_1;
                    r.0.stage == ExchangeStage::AwaitConfig(resp, dir) && (r.1 matches ExchangeAction::DownloadConfig { url, authorization, project_dir }
                        && url@ == strip_trailing_slashes(self.site_url@) + LOCAL_CONFIG_PATH@
                        && authorization@ == "Basic "@ + resp.credentials.auth@ && project_dir == dir)
                },
                Err(e) => failed_with(r, e),
            },
    {
        let TokenExchange { site_url, stage } = self;
        match stage {
            ExchangeStage::AwaitMarker(resp, dir) => match written {
                Ok(()) => {
                    let url = site_endpoint(site_url.as_str(), LOCAL_CONFIG_PATH);
                    let authorization = basic_auth_header(resp.credentials.auth.as_str());
                    let action = ExchangeAction::DownloadConfig { url, authorization, project_dir: dir.clone() };
                    (TokenExchange { site_url, stage: ExchangeStage::AwaitConfig(resp, dir) }, action)
                },
                Err(e) => (TokenExchange { site_url, stage: ExchangeStage::Finished }, ExchangeAction::Failed(e)),
            },
            _ => (TokenExchange { site_url, stage: ExchangeStage::Finished }, ExchangeAction::Failed(SiteError::Io(String::new()))),
        }
    }

    /// The bundle was unpacked, or could not be: next, the first fingerprint
    /// check against the URL the site gave for itself.
    pub fn on_config(self, unpacked: Result<(), SiteError>) -> (r: (TokenExchange, ExchangeAction))
        requires
            self.stage is AwaitConfig,
        ensures
            r.0.site_url == self.site_url,
            match unpacked {
                Ok(()) => {
                    let resp = self.stage->AwaitConfig_0;
                    let dir = self.stage->AwaitConfig_1;
                    r.0.stage == ExchangeStage::AwaitHash(resp, dir) && (r.1 matches ExchangeAction::CheckHash { url, authorization }
                        && url@ == strip_trailing_slashes(resp.site.url@) + CONFIG_HASH_PATH@
                        && authorization@ == "Basic "@ + resp.credentials.auth@)
                },
                Err(e) => failed_with(r, e),
            },
    {
        let TokenExchange { site_url, stage } = self;
        match stage {
            ExchangeStage::AwaitConfig(resp, dir) => match unpacked {
                Ok(()) => {
                    let url = site_endpoint(resp.site.url.as_str(), CONFIG_HASH_PATH);
                    let authorization = basic_auth_header(resp.credentials.auth.as_str());
                    let action = ExchangeAction::CheckHash { url, authorization };
                    (TokenExchange { site_url, stage: ExchangeStage::AwaitHash(resp, dir) }, action)
                },
                Err(e) => (TokenExchange { site_url, stage: ExchangeStage::Finished }, ExchangeAction::Failed(e)),
            },
            _ => (TokenExchange { site_url, stage: ExchangeStage::Finished }, ExchangeAction::Failed(SiteError::Io(String::new()))),
        }
    }

    /// The fingerprint check gave `config_hash`, or nothing where it failed:
    /// the site is registered as active, stamped with `now`.
    pub fn on_hash(self, manager: &mut SiteManager, config_hash: Option<String>, now: u64) -> (r: (TokenExchange, ExchangeAction))
        requires
            self.stage is AwaitHash,
            old(manager).store.wf(),
        ensures
            r.0.stage is Finished,
            r.0.site_url == self.site_url,
            final(manager).store.wf(),
            final(manager).store.device_id == old(manager).store.device_id,
            r.1 matches ExchangeAction::Registered(id) && {
                let site = exchanged_site(id, self.stage->AwaitHash_0, self.stage->AwaitHash_1, config_hash, now);
                &&& id@.len() == 36
                &&& opt_view(final(manager).store.active_site_id) == Some(id@)
                &&& has_site(old(manager).store.sites@, id@) ==> exists|i: int|
                    site_at(old(manager).store.sites@, id@, i) && final(manager).store.sites@
                        == old(manager).store.sites@.update(i, site)
                &&& !has_site(old(manager).store.sites@, id@) ==> final(manager).store.sites@
                    == old(manager).store.sites@.push(site)
            },
    {
        let TokenExchange { site_url, stage } = self;
        match stage {
            ExchangeStage::AwaitHash(resp, dir) => {
                let id = manager.add_exchanged_site(resp, dir, config_hash, now);
                (TokenExchange { site_url, stage: ExchangeStage::Finished }, ExchangeAction::Registered(id))
            },
            _ => {
                proof {
                    assert(false);
                }
                (TokenExchange { site_url, stage: ExchangeStage::Finished }, ExchangeAction::Failed(SiteError::Io(String::new())))
            },
        }
    }
}

} // verus!
