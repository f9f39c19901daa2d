//! The registry of linked sites: the sites themselves, the active one, and
//! the installation's device identifier.

use vstd::prelude::*;
use crate::text::str_eq;

verus! {

/// Failures of the site registry, the linking protocol and configuration sync.
#[derive(Debug, Clone, PartialEq, Eq)]
pub enum SiteError {
    Http(String),
    Json(String),
    Io(String),
    Zip(String),
    TokenExchange(String),
    ConfigDownload(String),
    NotFound(String),
    InvalidUrl(String),
    ApiError(String),
}

impl SiteError {
    /// The human-readable text of the error.
    pub fn message(&self) -> (r: String)
        ensures
            r@ == self.prefix() + self.detail()@,
    {
        let (prefix, detail) = match self {
            SiteError::Http(d) => ("HTTP request failed: ", d),
            SiteError::Json(d) => ("JSON error: ", d),
            SiteError::Io(d) => ("IO error: ", d),
            SiteError::Zip(d) => ("ZIP error: ", d),
            SiteError::TokenExchange(d) => ("Token exchange failed: ", d),
            SiteError::ConfigDownload(d) => ("Config download failed: ", d),
            SiteError::NotFound(d) => ("Site not found: ", d),
            SiteError::InvalidUrl(d) => ("Invalid URL: ", d),
            SiteError::ApiError(d) => ("API error: ", d),
        };
        let mut r = String::from_str(prefix);
        r.append(detail.as_str());
        r
    }

    /// The fixed text that opens the message of each kind.
    pub open spec fn prefix(&self) -> Seq<char> {
        match self {
            SiteError::Http(_) => "HTTP request failed: "@,
            SiteError::Json(_) => "JSON error: "@,
            SiteError::Io(_) => "IO error: "@,
            SiteError::Zip(_) => "ZIP error: "@,
            SiteError::TokenExchange(_) => "Token exchange failed: "@,
            SiteError::ConfigDownload(_) => "Config download failed: "@,
            SiteError::NotFound(_) => "Site not found: "@,
            SiteError::InvalidUrl(_) => "Invalid URL: "@,
            SiteError::ApiError(_) => "API error: "@,
        }
    }

    /// The text that each kind carries.
    pub open spec fn detail(&self) -> String {
        match self {
            SiteError::Http(d) => *d,
            SiteError::Json(d) => *d,
            SiteError::Io(d) => *d,
            SiteError::Zip(d) => *d,
            SiteError::TokenExchange(d) => *d,
            SiteError::ConfigDownload(d) => *d,
            SiteError::NotFound(d) => *d,
            SiteError::InvalidUrl(d) => *d,
            SiteError::ApiError(d) => *d,
        }
    }
}

/// A remote site linked to this installation.
#[derive(Debug, Clone, PartialEq, Eq)]
pub struct WordPressSite {
    pub id: String,
    pub name: String,
    pub url: String,
    pub rest_url: String,
    pub mcp_endpoint: String,
    pub abilities_url: String,
    pub username: String,
    pub app_password: String,
    pub auth: String,
    pub project_dir: String,
    pub created_at: u64,
    pub last_used_at: u64,
    pub config_hash: Option<String>,
    pub config_updated_at: Option<u64>,
}

/// What the remote reports of its current configuration.
#[derive(Debug, Clone, PartialEq, Eq)]
pub struct ConfigHashResponse {
    pub hash: String,
    pub components: ConfigHashComponents,
    pub generated: u64,
}

/// The parts that make up a remote configuration fingerprint.
#[derive(Debug, Clone, PartialEq, Eq)]
pub struct ConfigHashComponents {
    pub plugins_hash: String,
    pub theme_hash: String,
    pub agents_hash: String,
    pub providers_hash: String,
    pub woo_active: bool,
}

/// Whether a site's local configuration lags behind the remote one.
#[derive(Debug, Clone, PartialEq, Eq)]
pub struct ConfigSyncStatus {
    pub update_available: bool,
    pub current_hash: Option<String>,
    pub remote_hash: Option<String>,
    pub last_checked: Option<u64>,
}

/// The persisted registry document.
#[derive(Debug, Clone, PartialEq, Eq, Default)]
pub struct SitesStore {
    pub sites: Vec<WordPressSite>,
    pub active_site_id: Option<String>,
    pub device_id: Option<String>,
}

/// The characters of an optional string.
pub open spec fn opt_view(o: Option<String>) -> Option<Seq<char>> {
    match o {
        Some(s) => Some(s@),
        None => None,
    }
}

/// No two sites share an id.
pub open spec fn ids_unique(sites: Seq<WordPressSite>) -> bool {
    forall|i: int, j: int|
        0 <= i < sites.len() && 0 <= j < sites.len() && i != j ==> #[trigger] sites[i].id@
            != #[trigger] sites[j].id@
}

/// Some site has this id.
pub open spec fn has_site(sites: Seq<WordPressSite>, id: Seq<char>) -> bool {
    exists|i: int| 0 <= i < sites.len() && #[trigger] sites[i].id@ == id
}

/// `i` is the position of the site with this id.
pub open spec fn site_at(sites: Seq<WordPressSite>, id: Seq<char>, i: int) -> bool {
    0 <= i < sites.len() && sites[i].id@ == id
}

/// The site that should become active after the active one was removed.
pub open spec fn repick(sites: Seq<WordPressSite>) -> Option<Seq<char>> {
    if sites.len() > 0 {
        Some(sites[0].id@)
    } else {
        None
    }
}

/// Whether a fresh fingerprint should be fetched: the remote one is known and
/// differs from the local one, or there is no local one.
pub open spec fn update_available(local: Option<Seq<char>>, remote: Option<Seq<char>>) -> bool {
    match (local, remote) {
        (Some(l), Some(r)) => l != r,
        (None, Some(_)) => true,
        _ => false,
    }
}

/// Relies on `uuid::Uuid::new_v4` and its hyphenated text form: a random
/// identifier of 36 characters, of which nothing else is known.
#[verifier::external_body]
pub(crate) fn new_site_id() -> (r: String)
    ensures
        r@.len() == 36,
{
    uuid::Uuid::new_v4().to_string()
}

fn clone_opt(o: &Option<String>) -> (r: Option<String>)
    ensures
        r == *o,
{
    match o {
        Some(s) => Some(s.clone()),
        None => None,
    }
}

impl SitesStore {
    /// The well-formed registry: site ids are unique.
    pub open spec fn wf(&self) -> bool {
        ids_unique(self.sites@)
    }

    /// The position of the site with this id.
    pub fn find(&self, id: &str) -> (r: Option<usize>)
        ensures
            match r {
                Some(i) => site_at(self.sites@, id@, i as int),
                None => !has_site(self.sites@, id@),
            },
    {
        let n = self.sites.len();
        let mut i: usize = 0;
        while i < n
            invariant
                n == self.sites@.len(),
                i <= n,
                forall|j: int| 0 <= j < i ==> #[trigger] self.sites@[j].id@ != id@,
            decreases n - i,
        {
            if str_eq(self.sites[i].id.as_str(), id) {
                return Some(i);
            }
            i = i + 1;
        }
        None
    }
}

/// The registry of linked sites, held in memory between persisted writes.
pub struct SiteManager {
    pub store: SitesStore,
}

impl SiteManager {
    /// A manager over a registry document read earlier (empty if none was).
    /// Where two sites share an id, the first one is kept.
    pub fn new(store: SitesStore) -> (r: Self)
        ensures
            r.store.wf(),
            r.store.active_site_id == store.active_site_id,
            r.store.device_id == store.device_id,
            store.wf() ==> r.store.sites@ == store.sites@,
            forall|i: int| 0 <= i < r.store.sites@.len() ==> store.sites@.contains(#[trigger] r.store.sites@[i]),
            forall|i: int| 0 <= i < store.sites@.len() ==> has_site(r.store.sites@, #[trigger] store.sites@[i].id@),
    {
        let SitesStore { sites, active_site_id, device_id } = store;
        let ghost input = sites@;
        let mut kept = SitesStore { sites: Vec::new(), active_site_id: None, device_id: None };
        let mut rest = sites;
        let ghost mut taken: int = 0;
        while rest.len() > 0
            invariant
                0 <= taken <= input.len(),
                rest@ == input.subrange(taken, input.len() as int),
                kept.wf(),
                forall|i: int| 0 <= i < kept.sites@.len() ==> input.contains(#[trigger] kept.sites@[i]),
                forall|i: int| 0 <= i < taken ==> has_site(kept.sites@, #[trigger] input[i].id@),
                ids_unique(input) ==> kept.sites@ == input.subrange(0, taken),
            decreases rest@.len(),
        {
            let site = rest.remove(0);
            assert(site == input[taken]);
            let ghost before = kept.sites@;
            match kept.find(site.id.as_str()) {
                Some(_) => {
                    proof {
                        if ids_unique(input) {
                            let k = choose|k: int| 0 <= k < before.len() && #[trigger] before[k].id@ == site.id@;
                            assert(before[k] == input[k]);
                            assert(false);
                        }
                    }
                },
                None => {
                    kept.sites.push(site);
                    assert forall|a: int, b: int|
                        0 <= a < kept.sites@.len() && 0 <= b < kept.sites@.len() && a != b implies #[trigger] kept.sites@[a].id@
                        != #[trigger] kept.sites@[b].id@ by {
                        if a < before.len() && b < before.len() {
                            assert(kept.sites@[a] == before[a] && kept.sites@[b] == before[b]);
                        } else if a < before.len() {
                            assert(kept.sites@[a] == before[a]);
                        } else {
                            assert(kept.sites@[b] == before[b]);
                        }
                    }
                    assert forall|i: int| 0 <= i < kept.sites@.len() implies input.contains(#[trigger] kept.sites@[i]) by {
                        if i < before.len() {
                            assert(kept.sites@[i] == before[i]);
                        } else {
                            assert(input[taken] == kept.sites@[i]);
                        }
                    }
                    assert(kept.sites@[before.len() as int].id@ == site.id@);
                    assert(ids_unique(input) ==> kept.sites@ =~= input.subrange(0, taken + 1));
                },
            }
            assert forall|i: int| 0 <= i < taken + 1 implies has_site(kept.sites@, #[trigger] input[i].id@) by {
                if i < taken {
                    let k = choose|k: int| 0 <= k < before.len() && #[trigger] before[k].id@ == input[i].id@;
                    assert(kept.sites@[k] == before[k]);
                }
            }
            proof {
                taken = taken + 1;
            }
            assert(rest@ =~= input.subrange(taken, input.len() as int));
        }
        assert(input.subrange(0, taken) =~= input);
        kept.active_site_id = active_site_id;
        kept.device_id = device_id;
        SiteManager { store: kept }
    }

    /// Every linked site, in registry order.
    pub fn list_sites(&self) -> (r: Vec<&WordPressSite>)
        ensures
            r@.len() == self.store.sites@.len(),
            forall|i: int| 0 <= i < r@.len() ==> *r@[i] == self.store.sites@[i],
    {
        let mut r: Vec<&WordPressSite> = Vec::new();
        let n = self.store.sites.len();
        let mut i: usize = 0;
        while i < n
            invariant
                n == self.store.sites@.len(),
                i <= n,
                r@.len() == i,
                forall|j: int| 0 <= j < i ==> *r@[j] == self.store.sites@[j],
            decreases n - i,
        {
            r.push(&self.store.sites[i]);
            i = i + 1;
        }
        r
    }

    /// The site with this id.
    pub fn get_site(&self, id: &str) -> (r: Option<&WordPressSite>)
        ensures
            match r {
                Some(s) => exists|i: int| site_at(self.store.sites@, id@, i) && *s == self.store.sites@[i],
                None => !has_site(self.store.sites@, id@),
            },
    {
        match self.store.find(id) {
            Some(i) => Some(&self.store.sites[i]),
            None => None,
        }
    }

    /// The project directory of the site with this id.
    pub fn get_site_folder(&self, id: &str) -> (r: Option<String>)
        ensures
            match r {
                Some(p) => exists|i: int|
                    site_at(self.store.sites@, id@, i) && p == self.store.sites@[i].project_dir,
                None => !has_site(self.store.sites@, id@),
            },
    {
        match self.get_site(id) {
            Some(s) => Some(s.project_dir.clone()),
            None => None,
        }
    }

    /// The active site, if one is set and still registered.
    pub fn get_active_site(&self) -> (r: Option<&WordPressSite>)
        ensures
            match opt_view(self.store.active_site_id) {
                Some(a) => match r {
                    Some(s) => exists|i: int| site_at(self.store.sites@, a, i) && *s == self.store.sites@[i],
                    None => !has_site(self.store.sites@, a),
                },
                None => r is None,
            },
    {
        match &self.store.active_site_id {
            Some(a) => self.get_site(a.as_str()),
            None => None,
        }
    }

    /// The site named by `site_id`, or the active one when no id is given.
    pub fn resolve_site(&self, site_id: Option<&str>) -> (r: Option<&WordPressSite>)
        ensures
            ({
                let wanted = match site_id {
                    Some(id) => Some(id@),
                    None => opt_view(self.store.active_site_id),
                };
                match wanted {
                    Some(w) => match r {
                        Some(s) => exists|i: int| site_at(self.store.sites@, w, i) && *s == self.store.sites@[i],
                        None => !has_site(self.store.sites@, w),
                    },
                    None => r is None,
                }
            }),
    {
        match site_id {
            Some(id) => self.get_site(id),
            None => self.get_active_site(),
        }
    }

    /// Makes the site with this id the active one and stamps its last use
    /// with `now`; `NotFound` carrying the id where no site has it.
    pub fn set_active_site(&mut self, id: &str, now: u64) -> (r: Result<(), SiteError>)
        requires
            old(self).store.wf(),
        ensures
            final(self).store.wf(),
            has_site(old(self).store.sites@, id@) <==> r is Ok,
            match r {
                Ok(()) => exists|i: int|
                    site_at(old(self).store.sites@, id@, i) && final(self).store.sites@
                        == old(self).store.sites@.update(
                        i,
                        (WordPressSite { last_used_at: now, ..old(self).store.sites@[i] }),
                    ) && opt_view(final(self).store.active_site_id) == Some(id@)
                        && final(self).store.device_id == old(self).store.device_id,
                Err(e) => e == SiteError::NotFound(e.detail()) && e.detail()@ == id@
                    && *final(self) == *old(self),
            },
    {
        match self.store.find(id) {
            None => Err(SiteError::NotFound(String::from_str(id))),
            Some(i) => {
                let ghost before = self.store.sites@;
                self.store.active_site_id = Some(String::from_str(id));
                let mut site = self.store.sites.remove(i);
                site.last_used_at = now;
                self.store.sites.insert(i, site);
                assert(self.store.sites@ =~= before.update(
                    i as int,
                    (WordPressSite { last_used_at: now, ..before[i as int] }),
                ));
                assert forall|a: int, b: int|
                    0 <= a < self.store.sites@.len() && 0 <= b < self.store.sites@.len() && a
                        != b implies #[trigger] self.store.sites@[a].id@
                    != #[trigger] self.store.sites@[b].id@ by {
                    assert(self.store.sites@[a].id == before[a].id);
                    assert(self.store.sites@[b].id == before[b].id);
                }
                Ok(())
            },
        }
    }

    /// Removes the site with this id and hands it back. Where the active id
    /// was this one, the first remaining site becomes active, or none.
    pub fn remove_site(&mut self, id: &str) -> (r: Option<WordPressSite>)
        requires
            old(self).store.wf(),
        ensures
            final(self).store.wf(),
            final(self).store.device_id == old(self).store.device_id,
            match r {
                Some(s) => exists|i: int|
                    site_at(old(self).store.sites@, id@, i) && s == old(self).store.sites@[i]
                        && final(self).store.sites@ == old(self).store.sites@.remove(i),
                None => !has_site(old(self).store.sites@, id@) && final(self).store.sites
                    == old(self).store.sites,
            },
            opt_view(old(self).store.active_site_id) == Some(id@) ==> opt_view(
                final(self).store.active_site_id,
            ) == repick(final(self).store.sites@),
            opt_view(old(self).store.active_site_id) != Some(id@) ==> final(self).store.active_site_id
                == old(self).store.active_site_id,
    {
        let ghost before = self.store.sites@;
        let removed = match self.store.find(id) {
            Some(i) => {
                let s = self.store.sites.remove(i);
                assert forall|a: int, b: int|
                    0 <= a < self.store.sites@.len() && 0 <= b < self.store.sites@.len() && a
                        != b implies #[trigger] self.store.sites@[a].id@
                    != #[trigger] self.store.sites@[b].id@ by {
                    let a0 = if a < i { a } else { a + 1 };
                    let b0 = if b < i { b } else { b + 1 };
                    assert(self.store.sites@[a] == before[a0]);
                    assert(self.store.sites@[b] == before[b0]);
                }
                Some(s)
            },
            None => None,
        };
        let was_active = match &self.store.active_site_id {
            Some(a) => str_eq(a.as_str(), id),
            None => false,
        };
        if was_active {
            if self.store.sites.len() > 0 {
                self.store.active_site_id = Some(self.store.sites[0].id.clone());
            } else {
                self.store.active_site_id = None;
            }
        }
        removed
    }

    /// The installation's device identifier, made once and kept after that.
    pub fn get_device_id(&mut self) -> (r: String)
        ensures
            final(self).store.sites == old(self).store.sites,
            final(self).store.active_site_id == old(self).store.active_site_id,
            final(self).store.device_id == Some(r),
            old(self).store.device_id is Some ==> old(self).store.device_id == Some(r),
            old(self).store.device_id is None ==> r@.len() == 36,
    {
        match &self.store.device_id {
            Some(d) => d.clone(),
            None => {
                let d = new_site_id();
                self.store.device_id = Some(d.clone());
                d
            },
        }
    }

    /// Adds `site`, replacing one with the same id, and makes it active.
    pub fn register_site(&mut self, site: WordPressSite)
        requires
            old(self).store.wf(),
        ensures
            final(self).store.wf(),
            final(self).store.device_id == old(self).store.device_id,
            opt_view(final(self).store.active_site_id) == Some(site.id@),
            has_site(old(self).store.sites@, site.id@) ==> exists|i: int|
                site_at(old(self).store.sites@, site.id@, i) && final(self).store.sites@
                    == old(self).store.sites@.update(i, site),
            !has_site(old(self).store.sites@, site.id@) ==> final(self).store.sites@
                == old(self).store.sites@.push(site),
    {
        let ghost before = self.store.sites@;
        self.store.active_site_id = Some(site.id.clone());
        match self.store.find(site.id.as_str()) {
            Some(i) => {
                self.store.sites.remove(i);
                self.store.sites.insert(i, site);
                assert(self.store.sites@ =~= before.update(i as int, site));
                assert forall|a: int, b: int|
                    0 <= a < self.store.sites@.len() && 0 <= b < self.store.sites@.len() && a
                        != b implies #[trigger] self.store.sites@[a].id@
                    != #[trigger] self.store.sites@[b].id@ by {
                    assert(self.store.sites@[a].id@ == before[a].id@);
                    assert(self.store.sites@[b].id@ == before[b].id@);
                }
            },
            None => {
                self.store.sites.push(site);
                assert forall|a: int, b: int|
                    0 <= a < self.store.sites@.len() && 0 <= b < self.store.sites@.len() && a
                        != b implies #[trigger] self.store.sites@[a].id@
                    != #[trigger] self.store.sites@[b].id@ by {
                    if a < before.len() && b < before.len() {
                        assert(self.store.sites@[a] == before[a]);
                        assert(self.store.sites@[b] == before[b]);
                    } else if a < before.len() {
                        assert(self.store.sites@[a] == before[a]);
                    } else {
                        assert(self.store.sites@[b] == before[b]);
                    }
                }
            },
        }
    }

    /// Records a fresh fingerprint on the stored site with this id, stamped
    /// with `now`; `NotFound` carrying the id where no site has it.
    pub fn record_config_hash(&mut self, id: &str, hash: String, now: u64) -> (r: Result<(), SiteError>)
        requires
            old(self).store.wf(),
        ensures
            final(self).store.wf(),
            has_site(old(self).store.sites@, id@) <==> r is Ok,
            final(self).store.active_site_id == old(self).store.active_site_id,
            final(self).store.device_id == old(self).store.device_id,
            match r {
                Ok(()) => exists|i: int|
                    site_at(old(self).store.sites@, id@, i) && final(self).store.sites@
                        == old(self).store.sites@.update(
                        i,
                        (WordPressSite {
                            config_hash: Some(hash),
                            config_updated_at: Some(now),
                            ..old(self).store.sites@[i]
                        }),
                    ),
                Err(e) => e == SiteError::NotFound(e.detail()) && e.detail()@ == id@
                    && *final(self) == *old(self),
            },
    {
        match self.store.find(id) {
            None => Err(SiteError::NotFound(String::from_str(id))),
            Some(i) => {
                let ghost before = self.store.sites@;
                let mut site = self.store.sites.remove(i);
                site.config_hash = Some(hash);
                site.config_updated_at = Some(now);
                self.store.sites.insert(i, site);
                assert(self.store.sites@ =~= before.update(i as int, site));
                assert forall|a: int, b: int|
                    0 <= a < self.store.sites@.len() && 0 <= b < self.store.sites@.len() && a
                        != b implies #[trigger] self.store.sites@[a].id@
                    != #[trigger] self.store.sites@[b].id@ by {
                    assert(self.store.sites@[a].id == before[a].id);
                    assert(self.store.sites@[b].id == before[b].id);
                }
                Ok(())
            },
        }
    }

    /// Compares a site's stored fingerprint with the remote one, when that
    /// one is known; `now` is the time of the check.
    pub fn get_config_sync_status(&self, site: &WordPressSite, remote_hash: Option<&str>, now: u64)
        -> (r: ConfigSyncStatus)
        ensures
            r.update_available == update_available(
                opt_view(site.config_hash),
                match remote_hash {
                    Some(h) => Some(h@),
                    None => None,
                },
            ),
            r.current_hash == site.config_hash,
            opt_view(r.remote_hash) == match remote_hash {
                Some(h) => Some(h@),
                None => None::<Seq<char>>,
            },
            r.last_checked == Some(now),
    {
        let current_hash = clone_opt(&site.config_hash);
        let available = match (&current_hash, remote_hash) {
            (Some(current), Some(remote)) => !str_eq(current.as_str(), remote),
            (None, Some(_)) => true,
            _ => false,
        };
        ConfigSyncStatus {
            update_available: available,
            current_hash,
            remote_hash: match remote_hash {
                Some(h) => Some(String::from_str(h)),
                None => None,
            },
            last_checked: Some(now),
        }
    }
}

/// The sync table: equal fingerprints need no update; a remote one with no
/// local one, or a different local one, does; an unknown remote one never
/// does, whatever the local one.
pub proof fn lemma_sync_status_table(local: Option<Seq<char>>, remote: Option<Seq<char>>)
    ensures
        remote is None ==> !update_available(local, remote),
        local is None && remote is Some ==> update_available(local, remote),
        match (local, remote) {
            (Some(l), Some(r)) => update_available(local, remote) <==> l != r,
            _ => true,
        },
{
}

impl SiteManager {
    /// The id of the site a refresh is for: the one given, or the active
    /// site's; `No active site` where neither is there.
    pub fn refresh_target(&self, site_id: Option<String>) -> (r: Result<String, String>)
        ensures
            match site_id {
                Some(id) => r == Ok::<String, String>(id),
                None => match r {
                    Ok(id) => opt_view(self.store.active_site_id) == Some(id@) && has_site(
                        self.store.sites@,
                        id@,
                    ),
                    Err(m) => m@ == "No active site"@ && !(match opt_view(self.store.active_site_id) {
                        Some(a) => has_site(self.store.sites@, a),
                        None => false,
                    }),
                },
            },
    {
        match site_id {
            Some(id) => Ok(id),
            None => match self.get_active_site() {
                Some(s) => Ok(s.id.clone()),
                None => Err(String::from_str("No active site")),
            },
        }
    }

    /// Whether the site with this id is the active one.
    pub fn is_active_site(&self, id: &str) -> (r: bool)
        ensures
            r == (opt_view(self.store.active_site_id) == Some(id@) && has_site(self.store.sites@, id@)),
    {
        match self.get_active_site() {
            Some(s) => str_eq(s.id.as_str(), id),
            None => false,
        }
    }
}

/// One phase of a configuration refresh. Each phase takes one lock at a time,
/// so that no lock is held across another subsystem's network work.
#[derive(Debug, Clone, Copy, PartialEq, Eq)]
pub enum RefreshPhase {
    /// Stop the running sidecar.
    StopSidecar,
    /// Download the bundle and record the new fingerprint.
    Refresh,
    /// Start the sidecar again for the active site and tell the site its port.
    StartSidecar,
}

/// The phases of a refresh: with a restart asked for while the sidecar runs,
/// it is stopped first and started again after; otherwise only the refresh.
pub fn refresh_phases(restart: bool, running: bool) -> (r: Vec<RefreshPhase>)
    ensures
        restart && running ==> r@ == seq![RefreshPhase::StopSidecar, RefreshPhase::Refresh, RefreshPhase::StartSidecar],
        !(restart && running) ==> r@ == seq![RefreshPhase::Refresh],
{
    let mut r: Vec<RefreshPhase> = Vec::new();
    if restart && running {
        r.push(RefreshPhase::StopSidecar);
        r.push(RefreshPhase::Refresh);
        r.push(RefreshPhase::StartSidecar);
        assert(r@ =~= seq![RefreshPhase::StopSidecar, RefreshPhase::Refresh, RefreshPhase::StartSidecar]);
    } else {
        r.push(RefreshPhase::Refresh);
        assert(r@ =~= seq![RefreshPhase::Refresh]);
    }
    r
}

} // verus!
