//! The linking protocol: the connect URL delivered by a deep link, the
//! endpoints of a remote site, and what a token exchange turns into.

use vstd::prelude::*;
use crate::sites::{SiteError, SiteManager, WordPressSite, has_site, opt_view, site_at};
use crate::text::str_eq;

verus! {

/// The scheme of connect URLs.
pub const CONNECT_SCHEME: &'static str = "wordforge";

/// A URL as the `url` crate reads it: its serialization, its scheme and its
/// query pairs, decoded and in order.
pub struct UrlParts {
    pub serialization: String,
    pub scheme: String,
    pub query: Vec<(String, String)>,
}

/// The characters of each query pair.
pub open spec fn pairs_view(q: Seq<(String, String)>) -> Seq<(Seq<char>, Seq<char>)> {
    q.map_values(|p: (String, String)| (p.0@, p.1@))
}

impl UrlParts {
    pub open spec fn view_parts(&self) -> (Seq<char>, Seq<char>, Seq<(Seq<char>, Seq<char>)>) {
        (self.serialization@, self.scheme@, pairs_view(self.query@))
    }
}

/// What `url::Url::parse` makes of a string: `None` where it refuses it, else
/// the serialization, the scheme and the decoded query pairs.
pub uninterp spec fn url_parts_of(s: Seq<char>) -> Option<(Seq<char>, Seq<char>, Seq<(Seq<char>, Seq<char>)>)>;

/// Relies on `url::Url::parse`, with `Url::as_str`, `Url::scheme` and
/// `Url::query_pairs` read off the result: all depend on the string alone. On
/// failure, the parse error's text.
#[verifier::external_body]
pub(crate) fn parse_url(s: &str) -> (r: Result<UrlParts, String>)
    ensures
        match r {
            Ok(p) => url_parts_of(s@) == Some(p.view_parts()),
            Err(_) => url_parts_of(s@) is None,
        },
{
    match url::Url::parse(s) {
        Ok(u) => Ok(UrlParts {
            serialization: u.as_str().to_string(),
            scheme: u.scheme().to_string(),
            query: u.query_pairs().map(|(k, v)| (k.into_owned(), v.into_owned())).collect(),
        }),
        Err(e) => Err(e.to_string()),
    }
}

/// What `urlencoding::decode` makes of a string: `None` where the decoded
/// bytes are not UTF-8.
pub uninterp spec fn percent_decoded_of(s: Seq<char>) -> Option<Seq<char>>;

/// Relies on `urlencoding::decode`: its result depends on the string alone,
/// and a string without `%` comes back as it was.
#[verifier::external_body]
fn percent_decode(s: &str) -> (r: Option<String>)
    ensures
        opt_view(r) == percent_decoded_of(s@),
        !s@.contains('%') ==> opt_view(r) == Some(s@),
{
    urlencoding::decode(s).ok().map(|d| d.into_owned())
}

/// The value of the last query pair with this key.
pub open spec fn last_value(q: Seq<(Seq<char>, Seq<char>)>, key: Seq<char>) -> Option<Seq<char>>
    decreases q.len(),
{
    if q.len() == 0 {
        None
    } else if q.last().0 == key {
        Some(q.last().1)
    } else {
        last_value(q.drop_last(), key)
    }
}

/// The display name taken from a connect URL's `name` parameter.
pub open spec fn display_name(raw: Option<Seq<char>>) -> Seq<char> {
    match raw {
        Some(n) => match percent_decoded_of(n) {
            Some(d) => d,
            None => Seq::empty(),
        },
        None => "WordPress Site"@,
    }
}

/// The outcome of reading a connect URL: `(site, token, name)`, or the
/// failure that `parse_connect_url` reports.
pub open spec fn connect_params(url: Seq<char>) -> Option<(Seq<char>, Seq<char>, Seq<char>)> {
    match url_parts_of(url) {
        Some(p) => {
            let q = p.2;
            if p.1 == CONNECT_SCHEME@ && last_value(q, "token"@) is Some && last_value(q, "site"@) is Some {
                Some((last_value(q, "site"@)->0, last_value(q, "token"@)->0, display_name(last_value(q, "name"@))))
            } else {
                None
            }
        },
        None => None,
    }
}

fn find_last<'a>(q: &'a Vec<(String, String)>, key: &str) -> (r: Option<&'a String>)
    ensures
        opt_ref_chars(r) == last_value(pairs_view(q@), key@),
{
    let ghost pv = pairs_view(q@);
    let mut found: Option<&String> = None;
    let n = q.len();
    let mut i: usize = 0;
    assert(pv.subrange(0, 0) =~= Seq::<(Seq<char>, Seq<char>)>::empty());
    while i < n
        invariant
            n == q@.len(),
            pv == pairs_view(q@),
            i <= n,
            opt_ref_chars(found) == last_value(pv.subrange(0, i as int), key@),
        decreases n - i,
    {
        let ghost prefix = pv.subrange(0, i + 1);
        assert(prefix.drop_last() =~= pv.subrange(0, i as int));
        assert(prefix.last() == (q@[i as int].0@, q@[i as int].1@));
        if str_eq(q[i].0.as_str(), key) {
            found = Some(&q[i].1);
        }
        i = i + 1;
    }
    assert(pv.subrange(0, n as int) =~= pv);
    found
}

/// The characters of an optional borrowed string.
pub open spec fn opt_ref_chars(o: Option<&String>) -> Option<Seq<char>> {
    match o {
        Some(s) => Some(s@),
        None => None,
    }
}

impl SiteManager {
    /// Reads a connect URL `wordforge://?token=..&site=..&name=..` into
    /// `(site, token, name)`. The name is percent-decoded once more (empty
    /// where that fails) and is `WordPress Site` when absent. Where a key
    /// repeats, its last value counts.
    pub fn parse_connect_url(url: &str) -> (r: Result<(String, String, String), SiteError>)
        ensures
            match r {
                Ok((site, token, name)) => connect_params(url@) == Some((site@, token@, name@)),
                Err(e) => connect_params(url@) is None && e is InvalidUrl,
            },
            match url_parts_of(url@) {
                Some(p) => match r {
                    Err(SiteError::InvalidUrl(m)) => if p.1 != CONNECT_SCHEME@ {
                        m@ == "Invalid scheme"@
                    } else if last_value(p.2, "token"@) is None {
                        m@ == "Missing token"@
                    } else {
                        m@ == "Missing site"@
                    },
                    _ => true,
                },
                None => true,
            },
    {
        let parts = match parse_url(url) {
            Ok(p) => p,
            Err(e) => return Err(SiteError::InvalidUrl(e)),
        };
        if !str_eq(parts.scheme.as_str(), CONNECT_SCHEME) {
            return Err(SiteError::InvalidUrl(String::from_str("Invalid scheme")));
        }
        let token = match find_last(&parts.query, "token") {
            Some(t) => t.clone(),
            None => return Err(SiteError::InvalidUrl(String::from_str("Missing token"))),
        };
        let site = match find_last(&parts.query, "site") {
            Some(s) => s.clone(),
            None => return Err(SiteError::InvalidUrl(String::from_str("Missing site"))),
        };
        let name = match find_last(&parts.query, "name") {
            Some(n) => match percent_decode(n.as_str()) {
                Some(d) => d,
                None => String::new(),
            },
            None => String::from_str("WordPress Site"),
        };
        Ok((site, token, name))
    }
}

/// The path of the token exchange on a remote site.
pub const EXCHANGE_PATH: &'static str = "/wp-json/wordforge/v1/desktop/exchange";

/// The path of the configuration fingerprint on a remote site.
pub const CONFIG_HASH_PATH: &'static str = "/wp-json/wordforge/v1/desktop/config-hash";

/// The path of the configuration bundle on a remote site.
pub const LOCAL_CONFIG_PATH: &'static str = "/wp-json/wordforge/v1/opencode/local-config?runtime=bun";

/// The path where a remote site learns of the local endpoint.
pub const LOCAL_SETTINGS_PATH: &'static str = "/wp-json/wordforge/v1/opencode/local-settings";

/// `s` without the slashes at its end.
pub open spec fn strip_trailing_slashes(s: Seq<char>) -> Seq<char>
    decreases s.len(),
{
    if s.len() > 0 && s.last() == '/' {
        strip_trailing_slashes(s.drop_last())
    } else {
        s
    }
}

/// `s.trim_end_matches('/')`.
pub fn trim_trailing_slashes(s: &str) -> (r: String)
    ensures
        r@ == strip_trailing_slashes(s@),
{
    let n = s.unicode_len();
    let mut k: usize = n;
    assert(s@.subrange(0, n as int) =~= s@);
    while k > 0 && s.get_char(k - 1) == '/'
        invariant
            n == s@.len(),
            k <= n,
            strip_trailing_slashes(s@) == strip_trailing_slashes(s@.subrange(0, k as int)),
        decreases k,
    {
        assert(s@.subrange(0, k as int).drop_last() =~= s@.subrange(0, k - 1));
        k = k - 1;
    }
    String::from_str(s.substring_char(0, k))
}

/// The URL of `path` on the site at `site_url`, however many slashes end it.
pub fn site_endpoint(site_url: &str, path: &str) -> (r: String)
    ensures
        r@ == strip_trailing_slashes(site_url@) + path@,
{
    let mut r = trim_trailing_slashes(site_url);
    r.append(path);
    r
}

/// The value of an `Authorization` header for a pre-encoded credential.
pub fn basic_auth_header(auth: &str) -> (r: String)
    ensures
        r@ == "Basic "@ + auth@,
{
    let mut r = String::from_str("Basic ");
    r.append(auth);
    r
}

/// Credentials handed out by a successful exchange.
#[derive(Debug, Clone, PartialEq, Eq)]
pub struct Credentials {
    pub username: String,
    pub app_password: String,
    pub auth: String,
}

/// What a remote site says of itself in a successful exchange.
#[derive(Debug, Clone, PartialEq, Eq)]
pub struct SiteInfo {
    pub name: String,
    pub url: String,
    pub rest_url: String,
    pub mcp_endpoint: String,
    pub abilities_url: String,
}

/// The envelope a remote site answers a token exchange with.
#[derive(Debug, Clone, PartialEq, Eq)]
pub struct ExchangeResponse {
    pub success: bool,
    pub credentials: Credentials,
    pub site: SiteInfo,
}

/// The longest part of a response body quoted in an error.
pub const BODY_EXCERPT_CHARS: usize = 200;

/// The first `BODY_EXCERPT_CHARS` characters of `body`.
pub open spec fn excerpt(body: Seq<char>) -> Seq<char> {
    if body.len() <= BODY_EXCERPT_CHARS {
        body
    } else {
        body.subrange(0, BODY_EXCERPT_CHARS as int)
    }
}

/// Whether an HTTP status is a success (2xx).
pub open spec fn is_success(status: u16) -> bool {
    200 <= status && status < 300
}

/// The outcome of a token exchange, given the answer's status (as a number
/// and as text), its body, and what decoding the body gave.
pub open spec fn exchange_outcome(
    status: u16,
    status_text: Seq<char>,
    body: Seq<char>,
    parsed: Result<ExchangeResponse, String>,
) -> Result<ExchangeResponse, Seq<char>> {
    if !is_success(status) {
        Err("HTTP "@ + status_text + ": "@ + body)
    } else {
        match parsed {
            Err(e) => Err("Failed to parse response: "@ + e@ + ". Body: "@ + excerpt(body)),
            Ok(resp) => if resp.success {
                Ok(resp)
            } else {
                Err("Exchange failed"@)
            },
        }
    }
}

/// Judges the answer to a token exchange: a non-2xx status, a body that did
/// not decode, or an envelope with `success = false` is a `TokenExchange`
/// failure; otherwise the envelope.
pub fn check_exchange_response(
    status: u16,
    status_text: &str,
    body: &str,
    parsed: Result<ExchangeResponse, String>,
) -> (r: Result<ExchangeResponse, SiteError>)
    ensures
        match exchange_outcome(status, status_text@, body@, parsed) {
            Ok(resp) => r == Ok::<ExchangeResponse, SiteError>(resp),
            Err(m) => r matches Err(SiteError::TokenExchange(d)) && d@ == m,
        },
{
    if !(200 <= status && status < 300) {
        let mut m = String::from_str("HTTP ");
        m.append(status_text);
        m.append(": ");
        m.append(body);
        return Err(SiteError::TokenExchange(m));
    }
    match parsed {
        Err(e) => {
            let mut m = String::from_str("Failed to parse response: ");
            m.append(e.as_str());
            m.append(". Body: ");
            let n = body.unicode_len();
            let cut = if n <= BODY_EXCERPT_CHARS { n } else { BODY_EXCERPT_CHARS };
            let head = body.substring_char(0, cut);
            assert(n <= BODY_EXCERPT_CHARS ==> body@.subrange(0, n as int) =~= body@);
            m.append(head);
            Err(SiteError::TokenExchange(m))
        },
        Ok(resp) => {
            if resp.success {
                Ok(resp)
            } else {
                Err(SiteError::TokenExchange(String::from_str("Exchange failed")))
            }
        },
    }
}

/// The site that a successful exchange registers.
pub open spec fn exchanged_site(
    id: String,
    resp: ExchangeResponse,
    project_dir: String,
    config_hash: Option<String>,
    now: u64,
) -> WordPressSite {
    WordPressSite {
        id: id,
        name: resp.site.name,
        url: resp.site.url,
        rest_url: resp.site.rest_url,
        mcp_endpoint: resp.site.mcp_endpoint,
        abilities_url: resp.site.abilities_url,
        username: resp.credentials.username,
        app_password: resp.credentials.app_password,
        auth: resp.credentials.auth,
        project_dir: project_dir,
        created_at: now,
        last_used_at: now,
        config_hash: config_hash,
        config_updated_at: Some(now),
    }
}

impl SiteManager {
    /// Registers the site that a successful exchange describes, under a new
    /// random id, as the active site; returns that id. `project_dir` is the
    /// directory already prepared for it, `config_hash` the fingerprint that
    /// the first check gave, if any, and `now` the time of linking.
    pub fn add_exchanged_site(
        &mut self,
        resp: ExchangeResponse,
        project_dir: String,
        config_hash: Option<String>,
        now: u64,
    ) -> (r: String)
        requires
            old(self).store.wf(),
        ensures
            final(self).store.wf(),
            r@.len() == 36,
            final(self).store.device_id == old(self).store.device_id,
            opt_view(final(self).store.active_site_id) == Some(r@),
            has_site(old(self).store.sites@, r@) ==> exists|i: int|
                site_at(old(self).store.sites@, r@, i) && final(self).store.sites@
                    == old(self).store.sites@.update(
                    i,
                    exchanged_site(r, resp, project_dir, config_hash, now),
                ),
            !has_site(old(self).store.sites@, r@) ==> final(self).store.sites@
                == old(self).store.sites@.push(
                exchanged_site(r, resp, project_dir, config_hash, now),
            ),
    {
        let id = crate::sites::new_site_id();
        let site = WordPressSite {
            id: id.clone(),
            name: resp.site.name,
            url: resp.site.url,
            rest_url: resp.site.rest_url,
            mcp_endpoint: resp.site.mcp_endpoint,
            abilities_url: resp.site.abilities_url,
            username: resp.credentials.username,
            app_password: resp.credentials.app_password,
            auth: resp.credentials.auth,
            project_dir,
            created_at: now,
            last_used_at: now,
            config_hash,
            config_updated_at: Some(now),
        };
        self.register_site(site);
        id
    }
}

/// A connect URL is refused when the parser refuses it, when its scheme is not
/// `wordforge`, or when it lacks `token` or `site`; otherwise it yields the
/// last `site` and `token` values.
pub proof fn lemma_connect_url_rules(url: Seq<char>)
    ensures
        url_parts_of(url) is None ==> connect_params(url) is None,
        url_parts_of(url) matches Some(p) && p.1 != CONNECT_SCHEME@ ==> connect_params(url) is None,
        url_parts_of(url) matches Some(p) && last_value(p.2, "token"@) is None ==> connect_params(url) is None,
        url_parts_of(url) matches Some(p) && last_value(p.2, "site"@) is None ==> connect_params(url) is None,
        connect_params(url) matches Some(c) ==> (url_parts_of(url) matches Some(p) && p.1
            == CONNECT_SCHEME@ && last_value(p.2, "site"@) == Some(c.0) && last_value(p.2, "token"@)
            == Some(c.1)),
{
}

/// A successful exchange into a registry that lacks the new id leaves exactly
/// one site under that id, one more site in all, and that site active.
pub proof fn lemma_exchange_adds_one_active_site(
    before: Seq<WordPressSite>,
    after: Seq<WordPressSite>,
    site: WordPressSite,
    active: Option<Seq<char>>,
)
    requires
        crate::sites::ids_unique(before),
        !has_site(before, site.id@),
        after == before.push(site),
        active == Some(site.id@),
    ensures
        crate::sites::ids_unique(after),
        after.len() == before.len() + 1,
        has_site(after, site.id@),
        forall|i: int, j: int| site_at(after, site.id@, i) && site_at(after, site.id@, j) ==> i == j,
        forall|i: int| site_at(after, site.id@, i) ==> after[i] == site,
        active matches Some(a) && has_site(after, a),
{
    assert(site_at(after, site.id@, before.len() as int));
    assert forall|i: int| site_at(after, site.id@, i) implies i == before.len() by {
        if i < before.len() {
            assert(after[i] == before[i]);
        }
    }
    assert forall|i: int, j: int|
        0 <= i < after.len() && 0 <= j < after.len() && i != j implies #[trigger] after[i].id@
        != #[trigger] after[j].id@ by {
        if i < before.len() && j < before.len() {
            assert(after[i] == before[i] && after[j] == before[j]);
        } else if i < before.len() {
            assert(after[i] == before[i]);
        } else {
            assert(after[j] == before[j]);
        }
    }
}

} // verus!
