//! Deep-link delivery of linking tokens, with each token acted on once per
//! process.

use vstd::prelude::*;
use crate::connect::{connect_params, parse_url, url_parts_of};
use crate::sites::SiteManager;
use crate::text::{has_prefix, starts_with, str_eq};

verus! {

/// The prefix of a connect URL among command-line arguments.
pub const CONNECT_URL_PREFIX: &'static str = "wordforge://";

/// The tokens already consumed in this process.
pub struct ProcessedTokens {
    tokens: Vec<String>,
}

/// What a deep link asks the interface to do: link the site at `site_url`
/// with `token`.
#[derive(Debug, Clone, PartialEq, Eq)]
pub struct DeepLinkPayload {
    pub url: String,
    pub site_url: String,
    pub token: String,
    pub name: String,
}

/// A payload as characters: `(url, site_url, token, name)`.
pub type PayloadView = (Seq<char>, Seq<char>, Seq<char>, Seq<char>);

impl DeepLinkPayload {
    pub open spec fn view_parts(&self) -> PayloadView {
        (self.url@, self.site_url@, self.token@, self.name@)
    }
}

/// One link against the set of consumed tokens: the new set, and the payload
/// to act on when the link is valid and its token is new.
pub open spec fn accept_one(seen: Set<Seq<char>>, url: Seq<char>) -> (Set<Seq<char>>, Option<PayloadView>) {
    match connect_params(url) {
        None => (seen, None),
        Some(p) => (
            seen.insert(p.1),
            if seen.contains(p.1) {
                None
            } else {
                Some((url, p.0, p.1, p.2))
            },
        ),
    }
}

/// Links taken in order against the set of consumed tokens.
pub open spec fn accept_all(seen: Set<Seq<char>>, urls: Seq<Seq<char>>) -> (Set<Seq<char>>, Seq<PayloadView>)
    decreases urls.len(),
{
    if urls.len() == 0 {
        (seen, Seq::empty())
    } else {
        let before = accept_all(seen, urls.drop_last());
        let step = accept_one(before.0, urls.last());
        (
            step.0,
            match step.1 {
                Some(p) => before.1.push(p),
                None => before.1,
            },
        )
    }
}

/// The connect URLs among command-line arguments: those that start with
/// `wordforge://` and parse, as the parser writes them back.
pub open spec fn cli_links(args: Seq<Seq<char>>) -> Seq<Seq<char>>
    decreases args.len(),
{
    if args.len() == 0 {
        Seq::empty()
    } else {
        let a = args.last();
        if has_prefix(a, CONNECT_URL_PREFIX@) && url_parts_of(a) is Some {
            cli_links(args.drop_last()).push((url_parts_of(a)->0).0)
        } else {
            cli_links(args.drop_last())
        }
    }
}

impl View for ProcessedTokens {
    type V = Set<Seq<char>>;

    closed spec fn view(&self) -> Set<Seq<char>> {
        Set::new(|t: Seq<char>| exists|i: int| 0 <= i < self.tokens@.len() && #[trigger] self.tokens@[i]@ == t)
    }
}

impl ProcessedTokens {
    /// No token consumed yet.
    pub fn new() -> (r: Self)
        ensures
            r@ == Set::<Seq<char>>::empty(),
    {
        let r = ProcessedTokens { tokens: Vec::new() };
        assert(r@ =~= Set::<Seq<char>>::empty());
        r
    }

    /// Consumes `token`; true exactly when it had not been consumed before.
    pub fn is_new(&mut self, token: &str) -> (r: bool)
        ensures
            r == !old(self)@.contains(token@),
            final(self)@ == old(self)@.insert(token@),
    {
        let n = self.tokens.len();
        let mut i: usize = 0;
        while i < n
            invariant
                n == self.tokens@.len(),
                i <= n,
                forall|j: int| 0 <= j < i ==> #[trigger] self.tokens@[j]@ != token@,
            decreases n - i,
        {
            if str_eq(self.tokens[i].as_str(), token) {
                assert(self@.contains(token@));
                assert(self@.insert(token@) =~= self@);
                return false;
            }
            i = i + 1;
        }
        let ghost before = *self;
        self.tokens.push(String::from_str(token));
        assert(!before@.contains(token@));
        assert forall|t: Seq<char>| self@.contains(t) <==> before@.insert(token@).contains(t) by {
            if self@.contains(t) {
                let j = choose|j: int| 0 <= j < self.tokens@.len() && #[trigger] self.tokens@[j]@ == t;
                if j < n {
                    assert(before.tokens@[j]@ == t);
                }
            }
            if before@.contains(t) {
                let j = choose|j: int| 0 <= j < before.tokens@.len() && #[trigger] before.tokens@[j]@ == t;
                assert(self.tokens@[j]@ == t);
            }
            if t == token@ {
                assert(self.tokens@[n as int]@ == t);
            }
        }
        assert(self@ =~= before@.insert(token@));
        true
    }

    /// Reads one connect URL. A valid one consumes its token; the payload to
    /// act on comes back only the first time that token is seen.
    pub fn accept_link(&mut self, url: &str) -> (r: Option<DeepLinkPayload>)
        ensures
            (final(self)@, match r {
                Some(p) => Some(p.view_parts()),
                None => None,
            }) == accept_one(old(self)@, url@),
    {
        match SiteManager::parse_connect_url(url) {
            Ok((site_url, token, name)) => {
                if !self.is_new(token.as_str()) {
                    return None;
                }
                Some(DeepLinkPayload { url: String::from_str(url), site_url, token, name })
            },
            Err(_) => None,
        }
    }

    /// Reads the URLs of one deep-link delivery in order; returns the payloads
    /// to act on.
    pub fn handle_deep_link(&mut self, urls: &Vec<String>) -> (r: Vec<DeepLinkPayload>)
        ensures
            (final(self)@, r@.map_values(|p: DeepLinkPayload| p.view_parts())) == accept_all(
                old(self)@,
                urls@.map_values(|u: String| u@),
            ),
    {
        let ghost start = self@;
        let ghost uv = urls@.map_values(|u: String| u@);
        let mut out: Vec<DeepLinkPayload> = Vec::new();
        let n = urls.len();
        let mut i: usize = 0;
        assert(uv.subrange(0, 0) =~= Seq::<Seq<char>>::empty());
        assert(out@.map_values(|p: DeepLinkPayload| p.view_parts()) =~= Seq::<PayloadView>::empty());
        while i < n
            invariant
                n == urls@.len(),
                uv == urls@.map_values(|u: String| u@),
                i <= n,
                (self@, out@.map_values(|p: DeepLinkPayload| p.view_parts())) == accept_all(
                    start,
                    uv.subrange(0, i as int),
                ),
            decreases n - i,
        {
            let ghost prev_out = out@;
            let got = self.accept_link(urls[i].as_str());
            let ghost prefix = uv.subrange(0, i + 1);
            assert(prefix.drop_last() =~= uv.subrange(0, i as int));
            assert(prefix.last() == urls@[i as int]@);
            match got {
                Some(p) => {
                    out.push(p);
                    assert(out@.map_values(|p: DeepLinkPayload| p.view_parts()) =~= prev_out.map_values(
                        |p: DeepLinkPayload| p.view_parts(),
                    ).push(p.view_parts()));
                },
                None => {},
            }
            i = i + 1;
        }
        assert(uv.subrange(0, n as int) =~= uv);
        out
    }

    /// Reads the connect URLs among command-line arguments, as a second
    /// launch of the program hands them over; returns the payloads to act on.
    pub fn handle_cli_deep_link(&mut self, args: &Vec<String>) -> (r: Vec<DeepLinkPayload>)
        ensures
            (final(self)@, r@.map_values(|p: DeepLinkPayload| p.view_parts())) == accept_all(
                old(self)@,
                cli_links(args@.map_values(|a: String| a@)),
            ),
    {
        let ghost av = args@.map_values(|a: String| a@);
        let mut links: Vec<String> = Vec::new();
        let n = args.len();
        let mut i: usize = 0;
        assert(av.subrange(0, 0) =~= Seq::<Seq<char>>::empty());
        assert(links@.map_values(|u: String| u@) =~= Seq::<Seq<char>>::empty());
        while i < n
            invariant
                n == args@.len(),
                av == args@.map_values(|a: String| a@),
                i <= n,
                links@.map_values(|u: String| u@) == cli_links(av.subrange(0, i as int)),
            decreases n - i,
        {
            let ghost prev = links@;
            let ghost prefix = av.subrange(0, i + 1);
            assert(prefix.drop_last() =~= av.subrange(0, i as int));
            assert(prefix.last() == args@[i as int]@);
            let arg = args[i].as_str();
            if starts_with(arg, CONNECT_URL_PREFIX) {
                match parse_url(arg) {
                    Ok(parts) => {
                        links.push(parts.serialization);
                        assert(links@.map_values(|u: String| u@) =~= prev.map_values(|u: String| u@).push(
                            parts.serialization@,
                        ));
                    },
                    Err(_) => {},
                }
            }
            i = i + 1;
        }
        assert(av.subrange(0, n as int) =~= av);
        self.handle_deep_link(&links)
    }
}

/// A token is acted on at most once: after a link has been accepted, a second
/// delivery of any link with the same token yields nothing.
pub proof fn lemma_token_acted_on_once(seen: Set<Seq<char>>, first: Seq<char>, second: Seq<char>)
    requires
        connect_params(first) is Some,
        connect_params(second) is Some,
        (connect_params(first)->0).1 == (connect_params(second)->0).1,
    ensures
        accept_one(accept_one(seen, first).0, second).1 is None,
        accept_one(seen, first).1 is Some <==> !seen.contains((connect_params(first)->0).1),
{
}

} // verus!
