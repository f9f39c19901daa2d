//! Directory names derived from a site's display name.

use vstd::prelude::*;
use crate::text::push_char;

verus! {

/// Characters that may appear in a directory slug: `[a-z0-9_-]`.
pub open spec fn is_slug_char(c: char) -> bool {
    ('a' <= c && c <= 'z') || ('0' <= c && c <= '9') || c == '_' || c == '-'
}

/// ASCII letters and digits.
pub open spec fn is_ascii_alnum(c: char) -> bool {
    ('a' <= c && c <= 'z') || ('A' <= c && c <= 'Z') || ('0' <= c && c <= '9')
}

/// One character of the name as it enters the slug: letters lowered, digits,
/// `_` and `-` kept, everything else a hyphen.
pub open spec fn fold_char(c: char) -> char {
    if 'A' <= c && c <= 'Z' {
        ((c as u32) + 32) as char
    } else if is_ascii_alnum(c) || c == '-' || c == '_' {
        c
    } else {
        '-'
    }
}

pub open spec fn fold_chars(s: Seq<char>) -> Seq<char> {
    s.map_values(|c: char| fold_char(c))
}

/// Drops each hyphen that follows a hyphen, or that comes first when
/// `after_hyphen` holds.
pub open spec fn collapse_hyphens(s: Seq<char>, after_hyphen: bool) -> Seq<char>
    decreases s.len(),
{
    if s.len() == 0 {
        Seq::empty()
    } else if s[0] == '-' {
        if after_hyphen {
            collapse_hyphens(s.drop_first(), true)
        } else {
            seq!['-'] + collapse_hyphens(s.drop_first(), true)
        }
    } else {
        seq![s[0]] + collapse_hyphens(s.drop_first(), false)
    }
}

pub open spec fn drop_trailing_hyphen(s: Seq<char>) -> Seq<char> {
    if s.len() > 0 && s.last() == '-' {
        s.drop_last()
    } else {
        s
    }
}

/// The name used when nothing of the display name survives.
pub open spec fn fallback_slug() -> Seq<char> {
    seq!['w', 'o', 'r', 'd', 'p', 'r', 'e', 's', 's', '-', 's', 'i', 't', 'e']
}

/// The slug of an already transliterated name.
pub open spec fn slug_of(s: Seq<char>) -> Seq<char> {
    let r = drop_trailing_hyphen(collapse_hyphens(fold_chars(s), true));
    if r.len() == 0 {
        fallback_slug()
    } else {
        r
    }
}

/// A well-formed slug: non-empty, over `[a-z0-9_-]`, with no hyphen at
/// either end and no two hyphens in a row.
pub open spec fn is_slug(s: Seq<char>) -> bool {
    &&& s.len() > 0
    &&& forall|i: int| 0 <= i < s.len() ==> is_slug_char(#[trigger] s[i])
    &&& s[0] != '-'
    &&& s.last() != '-'
    &&& forall|i: int| 0 <= i < s.len() - 1 ==> !(#[trigger] s[i] == '-' && s[i + 1] == '-')
}

proof fn lemma_fold_gives_slug_chars(s: Seq<char>)
    ensures
        fold_chars(s).len() == s.len(),
        forall|i: int| 0 <= i < s.len() ==> is_slug_char(#[trigger] fold_chars(s)[i]),
{
}

proof fn lemma_fold_keeps_slug_chars(s: Seq<char>)
    requires
        forall|i: int| 0 <= i < s.len() ==> is_slug_char(#[trigger] s[i]),
    ensures
        fold_chars(s) == s,
{
    assert(fold_chars(s) =~= s);
}

/// No two hyphens in a row.
pub open spec fn no_double_hyphen(s: Seq<char>) -> bool {
    forall|i: int| 0 <= i < s.len() - 1 ==> !(#[trigger] s[i] == '-' && s[i + 1] == '-')
}

proof fn lemma_collapse_shape(s: Seq<char>, after_hyphen: bool)
    requires
        forall|i: int| 0 <= i < s.len() ==> is_slug_char(#[trigger] s[i]),
    ensures
        ({
            let r = collapse_hyphens(s, after_hyphen);
            &&& forall|i: int| 0 <= i < r.len() ==> is_slug_char(#[trigger] r[i])
            &&& after_hyphen ==> (r.len() == 0 || r[0] != '-')
            &&& no_double_hyphen(r)
        }),
    decreases s.len(),
{
    if s.len() > 0 {
        let t = s.drop_first();
        assert forall|i: int| 0 <= i < t.len() implies is_slug_char(#[trigger] t[i]) by {
            assert(t[i] == s[i + 1]);
        }
        lemma_collapse_shape(t, true);
        lemma_collapse_shape(t, false);
        let r = collapse_hyphens(s, after_hyphen);
        if s[0] == '-' && !after_hyphen {
            let tail = collapse_hyphens(t, true);
            assert(r == seq!['-'] + tail);
            assert forall|i: int| 0 <= i < r.len() - 1 implies !(#[trigger] r[i] == '-' && r[i
                + 1] == '-') by {
                if i > 0 {
                    assert(r[i] == tail[i - 1] && r[i + 1] == tail[i]);
                }
            }
        } else if s[0] != '-' {
            let tail = collapse_hyphens(t, false);
            assert(r == seq![s[0]] + tail);
            assert forall|i: int| 0 <= i < r.len() - 1 implies !(#[trigger] r[i] == '-' && r[i
                + 1] == '-') by {
                if i > 0 {
                    assert(r[i] == tail[i - 1] && r[i + 1] == tail[i]);
                }
            }
        }
    }
}

proof fn lemma_collapse_keeps_clean(s: Seq<char>, after_hyphen: bool)
    requires
        no_double_hyphen(s),
        after_hyphen ==> (s.len() == 0 || s[0] != '-'),
    ensures
        collapse_hyphens(s, after_hyphen) == s,
    decreases s.len(),
{
    if s.len() > 0 {
        let t = s.drop_first();
        assert forall|i: int| 0 <= i < t.len() - 1 implies !(#[trigger] t[i] == '-' && t[i + 1]
            == '-') by {
            assert(t[i] == s[i + 1] && t[i + 1] == s[i + 2]);
        }
        if s[0] == '-' {
            assert(t.len() > 0 ==> t[0] == s[1]);
            lemma_collapse_keeps_clean(t, true);
        } else {
            lemma_collapse_keeps_clean(t, false);
        }
        assert(s =~= seq![s[0]] + t);
    }
}

/// Every name gives a well-formed slug, and a slug is its own slug: so
/// sanitizing the result of a sanitization changes nothing.
pub proof fn lemma_slug_well_formed_and_stable(s: Seq<char>)
    ensures
        is_slug(slug_of(s)),
        slug_of(slug_of(s)) == slug_of(s),
        forall|i: int|
            0 <= i < slug_of(s).len() ==> (#[trigger] slug_of(s)[i] as u32) < 0x7f,
{
    lemma_slug_well_formed(s);
    lemma_slug_is_fixed_point_and_ascii(slug_of(s));
}

proof fn lemma_slug_well_formed(s: Seq<char>)
    ensures
        is_slug(slug_of(s)),
{
    lemma_fold_gives_slug_chars(s);
    let c = collapse_hyphens(fold_chars(s), true);
    lemma_collapse_shape(fold_chars(s), true);
    let r = drop_trailing_hyphen(c);
    if r.len() == 0 {
        let f = fallback_slug();
        assert(f[9] == '-');
        assert forall|i: int| 0 <= i < f.len() - 1 implies !(#[trigger] f[i] == '-' && f[i + 1]
            == '-') by {
            if i == 9 {
            } else if i == 8 {
            }
        }
    } else {
        assert(forall|i: int| 0 <= i < r.len() ==> r[i] == c[i]);
        if c.len() > 0 && c.last() == '-' {
            assert(c.len() >= 2);
            assert(!(c[c.len() - 2] == '-' && c[c.len() - 1] == '-'));
        }
    }
}

proof fn lemma_slug_is_fixed_point_and_ascii(s: Seq<char>)
    requires
        is_slug(s),
    ensures
        slug_of(s) == s,
        forall|i: int| 0 <= i < s.len() ==> (#[trigger] s[i] as u32) < 0x7f,
{
    lemma_fold_keeps_slug_chars(s);
    lemma_collapse_keeps_clean(s, true);
}

/// What `deunicode::deunicode` makes of a string.
pub uninterp spec fn ascii_transliteration_of(s: Seq<char>) -> Seq<char>;

/// Relies on `deunicode::deunicode`: its result depends on the characters
/// alone, and a string whose characters all lie below U+007F comes back as it
/// was.
#[verifier::external_body]
fn transliterate(s: &str) -> (r: String)
    ensures
        r@ == ascii_transliteration_of(s@),
        (forall|i: int| 0 <= i < s@.len() ==> (s@[i] as u32) < 0x7f) ==> r@ == s@,
{
    deunicode::deunicode(s)
}

fn fold_one(c: char) -> (r: char)
    ensures
        r == fold_char(c),
{
    if 'A' <= c && c <= 'Z' {
        let b: u8 = c as u8;
        let r = (b + 32) as char;
        assert(r == ((c as u32) + 32) as char);
        r
    } else if ('a' <= c && c <= 'z') || ('0' <= c && c <= '9') || c == '-' || c == '_' {
        c
    } else {
        '-'
    }
}

/// The slug of `ascii`, taken as it is: lowered, every character outside
/// `[a-z0-9_-]` turned into a hyphen, runs of hyphens collapsed, a leading or
/// trailing hyphen dropped, and `wordpress-site` when nothing is left.
pub fn sanitize_ascii(ascii: &str) -> (r: String)
    ensures
        r@ == slug_of(ascii@),
{
    let n = ascii.unicode_len();
    let ghost folded = fold_chars(ascii@);
    let mut result = String::new();
    let mut last_was_hyphen = true;
    let mut i: usize = 0;
    assert(folded.subrange(0, n as int) =~= folded);
    while i < n
        invariant
            n == ascii@.len(),
            folded == fold_chars(ascii@),
            i <= n,
            result@ + collapse_hyphens(folded.subrange(i as int, n as int), last_was_hyphen)
                == collapse_hyphens(folded, true),
        decreases n - i,
    {
        let c = fold_one(ascii.get_char(i));
        let ghost rest = folded.subrange(i as int, n as int);
        assert(rest[0] == c);
        assert(rest.drop_first() =~= folded.subrange(i + 1, n as int));
        if c == '-' {
            if !last_was_hyphen {
                push_char(&mut result, c);
                last_was_hyphen = true;
            }
        } else {
            push_char(&mut result, c);
            last_was_hyphen = false;
        }
        proof {
            assert(result@ + collapse_hyphens(folded.subrange(i + 1, n as int), last_was_hyphen)
                =~= collapse_hyphens(folded, true));
        }
        i = i + 1;
    }
    assert(folded.subrange(n as int, n as int) =~= Seq::<char>::empty());
    assert(result@ =~= collapse_hyphens(folded, true));
    let len = result.unicode_len();
    if len > 0 && result.get_char(len - 1) == '-' {
        let trimmed = result.substring_char(0, len - 1);
        let out = String::from_str(trimmed);
        assert(out@ =~= result@.drop_last());
        result = out;
    }
    if result.unicode_len() == 0 {
        let fallback = String::from_str("wordpress-site");
        proof {
            reveal_strlit("wordpress-site");
        }
        assert(fallback@ =~= fallback_slug());
        return fallback;
    }
    result
}

/// Turns a display name into a directory slug: transliterated to ASCII, then
/// as [`sanitize_ascii`] does.
pub fn sanitize_site_name(site_name: &str) -> (r: String)
    ensures
        r@ == slug_of(ascii_transliteration_of(site_name@)),
        (forall|i: int| 0 <= i < site_name@.len() ==> (site_name@[i] as u32) < 0x7f)
            ==> r@ == slug_of(site_name@),
{
    let ascii = transliterate(site_name);
    sanitize_ascii(ascii.as_str())
}

} // verus!
