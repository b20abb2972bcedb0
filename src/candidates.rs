//! Expands a site address typed by a user into the ordered list of
//! absolute URLs that discovery probes.

use vstd::prelude::*;

verus! {

pub open spec fn is_ascii_alpha(c: char) -> bool {
    ('a' <= c && c <= 'z') || ('A' <= c && c <= 'Z')
}

/// A character that may appear in a URL scheme after its first letter.
pub open spec fn is_scheme_char(c: char) -> bool {
    is_ascii_alpha(c) || ('0' <= c && c <= '9') || c == '+' || c == '-' || c == '.'
}

/// `s` starts with a scheme of length `k` followed by `://`.
pub open spec fn scheme_ends_at(s: Seq<char>, k: int) -> bool {
    &&& 0 < k
    &&& k + 3 <= s.len()
    &&& is_ascii_alpha(s[0])
    &&& forall|i: int| 0 <= i < k ==> is_scheme_char(#[trigger] s[i])
    &&& s[k] == ':'
    &&& s[k + 1] == '/'
    &&& s[k + 2] == '/'
}

pub open spec fn has_scheme(s: Seq<char>) -> bool {
    exists|k: int| scheme_ends_at(s, k)
}

/// The length of the `scheme://` prefix of an address that has one.
pub open spec fn scheme_prefix_len(s: Seq<char>) -> int
    recommends
        has_scheme(s),
{
    (choose|k: int| scheme_ends_at(s, k)) + 3
}

pub open spec fn strip_trailing_slashes(s: Seq<char>) -> Seq<char>
    decreases s.len(),
{
    if s.len() > 0 && s.last() == '/' {
        strip_trailing_slashes(s.drop_last())
    } else {
        s
    }
}

pub open spec fn https_prefix() -> Seq<char> {
    seq!['h', 't', 't', 'p', 's', ':', '/', '/']
}

pub open spec fn http_prefix() -> Seq<char> {
    seq!['h', 't', 't', 'p', ':', '/', '/']
}

pub open spec fn www_prefix() -> Seq<char> {
    seq!['w', 'w', 'w', '.']
}

pub open spec fn starts_with_www(s: Seq<char>) -> bool {
    s.len() >= 4 && s.subrange(0, 4) == www_prefix()
}

/// The candidates for an address that names its scheme: the address with
/// trailing slashes removed, then the same with `www.` before the host when
/// the host does not start with it.
pub open spec fn candidates_with_scheme(raw: Seq<char>) -> Seq<Seq<char>> {
    let prefix = raw.subrange(0, scheme_prefix_len(raw));
    let rest = strip_trailing_slashes(raw.subrange(scheme_prefix_len(raw), raw.len() as int));
    if rest.len() > 0 && !starts_with_www(rest) {
        seq![prefix + rest, prefix + www_prefix() + rest]
    } else {
        seq![prefix + rest]
    }
}

/// The candidates for an address without a scheme: `https://` first, then
/// `http://`, each also with `www.` when the address does not start with it.
pub open spec fn candidates_without_scheme(raw: Seq<char>) -> Seq<Seq<char>> {
    let body = strip_trailing_slashes(raw);
    if body.len() == 0 {
        seq![]
    } else if starts_with_www(body) {
        seq![https_prefix() + body, http_prefix() + body]
    } else {
        seq![
            https_prefix() + body,
            http_prefix() + body,
            https_prefix() + www_prefix() + body,
            http_prefix() + www_prefix() + body,
        ]
    }
}

/// The ordered candidate URLs for a raw site address; earlier ones have
/// priority.
pub open spec fn candidate_urls(raw: Seq<char>) -> Seq<Seq<char>> {
    if has_scheme(raw) {
        candidates_with_scheme(raw)
    } else {
        candidates_without_scheme(raw)
    }
}

pub open spec fn views_of(v: Seq<String>) -> Seq<Seq<char>> {
    v.map_values(|s: String| s@)
}

proof fn lemma_scheme_end_unique(s: Seq<char>, k1: int, k2: int)
    requires
        scheme_ends_at(s, k1),
        scheme_ends_at(s, k2),
    ensures
        k1 == k2,
{
    if k1 < k2 {
        assert(is_scheme_char(s[k1]));
    } else if k2 < k1 {
        assert(is_scheme_char(s[k2]));
    }
}

/// An address that names its scheme always gives at least one candidate,
/// the first being the address itself when it has no trailing slash.
pub proof fn lemma_scheme_input_has_candidates(raw: Seq<char>)
    requires
        has_scheme(raw),
    ensures
        candidate_urls(raw).len() > 0,
        raw.last() != '/' ==> candidate_urls(raw)[0] == raw,
{
    let p = scheme_prefix_len(raw);
    let tail = raw.subrange(p, raw.len() as int);
    if raw.last() != '/' {
        if tail.len() > 0 {
            assert(tail.last() == raw.last());
        }
        assert(strip_trailing_slashes(tail) == tail);
        assert(raw.subrange(0, p) + tail =~= raw);
    }
}

/// Any non-empty address without a trailing slash, whatever scheme it
/// names or lacks, gives at least one candidate.
pub proof fn lemma_nonempty_input_has_candidates(raw: Seq<char>)
    requires
        raw.len() > 0,
        raw.last() != '/',
    ensures
        candidate_urls(raw).len() > 0,
{
    if has_scheme(raw) {
        lemma_scheme_input_has_candidates(raw);
    } else {
        assert(strip_trailing_slashes(raw) == raw);
    }
}

/// The candidate list depends on the address alone: equal addresses give
/// equal lists, on every call.
pub proof fn lemma_candidates_deterministic(a: Seq<char>, b: Seq<char>)
    requires
        a == b,
    ensures
        candidate_urls(a) == candidate_urls(b),
{
}

/// An address without a scheme that is not empty once trailing slashes are
/// removed gives both its `https://` and its `http://` form, in that order,
/// before any other candidate.
pub proof fn lemma_both_schemes_tried(raw: Seq<char>)
    requires
        !has_scheme(raw),
        strip_trailing_slashes(raw).len() > 0,
    ensures
        candidate_urls(raw).len() >= 2,
        candidate_urls(raw)[0] == https_prefix() + strip_trailing_slashes(raw),
        candidate_urls(raw)[1] == http_prefix() + strip_trailing_slashes(raw),
{
}

fn is_scheme_char_exec(c: char) -> (r: bool)
    ensures
        r == is_scheme_char(c),
{
    ('a' <= c && c <= 'z') || ('A' <= c && c <= 'Z') || ('0' <= c && c <= '9') || c == '+'
        || c == '-' || c == '.'
}

/// Returns the length of the `scheme://` prefix of `s`, if it has one.
fn find_scheme_prefix(s: &str) -> (r: Option<usize>)
    ensures
        r is Some <==> has_scheme(s@),
        r is Some ==> r->0 == scheme_prefix_len(s@),
{
    let len = s.unicode_len();
    let mut i: usize = 0;
    while i < len && is_scheme_char_exec(s.get_char(i))
        invariant
            len == s@.len(),
            i <= len,
            forall|j: int| 0 <= j < i ==> is_scheme_char(#[trigger] s@[j]),
        decreases len - i,
    {
        i = i + 1;
    }
    if i > 0 && len - i >= 3 && is_ascii_alpha_exec(s.get_char(0)) && s.get_char(i) == ':'
        && s.get_char(i + 1) == '/' && s.get_char(i + 2) == '/' {
        assert(scheme_ends_at(s@, i as int));
        proof {
            let k = choose|k: int| scheme_ends_at(s@, k);
            lemma_scheme_end_unique(s@, k, i as int);
        }
        Some(i + 3)
    } else {
        proof {
            if has_scheme(s@) {
                let k = choose|k: int| scheme_ends_at(s@, k);
                if k < i {
                    assert(is_scheme_char(s@[k]));
                } else if k > i {
                    assert(is_scheme_char(s@[i as int]));
                }
            }
        }
        None
    }
}

fn is_ascii_alpha_exec(c: char) -> (r: bool)
    ensures
        r == is_ascii_alpha(c),
{
    ('a' <= c && c <= 'z') || ('A' <= c && c <= 'Z')
}

/// The end of `s` once trailing slashes after position `start` are removed.
fn end_without_trailing_slashes(s: &str, start: usize) -> (end: usize)
    requires
        start <= s@.len(),
    ensures
        start <= end <= s@.len(),
        s@.subrange(start as int, end as int) == strip_trailing_slashes(
            s@.subrange(start as int, s@.len() as int),
        ),
{
    let len = s.unicode_len();
    let mut end: usize = len;
    while end > start && s.get_char(end - 1) == '/'
        invariant
            len == s@.len(),
            start <= end <= len,
            strip_trailing_slashes(s@.subrange(start as int, end as int))
                == strip_trailing_slashes(s@.subrange(start as int, len as int)),
        decreases end,
    {
        assert(s@.subrange(start as int, end as int).drop_last() =~= s@.subrange(
            start as int,
            end - 1,
        ));
        end = end - 1;
    }
    end
}

fn starts_with_www_exec(s: &str) -> (r: bool)
    ensures
        r == starts_with_www(s@),
{
    let len = s.unicode_len();
    if len < 4 {
        return false;
    }
    let r = s.get_char(0) == 'w' && s.get_char(1) == 'w' && s.get_char(2) == 'w' && s.get_char(3)
        == '.';
    assert(r == (s@.subrange(0, 4) =~= www_prefix()));
    r
}

fn concat3(a: &str, b: &str, c: &str) -> (r: String)
    ensures
        r@ == a@ + b@ + c@,
{
    let mut r = String::from_str(a);
    r.append(b);
    r.append(c);
    r
}

/// Expands a raw site address into the ordered, duplicate-free list of
/// candidate URLs to probe. Does no I/O; the same input always gives the
/// same list. An address without a scheme that is empty once trailing
/// slashes are removed gives no candidate.
pub fn construct_attempts(site_url: &str) -> (r: Vec<String>)
    ensures
        views_of(r@) == candidate_urls(site_url@),
        views_of(r@).no_duplicates(),
{
    let https = "https://";
    let http = "http://";
    let www = "www.";
    proof {
        reveal_strlit("https://");
        reveal_strlit("http://");
        reveal_strlit("www.");
        assert(https@ =~= https_prefix());
        assert(http@ =~= http_prefix());
        assert(www@ =~= www_prefix());
    }
    let len = site_url.unicode_len();
    let mut out: Vec<String> = Vec::new();
    match find_scheme_prefix(site_url) {
        Some(k) => {
            let end = end_without_trailing_slashes(site_url, k);
            let prefix = site_url.substring_char(0, k);
            let rest = site_url.substring_char(k, end);
            out.push(concat3(prefix, "", rest));
            if end > k && !starts_with_www_exec(rest) {
                out.push(concat3(prefix, www, rest));
            }
        },
        None => {
            let end = end_without_trailing_slashes(site_url, 0);
            assert(site_url@.subrange(0, len as int) =~= site_url@);
            if end > 0 {
                let body = site_url.substring_char(0, end);
                out.push(concat3(https, "", body));
                out.push(concat3(http, "", body));
                if !starts_with_www_exec(body) {
                    out.push(concat3(https, www, body));
                    out.push(concat3(http, www, body));
                }
            }
        },
    }
    proof {
        reveal_strlit("");
        let c = candidate_urls(site_url@);
        assert(views_of(out@) =~= c);
        assert forall|i: int, j: int|
            0 <= i < c.len() && 0 <= j < c.len() && i != j implies c[i] != c[j] by {
            assert(c[i].len() != c[j].len());
        }
    }
    out
}

} // verus!
