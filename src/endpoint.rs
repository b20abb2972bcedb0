//! URLs of REST API endpoints, built under a site's `wp-json/wp/v2` base.

use vstd::prelude::*;

use crate::candidates::views_of;
use crate::parsed_url::{url_extend_result, url_parse_result, ParseUrlError, ParsedUrl};

verus! {

/// The URL of an endpoint as handed to the request executor.
#[derive(Debug, Clone, PartialEq, Eq)]
pub struct WpEndpointUrl(pub String);

#[derive(Debug, Clone, PartialEq, Eq)]
pub struct ApiEndpointUrl {
    url: ParsedUrl,
}

impl View for ApiEndpointUrl {
    type V = Seq<char>;

    closed spec fn view(&self) -> Seq<char> {
        self.url@
    }
}

impl ApiEndpointUrl {
    pub fn new(url: ParsedUrl) -> (r: ApiEndpointUrl)
        ensures
            r@ == url@,
    {
        ApiEndpointUrl { url }
    }

    pub fn url(&self) -> (r: &ParsedUrl)
        ensures
            r@ == self@,
    {
        &self.url
    }

    pub fn as_str(&self) -> (r: &str)
        ensures
            r@ == self@,
    {
        self.url.as_str()
    }

    pub fn to_wp_endpoint_url(&self) -> (r: WpEndpointUrl)
        ensures
            r.0@ == self@,
    {
        WpEndpointUrl(self.url.url())
    }
}

impl From<ParsedUrl> for ApiEndpointUrl {
    fn from(url: ParsedUrl) -> (r: ApiEndpointUrl) {
        ApiEndpointUrl { url }
    }
}

impl vstd::std_specs::convert::FromSpecImpl<ParsedUrl> for ApiEndpointUrl {
    open spec fn obeys_from_spec() -> bool {
        true
    }

    closed spec fn from_spec(url: ParsedUrl) -> ApiEndpointUrl {
        ApiEndpointUrl { url }
    }
}

/// The path segments of the REST API base: `wp-json`, `wp`, `v2`.
pub open spec fn wp_json_path_segments() -> Seq<Seq<char>> {
    seq!["wp-json"@, "wp"@, "v2"@]
}

/// The pieces of `s` between slashes, as `str::split('/')` gives them:
/// one more than the number of slashes, empty pieces included.
pub open spec fn split_on_slash(s: Seq<char>) -> Seq<Seq<char>>
    decreases s.len(),
{
    if s.len() == 0 {
        seq![Seq::<char>::empty()]
    } else {
        let prev = split_on_slash(s.drop_last());
        if s.last() == '/' {
            prev.push(Seq::<char>::empty())
        } else {
            prev.update(prev.len() - 1, prev.last().push(s.last()))
        }
    }
}

/// The pieces of all `segments`, each split on slashes, in order.
pub open spec fn split_all_on_slash(segments: Seq<Seq<char>>) -> Seq<Seq<char>>
    decreases segments.len(),
{
    if segments.len() == 0 {
        Seq::<Seq<char>>::empty()
    } else {
        split_all_on_slash(segments.drop_last()) + split_on_slash(segments.last())
    }
}

proof fn lemma_split_nonempty(s: Seq<char>)
    ensures
        split_on_slash(s).len() > 0,
    decreases s.len(),
{
    if s.len() > 0 {
        lemma_split_nonempty(s.drop_last());
    }
}

/// Splits `s` on `/` and appends the pieces to `out`.
fn push_split_on_slash(s: &str, out: &mut Vec<String>)
    ensures
        views_of(final(out)@) == views_of(old(out)@) + split_on_slash(s@),
{
    let n = s.unicode_len();
    let ghost start_out = views_of(out@);
    let mut start: usize = 0;
    let mut i: usize = 0;
    assert(s@.subrange(0, 0) =~= Seq::<char>::empty());
    while i < n
        invariant
            n == s@.len(),
            start <= i <= n,
            views_of(out@) + seq![s@.subrange(start as int, i as int)] == start_out
                + split_on_slash(s@.subrange(0, i as int)),
        decreases n - i,
    {
        let ghost before = s@.subrange(0, i as int);
        let ghost now = s@.subrange(0, i + 1);
        let ghost prev = split_on_slash(before);
        let ghost old_views = views_of(out@);
        assert(now.drop_last() =~= before);
        assert(now.last() == s@[i as int]);
        proof {
            lemma_split_nonempty(before);
        }
        assert(old_views + seq![s@.subrange(start as int, i as int)] == start_out + prev);
        if s.get_char(i) == '/' {
            let piece = s.substring_char(start, i);
            out.push(piece.to_string());
            assert(views_of(out@) =~= old_views.push(piece@));
            assert(split_on_slash(now) == prev.push(Seq::<char>::empty()));
            assert(s@.subrange(i + 1, i + 1) =~= Seq::<char>::empty());
            assert(old_views.push(piece@) + seq![Seq::<char>::empty()] =~= (old_views + seq![piece@]).push(Seq::<char>::empty()));
            assert((start_out + prev).push(Seq::<char>::empty()) =~= start_out + prev.push(Seq::<char>::empty()));
            assert(views_of(out@) + seq![s@.subrange(i + 1, i + 1)] =~= start_out
                + split_on_slash(now));
            start = i + 1;
        } else {
            assert(split_on_slash(now) == prev.update(prev.len() - 1, prev.last().push(s@[i as int])));
            assert(s@.subrange(start as int, i + 1) =~= s@.subrange(start as int, i as int).push(s@[i as int]));
            let ghost q = start_out + prev;
            let ghost v = s@.subrange(start as int, i + 1);
            assert(q.last() == s@.subrange(start as int, i as int));
            assert(start_out + prev.update(prev.len() - 1, v) =~= q.update(q.len() - 1, v));
            assert(q.update(q.len() - 1, v) =~= old_views + seq![v]);
            assert(views_of(out@) + seq![s@.subrange(start as int, i + 1)] =~= start_out
                + split_on_slash(now));
        }
        i = i + 1;
    }
    let last = s.substring_char(start, n);
    out.push(last.to_string());
    assert(s@.subrange(0, n as int) =~= s@);
    assert(views_of(out@) =~= start_out + split_on_slash(s@));
}

/// The base URL of the REST API of a site: the site URL with the path
/// segments `wp-json/wp/v2` appended.
#[derive(Debug, PartialEq, Eq)]
pub struct ApiBaseUrl {
    url: ParsedUrl,
}

impl View for ApiBaseUrl {
    type V = Seq<char>;

    closed spec fn view(&self) -> Seq<char> {
        self.url@
    }
}

impl ApiBaseUrl {
    /// Any path can be appended to the base.
    #[verifier::type_invariant]
    spec fn extendable(&self) -> bool {
        forall|more: Seq<Seq<char>>| #[trigger] url_extend_result(self.url@, more) is Some
    }

    pub fn new(site_base_url: &str) -> (r: Result<ApiBaseUrl, ParseUrlError>)
        ensures
            r is Ok <==> (url_parse_result(site_base_url@) matches Some(u) && url_extend_result(
                u,
                wp_json_path_segments(),
            ) is Some),
            r matches Ok(b) ==> (url_parse_result(site_base_url@) matches Some(u) && url_extend_result(
                u,
                wp_json_path_segments(),
            ) == Some(b@)),
    {
        let site = ParsedUrl::parse(site_base_url)?;
        let mut segments: Vec<String> = Vec::new();
        segments.push("wp-json".to_string());
        segments.push("wp".to_string());
        segments.push("v2".to_string());
        assert(views_of(segments@) =~= wp_json_path_segments());
        match site.extend(&segments) {
            Some(url) => {
                assert(forall|more: Seq<Seq<char>>| #[trigger] url_extend_result(url@, more) is Some);
                Ok(ApiBaseUrl { url })
            },
            None => Err(ParseUrlError { reason: "URL cannot be a base".to_string() }),
        }
    }

    pub fn by_appending(&self, segment: &str) -> (r: ApiEndpointUrl)
        ensures
            url_extend_result(self@, seq![segment@]) == Some(r@),
    {
        proof {
            use_type_invariant(self);
            assert(url_extend_result(self.url@, seq![segment@]) is Some);
        }
        match self.url.append(segment) {
            Some(url) => ApiEndpointUrl::new(url),
            None => ApiEndpointUrl::new(self.url.duplicate()),
        }
    }

    pub fn by_extending(&self, segments: &Vec<String>) -> (r: ApiEndpointUrl)
        ensures
            url_extend_result(self@, views_of(segments@)) == Some(r@),
    {
        proof {
            use_type_invariant(self);
            assert(url_extend_result(self.url@, views_of(segments@)) is Some);
        }
        match self.url.extend(segments) {
            Some(url) => ApiEndpointUrl::new(url),
            None => ApiEndpointUrl::new(self.url.duplicate()),
        }
    }

    /// Appends the segments, each split on `/` first, so that a segment may
    /// hold a path of several segments.
    pub fn by_extending_and_splitting_by_forward_slash(&self, segments: &Vec<String>) -> (r:
        ApiEndpointUrl)
        ensures
            url_extend_result(self@, split_all_on_slash(views_of(segments@))) == Some(r@),
    {
        let mut pieces: Vec<String> = Vec::new();
        let mut i: usize = 0;
        while i < segments.len()
            invariant
                i <= segments.len(),
                views_of(pieces@) == split_all_on_slash(views_of(segments@).subrange(0, i as int)),
            decreases segments.len() - i,
        {
            push_split_on_slash(segments[i].as_str(), &mut pieces);
            assert(views_of(segments@).subrange(0, i + 1).drop_last() =~= views_of(
                segments@,
            ).subrange(0, i as int));
            i = i + 1;
        }
        assert(views_of(segments@).subrange(0, segments.len() as int) =~= views_of(segments@));
        self.by_extending(&pieces)
    }

    pub fn as_str(&self) -> (r: &str)
        ensures
            r@ == self@,
    {
        self.url.as_str()
    }
}

} // verus!
