//! Absolute URLs, held as their normalized text. Parsing, joining and
//! editing go through the `url` crate.

use vstd::prelude::*;

use crate::candidates::views_of;

verus! {

/// What `url::Url::parse` gives for `input`: the normalized text of the
/// URL, or `None` when the input is rejected.
pub uninterp spec fn url_parse_result(input: Seq<char>) -> Option<Seq<char>>;

/// What `url::Url::join` gives when the URL parsed from `base` resolves
/// `input`, which may be relative or absolute.
pub uninterp spec fn url_join_result(base: Seq<char>, input: Seq<char>) -> Option<Seq<char>>;

/// What pushing `segments` onto the path of the URL parsed from `url` gives;
/// `None` when that URL cannot be a base.
pub uninterp spec fn url_extend_result(url: Seq<char>, segments: Seq<Seq<char>>) -> Option<
    Seq<char>,
>;

/// What appending the query pair `key=value` to the URL parsed from `url`
/// gives.
pub uninterp spec fn url_query_pair_result(url: Seq<char>, key: Seq<char>, value: Seq<char>) -> Option<Seq<char>>;

/// Relies on `url::Url::parse` and the URL's serialization.
#[verifier::external_body]
fn url_parse(input: &str) -> (r: Result<String, String>)
    ensures
        r is Ok <==> url_parse_result(input@) is Some,
        r matches Ok(u) ==> url_parse_result(input@) == Some(u@),
{
    url::Url::parse(input).map(String::from).map_err(|e| e.to_string())
}

/// Relies on `url::Url::join`, with `base` parsed by `url::Url::parse`.
#[verifier::external_body]
fn url_join(base: &str, input: &str) -> (r: Result<String, String>)
    ensures
        r is Ok <==> url_join_result(base@, input@) is Some,
        r matches Ok(u) ==> url_join_result(base@, input@) == Some(u@),
{
    url::Url::parse(base).and_then(|b| b.join(input)).map(String::from).map_err(|e| e.to_string())
}

/// Relies on `url::Url::path_segments_mut` and `PathSegmentsMut::extend`.
/// `path_segments_mut` fails only for a URL that cannot be a base, and
/// extending the path keeps the `/` after the scheme that makes a URL a
/// base, so a URL obtained this way can be extended again.
#[verifier::external_body]
fn url_extend(url: &str, segments: &Vec<String>) -> (r: Option<String>)
    ensures
        r is Some <==> url_extend_result(url@, views_of(segments@)) is Some,
        r matches Some(u) ==> url_extend_result(url@, views_of(segments@)) == Some(u@),
        r matches Some(u) ==> forall|more: Seq<Seq<char>>| #[trigger]
            url_extend_result(u@, more) is Some,
{
    let mut parsed = url::Url::parse(url).ok()?;
    parsed.path_segments_mut().ok()?.extend(segments);
    Some(String::from(parsed))
}

/// Relies on `url::Url::query_pairs_mut` and `Serializer::append_pair`.
#[verifier::external_body]
fn url_append_query_pair(url: &str, key: &str, value: &str) -> (r: Option<String>)
    ensures
        r is Some <==> url_query_pair_result(url@, key@, value@) is Some,
        r matches Some(u) ==> url_query_pair_result(url@, key@, value@) == Some(u@),
{
    let mut parsed = url::Url::parse(url).ok()?;
    parsed.query_pairs_mut().append_pair(key, value);
    Some(String::from(parsed))
}

/// The items of `items` separated by commas.
pub open spec fn comma_joined(items: Seq<Seq<char>>) -> Seq<char>
    decreases items.len(),
{
    if items.len() == 0 {
        Seq::empty()
    } else if items.len() == 1 {
        items[0]
    } else {
        comma_joined(items.drop_last()) + ","@ + items.last()
    }
}

#[derive(Debug, Clone, PartialEq, Eq)]
pub struct ParseUrlError {
    pub reason: String,
}

/// An absolute URL that `url::Url::parse` accepted, kept as its normalized
/// text.
#[derive(Debug, Clone, PartialEq, Eq)]
pub struct ParsedUrl {
    url: String,
}

impl View for ParsedUrl {
    type V = Seq<char>;

    closed spec fn view(&self) -> Seq<char> {
        self.url@
    }
}

impl ParsedUrl {
    pub fn parse(input: &str) -> (r: Result<ParsedUrl, ParseUrlError>)
        ensures
            r is Ok <==> url_parse_result(input@) is Some,
            r matches Ok(u) ==> url_parse_result(input@) == Some(u@),
    {
        match url_parse(input) {
            Ok(url) => Ok(ParsedUrl { url }),
            Err(reason) => Err(ParseUrlError { reason }),
        }
    }

    /// The normalized text of the URL.
    pub fn url(&self) -> (r: String)
        ensures
            r@ == self@,
    {
        self.url.clone()
    }

    pub fn as_str(&self) -> (r: &str)
        ensures
            r@ == self@,
    {
        self.url.as_str()
    }

    pub fn duplicate(&self) -> (r: ParsedUrl)
        ensures
            r == *self,
    {
        ParsedUrl { url: self.url.clone() }
    }

    /// Resolves `input`, relative or absolute, against this URL.
    pub fn join(&self, input: &str) -> (r: Result<ParsedUrl, ParseUrlError>)
        ensures
            r is Ok <==> url_join_result(self@, input@) is Some,
            r matches Ok(u) ==> url_join_result(self@, input@) == Some(u@),
    {
        match url_join(self.url.as_str(), input) {
            Ok(url) => Ok(ParsedUrl { url }),
            Err(reason) => Err(ParseUrlError { reason }),
        }
    }

    /// Appends each of `segments` to the path; `None` when this URL cannot
    /// be a base.
    pub fn extend(&self, segments: &Vec<String>) -> (r: Option<ParsedUrl>)
        ensures
            r is Some <==> url_extend_result(self@, views_of(segments@)) is Some,
            r matches Some(u) ==> url_extend_result(self@, views_of(segments@)) == Some(u@),
            r matches Some(u) ==> forall|more: Seq<Seq<char>>| #[trigger]
                url_extend_result(u@, more) is Some,
    {
        match url_extend(self.url.as_str(), segments) {
            Some(url) => Some(ParsedUrl { url }),
            None => None,
        }
    }

    /// Appends one segment to the path; `None` when this URL cannot be a
    /// base.
    pub fn append(&self, segment: &str) -> (r: Option<ParsedUrl>)
        ensures
            r is Some <==> url_extend_result(self@, seq![segment@]) is Some,
            r matches Some(u) ==> url_extend_result(self@, seq![segment@]) == Some(u@),
            r matches Some(u) ==> forall|more: Seq<Seq<char>>| #[trigger]
                url_extend_result(u@, more) is Some,
    {
        let mut segments: Vec<String> = Vec::new();
        segments.push(segment.to_string());
        assert(views_of(segments@) =~= seq![segment@]);
        self.extend(&segments)
    }

    /// Appends the query pair `_fields` listing `fields`, comma separated,
    /// which limits a response to those fields.
    pub fn append_filter_fields(&self, fields: &Vec<String>) -> (r: Option<ParsedUrl>)
        ensures
            r is Some <==> url_query_pair_result(self@, "_fields"@, comma_joined(views_of(fields@))) is Some,
            r matches Some(u) ==> url_query_pair_result(self@, "_fields"@, comma_joined(views_of(fields@))) == Some(u@),
    {
        let mut joined = String::new();
        let mut i: usize = 0;
        while i < fields.len()
            invariant
                i <= fields.len(),
                joined@ == comma_joined(views_of(fields@).subrange(0, i as int)),
            decreases fields.len() - i,
        {
            assert(views_of(fields@).subrange(0, i + 1).drop_last() =~= views_of(fields@).subrange(0, i as int));
            if i > 0 {
                joined.append(",");
            }
            joined.append(fields[i].as_str());
            i = i + 1;
        }
        assert(views_of(fields@).subrange(0, fields.len() as int) =~= views_of(fields@));
        self.with_query_pair("_fields", joined.as_str())
    }

    /// Appends the query pair `key=value`.
    pub fn with_query_pair(&self, key: &str, value: &str) -> (r: Option<ParsedUrl>)
        ensures
            r is Some <==> url_query_pair_result(self@, key@, value@) is Some,
            r matches Some(u) ==> url_query_pair_result(self@, key@, value@) == Some(u@),
    {
        match url_append_query_pair(self.url.as_str(), key, value) {
            Some(url) => Some(ParsedUrl { url }),
            None => None,
        }
    }
}

} // verus!
