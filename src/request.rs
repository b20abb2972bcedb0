//! Requests handed to the host's executor and the responses it returns.

use vstd::prelude::*;

use crate::parsed_url::{url_parse_result, ParsedUrl};

verus! {

#[derive(Debug, Clone, Copy, PartialEq, Eq, Structural)]
pub enum RequestMethod {
    GET,
    POST,
    PUT,
    DELETE,
    HEAD,
}

/// A header list as `(name, value)` pairs, in the order received.
pub type HeaderList = Vec<(String, String)>;

#[derive(Debug, Clone, PartialEq, Eq)]
pub struct WPNetworkRequest {
    pub method: RequestMethod,
    pub url: String,
    pub header_map: Option<HeaderList>,
}

#[derive(Debug, Clone, PartialEq, Eq)]
pub struct WPNetworkResponse {
    pub body: Vec<u8>,
    pub status_code: u16,
    pub header_map: Option<HeaderList>,
}

/// The executor could not complete a request: a transport failure, with the
/// HTTP status if one was received.
#[derive(Debug, Clone, PartialEq, Eq)]
pub enum RequestExecutionError {
    RequestExecutionFailed { status_code: Option<u16>, reason: String },
}

/// The code of `c` with ASCII upper case mapped to lower case.
pub open spec fn ascii_lower(c: char) -> u32 {
    if 'A' <= c && c <= 'Z' {
        (c as u32 + 32) as u32
    } else {
        c as u32
    }
}

/// Header names compare without regard to ASCII case.
pub open spec fn same_header_name(a: Seq<char>, b: Seq<char>) -> bool {
    a.len() == b.len() && forall|i: int| 0 <= i < a.len() ==> ascii_lower(#[trigger] a[i])
        == ascii_lower(b[i])
}

pub open spec fn header_pairs(h: Seq<(String, String)>) -> Seq<(Seq<char>, Seq<char>)> {
    h.map_values(|p: (String, String)| (p.0@, p.1@))
}

/// The value of the first header named `name`.
pub open spec fn header_value(h: Seq<(Seq<char>, Seq<char>)>, name: Seq<char>) -> Option<
    Seq<char>,
>
    decreases h.len(),
{
    if h.len() == 0 {
        None
    } else if same_header_name(h[0].0, name) {
        Some(h[0].1)
    } else {
        header_value(h.drop_first(), name)
    }
}

pub open spec fn header_map_value(h: Option<HeaderList>, name: Seq<char>) -> Option<Seq<char>> {
    match h {
        Some(list) => header_value(header_pairs(list@), name),
        None => None,
    }
}

/// The target of the link whose relation is `rel` in the `Link` header value
/// `header`, as `parse_link_header::parse_with_rel` reads it; `None` when the
/// header does not parse or has no such link.
pub uninterp spec fn link_with_rel(header: Seq<char>, rel: Seq<char>) -> Option<Seq<char>>;

/// The absolute URL that the `Link` header of `h` gives for relation `rel`.
pub open spec fn link_header_url(h: Option<HeaderList>, rel: Seq<char>) -> Option<Seq<char>> {
    match header_map_value(h, "Link"@) {
        Some(value) => match link_with_rel(value, rel) {
            Some(t) => url_parse_result(t),
            None => None,
        },
        None => None,
    }
}

/// Relies on `parse_link_header::parse_with_rel` and the `raw_uri` of the
/// entry it maps to `rel`.
#[verifier::external_body]
fn parse_link_with_rel(header: &str, rel: &str) -> (r: Option<String>)
    ensures
        r is Some <==> link_with_rel(header@, rel@) is Some,
        r matches Some(t) ==> link_with_rel(header@, rel@) == Some(t@),
{
    parse_link_header::parse_with_rel(header).ok()?.get(rel).map(|link| link.raw_uri.clone())
}

fn ascii_lower_exec(c: char) -> (r: u32)
    ensures
        r == ascii_lower(c),
{
    if 'A' <= c && c <= 'Z' {
        c as u32 + 32
    } else {
        c as u32
    }
}

fn same_header_name_exec(a: &str, b: &str) -> (r: bool)
    ensures
        r == same_header_name(a@, b@),
{
    let n = a.unicode_len();
    if n != b.unicode_len() {
        return false;
    }
    let mut i: usize = 0;
    while i < n
        invariant
            n == a@.len(),
            n == b@.len(),
            i <= n,
            forall|j: int| 0 <= j < i ==> ascii_lower(#[trigger] a@[j]) == ascii_lower(b@[j]),
        decreases n - i,
    {
        if ascii_lower_exec(a.get_char(i)) != ascii_lower_exec(b.get_char(i)) {
            return false;
        }
        i = i + 1;
    }
    true
}

/// The value of the first header named `name`, without regard to ASCII case.
pub fn find_header(headers: &Option<HeaderList>, name: &str) -> (r: Option<String>)
    ensures
        r is Some <==> header_map_value(*headers, name@) is Some,
        r matches Some(v) ==> header_map_value(*headers, name@) == Some(v@),
{
    match headers {
        None => None,
        Some(list) => {
            let ghost all = header_pairs(list@);
            let mut i: usize = 0;
            assert(all.subrange(0, all.len() as int) =~= all);
            while i < list.len()
                invariant
                    all == header_pairs(list@),
                    header_map_value(*headers, name@) == header_value(all, name@),
                    i <= list.len(),
                    header_value(all, name@) == header_value(all.subrange(i as int, all.len() as int), name@),
                decreases list.len() - i,
            {
                let ghost rest = all.subrange(i as int, all.len() as int);
                assert(rest.drop_first() =~= all.subrange(i + 1, all.len() as int));
                assert(rest[0] == (list@[i as int].0@, list@[i as int].1@));
                if same_header_name_exec(list[i].0.as_str(), name) {
                    return Some(list[i].1.clone());
                }
                i = i + 1;
            }
            None
        },
    }
}

impl WPNetworkResponse {
    /// The value of the `Content-Type` header.
    pub fn content_type(&self) -> (r: Option<String>)
        ensures
            r is Some <==> header_map_value(self.header_map, "Content-Type"@) is Some,
            r matches Some(v) ==> header_map_value(self.header_map, "Content-Type"@) == Some(v@),
    {
        find_header(&self.header_map, "Content-Type")
    }

    /// The target of the link with relation `rel` in the `Link` header.
    pub fn link_target(&self, rel: &str) -> (r: Option<String>)
        ensures
            r is Some <==> (header_map_value(self.header_map, "Link"@) matches Some(h)
                && link_with_rel(h, rel@) is Some),
            r matches Some(t) ==> (header_map_value(self.header_map, "Link"@) matches Some(h)
                && link_with_rel(h, rel@) == Some(t@)),
    {
        match find_header(&self.header_map, "Link") {
            Some(h) => parse_link_with_rel(h.as_str(), rel),
            None => None,
        }
    }

    /// The absolute URL that the `Link` header gives for relation `rel`.
    pub fn get_link_header(&self, rel: &str) -> (r: Option<ParsedUrl>)
        ensures
            r is Some <==> link_header_url(self.header_map, rel@) is Some,
            r matches Some(u) ==> link_header_url(self.header_map, rel@) == Some(u@),
    {
        match self.link_target(rel) {
            Some(t) => match ParsedUrl::parse(t.as_str()) {
                Ok(u) => Some(u),
                Err(_) => None,
            },
            None => None,
        }
    }
}

/// The absolute URL that the response's `Link` header gives for relation
/// `name`.
pub fn get_link_header(response: &WPNetworkResponse, name: &str) -> (r: Option<ParsedUrl>)
    ensures
        r is Some <==> link_header_url(response.header_map, name@) is Some,
        r matches Some(u) ==> link_header_url(response.header_map, name@) == Some(u@),
{
    response.get_link_header(name)
}

} // verus!
