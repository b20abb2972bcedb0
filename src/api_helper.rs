//! Building authenticated requests against a site.

use vstd::prelude::*;

use crate::parsed_url::{url_join_result, url_query_pair_result, ParseUrlError, ParsedUrl};
use crate::request::{RequestMethod, WPNetworkRequest};
use crate::plugins::pair_views;

verus! {

#[derive(Debug, Clone, PartialEq, Eq)]
pub enum WPAuthentication {
    AuthorizationHeader { token: String },
    Unauthenticated,
}

#[derive(Debug, Clone, Copy, PartialEq, Eq, Structural)]
pub struct PostListParams {
    pub page: u32,
    pub per_page: u32,
}

pub open spec fn decimal_digit(d: nat) -> char {
    seq!['0', '1', '2', '3', '4', '5', '6', '7', '8', '9'][d as int]
}

/// The decimal text of `n`, without leading zeros.
pub open spec fn decimal(n: nat) -> Seq<char>
    decreases n,
{
    if n < 10 {
        seq![decimal_digit(n)]
    } else {
        decimal(n / 10).push(decimal_digit(n % 10))
    }
}

/// Relies on the `Display` impl of `u32`, which writes the number in
/// decimal without leading zeros.
#[verifier::external_body]
fn decimal_string(n: u32) -> (r: String)
    ensures
        r@ == decimal(n as nat),
{
    n.to_string()
}

/// The headers that `authentication` adds to a request.
pub open spec fn auth_headers(authentication: WPAuthentication) -> Seq<(Seq<char>, Seq<char>)> {
    match authentication {
        WPAuthentication::AuthorizationHeader { token } => seq![
            ("Authorization"@, "Basic "@ + token@),
        ],
        WPAuthentication::Unauthenticated => Seq::empty(),
    }
}

/// The path, relative to the site, of the post listing in the `edit`
/// context.
pub open spec fn post_list_path() -> Seq<char> {
    "/wp-json/wp/v2/posts?context=edit"@
}

/// The URL of a page of the post listing.
pub open spec fn post_list_url(site: Seq<char>, params: PostListParams) -> Option<Seq<char>> {
    match url_join_result(site, post_list_path()) {
        Some(u) => match url_query_pair_result(u, "page"@, decimal(params.page as nat)) {
            Some(v) => url_query_pair_result(v, "per_page"@, decimal(params.per_page as nat)),
            None => None,
        },
        None => None,
    }
}

pub struct WPApiHelper {
    site_url: ParsedUrl,
    authentication: WPAuthentication,
}

impl WPApiHelper {
    pub closed spec fn site(&self) -> Seq<char> {
        self.site_url@
    }

    pub closed spec fn auth(&self) -> WPAuthentication {
        self.authentication
    }

    pub fn new(site_url: ParsedUrl, authentication: WPAuthentication) -> (r: WPApiHelper)
        ensures
            r.site() == site_url@,
            r.auth() == authentication,
    {
        WPApiHelper { site_url, authentication }
    }

    fn auth_header_map(&self) -> (r: Vec<(String, String)>)
        ensures
            pair_views(r@) == auth_headers(self.authentication),
    {
        let mut headers: Vec<(String, String)> = Vec::new();
        match &self.authentication {
            WPAuthentication::AuthorizationHeader { token } => {
                let mut value = String::from_str("Basic ");
                value.append(token.as_str());
                headers.push(("Authorization".to_string(), value));
            },
            WPAuthentication::Unauthenticated => {},
        }
        assert(pair_views(headers@) =~= auth_headers(self.authentication));
        headers
    }

    /// A `GET` of `url` with the authentication headers.
    pub fn raw_request(&self, url: ParsedUrl) -> (r: WPNetworkRequest)
        ensures
            r.method == RequestMethod::GET,
            r.url@ == url@,
            r.header_map matches Some(h) && pair_views(h@) == auth_headers(self.auth()),
    {
        WPNetworkRequest {
            method: RequestMethod::GET,
            url: url.url(),
            header_map: Some(self.auth_header_map()),
        }
    }

    /// A `GET` of one page of the site's posts, in the `edit` context, with
    /// the authentication headers; an error when the site URL cannot take
    /// the listing path.
    pub fn post_list_request(&self, params: PostListParams) -> (r: Result<
        WPNetworkRequest,
        ParseUrlError,
    >)
        ensures
            r is Ok <==> post_list_url(self.site(), params) is Some,
            r matches Ok(req) ==> {
                &&& post_list_url(self.site(), params) == Some(req.url@)
                &&& req.method == RequestMethod::GET
                &&& req.header_map matches Some(h) && pair_views(h@) == auth_headers(self.auth())
            },
    {
        let url = self.site_url.join("/wp-json/wp/v2/posts?context=edit")?;
        let page = decimal_string(params.page);
        let per_page = decimal_string(params.per_page);
        let url = match url.with_query_pair("page", page.as_str()) {
            Some(u) => u,
            None => {
                return Err(ParseUrlError { reason: "the page number cannot be added".to_string() });
            },
        };
        let url = match url.with_query_pair("per_page", per_page.as_str()) {
            Some(u) => u,
            None => {
                return Err(
                    ParseUrlError { reason: "the page size cannot be added".to_string() },
                );
            },
        };
        Ok(
            WPNetworkRequest {
                method: RequestMethod::GET,
                url: url.url(),
                header_map: Some(self.auth_header_map()),
            },
        )
    }
}

} // verus!
