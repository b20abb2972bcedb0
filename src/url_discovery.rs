//! The per-candidate discovery state machine, and the choice of one result
//! among all attempts.
//!
//! Each state is a value of its own; a transition consumes one state and
//! gives the next one or a failure that keeps what was established so far.
//! The two requests are made by the host, which hands the responses back.

use vstd::prelude::*;

use crate::parsed_url::{url_join_result, url_parse_result, ParseUrlError, ParsedUrl};
use crate::request::{
    header_map_value, link_with_rel, RequestExecutionError, RequestMethod, WPNetworkRequest,
    WPNetworkResponse,
};

verus! {

/// The link relation under which a WordPress site advertises its REST API
/// root.
pub const API_ROOT_LINK_HEADER: &'static str = "https://api.w.org/";

/// The capability manifest served at the API root, with the fields this
/// library keeps.
#[derive(Debug, Clone, PartialEq, Eq)]
pub struct WpApiDetails {
    pub name: String,
    pub description: String,
    pub url: String,
    pub home: String,
    pub namespaces: Vec<String>,
    pub site_icon_url: Option<String>,
}

impl WpApiDetails {
    pub fn duplicate(&self) -> (r: WpApiDetails)
        ensures
            r.name == self.name,
            r.description == self.description,
            r.url == self.url,
            r.home == self.home,
            r.namespaces@ == self.namespaces@,
            r.site_icon_url == self.site_icon_url,
    {
        let namespaces = self.namespaces.clone();
        assert(namespaces@ =~= self.namespaces@);
        let site_icon_url = match &self.site_icon_url {
            Some(u) => Some(u.clone()),
            None => None,
        };
        WpApiDetails {
            name: self.name.clone(),
            description: self.description.clone(),
            url: self.url.clone(),
            home: self.home.clone(),
            namespaces,
            site_icon_url,
        }
    }
}

/// Why one attempt failed, tagged by the phase it reached, with what was
/// established before that phase.
#[derive(Debug, Clone, PartialEq, Eq)]
pub enum UrlDiscoveryAttemptError {
    /// The candidate is not a valid absolute URL; no request was made.
    UrlParseFailed { candidate: String, error: ParseUrlError },
    /// The request for the site's homepage failed in transport.
    RootFetchFailed { site_url: ParsedUrl, transport_error: RequestExecutionError },
    /// The homepage response has no usable link to the API root.
    DiscoveryLinkMissing { site_url: ParsedUrl },
    /// The request for the manifest failed in transport.
    ManifestFetchFailed {
        site_url: ParsedUrl,
        api_root_url: ParsedUrl,
        transport_error: RequestExecutionError,
    },
    /// The manifest response could not be decoded; the response is kept.
    ManifestParseFailed {
        site_url: ParsedUrl,
        api_root_url: ParsedUrl,
        raw_response: WPNetworkResponse,
        parse_error: String,
    },
}

#[derive(Debug, Clone, PartialEq, Eq)]
pub struct UrlDiscoveryAttemptSuccess {
    pub site_url: ParsedUrl,
    pub api_root_url: ParsedUrl,
    pub api_details: WpApiDetails,
}

pub struct StateInitial {
    pub site_url: String,
}

pub struct StateParsedUrl {
    pub site_url: ParsedUrl,
}

pub struct StateFetchedApiRootUrl {
    pub site_url: ParsedUrl,
    pub api_root_url: ParsedUrl,
}

pub struct StateFetchedApiDetails {
    pub site_url: ParsedUrl,
    pub api_root_url: ParsedUrl,
    pub response: WPNetworkResponse,
}

/// The API root that the homepage headers point to: the target of the link
/// with the API relation, when it is not empty, resolved against the site
/// URL.
pub open spec fn api_root_link(site: Seq<char>, headers: Option<Vec<(String, String)>>) -> Option<
    Seq<char>,
> {
    match header_map_value(headers, "Link"@) {
        Some(h) => match link_with_rel(h, API_ROOT_LINK_HEADER@) {
            Some(t) => if t.len() > 0 {
                url_join_result(site, t)
            } else {
                None
            },
            None => None,
        },
        None => None,
    }
}

/// A homepage response without a `Link` header gives no API root, so the
/// attempt ends with `DiscoveryLinkMissing`.
pub proof fn lemma_no_link_header_no_api_root(site: Seq<char>, headers: Option<Vec<(String, String)>>)
    requires
        header_map_value(headers, "Link"@) is None,
    ensures
        api_root_link(site, headers) is None,
{
}

/// A request with no header and no body.
pub open spec fn plain_request(r: WPNetworkRequest, method: RequestMethod, url: Seq<char>) -> bool {
    &&& r.method == method
    &&& r.url@ == url
    &&& r.header_map matches Some(h) && h@.len() == 0
}

fn plain_request_to(method: RequestMethod, url: &ParsedUrl) -> (r: WPNetworkRequest)
    ensures
        plain_request(r, method, url@),
{
    WPNetworkRequest { method, url: url.url(), header_map: Some(Vec::new()) }
}

impl StateInitial {
    pub fn new(site_url: &str) -> (r: StateInitial)
        ensures
            r.site_url@ == site_url@,
    {
        StateInitial { site_url: site_url.to_string() }
    }

    /// Validates the candidate as an absolute URL.
    pub fn parse(self) -> (r: Result<StateParsedUrl, UrlDiscoveryAttemptError>)
        ensures
            url_parse_result(self.site_url@) matches Some(u) ==> (r matches Ok(s) && s.site_url@
                == u),
            url_parse_result(self.site_url@) is None ==> (r matches Err(
                UrlDiscoveryAttemptError::UrlParseFailed { candidate, .. },
            ) && candidate == self.site_url),
    {
        match ParsedUrl::parse(self.site_url.as_str()) {
            Ok(site_url) => Ok(StateParsedUrl { site_url }),
            Err(error) => Err(UrlDiscoveryAttemptError::UrlParseFailed { candidate: self.site_url, error }),
        }
    }
}

impl StateParsedUrl {
    /// The homepage request: `HEAD` of the site URL.
    pub fn api_root_request(&self) -> (r: WPNetworkRequest)
        ensures
            plain_request(r, RequestMethod::HEAD, self.site_url@),
    {
        plain_request_to(RequestMethod::HEAD, &self.site_url)
    }

    /// Reads the API root from the homepage response.
    pub fn parse_api_root_response(
        self,
        response: Result<WPNetworkResponse, RequestExecutionError>,
    ) -> (r: Result<StateFetchedApiRootUrl, UrlDiscoveryAttemptError>)
        ensures
            response matches Err(e) ==> r == Err::<StateFetchedApiRootUrl, _>(
                UrlDiscoveryAttemptError::RootFetchFailed {
                    site_url: self.site_url,
                    transport_error: e,
                },
            ),
            response matches Ok(resp) ==> match api_root_link(self.site_url@, resp.header_map) {
                Some(u) => r matches Ok(s) && s.site_url == self.site_url && s.api_root_url@ == u,
                None => r == Err::<StateFetchedApiRootUrl, _>(
                    UrlDiscoveryAttemptError::DiscoveryLinkMissing { site_url: self.site_url },
                ),
            },
    {
        let response = match response {
            Ok(response) => response,
            Err(transport_error) => {
                return Err(
                    UrlDiscoveryAttemptError::RootFetchFailed {
                        site_url: self.site_url,
                        transport_error,
                    },
                );
            },
        };
        let target = match response.link_target(API_ROOT_LINK_HEADER) {
            Some(t) => t,
            None => {
                return Err(
                    UrlDiscoveryAttemptError::DiscoveryLinkMissing { site_url: self.site_url },
                );
            },
        };
        if target.unicode_len() == 0 {
            return Err(UrlDiscoveryAttemptError::DiscoveryLinkMissing { site_url: self.site_url });
        }
        match self.site_url.join(target.as_str()) {
            Ok(api_root_url) => Ok(StateFetchedApiRootUrl { site_url: self.site_url, api_root_url }),
            Err(_) => Err(UrlDiscoveryAttemptError::DiscoveryLinkMissing { site_url: self.site_url }),
        }
    }
}

impl StateFetchedApiRootUrl {
    /// The manifest request: `GET` of the API root.
    pub fn api_details_request(&self) -> (r: WPNetworkRequest)
        ensures
            plain_request(r, RequestMethod::GET, self.api_root_url@),
    {
        plain_request_to(RequestMethod::GET, &self.api_root_url)
    }

    /// Takes the manifest response; a transport failure ends the attempt.
    pub fn parse_api_details_response(
        self,
        response: Result<WPNetworkResponse, RequestExecutionError>,
    ) -> (r: Result<StateFetchedApiDetails, UrlDiscoveryAttemptError>)
        ensures
            response matches Ok(resp) ==> r == Ok::<_, UrlDiscoveryAttemptError>(
                StateFetchedApiDetails {
                    site_url: self.site_url,
                    api_root_url: self.api_root_url,
                    response: resp,
                },
            ),
            response matches Err(e) ==> r == Err::<StateFetchedApiDetails, _>(
                UrlDiscoveryAttemptError::ManifestFetchFailed {
                    site_url: self.site_url,
                    api_root_url: self.api_root_url,
                    transport_error: e,
                },
            ),
    {
        match response {
            Ok(response) => Ok(
                StateFetchedApiDetails {
                    site_url: self.site_url,
                    api_root_url: self.api_root_url,
                    response,
                },
            ),
            Err(transport_error) => Err(
                UrlDiscoveryAttemptError::ManifestFetchFailed {
                    site_url: self.site_url,
                    api_root_url: self.api_root_url,
                    transport_error,
                },
            ),
        }
    }
}

impl StateFetchedApiDetails {
    /// Ends the attempt with the manifest decoded from the response body, or
    /// with the decoding error and the raw response.
    pub fn parse(self, decoded: Result<WpApiDetails, String>) -> (r: Result<
        UrlDiscoveryAttemptSuccess,
        UrlDiscoveryAttemptError,
    >)
        ensures
            decoded matches Ok(d) ==> r == Ok::<_, UrlDiscoveryAttemptError>(
                UrlDiscoveryAttemptSuccess {
                    site_url: self.site_url,
                    api_root_url: self.api_root_url,
                    api_details: d,
                },
            ),
            decoded matches Err(reason) ==> r == Err::<UrlDiscoveryAttemptSuccess, _>(
                UrlDiscoveryAttemptError::ManifestParseFailed {
                    site_url: self.site_url,
                    api_root_url: self.api_root_url,
                    raw_response: self.response,
                    parse_error: reason,
                },
            ),
    {
        match decoded {
            Ok(api_details) => Ok(
                UrlDiscoveryAttemptSuccess {
                    site_url: self.site_url,
                    api_root_url: self.api_root_url,
                    api_details,
                },
            ),
            Err(parse_error) => Err(
                UrlDiscoveryAttemptError::ManifestParseFailed {
                    site_url: self.site_url,
                    api_root_url: self.api_root_url,
                    raw_response: self.response,
                    parse_error,
                },
            ),
        }
    }
}

} // verus!
