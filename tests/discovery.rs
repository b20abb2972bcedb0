use wp_api::candidates::construct_attempts;
use wp_api::login::{api_discovery_result, AttemptOutcome, UrlDiscoveryError, UrlDiscoveryState};
use wp_api::parsed_url::ParsedUrl;
use wp_api::request::{RequestExecutionError, RequestMethod, WPNetworkRequest, WPNetworkResponse};
use wp_api::url_discovery::{StateInitial, UrlDiscoveryAttemptError, WpApiDetails};

const MANIFEST: &str = r#"{"name":"Site","description":"A site","url":"https://example.com","home":"https://example.com","namespaces":["wp/v2"]}"#;

fn response(headers: Vec<(&str, &str)>, body: &[u8]) -> WPNetworkResponse {
    WPNetworkResponse {
        body: body.to_vec(),
        status_code: 200,
        header_map: Some(headers.into_iter().map(|(k, v)| (k.to_string(), v.to_string())).collect()),
    }
}

fn transport_error() -> RequestExecutionError {
    RequestExecutionError::RequestExecutionFailed { status_code: None, reason: "connection refused".to_string() }
}

fn strings(v: &serde_json::Value, key: &str) -> Option<String> {
    v.get(key).and_then(|x| x.as_str()).map(|s| s.to_string())
}

fn decode(body: &[u8]) -> Result<WpApiDetails, String> {
    let v: serde_json::Value = serde_json::from_slice(body).map_err(|e| e.to_string())?;
    let missing = || "missing field".to_string();
    let namespaces = v
        .get("namespaces")
        .and_then(|n| n.as_array())
        .ok_or_else(missing)?
        .iter()
        .filter_map(|n| n.as_str().map(|s| s.to_string()))
        .collect();
    Ok(WpApiDetails {
        name: strings(&v, "name").ok_or_else(missing)?,
        description: strings(&v, "description").ok_or_else(missing)?,
        url: strings(&v, "url").ok_or_else(missing)?,
        home: strings(&v, "home").ok_or_else(missing)?,
        namespaces,
        site_icon_url: strings(&v, "site_icon_url"),
    })
}

/// Drives one attempt against a scripted executor.
fn attempt(
    candidate: &str,
    execute: &dyn Fn(&WPNetworkRequest) -> Result<WPNetworkResponse, RequestExecutionError>,
) -> AttemptOutcome {
    let parsed = StateInitial::new(candidate).parse()?;
    let root_request = parsed.api_root_request();
    assert_eq!(root_request.method, RequestMethod::HEAD);
    let fetched = parsed.parse_api_root_response(execute(&root_request))?;
    let details_request = fetched.api_details_request();
    assert_eq!(details_request.method, RequestMethod::GET);
    let details = fetched.parse_api_details_response(execute(&details_request))?;
    let decoded = decode(&details.response.body);
    details.parse(decoded)
}

/// A site that advertises its API root only on `good` hosts.
fn site_executor(good: &'static [&'static str]) -> impl Fn(&WPNetworkRequest) -> Result<WPNetworkResponse, RequestExecutionError> {
    move |req: &WPNetworkRequest| {
        let url = ParsedUrl::parse(&req.url).unwrap();
        if !good.iter().any(|g| url.as_str().starts_with(g)) {
            return Err(transport_error());
        }
        match req.method {
            RequestMethod::HEAD => Ok(response(
                vec![("Link", &format!("<{}wp-json/>; rel=\"https://api.w.org/\"", url.as_str()))],
                b"",
            )),
            _ => Ok(response(vec![("Content-Type", "application/json")], MANIFEST.as_bytes())),
        }
    }
}

#[test]
fn link_header_gives_api_root() {
    let parsed = StateInitial::new("https://example.com").parse().unwrap();
    let r = response(vec![("Link", "<https://example.com/wp-json/>; rel=\"https://api.w.org/\"")], b"");
    let fetched = parsed.parse_api_root_response(Ok(r)).ok().unwrap();
    assert_eq!(fetched.api_root_url.as_str(), "https://example.com/wp-json/");
    assert_eq!(fetched.site_url.as_str(), "https://example.com/");
}

#[test]
fn missing_link_header_is_reported() {
    let parsed = StateInitial::new("https://example.com").parse().unwrap();
    let err = parsed.parse_api_root_response(Ok(response(vec![], b""))).err().unwrap();
    assert_eq!(
        err,
        UrlDiscoveryAttemptError::DiscoveryLinkMissing { site_url: ParsedUrl::parse("https://example.com").unwrap() }
    );
}

#[test]
fn other_relations_and_empty_links_are_not_the_api_root() {
    for link in ["<https://example.com/?page=2>; rel=\"next\"", "<>; rel=\"https://api.w.org/\"", "not a link header"] {
        let parsed = StateInitial::new("https://example.com").parse().unwrap();
        let err = parsed.parse_api_root_response(Ok(response(vec![("link", link)], b""))).err().unwrap();
        assert!(matches!(err, UrlDiscoveryAttemptError::DiscoveryLinkMissing { .. }));
    }
}

#[test]
fn relative_link_is_resolved_against_the_site() {
    let parsed = StateInitial::new("https://example.com/blog/").parse().unwrap();
    let r = response(
        vec![("Link", "<https://example.com/?page=2>; rel=\"next\", </blog/wp-json/>; rel=\"https://api.w.org/\"")],
        b"",
    );
    let fetched = parsed.parse_api_root_response(Ok(r)).ok().unwrap();
    assert_eq!(fetched.api_root_url.as_str(), "https://example.com/blog/wp-json/");
}

#[test]
fn invalid_candidate_fails_before_any_request() {
    let err = StateInitial::new("https://exa mple.com").parse().err().unwrap();
    match err {
        UrlDiscoveryAttemptError::UrlParseFailed { candidate, .. } => assert_eq!(candidate, "https://exa mple.com"),
        other => panic!("unexpected {:?}", other),
    }
}

#[test]
fn root_transport_failure_keeps_the_site_url() {
    let parsed = StateInitial::new("https://example.com").parse().unwrap();
    let err = parsed.parse_api_root_response(Err(transport_error())).err().unwrap();
    assert_eq!(
        err,
        UrlDiscoveryAttemptError::RootFetchFailed {
            site_url: ParsedUrl::parse("https://example.com").unwrap(),
            transport_error: transport_error(),
        }
    );
}

#[test]
fn manifest_transport_failure_keeps_both_urls() {
    let parsed = StateInitial::new("https://example.com").parse().unwrap();
    let r = response(vec![("Link", "<https://example.com/wp-json/>; rel=\"https://api.w.org/\"")], b"");
    let fetched = parsed.parse_api_root_response(Ok(r)).ok().unwrap();
    let err = fetched.parse_api_details_response(Err(transport_error())).err().unwrap();
    match err {
        UrlDiscoveryAttemptError::ManifestFetchFailed { site_url, api_root_url, transport_error: e } => {
            assert_eq!(site_url.as_str(), "https://example.com/");
            assert_eq!(api_root_url.as_str(), "https://example.com/wp-json/");
            assert_eq!(e, transport_error());
        }
        other => panic!("unexpected {:?}", other),
    }
}

#[test]
fn non_json_manifest_keeps_raw_body() {
    let parsed = StateInitial::new("https://example.com").parse().unwrap();
    let r = response(vec![("Link", "<https://example.com/wp-json/>; rel=\"https://api.w.org/\"")], b"");
    let fetched = parsed.parse_api_root_response(Ok(r)).ok().unwrap();
    let body = b"<html>not json</html>";
    let details = fetched.parse_api_details_response(Ok(response(vec![], body))).ok().unwrap();
    let decoded = decode(&details.response.body);
    assert!(decoded.is_err());
    match details.parse(decoded) {
        Err(UrlDiscoveryAttemptError::ManifestParseFailed { raw_response, parse_error, .. }) => {
            assert_eq!(raw_response.body, body.to_vec());
            assert_eq!(raw_response.status_code, 200);
            assert!(!parse_error.is_empty());
        }
        other => panic!("unexpected {:?}", other),
    }
}

#[test]
fn single_candidate_success() {
    let exec = site_executor(&["https://example.com/"]);
    let outcome = attempt("https://example.com", &exec).unwrap();
    assert_eq!(outcome.api_root_url.as_str(), "https://example.com/wp-json/");
    assert_eq!(outcome.api_details.name, "Site");
    assert_eq!(outcome.api_details.namespaces, vec!["wp/v2".to_string()]);
}

#[test]
fn only_middle_candidate_succeeds() {
    let exec = site_executor(&["http://example.com/"]);
    let candidates = construct_attempts("example.com");
    // The last candidate completes first; outcomes are still placed in candidate order.
    let mut outcomes: Vec<Option<AttemptOutcome>> = candidates.iter().map(|_| None).collect();
    for i in (0..candidates.len()).rev() {
        outcomes[i] = Some(attempt(&candidates[i], &exec));
    }
    let outcomes: Vec<AttemptOutcome> = outcomes.into_iter().map(|o| o.unwrap()).collect();
    let expected = outcomes[1].clone().unwrap();
    let result = api_discovery_result(outcomes).unwrap();
    assert_eq!(result.site_url, expected.site_url);
    assert_eq!(result.site_url.as_str(), "http://example.com/");
    assert_eq!(result.api_root_url, expected.api_root_url);
    assert_eq!(result.api_details, expected.api_details);
    assert_eq!(result.attempts.len(), 4);
    assert!(matches!(result.attempts[1], UrlDiscoveryState::Success(_)));
}

#[test]
fn first_candidate_wins_over_later_success() {
    let exec = site_executor(&["https://example.com/", "http://example.com/"]);
    let a = attempt("https://example.com", &exec);
    let b = attempt("http://example.com", &exec);
    assert!(a.is_ok() && b.is_ok());
    let result = api_discovery_result(vec![a.clone(), b.clone()]).unwrap();
    assert_eq!(result.site_url.as_str(), "https://example.com/");
    assert_eq!(
        result.attempts,
        vec![UrlDiscoveryState::Success(a.unwrap()), UrlDiscoveryState::Success(b.unwrap())]
    );
}

#[test]
fn all_failures_keep_every_attempt_in_order() {
    let outcomes: Vec<AttemptOutcome> = vec![
        StateInitial::new("https://exa mple.com").parse().map(|_| unreachable!()),
        Err(UrlDiscoveryAttemptError::RootFetchFailed {
            site_url: ParsedUrl::parse("https://example.com").unwrap(),
            transport_error: transport_error(),
        }),
        Err(UrlDiscoveryAttemptError::DiscoveryLinkMissing {
            site_url: ParsedUrl::parse("http://example.com").unwrap(),
        }),
    ];
    let result = api_discovery_result(outcomes.clone()).err().unwrap();
    match result {
        UrlDiscoveryError::AllAttemptsFailed { attempts } => {
            assert_eq!(attempts.len(), 3);
            assert!(matches!(attempts[0], UrlDiscoveryState::Failure(UrlDiscoveryAttemptError::UrlParseFailed { .. })));
            assert!(matches!(attempts[1], UrlDiscoveryState::Failure(UrlDiscoveryAttemptError::RootFetchFailed { .. })));
            assert!(matches!(attempts[2], UrlDiscoveryState::Failure(UrlDiscoveryAttemptError::DiscoveryLinkMissing { .. })));
            for (a, o) in attempts.iter().zip(outcomes) {
                assert_eq!(*a, UrlDiscoveryState::Failure(o.err().unwrap()));
            }
        }
        other => panic!("unexpected {:?}", other),
    }
}

#[test]
fn no_candidate_is_not_an_attempt_failure() {
    assert_eq!(api_discovery_result(vec![]).err().unwrap(), UrlDiscoveryError::CandidateGenerationEmpty);
}

#[test]
fn repeated_discovery_is_identical() {
    let run = || {
        let exec = site_executor(&["https://www.example.com/"]);
        let outcomes: Vec<AttemptOutcome> =
            construct_attempts("example.com").iter().map(|c| attempt(c, &exec)).collect();
        api_discovery_result(outcomes)
    };
    let first = run();
    assert!(first.is_ok());
    assert_eq!(first, run());
    assert_eq!(first.unwrap().site_url.as_str(), "https://www.example.com/");
}
