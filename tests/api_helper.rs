use wp_api::api_helper::{PostListParams, WPApiHelper, WPAuthentication};
use wp_api::parsed_url::ParsedUrl;
use wp_api::request::{find_header, RequestMethod, WPNetworkResponse};

fn site() -> ParsedUrl {
    ParsedUrl::parse("https://example.com").unwrap()
}

#[test]
fn raw_request_carries_the_token() {
    let helper = WPApiHelper::new(
        site(),
        WPAuthentication::AuthorizationHeader { token: "dXNlcjpwYXNz".to_string() },
    );
    let req = helper.raw_request(ParsedUrl::parse("https://example.com/wp-json/").unwrap());
    assert_eq!(req.method, RequestMethod::GET);
    assert_eq!(req.url, "https://example.com/wp-json/");
    assert_eq!(
        req.header_map,
        Some(vec![("Authorization".to_string(), "Basic dXNlcjpwYXNz".to_string())])
    );
}

#[test]
fn unauthenticated_request_has_no_header() {
    let helper = WPApiHelper::new(site(), WPAuthentication::Unauthenticated);
    let req = helper.raw_request(site());
    assert_eq!(req.header_map, Some(vec![]));
}

#[test]
fn post_list_request_url() {
    let helper = WPApiHelper::new(site(), WPAuthentication::Unauthenticated);
    let req = helper.post_list_request(PostListParams { page: 2, per_page: 10 }).unwrap();
    assert_eq!(req.method, RequestMethod::GET);
    assert_eq!(req.url, "https://example.com/wp-json/wp/v2/posts?context=edit&page=2&per_page=10");
    let req = helper.post_list_request(PostListParams { page: 0, per_page: 4294967295 }).unwrap();
    assert_eq!(req.url, "https://example.com/wp-json/wp/v2/posts?context=edit&page=0&per_page=4294967295");
}

#[test]
fn post_list_request_fails_without_base() {
    let helper = WPApiHelper::new(
        ParsedUrl::parse("mailto:someone@example.com").unwrap(),
        WPAuthentication::Unauthenticated,
    );
    assert!(helper.post_list_request(PostListParams { page: 1, per_page: 1 }).is_err());
}

#[test]
fn header_lookup_ignores_case() {
    let headers = Some(vec![
        ("content-type".to_string(), "application/json".to_string()),
        ("Content-Type".to_string(), "text/html".to_string()),
    ]);
    assert_eq!(find_header(&headers, "CONTENT-TYPE"), Some("application/json".to_string()));
    assert_eq!(find_header(&headers, "Link"), None);
    assert_eq!(find_header(&None, "Link"), None);
    let response = WPNetworkResponse { body: vec![], status_code: 200, header_map: headers };
    assert_eq!(response.content_type(), Some("application/json".to_string()));
}

#[test]
fn link_header_by_relation() {
    let response = WPNetworkResponse {
        body: vec![],
        status_code: 200,
        header_map: Some(vec![(
            "Link".to_string(),
            "<https://example.com/?page=2>; rel=\"next\", <https://example.com/?page=9>; rel=\"last\"".to_string(),
        )]),
    };
    assert_eq!(response.link_target("last"), Some("https://example.com/?page=9".to_string()));
    assert_eq!(
        wp_api::request::get_link_header(&response, "next").unwrap().as_str(),
        "https://example.com/?page=2"
    );
    assert!(response.get_link_header("prev").is_none());
}
