use wp_api::plugins::{PluginListParams, PluginSlug, PluginStatus};

fn pairs(p: &PluginListParams) -> Vec<(String, String)> {
    p.query_pairs()
}

fn expected(v: &[(&str, &str)]) -> Vec<(String, String)> {
    v.iter().map(|(k, v)| (k.to_string(), v.to_string())).collect()
}

#[test]
fn test_plugin_list_params() {
    assert_eq!(pairs(&PluginListParams::default()), expected(&[]));
    let p = PluginListParams { search: Some("foo".to_string()), status: None };
    assert_eq!(pairs(&p), expected(&[("search", "foo")]));
    let p = PluginListParams { search: None, status: Some(PluginStatus::Active) };
    assert_eq!(pairs(&p), expected(&[("status", "active")]));
    let p = PluginListParams { search: Some("foo".to_string()), status: Some(PluginStatus::Inactive) };
    assert_eq!(pairs(&p), expected(&[("search", "foo"), ("status", "inactive")]));
}

#[test]
fn plugin_status_names() {
    assert_eq!(PluginStatus::Active.as_str(), "active");
    assert_eq!(PluginStatus::Inactive.as_str(), "inactive");
    assert_eq!(PluginStatus::NetworkActive.as_str(), "network-active");
}

#[test]
fn plugin_slug_text() {
    let slug = PluginSlug::new("hello-dolly/hello".to_string());
    assert_eq!(slug.slug, "hello-dolly/hello");
    assert_eq!(slug.to_string(), "hello-dolly/hello");
}
