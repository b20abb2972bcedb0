//! Parameters and records of the plugins endpoints.

use vstd::prelude::*;

verus! {

#[derive(Debug, Clone, Copy, PartialEq, Eq, Structural)]
pub enum PluginStatus {
    Active,
    Inactive,
    NetworkActive,
}

pub open spec fn plugin_status_name(s: PluginStatus) -> Seq<char> {
    match s {
        PluginStatus::Active => "active"@,
        PluginStatus::Inactive => "inactive"@,
        PluginStatus::NetworkActive => "network-active"@,
    }
}

impl PluginStatus {
    /// The status as the API spells it.
    pub fn as_str(&self) -> (r: &'static str)
        ensures
            r@ == plugin_status_name(*self),
    {
        match self {
            PluginStatus::Active => "active",
            PluginStatus::Inactive => "inactive",
            PluginStatus::NetworkActive => "network-active",
        }
    }
}

#[derive(Debug, Default)]
pub struct PluginListParams {
    /// Limit results to those matching a string.
    pub search: Option<String>,
    /// Limits results to plugins with the given status.
    pub status: Option<PluginStatus>,
}

/// The query pairs of a plugin listing: `search`, then `status`, each only
/// when it is set.
pub open spec fn plugin_list_query(search: Option<String>, status: Option<PluginStatus>) -> Seq<
    (Seq<char>, Seq<char>),
> {
    let s = match search {
        Some(v) => seq![("search"@, v@)],
        None => Seq::empty(),
    };
    let t = match status {
        Some(v) => seq![("status"@, plugin_status_name(v))],
        None => Seq::empty(),
    };
    s + t
}

pub open spec fn pair_views(v: Seq<(String, String)>) -> Seq<(Seq<char>, Seq<char>)> {
    v.map_values(|p: (String, String)| (p.0@, p.1@))
}

impl PluginListParams {
    pub fn query_pairs(&self) -> (r: Vec<(String, String)>)
        ensures
            pair_views(r@) == plugin_list_query(self.search, self.status),
    {
        let mut pairs: Vec<(String, String)> = Vec::new();
        match &self.search {
            Some(search) => pairs.push(("search".to_string(), search.clone())),
            None => {},
        }
        match self.status {
            Some(status) => pairs.push(("status".to_string(), status.as_str().to_string())),
            None => {},
        }
        assert(pair_views(pairs@) =~= plugin_list_query(self.search, self.status));
        pairs
    }
}

#[derive(Debug)]
pub struct PluginCreateParams {
    /// WordPress.org plugin directory slug.
    pub slug: PluginWpOrgDirectorySlug,
    /// The plugin activation status.
    pub status: PluginStatus,
}

#[derive(Debug)]
pub struct PluginUpdateParams {
    /// The plugin activation status.
    pub status: PluginStatus,
}

/// A plugin record of which only the requested fields are present.
#[derive(Debug)]
pub struct SparsePlugin {
    pub plugin: Option<PluginSlug>,
    pub status: Option<PluginStatus>,
    pub name: Option<String>,
    pub plugin_uri: Option<String>,
    pub author: Option<String>,
    pub author_uri: Option<String>,
    pub description: Option<PluginDescription>,
    pub version: Option<String>,
    pub network_only: Option<bool>,
    pub requires_wp: Option<String>,
    pub requires_php: Option<String>,
    pub textdomain: Option<String>,
}

/// A plugin record as the `edit` context returns it.
#[derive(Debug)]
pub struct PluginWithEditContext {
    pub plugin: PluginSlug,
    pub status: PluginStatus,
    pub name: String,
    pub plugin_uri: String,
    pub author: String,
    pub author_uri: String,
    pub description: PluginDescription,
    pub version: String,
    pub network_only: bool,
    pub requires_wp: String,
    pub requires_php: String,
    pub textdomain: String,
}

#[derive(Debug)]
pub struct PluginDeleteResponse {
    pub deleted: bool,
    pub previous: PluginWithEditContext,
}

#[derive(Debug, PartialEq, Eq, PartialOrd, Ord)]
pub struct PluginSlug {
    pub slug: String,
}

impl PluginSlug {
    pub fn new(slug: String) -> (r: PluginSlug)
        ensures
            r.slug == slug,
    {
        PluginSlug { slug }
    }

    /// The slug as text.
    pub fn to_string(&self) -> (r: String)
        ensures
            r@ == self.slug@,
    {
        self.slug.clone()
    }
}

#[derive(Debug)]
pub struct PluginWpOrgDirectorySlug {
    pub slug: String,
}

#[derive(Debug)]
pub struct PluginDescription {
    pub raw: String,
    pub rendered: String,
}

} // verus!
