//! Discovery of a WordPress site's REST API root, and the request helpers
//! around it.

pub mod api_helper;
pub mod candidates;
pub mod endpoint;
pub mod login;
pub mod pages;
pub mod plugins;
pub mod parsed_url;
pub mod request;
pub mod url_discovery;
