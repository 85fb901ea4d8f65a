//! Plain configuration values for the transport: the API's base URL, the
//! user agent, and the optional credential material.

use vstd::prelude::*;

verus! {

/// An API key, with its optional scheme prefix.
#[derive(Debug, Clone)]
pub struct ApiKey {
    pub prefix: Option<String>,
    pub key: String,
}

/// The transport's configuration: where the API lives and how requests are
/// authenticated.
#[derive(Debug, Clone)]
pub struct Config {
    pub base_url: String,
    pub user_agent: String,
    pub basic_auth: Option<(String, Option<String>)>,
    pub oauth_access_token: Option<String>,
    pub api_key: Option<ApiKey>,
}

/// A builder for [`Config`]; no settings are adjustable yet.
#[derive(Debug, Clone, Default)]
pub struct ConfigBuilder {}

impl Config {
    /// The default configuration: the public API's base URL and this
    /// library's user agent, with no credentials.
    pub fn new() -> (r: Self)
        ensures
            r.base_url@ == "https://www.kaggle.com/api/v1"@,
            r.user_agent@ == "kaggele-rs/1/rust"@,
            r.basic_auth is None,
            r.oauth_access_token is None,
            r.api_key is None,
    {
        Config {
            base_url: "https://www.kaggle.com/api/v1".to_owned(),
            user_agent: "kaggele-rs/1/rust".to_owned(),
            basic_auth: None,
            oauth_access_token: None,
            api_key: None,
        }
    }
}

} // verus!
