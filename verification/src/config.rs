//! Persisted configuration: the server URL, the API key, and the optional
//! bearer token. The library holds the values and their defaults; reading
//! and writing the on-disk document happens outside.

use vstd::prelude::*;

verus! {

/// Where the default configuration points.
pub const DEFAULT_API_URL: &'static str = "https://budget.appz.wtf";

/// The placeholder key a fresh configuration carries.
pub const DEFAULT_API_KEY: &'static str = "your-secret-api-key-change-this";

#[derive(Debug, Clone, PartialEq)]
pub struct ServerConfig {
    pub url: String,
    pub api_key: String,
}

#[derive(Debug, Clone, PartialEq)]
pub struct AuthConfig {
    pub token: Option<String>,
}

impl Default for AuthConfig {
    /// No token stored.
    fn default() -> (r: Self)
        ensures
            r.token is None,
    {
        AuthConfig { token: None }
    }
}

/// Application configuration.
#[derive(Debug, Clone, PartialEq)]
pub struct Config {
    pub server: ServerConfig,
    pub auth: AuthConfig,
}

impl Default for Config {
    /// The default server settings and no token.
    fn default() -> (r: Self)
        ensures
            r.server.url@ == DEFAULT_API_URL@,
            r.server.api_key@ == DEFAULT_API_KEY@,
            r.auth.token is None,
    {
        Config {
            server: ServerConfig {
                url: String::from_str(DEFAULT_API_URL),
                api_key: String::from_str(DEFAULT_API_KEY),
            },
            auth: AuthConfig { token: None },
        }
    }
}

impl Config {
    /// Store a bearer token; the caller persists the configuration after.
    pub fn set_token(&mut self, token: String)
        ensures
            *final(self) == (Config {
                auth: AuthConfig { token: Some(token) },
                ..*old(self)
            }),
    {
        self.auth.token = Some(token);
    }

    /// Drop the stored bearer token; the caller persists after.
    pub fn clear_token(&mut self)
        ensures
            *final(self) == (Config { auth: AuthConfig { token: None }, ..*old(self) }),
    {
        self.auth.token = None;
    }

    /// Whether a bearer token is stored.
    pub fn is_authenticated(&self) -> (r: bool)
        ensures
            r == (self.auth.token is Some),
    {
        self.auth.token.is_some()
    }
}

} // verus!
