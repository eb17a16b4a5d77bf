//! Client configuration and authentication state of the Anytype API client.

use vstd::prelude::*;

verus! {

/// Address of the local Anytype desktop application's API.
pub open spec fn default_base_url() -> Seq<char> {
    "http://localhost:31009"@
}

/// Application name that the client reports by default.
pub open spec fn default_app_name() -> Seq<char> {
    "anytype_rs"@
}

/// Request timeout, in seconds, that the client uses by default.
pub const DEFAULT_TIMEOUT_SECONDS: u64 = 30;

/// Where and how the client talks to the Anytype API.
#[derive(Debug, Clone)]
pub struct ClientConfig {
    pub base_url: String,
    pub timeout_seconds: u64,
    pub app_name: String,
}

impl ClientConfig {
    /// The configuration is the default one: local server, 30 s, `anytype_rs`.
    pub open spec fn is_default(&self) -> bool {
        &&& self.base_url@ == default_base_url()
        &&& self.timeout_seconds == DEFAULT_TIMEOUT_SECONDS
        &&& self.app_name@ == default_app_name()
    }
}

impl Default for ClientConfig {
    fn default() -> (config: Self)
        ensures
            config.is_default(),
    {
        ClientConfig {
            base_url: String::from_str("http://localhost:31009"),
            timeout_seconds: DEFAULT_TIMEOUT_SECONDS,
            app_name: String::from_str("anytype_rs"),
        }
    }
}

/// Errors of the Anytype API client.
#[derive(Debug, Clone)]
pub enum AnytypeError {
    /// The request needs credentials that the client does not hold.
    Auth { message: String },
}

/// Message of the error that a request without an API key gets.
pub open spec fn missing_key_message() -> Seq<char> {
    "API key not set"@
}

/// An Anytype API client: its configuration and the API key it holds, if any.
#[derive(Debug, Clone)]
pub struct AnytypeClient {
    config: ClientConfig,
    api_key: Option<String>,
}

impl AnytypeClient {
    /// The configuration the client was made with.
    pub closed spec fn config_spec(&self) -> ClientConfig {
        self.config
    }

    /// The API key the client holds, as text.
    pub closed spec fn key_spec(&self) -> Option<Seq<char>> {
        match self.api_key {
            Some(k) => Some(k@),
            None => None,
        }
    }

    /// A client with the default configuration and no API key.
    pub fn new() -> (res: Result<Self, AnytypeError>)
        ensures
            res matches Ok(client) && client.config_spec().is_default() && client.key_spec()
                is None,
    {
        Self::with_config(ClientConfig::default())
    }

    /// A client with the given configuration and no API key.
    pub fn with_config(config: ClientConfig) -> (res: Result<Self, AnytypeError>)
        ensures
            res matches Ok(client) && client.config_spec() == config && client.key_spec() is None,
    {
        Ok(AnytypeClient { config, api_key: None })
    }

    /// The client's configuration.
    pub fn config(&self) -> (config: &ClientConfig)
        ensures
            *config == self.config_spec(),
    {
        &self.config
    }

    /// Gives the client the API key that later requests authenticate with.
    pub fn set_api_key(&mut self, api_key: String)
        ensures
            final(self).key_spec() == Some(api_key@),
            final(self).config_spec() == old(self).config_spec(),
    {
        self.api_key = Some(api_key);
    }

    /// The API key the client holds, if any.
    pub fn api_key(&self) -> (key: Option<&str>)
        ensures
            match key {
                Some(k) => self.key_spec() == Some(k@),
                None => self.key_spec() is None,
            },
    {
        match &self.api_key {
            Some(k) => Some(k.as_str()),
            None => None,
        }
    }

    /// The key a request authenticates with; a request made without one
    /// fails with an authentication error before anything is sent.
    pub fn require_api_key(&self) -> (res: Result<&str, AnytypeError>)
        ensures
            match res {
                Ok(k) => self.key_spec() == Some(k@),
                Err(AnytypeError::Auth { message }) => self.key_spec() is None && message@
                    == missing_key_message(),
            },
    {
        match &self.api_key {
            Some(k) => Ok(k.as_str()),
            None => Err(AnytypeError::Auth { message: String::from_str("API key not set") }),
        }
    }
}

} // verus!
