//! The account handle and its builder.

use vstd::prelude::*;

use crate::error::RobloxError;
use crate::http::{request_header_list, header_views};
use crate::text::decimal;

verus! {

/// `reqwest::Client`: the HTTP client a session sends its requests through.
#[verifier::external_type_specification]
#[verifier::external_body]
pub struct ExClient(reqwest::Client);

/// `reqwest::Proxy`: a proxy that a freshly built client routes through.
#[verifier::external_type_specification]
#[verifier::external_body]
pub struct ExProxy(reqwest::Proxy);

/// `Client::clone`: per reqwest's documentation a clone shares the original's
/// connection pool. Nothing is claimed of the copy that Verus could use.
pub assume_specification[ <reqwest::Client as Clone>::clone ](client: &reqwest::Client) -> reqwest::Client;

/// A signed-in Roblox session.
#[derive(Debug, Clone)]
pub struct Account {
    /// The `.ROBLOSECURITY` session cookie.
    pub token: String,
    pub client: reqwest::Client,
    /// The user id of the account.
    pub id: u64,
    /// The process id of a launched client, if any.
    pub pid: Option<u32>,
}

impl Account {
    /// Starts configuring a session.
    pub fn builder() -> (b: AccountBuilder)
        ensures
            b.token_view() is None,
            b.proxy_view() is None,
            b.client_view() is None,
    {
        AccountBuilder::new()
    }

    /// The user id, in decimal.
    pub fn id(&self) -> (s: String)
        ensures
            s@ == decimal(self.id as nat),
    {
        crate::text::u64_to_decimal(self.id)
    }

    /// The headers that every request of this session carries.
    pub fn request_headers(&self) -> (headers: Vec<(String, String)>)
        ensures
            header_views(headers@) == request_header_list(self.token@),
    {
        crate::http::request_headers(self.token.as_str())
    }
}

/// Where the HTTP client of a new session comes from.
pub enum ClientSource {
    /// A client that the caller supplied.
    Custom(reqwest::Client),
    /// A new client, routed through the proxy if there is one.
    Fresh(Option<reqwest::Proxy>),
}

/// What building a session starts from, once the configuration is known to be usable.
pub struct BuildPlan {
    pub token: String,
    pub client: ClientSource,
}

/// Collects the configuration of a session before it is checked against the API.
pub struct AccountBuilder {
    token: Option<String>,
    proxy: Option<reqwest::Proxy>,
    custom_client: Option<reqwest::Client>,
}

impl AccountBuilder {
    /// The session cookie set so far.
    pub closed spec fn token_view(&self) -> Option<Seq<char>> {
        match self.token {
            Some(t) => Some(t@),
            None => None,
        }
    }

    /// The proxy set so far.
    pub closed spec fn proxy_view(&self) -> Option<reqwest::Proxy> {
        self.proxy
    }

    /// The custom client set so far.
    pub closed spec fn client_view(&self) -> Option<reqwest::Client> {
        self.custom_client
    }

    /// An empty configuration.
    pub fn new() -> (b: Self)
        ensures
            b.token_view() is None,
            b.proxy_view() is None,
            b.client_view() is None,
    {
        AccountBuilder { token: None, proxy: None, custom_client: None }
    }

    /// Sets the session cookie.
    pub fn token(self, token: &str) -> (b: Self)
        ensures
            b.token_view() == Some(token@),
            b.proxy_view() == self.proxy_view(),
            b.client_view() == self.client_view(),
    {
        AccountBuilder { token: Some(String::from_str(token)), ..self }
    }

    /// Routes a freshly built client through `proxy`.
    pub fn proxy(self, proxy: reqwest::Proxy) -> (b: Self)
        ensures
            b.token_view() == self.token_view(),
            b.proxy_view() == Some(proxy),
            b.client_view() == self.client_view(),
    {
        AccountBuilder { proxy: Some(proxy), ..self }
    }

    /// Uses `client` instead of building one.
    pub fn client(self, client: reqwest::Client) -> (b: Self)
        ensures
            b.token_view() == self.token_view(),
            b.proxy_view() == self.proxy_view(),
            b.client_view() == Some(client),
    {
        AccountBuilder { custom_client: Some(client), ..self }
    }

    /// The first step of building a session: a missing cookie makes the
    /// account invalid; a custom client wins over a proxy.
    pub fn plan(self) -> (r: Result<BuildPlan, RobloxError>)
        ensures
            match self.token_view() {
                None => r matches Err(RobloxError::AccountInvalid),
                Some(t) => r matches Ok(p) && p.token@ == t && match self.client_view() {
                    Some(c) => p.client == ClientSource::Custom(c),
                    None => p.client == ClientSource::Fresh(self.proxy_view()),
                },
            },
    {
        match self.token {
            None => Err(RobloxError::AccountInvalid),
            Some(token) => {
                let client = match self.custom_client {
                    Some(c) => ClientSource::Custom(c),
                    None => ClientSource::Fresh(self.proxy),
                };
                Ok(BuildPlan { token, client })
            },
        }
    }
}

impl Default for AccountBuilder {
    fn default() -> (b: Self)
        ensures
            b.token_view() is None,
            b.proxy_view() is None,
            b.client_view() is None,
    {
        AccountBuilder::new()
    }
}

} // verus!
