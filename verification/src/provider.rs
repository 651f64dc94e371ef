//! The OAuth2 provider as the engine is configured with it: the client's
//! credentials and the provider's two endpoints, checked once when the
//! configuration is built.

use vstd::prelude::*;

verus! {

/// GitHub's authorization endpoint.
pub const GITHUB_AUTHORIZE_URL: &'static str = "https://github.com/login/oauth/authorize";

/// GitHub's token endpoint.
pub const GITHUB_TOKEN_URL: &'static str = "https://github.com/login/oauth/access_token";

/// Whether `oauth2::AuthUrl::new` accepts the text as an authorization
/// endpoint.
pub uninterp spec fn auth_url_accepts(url: Seq<char>) -> bool;

/// Whether `oauth2::TokenUrl::new` accepts the text as a token endpoint.
pub uninterp spec fn token_url_accepts(url: Seq<char>) -> bool;

/// The authorization URL that `oauth2` builds for an authorization-code
/// request of the client `client_id` at the endpoint `auth_url`, carrying
/// `state` as its anti-forgery token; `None` where the endpoint is no URL.
pub uninterp spec fn authorization_url_of(
    auth_url: Seq<char>,
    client_id: Seq<char>,
    state: Seq<char>,
) -> Option<Seq<char>>;

/// The text of an optional string.
pub open spec fn text_of(s: Option<String>) -> Option<Seq<char>> {
    match s {
        Some(s) => Some(s@),
        None => None,
    }
}

/// `oauth2::AuthUrl::new`: whether the text is accepted as an authorization
/// endpoint.
///
/// Trusted: the constructor parses its argument as a URL and fails exactly
/// when the parse fails; the answer depends on the text alone.
#[verifier::external_body]
fn auth_endpoint_accepted(url: &str) -> (ok: bool)
    ensures
        ok == auth_url_accepts(url@),
{
    oauth2::AuthUrl::new(url.to_string()).is_ok()
}

/// `oauth2::TokenUrl::new`: whether the text is accepted as a token
/// endpoint.
///
/// Trusted: as for the authorization endpoint, the constructor fails exactly
/// when the text does not parse as a URL.
#[verifier::external_body]
fn token_endpoint_accepted(url: &str) -> (ok: bool)
    ensures
        ok == token_url_accepts(url@),
{
    oauth2::TokenUrl::new(url.to_string()).is_ok()
}

/// `oauth2::Client::authorize_url` followed by
/// `oauth2::AuthorizationRequest::url`: the URL to which a user is sent to
/// authorize the client, with `state` as the request's anti-forgery token.
///
/// Trusted: the URL is the endpoint with the query pairs `response_type`,
/// `client_id` and `state` appended, so it depends on the three texts alone;
/// building it fails only where `AuthUrl::new` refuses the endpoint.
#[verifier::external_body]
fn authorization_url(auth_url: &str, client_id: &str, state: &str) -> (url: Option<String>)
    ensures
        text_of(url) == authorization_url_of(auth_url@, client_id@, state@),
        url is Some <==> auth_url_accepts(auth_url@),
{
    let endpoint = oauth2::AuthUrl::new(auth_url.to_string()).ok()?;
    let id = oauth2::ClientId::new(client_id.to_string());
    let client = oauth2::basic::BasicClient::new(id, None, endpoint, None);
    let token = oauth2::CsrfToken::new(state.to_string());
    let (url, _) = client.authorize_url(move || token).url();
    Some(String::from(url))
}

/// Why a provider configuration was refused.
#[derive(Clone, Copy, Debug, PartialEq, Eq, Structural)]
pub enum ConfigError {
    /// The authorization endpoint is not a URL.
    InvalidAuthUrl,
    /// The token endpoint is not a URL.
    InvalidTokenUrl,
}

/// The first fault that building a configuration from the two endpoints
/// meets, the authorization endpoint being checked first.
pub open spec fn endpoint_fault(auth_url: Seq<char>, token_url: Seq<char>) -> Option<ConfigError> {
    if !auth_url_accepts(auth_url) {
        Some(ConfigError::InvalidAuthUrl)
    } else if !token_url_accepts(token_url) {
        Some(ConfigError::InvalidTokenUrl)
    } else {
        None
    }
}

/// An OAuth2 client registration at one provider.
///
/// A value of this type always holds two endpoints that `oauth2` accepts, so
/// the redirect of a login attempt can always be built from it.
#[derive(Debug)]
pub struct ProviderConfig {
    client_id: String,
    client_secret: String,
    auth_url: String,
    token_url: String,
}

impl Clone for ProviderConfig {
    fn clone(&self) -> (copy: ProviderConfig)
        ensures
            copy.spec_client_id() == self.spec_client_id(),
            copy.spec_client_secret() == self.spec_client_secret(),
            copy.spec_auth_url() == self.spec_auth_url(),
            copy.spec_token_url() == self.spec_token_url(),
    {
        proof {
            use_type_invariant(self);
        }
        ProviderConfig {
            client_id: self.client_id.clone(),
            client_secret: self.client_secret.clone(),
            auth_url: self.auth_url.clone(),
            token_url: self.token_url.clone(),
        }
    }
}

impl ProviderConfig {
    #[verifier::type_invariant]
    spec fn endpoints_accepted(self) -> bool {
        &&& auth_url_accepts(self.auth_url@)
        &&& token_url_accepts(self.token_url@)
    }

    /// The client identifier.
    pub closed spec fn spec_client_id(&self) -> Seq<char> {
        self.client_id@
    }

    /// The client secret.
    pub closed spec fn spec_client_secret(&self) -> Seq<char> {
        self.client_secret@
    }

    /// The authorization endpoint.
    pub closed spec fn spec_auth_url(&self) -> Seq<char> {
        self.auth_url@
    }

    /// The token endpoint.
    pub closed spec fn spec_token_url(&self) -> Seq<char> {
        self.token_url@
    }

    /// Builds a configuration from the client's credentials and the
    /// provider's endpoints. The authorization endpoint is checked first.
    pub fn new(
        client_id: String,
        client_secret: String,
        auth_url: String,
        token_url: String,
    ) -> (config: Result<ProviderConfig, ConfigError>)
        ensures
            match config {
                Ok(c) => {
                    &&& endpoint_fault(auth_url@, token_url@) is None
                    &&& c.spec_client_id() == client_id@
                    &&& c.spec_client_secret() == client_secret@
                    &&& c.spec_auth_url() == auth_url@
                    &&& c.spec_token_url() == token_url@
                },
                Err(e) => endpoint_fault(auth_url@, token_url@) == Some(e),
            },
    {
        if !auth_endpoint_accepted(auth_url.as_str()) {
            return Err(ConfigError::InvalidAuthUrl);
        }
        if !token_endpoint_accepted(token_url.as_str()) {
            return Err(ConfigError::InvalidTokenUrl);
        }
        Ok(ProviderConfig { client_id, client_secret, auth_url, token_url })
    }

    /// The client identifier.
    pub fn client_id(&self) -> (id: &String)
        ensures
            id@ == self.spec_client_id(),
    {
        &self.client_id
    }

    /// The client secret.
    pub fn client_secret(&self) -> (secret: &String)
        ensures
            secret@ == self.spec_client_secret(),
    {
        &self.client_secret
    }

    /// The authorization endpoint.
    pub fn auth_url(&self) -> (url: &String)
        ensures
            url@ == self.spec_auth_url(),
            auth_url_accepts(url@),
    {
        proof {
            use_type_invariant(self);
        }
        &self.auth_url
    }

    /// The token endpoint.
    pub fn token_url(&self) -> (url: &String)
        ensures
            url@ == self.spec_token_url(),
            token_url_accepts(url@),
    {
        proof {
            use_type_invariant(self);
        }
        &self.token_url
    }

    /// The URL to which the user is sent to authorize this client, bound to
    /// the anti-forgery token `state`.
    pub fn authorization_redirect(&self, state: &String) -> (url: String)
        ensures
            Some(url@) == authorization_url_of(
                self.spec_auth_url(),
                self.spec_client_id(),
                state@,
            ),
    {
        proof {
            use_type_invariant(self);
        }
        let built = authorization_url(
            self.auth_url.as_str(),
            self.client_id.as_str(),
            state.as_str(),
        );
        built.unwrap()
    }
}

/// The client registration at GitHub for the given credentials.
pub fn init_github_client(client_id: String, client_secret: String) -> (config: Result<
    ProviderConfig,
    ConfigError,
>)
    ensures
        match config {
            Ok(c) => {
                &&& endpoint_fault(GITHUB_AUTHORIZE_URL@, GITHUB_TOKEN_URL@) is None
                &&& c.spec_client_id() == client_id@
                &&& c.spec_client_secret() == client_secret@
                &&& c.spec_auth_url() == GITHUB_AUTHORIZE_URL@
                &&& c.spec_token_url() == GITHUB_TOKEN_URL@
            },
            Err(e) => endpoint_fault(GITHUB_AUTHORIZE_URL@, GITHUB_TOKEN_URL@) == Some(e),
        },
{
    ProviderConfig::new(
        client_id,
        client_secret,
        GITHUB_AUTHORIZE_URL.to_string(),
        GITHUB_TOKEN_URL.to_string(),
    )
}

} // verus!
