//! Staged configuration of a client, validated only when it is built.
use crate::client::{construction_result, is_creation_error, ClientConfig, ClientError, GithubClient};
use crate::error::{CreationError, CreationErrorKind};
use vstd::prelude::*;

verus! {

/// The optional capabilities of a client: authentication with a token, and
/// a custom base URL for an enterprise installation.
#[derive(Debug, Clone, Copy, PartialEq, Eq, Structural)]
pub struct Capabilities {
    pub auth: bool,
    pub enterprise: bool,
}

impl Capabilities {
    /// Both capabilities enabled.
    pub fn all() -> (r: Self)
        ensures
            r.auth && r.enterprise,
    {
        Capabilities { auth: true, enterprise: true }
    }
}

/// Collects a base URL and an auth token for a `GithubClient`. Each setting
/// is required exactly when its capability is enabled.
#[derive(Debug, Clone, Copy)]
pub struct GithubClientBuilder<'a> {
    pub base_url: Option<&'a str>,
    pub auth_token: Option<&'a str>,
    pub capabilities: Capabilities,
}

/// The setting that a builder still lacks, the token before the base URL.
pub open spec fn missing_setting<'a>(b: GithubClientBuilder<'a>) -> Option<CreationErrorKind> {
    if b.capabilities.auth && b.auth_token is None {
        Some(CreationErrorKind::AuthTokenNotProvided)
    } else if b.capabilities.enterprise && b.base_url is None {
        Some(CreationErrorKind::BaseUrlNotProvided)
    } else {
        None
    }
}

/// The configuration that a builder hands to the client: the settings of
/// the enabled capabilities.
pub open spec fn builder_config<'a>(b: GithubClientBuilder<'a>) -> ClientConfig<'a> {
    ClientConfig {
        base_url: if b.capabilities.enterprise { b.base_url } else { None },
        auth_token: if b.capabilities.auth { b.auth_token } else { None },
    }
}

/// What building from `b` may give.
pub open spec fn build_result<'a>(b: GithubClientBuilder<'a>, r: Result<GithubClient<'a>, ClientError>) -> bool {
    match missing_setting(b) {
        Some(k) => is_creation_error(r, k),
        None => construction_result(builder_config(b), r),
    }
}

/// When authentication is enabled, a builder without a token fails to build
/// for the token; when custom base URLs are enabled, one with what
/// authentication needs but without a base URL fails for the base URL.
pub proof fn lemma_builder_reports_missing_settings<'a>(
    b: GithubClientBuilder<'a>,
    r: Result<GithubClient<'a>, ClientError>,
)
    requires
        build_result(b, r),
    ensures
        b.capabilities.auth && b.auth_token is None ==> is_creation_error(
            r,
            CreationErrorKind::AuthTokenNotProvided,
        ),
        !(b.capabilities.auth && b.auth_token is None) && b.capabilities.enterprise && b.base_url is None
            ==> is_creation_error(r, CreationErrorKind::BaseUrlNotProvided),
{
}

impl<'a> GithubClientBuilder<'a> {
    /// A builder with nothing set, for a client with both capabilities.
    pub fn new() -> (r: Self)
        ensures
            r.base_url is None,
            r.auth_token is None,
            r.capabilities.auth && r.capabilities.enterprise,
    {
        Self::with_capabilities(Capabilities::all())
    }

    /// A builder with nothing set, for a client with `capabilities`.
    pub fn with_capabilities(capabilities: Capabilities) -> (r: Self)
        ensures
            r.base_url is None,
            r.auth_token is None,
            r.capabilities == capabilities,
    {
        GithubClientBuilder { base_url: None, auth_token: None, capabilities }
    }

    /// Builds the client. A missing token is reported before a missing base
    /// URL; otherwise the result is that of `GithubClient::with_config` on
    /// the settings of the enabled capabilities.
    pub fn build(self) -> (r: Result<GithubClient<'a>, ClientError>)
        ensures
            build_result(self, r),
    {
        let caps = self.capabilities;
        if caps.auth && self.auth_token.is_none() {
            return Err(ClientError::Creation(CreationError::auth_token_not_provided()));
        }
        if caps.enterprise && self.base_url.is_none() {
            return Err(ClientError::Creation(CreationError::base_url_not_provided()));
        }
        let config = ClientConfig {
            base_url: if caps.enterprise { self.base_url } else { None },
            auth_token: if caps.auth { self.auth_token } else { None },
        };
        GithubClient::with_config(config)
    }

    /// Sets the auth token.
    pub fn auth(self, auth_token: &'a str) -> (r: Self)
        ensures
            r.auth_token == Some(auth_token),
            r.base_url == self.base_url,
            r.capabilities == self.capabilities,
    {
        GithubClientBuilder { auth_token: Some(auth_token), ..self }
    }

    /// Sets the base URL.
    pub fn base_url(self, base_url: &'a str) -> (r: Self)
        ensures
            r.base_url == Some(base_url),
            r.auth_token == self.auth_token,
            r.capabilities == self.capabilities,
    {
        GithubClientBuilder { base_url: Some(base_url), ..self }
    }
}

impl<'a> Default for GithubClientBuilder<'a> {
    fn default() -> (r: Self)
        ensures
            r.base_url is None,
            r.auth_token is None,
            r.capabilities.auth && r.capabilities.enterprise,
    {
        Self::new()
    }
}

} // verus!
