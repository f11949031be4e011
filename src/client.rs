//! Client configuration: validation of the base URL, assembly of the default
//! headers, and the transport that every request goes through.
use crate::builder::GithubClientBuilder;
use crate::error::{CreationError, CreationErrorKind};
use crate::text::{ends_with, is_prefix, is_suffix, starts_with};
use crate::users::Users;
use crate::transport::{build_client, empty_header_map, header_entries, header_value_ok, insert_header};
use reqwest::header::{HeaderMap, HeaderValue};
use reqwest::header::InvalidHeaderValue;
use vstd::prelude::*;

verus! {

/// The media type that pins responses to version 3 of the API.
pub open spec fn accept_media_type() -> Seq<char> {
    "application/vnd.github.v3+json"@
}

/// The fixed user agent: this package's name and version.
pub open spec fn user_agent_text() -> Seq<char> {
    "use_github_api/0.1.0"@
}

/// The `Authorization` header value sent for a token.
pub open spec fn token_header(token: Seq<char>) -> Seq<char> {
    "token "@ + token
}

pub open spec fn has_protocol(url: Seq<char>) -> bool {
    is_prefix("https://"@, url) || is_prefix("http://"@, url)
}

pub open spec fn has_api_path(url: Seq<char>) -> bool {
    is_suffix("/api/v3"@, url)
}

/// What is wrong with a custom base URL, if anything. The protocol is
/// checked before the API path.
pub open spec fn base_url_problem(url: Seq<char>) -> Option<CreationErrorKind> {
    if !has_protocol(url) {
        Some(CreationErrorKind::BaseUrlWithoutProtocol)
    } else if !has_api_path(url) {
        Some(CreationErrorKind::BaseUrlWithoutApiPath)
    } else {
        None
    }
}

/// Checks a custom base URL: it must start with `http://` or `https://`
/// and end with `/api/v3`.
pub fn check_base_url(url: &str) -> (r: Result<(), CreationError>)
    ensures
        match base_url_problem(url@) {
            Some(k) => r == Err::<(), CreationError>(CreationError { kind: k }),
            None => r is Ok,
        },
{
    if !(starts_with(url, "https://") || starts_with(url, "http://")) {
        return Err(CreationError::base_url_without_protocol());
    }
    if !ends_with(url, "/api/v3") {
        return Err(CreationError::base_url_without_api_path());
    }
    Ok(())
}

/// The headers sent with every request, as a mapping from header name to value.
pub struct HeadersView {
    pub accept: Seq<char>,
    pub authorization: Option<Seq<char>>,
}

/// The default headers of a client: `Accept` always, and `Authorization`
/// when the client authenticates.
#[derive(Debug)]
pub struct DefaultHeaders {
    pub accept: String,
    pub authorization: Option<String>,
}

impl View for DefaultHeaders {
    type V = HeadersView;

    open spec fn view(&self) -> HeadersView {
        HeadersView {
            accept: self.accept@,
            authorization: match self.authorization {
                Some(a) => Some(a@),
                None => None,
            },
        }
    }
}

/// The value stored under a header name.
pub open spec fn header_lookup(h: HeadersView, name: Seq<char>) -> Option<Seq<char>> {
    if name == "Accept"@ {
        Some(h.accept)
    } else if name == "Authorization"@ {
        h.authorization
    } else {
        None
    }
}

impl DefaultHeaders {
    /// The value of the header called `name`.
    pub fn get(&self, name: &str) -> (r: Option<&str>)
        ensures
            match r {
                Some(v) => header_lookup(self@, name@) == Some(v@),
                None => header_lookup(self@, name@) is None,
            },
    {
        proof {
            reveal_strlit("Accept");
            reveal_strlit("Authorization");
        }
        if crate::text::same_text(name, "Accept") {
            Some(self.accept.as_str())
        } else if crate::text::same_text(name, "Authorization") {
            match &self.authorization {
                Some(a) => Some(a.as_str()),
                None => None,
            }
        } else {
            None
        }
    }
}

/// The default headers of a client that authenticates with `token`; an
/// empty token means that the client does not authenticate.
pub open spec fn headers_for(token: Seq<char>) -> HeadersView {
    HeadersView {
        accept: accept_media_type(),
        authorization: if token.len() > 0 { Some(token_header(token)) } else { None },
    }
}

/// A token that cannot be sent in a header.
pub open spec fn token_rejected(token: Seq<char>) -> bool {
    token.len() > 0 && !header_value_ok(token_header(token))
}

/// Why a client could not be constructed.
#[derive(Debug)]
pub enum ClientError {
    /// The configuration is invalid.
    Creation(CreationError),
    /// The token cannot be sent as a header value.
    InvalidHeader(InvalidHeaderValue),
    /// The HTTP transport could not be initialised.
    Transport(reqwest::Error),
}

pub open spec fn is_creation_error<T>(r: Result<T, ClientError>, kind: CreationErrorKind) -> bool {
    match r {
        Err(ClientError::Creation(e)) => e.kind == kind,
        _ => false,
    }
}

/// A handle to the API. It cannot be changed once it is constructed.
#[derive(Debug)]
pub struct GithubClient<'a> {
    base_url: &'a str,
    reqwest_client: reqwest::Client,
    auth_token: Option<&'a str>,
    default_headers: DefaultHeaders,
    user_agent: &'static str,
}

/// What a client is configured with; its transport is left out.
pub struct ClientView {
    pub base_url: Seq<char>,
    pub auth_token: Option<Seq<char>>,
    pub default_headers: HeadersView,
    pub user_agent: Seq<char>,
}

impl<'a> View for GithubClient<'a> {
    type V = ClientView;

    closed spec fn view(&self) -> ClientView {
        ClientView {
            base_url: self.base_url@,
            auth_token: match self.auth_token {
                Some(t) => Some(t@),
                None => None,
            },
            default_headers: self.default_headers@,
            user_agent: self.user_agent@,
        }
    }
}

/// A fully configured client for `base_url` and `token`.
pub open spec fn configured_for<'a>(c: GithubClient<'a>, base_url: Seq<char>, token: Seq<char>) -> bool {
    &&& c@.base_url == base_url
    &&& c@.auth_token == if token.len() > 0 { Some(token) } else { None::<Seq<char>> }
    &&& c@.default_headers == headers_for(token)
    &&& c@.user_agent == user_agent_text()
}

/// The root of the public API, used when custom base URLs are disabled.
pub open spec fn public_api_root() -> Seq<char> {
    "https://api.github.com"@
}

/// The settings of a client. A field is `None` when its capability is
/// disabled: without a base URL the client targets the public API, and
/// without a token it does not authenticate.
#[derive(Debug, Clone, Copy)]
pub struct ClientConfig<'a> {
    pub base_url: Option<&'a str>,
    pub auth_token: Option<&'a str>,
}

/// What is wrong with a configuration; only a custom base URL is checked.
pub open spec fn config_problem<'a>(config: ClientConfig<'a>) -> Option<CreationErrorKind> {
    match config.base_url {
        Some(u) => base_url_problem(u@),
        None => None,
    }
}

/// The base URL that a configuration targets.
pub open spec fn config_base_url<'a>(config: ClientConfig<'a>) -> Seq<char> {
    match config.base_url {
        Some(u) => u@,
        None => public_api_root(),
    }
}

/// The token of a configuration, empty when it has none.
pub open spec fn config_token<'a>(config: ClientConfig<'a>) -> Seq<char> {
    match config.auth_token {
        Some(t) => t@,
        None => Seq::empty(),
    }
}

/// What constructing a client from `config` may give: an invalid base URL
/// is reported first, then a token that cannot be sent; with both valid,
/// only the transport can fail.
pub open spec fn construction_result<'a>(
    config: ClientConfig<'a>,
    r: Result<GithubClient<'a>, ClientError>,
) -> bool {
    match config_problem(config) {
        Some(k) => is_creation_error(r, k),
        None => if token_rejected(config_token(config)) {
            r matches Err(ClientError::InvalidHeader(_))
        } else {
            match r {
                Ok(c) => configured_for(c, config_base_url(config), config_token(config)),
                Err(e) => e is Transport,
            }
        },
    }
}

/// The headers that a client hands to its transport, keyed by lower-case
/// name: the media type, and the token header when there is a token.
pub open spec fn transport_headers(token: Option<Seq<char>>) -> Map<Seq<char>, Seq<char>> {
    let accept = Map::<Seq<char>, Seq<char>>::empty().insert("accept"@, accept_media_type());
    match token {
        Some(t) => accept.insert("authorization"@, token_header(t)),
        None => accept,
    }
}

/// The header map for the transport of a client that authenticates with
/// `token`, if any. It fails exactly when the token cannot be sent.
pub fn default_header_map(token: Option<&str>) -> (r: Result<HeaderMap<HeaderValue>, InvalidHeaderValue>)
    ensures
        match token {
            Some(t) => r is Ok <==> header_value_ok(token_header(t@)),
            None => r is Ok,
        },
        r matches Ok(m) ==> header_entries(m) == transport_headers(
            match token {
                Some(t) => Some(t@),
                None => None,
            },
        ),
{
    let accept = "application/vnd.github.v3+json";
    proof {
        reveal_strlit("application/vnd.github.v3+json");
        assert(header_value_ok(accept@));
    }
    let mut headers = empty_header_map();
    insert_header(&mut headers, "accept", accept)?;
    proof {
        assert(header_entries(headers) =~= Map::<Seq<char>, Seq<char>>::empty().insert("accept"@, accept@));
    }
    if let Some(t) = token {
        let value = "token ".to_owned().concat(t);
        insert_header(&mut headers, "authorization", value.as_str())?;
    }
    Ok(headers)
}

/// The user agent of every client: this package's name and version.
pub fn user_agent() -> (r: &'static str)
    ensures
        r@ == user_agent_text(),
{
    "use_github_api/0.1.0"
}

impl<'a> GithubClient<'a> {
    /// Creates a client for the installation at `base_url`, authenticated
    /// with `auth_token` unless the token is empty.
    pub fn new(base_url: &'a str, auth_token: &'a str) -> (r: Result<GithubClient<'a>, ClientError>)
        ensures
            construction_result((ClientConfig { base_url: Some(base_url), auth_token: Some(auth_token) }), r),
    {
        Self::with_config(ClientConfig { base_url: Some(base_url), auth_token: Some(auth_token) })
    }

    /// Creates a client with the capabilities that `config` enables.
    pub fn with_config(config: ClientConfig<'a>) -> (r: Result<GithubClient<'a>, ClientError>)
        ensures
            construction_result(config, r),
    {
        let base_url: &'a str = match config.base_url {
            Some(u) => {
                match check_base_url(u) {
                    Err(e) => {
                        return Err(ClientError::Creation(e));
                    },
                    Ok(()) => {},
                }
                u
            },
            None => "https://api.github.com",
        };
        let token: Option<&'a str> = match config.auth_token {
            Some(t) => if t.unicode_len() > 0 {
                Some(t)
            } else {
                None
            },
            None => None,
        };
        let headers = match default_header_map(token) {
            Ok(m) => m,
            Err(e) => {
                return Err(ClientError::InvalidHeader(e));
            },
        };
        let authorization: Option<String> = match token {
            Some(t) => Some("token ".to_owned().concat(t)),
            None => None,
        };
        let accept = "application/vnd.github.v3+json";
        let user_agent = user_agent();
        let transport = match build_client(headers, user_agent) {
            Ok(c) => c,
            Err(e) => {
                return Err(ClientError::Transport(e));
            },
        };
        Ok(GithubClient {
            base_url,
            reqwest_client: transport,
            auth_token: token,
            default_headers: DefaultHeaders { accept: accept.to_owned(), authorization },
            user_agent,
        })
    }

    /// The base URL that requests go to.
    pub fn base_url(&self) -> (r: &'a str)
        ensures
            r@ == self@.base_url,
    {
        self.base_url
    }

    /// The token that the client authenticates with, if any.
    pub fn auth_token(&self) -> (r: Option<&'a str>)
        ensures
            match r {
                Some(t) => self@.auth_token == Some(t@),
                None => self@.auth_token is None,
            },
    {
        self.auth_token
    }

    /// The headers sent with every request.
    pub fn default_headers(&self) -> (r: &DefaultHeaders)
        ensures
            r@ == self@.default_headers,
    {
        &self.default_headers
    }

    /// The user agent sent with every request.
    pub fn user_agent(&self) -> (r: &'static str)
        ensures
            r@ == self@.user_agent,
    {
        self.user_agent
    }

    /// The HTTP client that requests go through.
    pub fn transport(&self) -> &reqwest::Client {
        &self.reqwest_client
    }

    /// The full URL of an endpoint path, which begins with `/`.
    pub fn url(&self, path: &str) -> (r: String)
        ensures
            r@ == self@.base_url + path@,
    {
        self.base_url.to_owned().concat(path)
    }

    /// The user endpoints of this client.
    pub fn users(&self) -> (r: Users<'_>)
        ensures
            r.client == self,
    {
        Users::new(self)
    }

    /// A builder for a client, the same as `GithubClientBuilder::new()`.
    pub fn builder() -> (r: GithubClientBuilder<'a>)
        ensures
            r.base_url is None,
            r.auth_token is None,
            r.capabilities.auth && r.capabilities.enterprise,
    {
        GithubClientBuilder::new()
    }
}

} // verus!

verus! {

/// Every custom base URL `http://` or `https://`, then at least one
/// character, then `/api/v3` passes the checks; a client configured with it
/// and with a token that can be sent in a header (or none) fails, if at all,
/// only in its transport.
pub proof fn lemma_enterprise_url_accepted<'a>(
    scheme: Seq<char>,
    host: Seq<char>,
    config: ClientConfig<'a>,
    r: Result<GithubClient<'a>, ClientError>,
)
    requires
        scheme == "https://"@ || scheme == "http://"@,
        host.len() > 0,
        config.base_url matches Some(u) && u@ == scheme + host + "/api/v3"@,
        !token_rejected(config_token(config)),
        construction_result(config, r),
    ensures
        config_problem(config) is None,
        r is Ok || r->Err_0 is Transport,
{
    let u = config.base_url.unwrap()@;
    assert(u.subrange(0, scheme.len() as int) =~= scheme);
    let suffix = "/api/v3"@;
    assert(u.subrange(u.len() - suffix.len(), u.len() as int) =~= suffix);
}

/// A URL without `http://` or `https://` is refused for its protocol,
/// whatever else is wrong with it; one with a protocol but without the
/// `/api/v3` ending is refused for its path.
pub proof fn lemma_url_checks_in_order<'a>(
    base_url: &'a str,
    config: ClientConfig<'a>,
    r: Result<GithubClient<'a>, ClientError>,
)
    requires
        config.base_url == Some(base_url),
        construction_result(config, r),
    ensures
        !has_protocol(base_url@) ==> is_creation_error(r, CreationErrorKind::BaseUrlWithoutProtocol),
        has_protocol(base_url@) && !has_api_path(base_url@) ==> is_creation_error(
            r,
            CreationErrorKind::BaseUrlWithoutApiPath,
        ),
{
}

} // verus!
