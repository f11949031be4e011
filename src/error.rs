//! The two error families: errors raised while a client is assembled, and
//! errors that the API reports about a request.
use vstd::prelude::*;

verus! {

/// Why a client could not be assembled from its configuration.
#[derive(Debug, Clone, Copy, PartialEq, Eq, Structural)]
pub enum CreationErrorKind {
    BaseUrlWithoutProtocol,
    BaseUrlWithoutApiPath,
    AuthTokenNotProvided,
    BaseUrlNotProvided,
}

/// An invalid client configuration.
#[derive(Debug, Clone, Copy, PartialEq, Eq, Structural)]
pub struct CreationError {
    pub kind: CreationErrorKind,
}

/// The fixed text shown for each kind of creation error.
pub open spec fn creation_message(kind: CreationErrorKind) -> Seq<char> {
    match kind {
        CreationErrorKind::BaseUrlWithoutProtocol => "Base URL is without the protocol."@,
        CreationErrorKind::BaseUrlWithoutApiPath => "Base URL is without the `/api/v3` path at the end."@,
        CreationErrorKind::AuthTokenNotProvided => "Auth token not provided"@,
        CreationErrorKind::BaseUrlNotProvided => "Base URL is not provided."@,
    }
}

impl CreationError {
    pub fn new(kind: CreationErrorKind) -> (r: Self)
        ensures
            r.kind == kind,
    {
        CreationError { kind }
    }

    pub fn base_url_without_protocol() -> (r: Self)
        ensures
            r.kind == CreationErrorKind::BaseUrlWithoutProtocol,
    {
        Self::new(CreationErrorKind::BaseUrlWithoutProtocol)
    }

    pub fn base_url_without_api_path() -> (r: Self)
        ensures
            r.kind == CreationErrorKind::BaseUrlWithoutApiPath,
    {
        Self::new(CreationErrorKind::BaseUrlWithoutApiPath)
    }

    pub fn auth_token_not_provided() -> (r: Self)
        ensures
            r.kind == CreationErrorKind::AuthTokenNotProvided,
    {
        Self::new(CreationErrorKind::AuthTokenNotProvided)
    }

    pub fn base_url_not_provided() -> (r: Self)
        ensures
            r.kind == CreationErrorKind::BaseUrlNotProvided,
    {
        Self::new(CreationErrorKind::BaseUrlNotProvided)
    }

    /// The human-readable text of this error.
    pub fn message(&self) -> (r: &'static str)
        ensures
            r@ == creation_message(self.kind),
    {
        match self.kind {
            CreationErrorKind::BaseUrlWithoutProtocol => "Base URL is without the protocol.",
            CreationErrorKind::BaseUrlWithoutApiPath => "Base URL is without the `/api/v3` path at the end.",
            CreationErrorKind::AuthTokenNotProvided => "Auth token not provided",
            CreationErrorKind::BaseUrlNotProvided => "Base URL is not provided.",
        }
    }
}

/// A failure that the API reported in its error envelope.
#[derive(Debug, Clone, Copy, PartialEq, Eq, Structural)]
pub enum RuntimeErrorKind {
    BadCredentials,
    NotFound,
}

/// An error reported by the API about a request.
#[derive(Debug, Clone, Copy, PartialEq, Eq, Structural)]
pub struct RuntimeError {
    pub kind: RuntimeErrorKind,
}

/// The fixed text shown for each kind of runtime error.
pub open spec fn runtime_message(kind: RuntimeErrorKind) -> Seq<char> {
    match kind {
        RuntimeErrorKind::BadCredentials => "Bad credentials"@,
        RuntimeErrorKind::NotFound => "Either the resource does not exist, or it is protected"@,
    }
}

impl RuntimeError {
    pub fn new(kind: RuntimeErrorKind) -> (r: Self)
        ensures
            r.kind == kind,
    {
        RuntimeError { kind }
    }

    pub fn bad_credentials() -> (r: Self)
        ensures
            r.kind == RuntimeErrorKind::BadCredentials,
    {
        Self::new(RuntimeErrorKind::BadCredentials)
    }

    pub fn not_found() -> (r: Self)
        ensures
            r.kind == RuntimeErrorKind::NotFound,
    {
        Self::new(RuntimeErrorKind::NotFound)
    }

    /// The human-readable text of this error.
    pub fn message(&self) -> (r: &'static str)
        ensures
            r@ == runtime_message(self.kind),
    {
        match self.kind {
            RuntimeErrorKind::BadCredentials => "Bad credentials",
            RuntimeErrorKind::NotFound => "Either the resource does not exist, or it is protected",
        }
    }
}

} // verus!
