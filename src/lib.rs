//! A typed client for GitHub's v3 REST API.
//!
//! The crate verifies the parts of a client that make decisions: how a
//! client is configured and validated, how the builder picks the error it
//! reports, and how a response body is classified into a value, a decode
//! error, or an error that the API itself reported. Sending requests and
//! turning JSON text into typed values is left to `reqwest` and `serde`.
//!
//! A client has two optional capabilities: it may authenticate with a
//! token, and it may target an enterprise installation through a custom base
//! URL instead of the public API. `GithubClient::new` and
//! `GithubClientBuilder::new` enable both; `GithubClient::with_config` and
//! `GithubClientBuilder::with_capabilities` choose.
use vstd::prelude::*;

pub mod builder;
pub mod client;
pub mod error;
pub mod response;
pub mod schema;
pub mod text;
pub mod transport;
pub mod users;

pub use builder::{Capabilities, GithubClientBuilder};
pub use client::{ClientConfig, ClientError, DefaultHeaders, GithubClient};
pub use error::{CreationError, CreationErrorKind, RuntimeError, RuntimeErrorKind};
pub use response::{CallError, DecodeError, Step};
pub use users::{Users, UsersError, UsersErrorKind};
