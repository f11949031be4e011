//! The data shapes that the API sends and accepts.
use vstd::prelude::*;

pub mod contextual_info;
pub mod current;
pub mod list;
pub mod single;

verus! {

/// A point in time: whole seconds since 1970-01-01T00:00:00 UTC, and the
/// nanoseconds past that second (1_000_000_000 and above during a leap
/// second).
#[derive(Debug, Clone, Copy, PartialEq, Eq, Structural)]
pub struct Timestamp {
    pub seconds: i64,
    pub nanos: u32,
}

/// The plan of a user account.
#[derive(Debug, PartialEq, Eq)]
pub struct Plan {
    pub name: String,
    pub space: usize,
    pub collaborators: usize,
    pub private_repos: usize,
}

/// The envelope in which the API reports an error.
#[derive(Debug, PartialEq, Eq)]
pub struct GitHubError {
    pub message: String,
    pub documentation_url: String,
}

} // verus!
