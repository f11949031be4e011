//! Errors of the user endpoints, and the paths those endpoints are served at.
use crate::client::GithubClient;
use vstd::prelude::*;

verus! {

/// The user endpoints of a client.
#[non_exhaustive]
pub struct Users<'a> {
    pub client: &'a GithubClient<'a>,
}

impl<'a> Users<'a> {
    pub fn new(client: &'a GithubClient<'a>) -> (r: Self)
        ensures
            r.client == client,
    {
        Users { client }
    }
}

#[derive(Debug, Clone, Copy, PartialEq, Eq, Structural)]
pub enum UsersErrorKind {
    PerPageBiggerThan100,
}

/// Query parameters of a user endpoint that the API would refuse.
#[derive(Debug, Clone, Copy, PartialEq, Eq, Structural)]
pub struct UsersError {
    pub kind: UsersErrorKind,
}

pub open spec fn users_message(kind: UsersErrorKind) -> Seq<char> {
    match kind {
        UsersErrorKind::PerPageBiggerThan100 => "per_page is bigger than 100. It has to be less than or equivalent to 100."@,
    }
}

impl UsersError {
    pub fn new(kind: UsersErrorKind) -> (r: Self)
        ensures
            r.kind == kind,
    {
        UsersError { kind }
    }

    pub fn per_page_bigger_than_100() -> (r: Self)
        ensures
            r.kind == UsersErrorKind::PerPageBiggerThan100,
    {
        Self::new(UsersErrorKind::PerPageBiggerThan100)
    }

    /// The human-readable text of this error.
    pub fn message(&self) -> (r: &'static str)
        ensures
            r@ == users_message(self.kind),
    {
        match self.kind {
            UsersErrorKind::PerPageBiggerThan100 => "per_page is bigger than 100. It has to be less than or equivalent to 100.",
        }
    }
}

/// The path that lists users.
pub fn list_path() -> (r: &'static str)
    ensures
        r@ == "/users"@,
{
    "/users"
}

/// The path of one user.
pub fn user_path(username: &str) -> (r: String)
    ensures
        r@ == "/users/"@ + username@,
{
    "/users/".to_owned().concat(username)
}

/// The path of a user's hovercard.
pub fn hovercard_path(username: &str) -> (r: String)
    ensures
        r@ == "/users/"@ + username@ + "/hovercard"@,
{
    user_path(username).concat("/hovercard")
}

} // verus!
