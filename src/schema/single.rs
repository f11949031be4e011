//! One user, as anyone may see them.
use crate::schema::{Plan, Timestamp};
use vstd::prelude::*;

verus! {

/// A user's public profile; an authenticated request may see the plan too.
#[derive(Debug, PartialEq, Eq)]
pub struct User {
    pub login: String,
    pub id: usize,
    pub gravatar_id: String,
    /// The account type, `User` or `Organization`.
    pub user_type: String,
    pub site_admin: bool,
    pub name: Option<String>,
    pub company: Option<String>,
    pub blog: String,
    pub location: String,
    pub email: Option<String>,
    pub hireable: Option<bool>,
    pub bio: Option<String>,
    pub twitter_username: Option<String>,
    pub public_repos: usize,
    pub public_gists: usize,
    pub followers: usize,
    pub following: usize,
    pub created_at: Timestamp,
    pub updated_at: Timestamp,
    pub plan: Option<Plan>,
}

} // verus!
