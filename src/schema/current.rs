//! The authenticated user, with the fields that only they may see.
use crate::schema::{Plan, Timestamp};
use vstd::prelude::*;

verus! {

/// The profile of the authenticated user.
#[derive(Debug, PartialEq, Eq)]
pub struct User {
    pub login: String,
    pub id: usize,
    pub node_id: Option<String>,
    /// The account type, `User` or `Organization`.
    pub user_type: String,
    pub site_admin: bool,
    pub name: Option<String>,
    pub company: Option<String>,
    pub blog: String,
    pub location: Option<String>,
    pub email: Option<String>,
    pub hireable: Option<bool>,
    pub bio: Option<String>,
    pub twitter_username: Option<String>,
    pub public_repos: usize,
    pub public_gists: usize,
    pub followers: usize,
    pub following: usize,
    pub created_at: Timestamp,
    pub updated_at: Timestamp,
    pub private_gists: Option<usize>,
    pub total_private_repos: Option<usize>,
    pub owned_private_repos: Option<usize>,
    pub disk_usage: Option<usize>,
    pub collaborators: Option<usize>,
    pub two_factor_authentication: Option<bool>,
    pub plan: Option<Plan>,
}

} // verus!
