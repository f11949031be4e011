//! Listing users.
use crate::users::UsersError;
use vstd::prelude::*;

verus! {

/// The largest page that the API serves.
pub open spec fn max_per_page() -> usize {
    100
}

/// A user as it appears in a listing.
#[derive(Debug, PartialEq, Eq)]
pub struct User {
    pub login: String,
    pub id: usize,
    pub node_id: Option<String>,
    /// The account type, `User` or `Organization`.
    pub user_type: String,
    pub site_admin: bool,
}

/// Query parameters of a user listing: the id after which the listing
/// starts, and the number of users on a page.
#[derive(Debug, Clone, Copy, PartialEq, Eq, Structural)]
#[non_exhaustive]
pub struct Params {
    pub since: Option<usize>,
    pub per_page: Option<usize>,
}

impl Params {
    /// Query parameters; a page of more than 100 users is refused.
    pub fn new(since: Option<usize>, per_page: Option<usize>) -> (r: Result<Self, UsersError>)
        ensures
            match per_page {
                Some(n) if n > max_per_page() => r matches Err(e) && e.kind == crate::users::UsersErrorKind::PerPageBiggerThan100,
                _ => r == Ok::<Params, UsersError>(Params { since, per_page }),
            },
    {
        if let Some(n) = per_page {
            if n > 100 {
                return Err(UsersError::per_page_bigger_than_100());
            }
        }
        Ok(Params { since, per_page })
    }
}

} // verus!
