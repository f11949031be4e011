//! Contextual information about a user, as shown on a hovercard.
use vstd::prelude::*;

verus! {

/// The contextual information about a user.
#[derive(Debug, PartialEq, Eq)]
pub struct User {
    pub contexts: Vec<Context>,
}

/// One line of context, with the name of the icon shown beside it.
#[derive(Debug, PartialEq, Eq)]
pub struct Context {
    pub message: String,
    pub octicon: String,
}

/// Query parameters: the kind of subject and its id.
#[derive(Debug, PartialEq, Eq)]
#[non_exhaustive]
pub struct Params {
    pub subject_type: String,
    pub subject_id: usize,
}

impl Params {
    pub fn new(subject_type: String, subject_id: usize) -> (r: Self)
        ensures
            r.subject_type == subject_type,
            r.subject_id == subject_id,
    {
        Params { subject_type, subject_id }
    }
}

} // verus!
