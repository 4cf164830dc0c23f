//! Redirection from the user search form to a user's posts.

use vstd::prelude::*;

verus! {

/// Answer to a user search.
#[derive(Debug, Clone, PartialEq, Eq)]
pub enum UserRedirect {
    /// Redirect to this location.
    To(String),
    /// No username was given.
    MissingUsername,
}

/// Location of a user's posts.
pub open spec fn user_posts_location(username: Seq<char>) -> Seq<char> {
    "/user/"@ + username + "/posts"@
}

/// Where a search for `username` leads: to the user's posts, or nowhere
/// when no username was given.
pub fn user_redirect(username: Option<&str>) -> (r: UserRedirect)
    ensures
        match username {
            None => r == UserRedirect::MissingUsername,
            Some(u) => r matches UserRedirect::To(l) && l@ == user_posts_location(u@),
        },
{
    match username {
        None => UserRedirect::MissingUsername,
        Some(u) => UserRedirect::To(String::from_str("/user/").concat(u).concat("/posts")),
    }
}

} // verus!
