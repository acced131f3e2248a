//! Another user's profile page: how a failed load is shown, and the
//! paging of their posts.
use vstd::prelude::*;
use crate::text::{contains_text, has_substring};

verus! {

/// Posts fetched per page on a profile.
pub const POSTS_PER_PAGE: i32 = 20;

/// How a failed profile load is shown.
#[derive(Debug, Clone, Copy, PartialEq, Eq, Structural)]
pub enum ProfileLoadError {
    /// The "profile not found" screen.
    NotFound,
    /// The generic error screen with the message.
    Other,
}

/// A message mentioning "not found" shows the not-found screen.
pub fn classify_profile_error(message: &str) -> (r: ProfileLoadError)
    ensures
        r == if has_substring(message@, "not found"@) || has_substring(message@, "Profile not found"@) {
            ProfileLoadError::NotFound
        } else {
            ProfileLoadError::Other
        },
{
    if contains_text(message, "not found") || contains_text(message, "Profile not found") {
        ProfileLoadError::NotFound
    } else {
        ProfileLoadError::Other
    }
}

/// The page title: `<username> - Peer Network`.
pub fn profile_page_title(username: &str) -> (r: String)
    ensures
        r@ == username@ + " - Peer Network"@,
{
    let mut r = username.to_owned();
    r.append(" - Peer Network");
    r
}

} // verus!
