//! The moderator check guarding the admin page.
use vstd::prelude::*;
use crate::text::{contains_text, has_substring};

verus! {

/// The error text means the user is not a moderator.
pub open spec fn is_denial(error: Seq<char>) -> bool {
    has_substring(error, "not authorized"@) || has_substring(error, "Not authorized"@)
        || has_substring(error, "62101"@) || has_substring(error, "60501"@)
}

/// The outcome of the moderator check: no session or a refusal means
/// "not a moderator"; a successful moderation query means "moderator";
/// any other failure is an error.
pub open spec fn spec_role_check(has_token: bool, query_error: Option<Seq<char>>) -> Result<bool, Seq<char>> {
    if !has_token {
        Ok(false)
    } else {
        match query_error {
            None => Ok(true),
            Some(e) => if is_denial(e) {
                Ok(false)
            } else {
                Err("Permission check failed: "@ + e)
            },
        }
    }
}

/// Decide the moderator check from whether a session token exists and how
/// the moderation-stats query ended.
pub fn classify_role_check(has_token: bool, query_error: Option<&str>) -> (r: Result<bool, String>)
    ensures
        match r {
            Ok(b) => spec_role_check(has_token, match query_error {
                Some(e) => Some(e@),
                None => None,
            }) == Ok::<bool, Seq<char>>(b),
            Err(m) => spec_role_check(has_token, match query_error {
                Some(e) => Some(e@),
                None => None,
            }) == Err::<bool, Seq<char>>(m@),
        },
{
    if !has_token {
        return Ok(false);
    }
    match query_error {
        None => Ok(true),
        Some(e) => {
            if contains_text(e, "not authorized") || contains_text(e, "Not authorized")
                || contains_text(e, "62101") || contains_text(e, "60501") {
                Ok(false)
            } else {
                let mut m = "Permission check failed: ".to_owned();
                m.append(e);
                Err(m)
            }
        },
    }
}

} // verus!
