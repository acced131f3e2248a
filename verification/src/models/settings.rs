//! Settings-related data models: update responses and the content
//! filtering preference.
use vstd::prelude::*;
use crate::text::{eq_ignore_ascii_case, eq_ignoring_ascii_case, text_eq};

verus! {

/// Response from simple update mutations (updateBio, updateProfileImage, ...).
#[derive(Debug, Clone)]
pub struct UpdateResponse {
    pub status: String,
    pub response_code: String,
}

/// The status reads `success`, in any ASCII case.
pub open spec fn status_is_success(status: Seq<char>) -> bool {
    eq_ignoring_ascii_case(status, "success"@)
}

impl UpdateResponse {
    /// Check if the update was successful.
    pub fn is_success(&self) -> (r: bool)
        ensures
            r == status_is_success(self.status@),
    {
        eq_ignore_ascii_case(self.status.as_str(), "success")
    }
}

/// Response from the updateUserPreferences mutation.
#[derive(Debug, Clone)]
pub struct UserPreferencesUpdateResponse {
    pub status: String,
    pub response_code: String,
    pub affected_rows: Option<UserPreferencesPayload>,
}

impl UserPreferencesUpdateResponse {
    /// Check if the preferences update was successful.
    pub fn is_success(&self) -> (r: bool)
        ensures
            r == status_is_success(self.status@),
    {
        eq_ignore_ascii_case(self.status.as_str(), "success")
    }
}

/// Updated preferences returned after a successful update.
#[derive(Debug, Clone)]
pub struct UserPreferencesPayload {
    pub content_filtering_severity_level: Option<String>,
}

/// Content filtering severity level: how flagged content is shown.
#[derive(Debug, Clone, Copy, PartialEq, Eq, Structural)]
pub enum ContentFilterLevel {
    /// Stricter: hides all flagged content (`MYGRANDMALIKES`).
    Strict,
    /// Lenient: shows placeholders for flagged content (`MYGRANDMAHATES`).
    Lenient,
}

impl Default for ContentFilterLevel {
    fn default() -> (r: Self)
        ensures
            r == ContentFilterLevel::Strict,
    {
        ContentFilterLevel::Strict
    }
}

/// The API string of each level.
pub open spec fn filter_level_name(level: ContentFilterLevel) -> Seq<char> {
    match level {
        ContentFilterLevel::Strict => "MYGRANDMALIKES"@,
        ContentFilterLevel::Lenient => "MYGRANDMAHATES"@,
    }
}

/// The level an API string names, if any.
pub open spec fn parse_filter_level(s: Seq<char>) -> Option<ContentFilterLevel> {
    if s == "MYGRANDMALIKES"@ {
        Some(ContentFilterLevel::Strict)
    } else if s == "MYGRANDMAHATES"@ {
        Some(ContentFilterLevel::Lenient)
    } else {
        None
    }
}

impl ContentFilterLevel {
    /// Convert to the string value expected by the API.
    pub fn as_str(&self) -> (r: &'static str)
        ensures
            r@ == filter_level_name(*self),
    {
        match self {
            ContentFilterLevel::Strict => "MYGRANDMALIKES",
            ContentFilterLevel::Lenient => "MYGRANDMAHATES",
        }
    }

    /// Parse from API string value.
    pub fn from_str(s: &str) -> (r: Option<Self>)
        ensures
            r == parse_filter_level(s@),
    {
        if text_eq(s, "MYGRANDMALIKES") {
            Some(ContentFilterLevel::Strict)
        } else if text_eq(s, "MYGRANDMAHATES") {
            Some(ContentFilterLevel::Lenient)
        } else {
            None
        }
    }

    /// Check if this level is lenient (shows reported content).
    pub fn is_lenient(&self) -> (r: bool)
        ensures
            r == (*self == ContentFilterLevel::Lenient),
    {
        matches!(self, ContentFilterLevel::Lenient)
    }
}

/// Parsing the API string of a level gives the level back.
pub proof fn lemma_filter_level_round_trip(level: ContentFilterLevel)
    ensures
        parse_filter_level(filter_level_name(level)) == Some(level),
{
    reveal_strlit("MYGRANDMALIKES");
    reveal_strlit("MYGRANDMAHATES");
    assert("MYGRANDMALIKES"@[9] != "MYGRANDMAHATES"@[9]);
}

} // verus!
