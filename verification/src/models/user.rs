//! User and registration types: the `register` input and the responses
//! of the registration flow.
use vstd::prelude::*;
use crate::models::common::DefaultResponse;
use crate::models::settings::status_is_success;
use crate::text::{eq_ignore_ascii_case, text_eq, IntoText};

verus! {

/// Input for the `register` mutation.
#[derive(Debug, Clone)]
pub struct RegistrationInput {
    pub email: String,
    pub password: String,
    pub username: String,
    /// Optional Solana public key (43-44 chars, base58).
    pub pkey: Option<String>,
    /// UUID of the referring user.
    pub referral_uuid: Option<String>,
}

impl RegistrationInput {
    /// Create a new registration input with the required fields.
    pub fn new(email: impl IntoText, password: impl IntoText, username: impl IntoText) -> (r: Self)
        ensures
            r.email@ == email.text(),
            r.password@ == password.text(),
            r.username@ == username.text(),
            r.pkey is None,
            r.referral_uuid is None,
    {
        RegistrationInput {
            email: email.into_text(),
            password: password.into_text(),
            username: username.into_text(),
            pkey: None,
            referral_uuid: None,
        }
    }

    /// Set the referral UUID; every other field stays.
    pub fn with_referral(self, referral_uuid: impl IntoText) -> (r: Self)
        ensures
            r.referral_uuid matches Some(u) && u@ == referral_uuid.text(),
            r.email == self.email,
            r.password == self.password,
            r.username == self.username,
            r.pkey == self.pkey,
    {
        RegistrationInput { referral_uuid: Some(referral_uuid.into_text()), ..self }
    }

    /// Set the Solana public key; every other field stays.
    pub fn with_pkey(self, pkey: impl IntoText) -> (r: Self)
        ensures
            r.pkey matches Some(k) && k@ == pkey.text(),
            r.email == self.email,
            r.password == self.password,
            r.username == self.username,
            r.referral_uuid == self.referral_uuid,
    {
        RegistrationInput { pkey: Some(pkey.into_text()), ..self }
    }
}

/// The referrer's basic profile, returned by referral verification.
#[derive(Debug, Clone)]
pub struct ReferralUser {
    pub uid: String,
    pub username: String,
    pub slug: String,
    pub img: Option<String>,
}

/// Response from the `verifyReferralString` mutation.
#[derive(Debug, Clone)]
pub struct ReferralVerifyResponse {
    /// "success" or "error".
    pub status: String,
    pub response_code: String,
    /// The referrer's info on success; null or empty on error.
    pub affected_rows: Option<Vec<ReferralUser>>,
    /// Detailed response metadata.
    pub meta: Option<DefaultResponse>,
}

impl ReferralVerifyResponse {
    /// Check if the referral verification was successful.
    pub fn is_success(&self) -> (r: bool)
        ensures
            r == status_is_success(self.status@),
    {
        eq_ignore_ascii_case(self.status.as_str(), "success")
    }

    /// The first referrer returned, if any.
    pub fn referrer(&self) -> (r: Option<&ReferralUser>)
        ensures
            r == (match self.affected_rows {
                Some(v) => if v@.len() > 0 {
                    Some(&v@[0])
                } else {
                    None
                },
                None => None,
            }),
    {
        match &self.affected_rows {
            Some(v) => if v.len() > 0 {
                Some(&v[0])
            } else {
                None
            },
            None => None,
        }
    }
}

/// Response from the `register` mutation.
#[derive(Debug, Clone)]
pub struct RegisterResponse {
    /// "success" or "error".
    pub status: String,
    pub response_code: Option<String>,
    /// The newly created user's UUID (only on success).
    pub user_id: Option<String>,
    /// Detailed response metadata.
    pub meta: Option<DefaultResponse>,
}

impl RegisterResponse {
    /// Check if the registration was successful.
    pub fn is_success(&self) -> (r: bool)
        ensures
            r == status_is_success(self.status@),
    {
        eq_ignore_ascii_case(self.status.as_str(), "success")
    }

    /// The code of `meta` when there is one, else the top-level code.
    pub open spec fn spec_code(&self) -> Option<Seq<char>> {
        match self.meta {
            Some(m) => Some(m.response_code@),
            None => match self.response_code {
                Some(c) => Some(c@),
                None => None,
            },
        }
    }

    /// Get the response code, preferring meta if available.
    pub fn code(&self) -> (r: Option<&str>)
        ensures
            match r {
                Some(c) => self.spec_code() == Some(c@),
                None => self.spec_code() is None,
            },
    {
        match &self.meta {
            Some(m) => Some(m.response_code.as_str()),
            None => match &self.response_code {
                Some(c) => Some(c.as_str()),
                None => None,
            },
        }
    }
}

/// Response from the `verifyAccount` mutation.
#[derive(Debug, Clone)]
pub struct VerifyAccountResponse {
    /// "success" or "error".
    pub status: String,
    pub response_code: String,
    /// Detailed response metadata.
    pub meta: Option<DefaultResponse>,
}

impl VerifyAccountResponse {
    /// Check if the account verification was successful.
    pub fn is_success(&self) -> (r: bool)
        ensures
            r == status_is_success(self.status@),
    {
        eq_ignore_ascii_case(self.status.as_str(), "success")
    }
}

/// User preferences from the API.
#[derive(Debug, Clone, Default)]
pub struct UserPreferences {
    /// Content filtering severity level.
    pub content_filtering_severity_level: Option<String>,
}

/// Logged-in user profile info (from the `getUser` query).
#[derive(Debug, Clone)]
pub struct UserInfo {
    pub id: String,
    pub username: String,
    pub slug: String,
    pub img: Option<String>,
    pub biography: Option<String>,
    pub amount_followers: i32,
    pub amount_following: i32,
    pub amount_peers: i32,
    pub user_preferences: Option<UserPreferences>,
}

/// Response wrapper for the `getUser` query.
#[derive(Debug, Clone)]
pub struct UserInfoResponse {
    pub meta: DefaultResponse,
    pub affected_rows: Option<UserInfo>,
}

impl UserInfoResponse {
    /// The meta status is exactly `success`.
    pub fn is_success(&self) -> (r: bool)
        ensures
            r == (self.meta.status@ == "success"@),
    {
        text_eq(self.meta.status.as_str(), "success")
    }
}

} // verus!
