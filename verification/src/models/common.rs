//! Types shared across API responses.
use vstd::prelude::*;
use crate::text::{text_eq, IntoText};

pub mod response_codes;

verus! {

/// Line and column of a GraphQL error.
#[derive(Debug, Clone, Copy, PartialEq, Eq)]
pub struct GraphQLErrorLocation {
    pub line: u32,
    pub column: u32,
}

/// Standard response envelope for Peer API mutations (the `meta` field).
#[derive(Debug, Clone)]
pub struct DefaultResponse {
    pub status: String,
    pub request_id: String,
    pub response_code: String,
    pub response_message: String,
}

/// Status values returned by the Peer API.
#[derive(Debug, Clone, Copy, PartialEq, Eq, Structural)]
pub enum ApiStatus {
    Success,
    Error,
    Unknown,
}

impl Default for ApiStatus {
    fn default() -> (r: Self)
        ensures
            r == ApiStatus::Unknown,
    {
        ApiStatus::Unknown
    }
}

impl ApiStatus {
    /// Whether the status is `Success`.
    pub fn is_success(&self) -> (r: bool)
        ensures
            r == (*self == ApiStatus::Success),
    {
        matches!(self, ApiStatus::Success)
    }
}

/// Application-level API errors.
#[derive(Debug, Clone)]
pub enum ApiError {
    Network(String),
    GraphQL(String),
    Deserialization(String),
    Api { code: String, message: String },
    Unexpected(String),
}

/// The text shown for an [`ApiError`].
pub open spec fn api_error_text(e: ApiError) -> Seq<char> {
    match e {
        ApiError::Network(m) => "Network error: "@ + m@,
        ApiError::GraphQL(m) => "GraphQL error: "@ + m@,
        ApiError::Deserialization(m) => "Deserialization error: "@ + m@,
        ApiError::Api { code, message } => "API error ("@ + code@ + "): "@ + message@,
        ApiError::Unexpected(m) => "Unexpected error: "@ + m@,
    }
}

impl ApiError {
    /// Create an API error from a response code.
    pub fn from_code(code: impl IntoText, message: impl IntoText) -> (r: Self)
        ensures
            r matches ApiError::Api { code: c, message: m } && c@ == code.text() && m@
                == message.text(),
    {
        ApiError::Api { code: code.into_text(), message: message.into_text() }
    }

    /// The human-readable text of the error.
    pub fn message(&self) -> (r: String)
        ensures
            r@ == api_error_text(*self),
    {
        let mut r = String::new();
        match self {
            ApiError::Network(m) => {
                r.append("Network error: ");
                r.append(m.as_str());
            },
            ApiError::GraphQL(m) => {
                r.append("GraphQL error: ");
                r.append(m.as_str());
            },
            ApiError::Deserialization(m) => {
                r.append("Deserialization error: ");
                r.append(m.as_str());
            },
            ApiError::Api { code, message } => {
                r.append("API error (");
                r.append(code.as_str());
                r.append("): ");
                r.append(message.as_str());
            },
            ApiError::Unexpected(m) => {
                r.append("Unexpected error: ");
                r.append(m.as_str());
            },
        }
        r
    }
}

/// The user-facing text for an API response code; every code the table
/// does not know gets the generic message.
pub open spec fn friendly_message(code: Seq<char>) -> Seq<char> {
    if code == "10601"@ {
        "Registration successful! Please check your email to verify your account."@
    } else if code == "10701"@ {
        "Account verified! You can now log in."@
    } else if code == "11011"@ {
        "Referral information loaded."@
    } else if code == "30301"@ {
        "Please fill in all required fields."@
    } else if code == "30601"@ {
        "This email is already registered."@
    } else if code == "30202"@ {
        "Invalid username format. Use 3-23 characters with letters, numbers, underscores, or hyphens."@
    } else if code == "30103"@ {
        "Invalid input format."@
    } else if code == "31007"@ {
        "Invalid referral code. The referrer could not be found."@
    } else if code == "31010"@ {
        "Hmm\u{2026} that referral code doesn't seem to work. Ask your friend to send you a new link, or use a Peer code."@
    } else if code == "30701"@ {
        "This account has already been verified."@
    } else if code == "40601"@ {
        "Registration failed due to a server error. Please try again later."@
    } else if code == "40602"@ {
        "Failed to generate user ID. Please try again."@
    } else if code == "40701"@ {
        "Account verification failed. Please try again."@
    } else if code == "41013"@ {
        "Unable to verify referral code. Please try again."@
    } else {
        "An unexpected error occurred. Please try again."@
    }
}

/// Map response codes to user-friendly messages.
pub fn user_friendly_message(code: &str) -> (r: &'static str)
    ensures
        r@ == friendly_message(code@),
{
    if text_eq(code, "10601") {
        "Registration successful! Please check your email to verify your account."
    } else if text_eq(code, "10701") {
        "Account verified! You can now log in."
    } else if text_eq(code, "11011") {
        "Referral information loaded."
    } else if text_eq(code, "30301") {
        "Please fill in all required fields."
    } else if text_eq(code, "30601") {
        "This email is already registered."
    } else if text_eq(code, "30202") {
        "Invalid username format. Use 3-23 characters with letters, numbers, underscores, or hyphens."
    } else if text_eq(code, "30103") {
        "Invalid input format."
    } else if text_eq(code, "31007") {
        "Invalid referral code. The referrer could not be found."
    } else if text_eq(code, "31010") {
        "Hmm\u{2026} that referral code doesn't seem to work. Ask your friend to send you a new link, or use a Peer code."
    } else if text_eq(code, "30701") {
        "This account has already been verified."
    } else if text_eq(code, "40601") {
        "Registration failed due to a server error. Please try again later."
    } else if text_eq(code, "40602") {
        "Failed to generate user ID. Please try again."
    } else if text_eq(code, "40701") {
        "Account verification failed. Please try again."
    } else if text_eq(code, "41013") {
        "Unable to verify referral code. Please try again."
    } else {
        "An unexpected error occurred. Please try again."
    }
}

} // verus!
