//! Response code constants of the Peer API.
use vstd::prelude::*;

verus! {

// Registration success
pub const REGISTRATION_SUCCESS: &'static str = "10601";
pub const ACCOUNT_VERIFIED: &'static str = "10701";
pub const REFERRAL_INFO_FETCHED: &'static str = "11011";

// Registration errors
pub const EMAIL_ALREADY_REGISTERED: &'static str = "30601";
pub const INVALID_REFERRAL_STRING: &'static str = "31010";
pub const INVALID_REFERRAL_UUID: &'static str = "31007";
pub const MISSING_REQUIRED_FIELDS: &'static str = "30301";
pub const INVALID_USERNAME_FORMAT: &'static str = "30202";
pub const INVALID_INPUT_FORMAT: &'static str = "30103";

// Server errors
pub const REGISTRATION_SERVER_ERROR: &'static str = "40601";
pub const USERID_GENERATION_FAILED: &'static str = "40602";
pub const VERIFICATION_SERVER_ERROR: &'static str = "40701";
pub const REFERRAL_SERVER_ERROR: &'static str = "41013";

} // verus!
