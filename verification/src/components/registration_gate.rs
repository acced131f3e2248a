//! The submit gate of the registration form: whether "Create Account"
//! may be pressed, and which legal-checkbox message to show.
use vstd::prelude::*;
use crate::components::validation::{
    is_valid_email, is_valid_username, password_requirements, passwords_match, spec_is_valid_email,
    spec_is_valid_username, spec_passwords_match, validate_password,
};

verus! {

/// Every input that takes part in the submit decision.
#[derive(Debug, Clone, Copy)]
pub struct RegistrationFields<'a> {
    pub email: &'a str,
    pub username: &'a str,
    pub password: &'a str,
    pub confirm_password: &'a str,
    pub privacy_accepted: bool,
    pub eula_accepted: bool,
}

/// Every field is valid and both legal checkboxes are checked.
pub open spec fn spec_can_submit(f: RegistrationFields) -> bool {
    &&& spec_is_valid_email(f.email@)
    &&& spec_is_valid_username(f.username@)
    &&& password_requirements(f.password@).spec_is_sufficient()
    &&& spec_passwords_match(f.password@, f.confirm_password@)
    &&& f.privacy_accepted
    &&& f.eula_accepted
}

/// `true` iff every field is valid and both checkboxes are checked: the
/// predicate that enables the submit button.
pub fn can_submit_registration(f: RegistrationFields<'_>) -> (r: bool)
    ensures
        r == spec_can_submit(f),
        r ==> validate_checkboxes_spec(f.privacy_accepted, f.eula_accepted) == CheckboxError::Clear,
{
    is_valid_email(f.email) && is_valid_username(f.username) && validate_password(
        f.password,
    ).requirements.is_sufficient() && passwords_match(f.password, f.confirm_password)
        && f.privacy_accepted && f.eula_accepted
}

/// Which legal checkbox, if any, still needs the user's attention.
#[derive(Debug, Clone, Copy, PartialEq, Eq, Structural)]
pub enum CheckboxError {
    /// Both Privacy Policy and EULA are checked.
    Clear,
    /// Neither checkbox is checked.
    BothRequired,
    /// Only the Privacy Policy is unchecked.
    PrivacyRequired,
    /// Only the EULA is unchecked.
    EulaRequired,
}

/// The user-visible text of each checkbox state.
pub open spec fn checkbox_message(e: CheckboxError) -> Seq<char> {
    match e {
        CheckboxError::Clear => ""@,
        CheckboxError::BothRequired => "Please accept both the Privacy Policy and EULA"@,
        CheckboxError::PrivacyRequired => "Please accept the Privacy Policy to continue"@,
        CheckboxError::EulaRequired => "Please accept the End User License Agreement (EULA) to continue"@,
    }
}

impl CheckboxError {
    /// User-visible message text; empty for [`CheckboxError::Clear`].
    pub fn message(self) -> (r: &'static str)
        ensures
            r@ == checkbox_message(self),
            r@.len() == 0 <==> self == CheckboxError::Clear,
    {
        match self {
            CheckboxError::Clear => {
                proof { reveal_strlit(""); }
                ""
            },
            CheckboxError::BothRequired => {
                proof { reveal_strlit("Please accept both the Privacy Policy and EULA"); }
                "Please accept both the Privacy Policy and EULA"
            },
            CheckboxError::PrivacyRequired => {
                proof { reveal_strlit("Please accept the Privacy Policy to continue"); }
                "Please accept the Privacy Policy to continue"
            },
            CheckboxError::EulaRequired => {
                proof {
                    reveal_strlit(
                        "Please accept the End User License Agreement (EULA) to continue",
                    );
                }
                "Please accept the End User License Agreement (EULA) to continue"
            },
        }
    }

    /// `true` when an error message should be displayed.
    pub fn has_error(self) -> (r: bool)
        ensures
            r == (self != CheckboxError::Clear),
    {
        !matches!(self, CheckboxError::Clear)
    }
}

/// The checkbox state for the two legal acceptances.
pub open spec fn validate_checkboxes_spec(privacy: bool, eula: bool) -> CheckboxError {
    if privacy && eula {
        CheckboxError::Clear
    } else if !privacy && !eula {
        CheckboxError::BothRequired
    } else if !privacy {
        CheckboxError::PrivacyRequired
    } else {
        CheckboxError::EulaRequired
    }
}

/// Inspect the two legal-acceptance checkboxes and report which (if any)
/// require the user's attention.
pub fn validate_checkboxes(privacy: bool, eula: bool) -> (r: CheckboxError)
    ensures
        r == validate_checkboxes_spec(privacy, eula),
        r.has_error_spec() <==> !(privacy && eula),
{
    match (privacy, eula) {
        (true, true) => CheckboxError::Clear,
        (false, false) => CheckboxError::BothRequired,
        (false, true) => CheckboxError::PrivacyRequired,
        (true, false) => CheckboxError::EulaRequired,
    }
}

impl CheckboxError {
    /// Whether this state carries a message.
    pub open spec fn has_error_spec(self) -> bool {
        self != CheckboxError::Clear
    }
}

/// Registration goes through only with a strong password: at least
/// eight characters, with an ASCII capital, a small letter and a digit,
/// and either an ASCII punctuation character or at least twelve
/// characters; the confirmation repeats it, and both legal checkboxes
/// are checked. Conversely, such a password with a valid e-mail and
/// username lets registration through.
pub proof fn lemma_registration_needs_strong_password(f: RegistrationFields)
    ensures
        spec_can_submit(f) ==> ({
            let p = f.password@;
            &&& p.len() >= 8
            &&& exists|i: int| 0 <= i < p.len() && 'A' <= #[trigger] p[i] <= 'Z'
            &&& exists|i: int| 0 <= i < p.len() && 'a' <= #[trigger] p[i] <= 'z'
            &&& exists|i: int| 0 <= i < p.len() && '0' <= #[trigger] p[i] <= '9'
            &&& p.len() >= 12 || exists|i: int|
                0 <= i < p.len() && (('!' <= #[trigger] p[i] <= '/') || (':' <= p[i] <= '@') || (
                '[' <= p[i] <= '`') || ('{' <= p[i] <= '~'))
            &&& f.confirm_password@ == p
            &&& f.privacy_accepted && f.eula_accepted
        }),
        ({
            let p = f.password@;
            &&& spec_is_valid_email(f.email@)
            &&& spec_is_valid_username(f.username@)
            &&& p.len() >= 8
            &&& exists|i: int| 0 <= i < p.len() && 'A' <= #[trigger] p[i] <= 'Z'
            &&& exists|i: int| 0 <= i < p.len() && 'a' <= #[trigger] p[i] <= 'z'
            &&& exists|i: int| 0 <= i < p.len() && '0' <= #[trigger] p[i] <= '9'
            &&& p.len() >= 12 || exists|i: int|
                0 <= i < p.len() && (('!' <= #[trigger] p[i] <= '/') || (':' <= p[i] <= '@') || (
                '[' <= p[i] <= '`') || ('{' <= p[i] <= '~'))
            &&& f.confirm_password@ == p
            &&& f.privacy_accepted && f.eula_accepted
        }) ==> spec_can_submit(f),
{
}

} // verus!
