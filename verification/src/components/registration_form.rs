//! Field-level feedback of the registration form and what its submit
//! button does.
use vstd::prelude::*;
use crate::components::registration_gate::{
    can_submit_registration, spec_can_submit, validate_checkboxes, validate_checkboxes_spec,
    CheckboxError, RegistrationFields,
};
use crate::components::validation::{
    is_valid_email, is_valid_username, passwords_match, spec_is_valid_email,
    spec_is_valid_username, spec_passwords_match,
};

verus! {

/// How an input field is drawn: untouched, accepted or rejected.
#[derive(Debug, Clone, Copy, PartialEq, Eq, Structural)]
pub enum FieldState {
    Empty,
    Valid,
    Invalid,
}

/// The state of a field from whether it is empty and whether it passes.
pub open spec fn spec_field_state(is_empty: bool, is_valid: bool) -> FieldState {
    if is_empty {
        FieldState::Empty
    } else if is_valid {
        FieldState::Valid
    } else {
        FieldState::Invalid
    }
}

/// An empty field is neutral; otherwise it is valid or invalid.
pub fn field_state(is_empty: bool, is_valid: bool) -> (r: FieldState)
    ensures
        r == spec_field_state(is_empty, is_valid),
{
    if is_empty {
        FieldState::Empty
    } else if is_valid {
        FieldState::Valid
    } else {
        FieldState::Invalid
    }
}

impl FieldState {
    /// The CSS class of the field wrapper.
    pub fn class(&self) -> (r: &'static str)
        ensures
            r@ == match *self {
                FieldState::Empty => "input-field"@,
                FieldState::Valid => "input-field valid"@,
                FieldState::Invalid => "input-field invalid"@,
            },
    {
        match self {
            FieldState::Empty => "input-field",
            FieldState::Valid => "input-field valid",
            FieldState::Invalid => "input-field invalid",
        }
    }
}

/// `msg` for a non-empty value that fails, the empty text otherwise.
pub open spec fn message_when_invalid(value: Seq<char>, valid: bool, msg: Seq<char>) -> Seq<char> {
    if value.len() > 0 && !valid {
        msg
    } else {
        ""@
    }
}

/// The hint under the e-mail field.
pub fn email_message(email: &str) -> (r: &'static str)
    ensures
        r@ == message_when_invalid(
            email@,
            spec_is_valid_email(email@),
            "Please enter a valid email address"@,
        ),
{
    if email.unicode_len() > 0 && !is_valid_email(email) {
        "Please enter a valid email address"
    } else {
        proof {
            reveal_strlit("");
        }
        ""
    }
}

/// The hint under the username field.
pub fn username_message(username: &str) -> (r: &'static str)
    ensures
        r@ == message_when_invalid(
            username@,
            spec_is_valid_username(username@),
            "Username must be 3-23 characters"@,
        ),
{
    if username.unicode_len() > 0 && !is_valid_username(username) {
        "Username must be 3-23 characters"
    } else {
        proof {
            reveal_strlit("");
        }
        ""
    }
}

/// The hint under the confirm-password field.
pub fn confirm_message(password: &str, confirm: &str) -> (r: &'static str)
    ensures
        r@ == message_when_invalid(
            confirm@,
            spec_passwords_match(password@, confirm@),
            "Passwords do not match"@,
        ),
{
    if confirm.unicode_len() > 0 && !passwords_match(password, confirm) {
        "Passwords do not match"
    } else {
        proof {
            reveal_strlit("");
        }
        ""
    }
}

/// What pressing submit does.
#[derive(Debug, Clone, Copy, PartialEq, Eq, Structural)]
pub enum SubmitOutcome {
    /// A legal checkbox is unchecked: show its message.
    CheckboxMessage(CheckboxError),
    /// Both boxes are checked but a field is invalid: nothing happens.
    Rejected,
    /// Everything is valid: the registration request is sent.
    Dispatch,
}

/// The outcome of submitting the fields `f`.
pub open spec fn spec_submit_outcome(f: RegistrationFields) -> SubmitOutcome {
    if !(f.privacy_accepted && f.eula_accepted) {
        SubmitOutcome::CheckboxMessage(validate_checkboxes_spec(f.privacy_accepted, f.eula_accepted))
    } else if !spec_can_submit(f) {
        SubmitOutcome::Rejected
    } else {
        SubmitOutcome::Dispatch
    }
}

/// Checkboxes are checked first; then the whole form must be valid.
pub fn registration_submit(f: RegistrationFields<'_>) -> (r: SubmitOutcome)
    ensures
        r == spec_submit_outcome(f),
        (r == SubmitOutcome::Dispatch) == spec_can_submit(f),
{
    let boxes = validate_checkboxes(f.privacy_accepted, f.eula_accepted);
    if boxes.has_error() {
        return SubmitOutcome::CheckboxMessage(boxes);
    }
    if !can_submit_registration(f) {
        return SubmitOutcome::Rejected;
    }
    SubmitOutcome::Dispatch
}

} // verus!
