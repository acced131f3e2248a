//! The change-email, change-password and delete-account panels: when they
//! may be submitted and how a failure is reported.
use vstd::prelude::*;
use crate::components::validation::{
    is_valid_email, password_requirements, spec_is_valid_email, validate_password,
};
use crate::text::{contains_text, has_substring, text_eq, trim, trimmed};

verus! {

/// The e-mail form may be sent: a valid address, a password, and no
/// request running.
pub fn change_email_can_submit(email: &str, password: &str, is_submitting: bool) -> (r: bool)
    ensures
        r == (spec_is_valid_email(email@) && password@.len() > 0 && !is_submitting),
{
    is_valid_email(email) && password.unicode_len() > 0 && !is_submitting
}

/// The address sent: the input, trimmed.
pub fn email_to_send(email: &str) -> (r: String)
    ensures
        r@ == trimmed(email@),
{
    trim(email).to_owned()
}

/// The message shown when changing the e-mail failed with `error`.
pub open spec fn spec_email_change_error(error: Seq<char>) -> Seq<char> {
    if has_substring(error, "30103"@) {
        "Invalid email format."@
    } else if has_substring(error, "31001"@) {
        "Incorrect password."@
    } else {
        error
    }
}

/// Map a failed e-mail change to its message: code `30103` is a bad
/// address, `31001` a wrong password; anything else is shown as is.
pub fn email_change_error(error: &str) -> (r: String)
    ensures
        r@ == spec_email_change_error(error@),
{
    if contains_text(error, "30103") {
        "Invalid email format.".to_owned()
    } else if contains_text(error, "31001") {
        "Incorrect password.".to_owned()
    } else {
        error.to_owned()
    }
}

/// The new password and its confirmation agree and are non-empty.
pub open spec fn spec_new_passwords_match(new_password: Seq<char>, confirm: Seq<char>) -> bool {
    new_password.len() > 0 && new_password == confirm
}

/// Whether the new password and its confirmation agree.
pub fn new_passwords_match(new_password: &str, confirm: &str) -> (r: bool)
    ensures
        r == spec_new_passwords_match(new_password@, confirm@),
{
    new_password.unicode_len() > 0 && text_eq(new_password, confirm)
}

/// The password form may be sent: current password given, the new one
/// meets every rule and is confirmed, and no request is running.
pub fn change_password_can_submit(
    old_password: &str,
    new_password: &str,
    confirm: &str,
    is_submitting: bool,
) -> (r: bool)
    ensures
        r == (old_password@.len() > 0 && password_requirements(new_password@).spec_is_sufficient()
            && spec_new_passwords_match(new_password@, confirm@) && !is_submitting),
{
    old_password.unicode_len() > 0 && validate_password(new_password).requirements.is_sufficient()
        && new_passwords_match(new_password, confirm) && !is_submitting
}

/// Whether the mismatch hint under the confirmation is shown.
pub fn shows_mismatch_hint(new_password: &str, confirm: &str) -> (r: bool)
    ensures
        r == (confirm@.len() > 0 && !spec_new_passwords_match(new_password@, confirm@)),
{
    confirm.unicode_len() > 0 && !new_passwords_match(new_password, confirm)
}

/// The message shown when changing the password failed with `error`.
pub open spec fn spec_password_change_error(error: Seq<char>) -> Seq<char> {
    if has_substring(error, "31001"@) {
        "Current password is incorrect."@
    } else {
        error
    }
}

/// Map a failed password change to its message: code `31001` is a wrong
/// current password; anything else is shown as is.
pub fn password_change_error(error: &str) -> (r: String)
    ensures
        r@ == spec_password_change_error(error@),
{
    if contains_text(error, "31001") {
        "Current password is incorrect.".to_owned()
    } else {
        error.to_owned()
    }
}

/// The arguments `update_password` is called with when the form is sent:
/// the new password first, the current one second; `None` when the form
/// may not be sent.
pub fn change_password_request(
    old_password: &str,
    new_password: &str,
    confirm: &str,
    is_submitting: bool,
) -> (r: Option<(String, String)>)
    ensures
        r is Some <==> (old_password@.len() > 0 && password_requirements(
            new_password@,
        ).spec_is_sufficient() && spec_new_passwords_match(new_password@, confirm@)
            && !is_submitting),
        r matches Some((n, o)) ==> n@ == new_password@ && o@ == old_password@,
{
    if change_password_can_submit(old_password, new_password, confirm, is_submitting) {
        Some((new_password.to_owned(), old_password.to_owned()))
    } else {
        None
    }
}

/// The change-password panel: its three fields, whether a request runs,
/// and the last outcome shown (text, and whether it was a success).
#[derive(Debug, Clone)]
pub struct PasswordChangeForm {
    pub old_password: String,
    pub new_password: String,
    pub confirm_password: String,
    pub is_submitting: bool,
    pub response: Option<(String, bool)>,
}

impl PasswordChangeForm {
    /// Empty fields, nothing running, nothing shown.
    pub fn new() -> (r: Self)
        ensures
            r.old_password@.len() == 0,
            r.new_password@.len() == 0,
            r.confirm_password@.len() == 0,
            !r.is_submitting,
            r.response is None,
    {
        PasswordChangeForm {
            old_password: String::new(),
            new_password: String::new(),
            confirm_password: String::new(),
            is_submitting: false,
            response: None,
        }
    }

    /// Submit: when the form may be sent, the request starts (submitting,
    /// the last outcome cleared) and its arguments are returned, new
    /// password first; otherwise nothing changes and nothing is sent.
    pub fn submit(&mut self) -> (r: Option<(String, String)>)
        ensures
            r is Some <==> (old(self).old_password@.len() > 0 && password_requirements(
                old(self).new_password@,
            ).spec_is_sufficient() && spec_new_passwords_match(
                old(self).new_password@,
                old(self).confirm_password@,
            ) && !old(self).is_submitting),
            r matches Some((n, o)) ==> n@ == old(self).new_password@ && o@
                == old(self).old_password@,
            r is Some ==> final(self).is_submitting && final(self).response is None,
            r is None ==> final(self).is_submitting == old(self).is_submitting
                && final(self).response == old(self).response,
            final(self).old_password == old(self).old_password,
            final(self).new_password == old(self).new_password,
            final(self).confirm_password == old(self).confirm_password,
    {
        let r = change_password_request(
            self.old_password.as_str(),
            self.new_password.as_str(),
            self.confirm_password.as_str(),
            self.is_submitting,
        );
        if r.is_some() {
            self.is_submitting = true;
            self.response = None;
        }
        r
    }

    /// The request answered: on success the three fields are emptied and
    /// "Password changed successfully." is shown; on failure the fields
    /// stay and the error's message is shown. Either way the request is
    /// no longer running.
    pub fn finish(&mut self, result: Result<(), String>)
        ensures
            !final(self).is_submitting,
            result is Ok ==> final(self).old_password@.len() == 0
                && final(self).new_password@.len() == 0
                && final(self).confirm_password@.len() == 0,
            result is Ok ==> (final(self).response matches Some((m, ok)) && ok && m@
                == "Password changed successfully."@),
            result is Err ==> final(self).old_password == old(self).old_password
                && final(self).new_password == old(self).new_password
                && final(self).confirm_password == old(self).confirm_password,
            result matches Err(e) ==> (final(self).response matches Some((m, ok)) && !ok && m@
                == spec_password_change_error(e@)),
    {
        match result {
            Ok(()) => {
                self.old_password = String::new();
                self.new_password = String::new();
                self.confirm_password = String::new();
                self.response = Some(("Password changed successfully.".to_owned(), true));
            },
            Err(e) => {
                self.response = Some((password_change_error(e.as_str()), false));
            },
        }
        self.is_submitting = false;
    }
}

/// The delete button is disabled until a password is typed, and while
/// the deletion runs.
pub fn delete_disabled(password: &str, is_deleting: bool) -> (r: bool)
    ensures
        r == (password@.len() == 0 || is_deleting),
{
    password.unicode_len() == 0 || is_deleting
}

/// The label of the confirming delete button.
pub fn delete_label(is_deleting: bool) -> (r: &'static str)
    ensures
        r@ == if is_deleting {
            "Deleting..."@
        } else {
            "Delete Account"@
        },
{
    if is_deleting {
        "Deleting..."
    } else {
        "Delete Account"
    }
}

} // verus!
