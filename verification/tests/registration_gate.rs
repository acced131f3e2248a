use peer_web::components::registration_gate::{
    can_submit_registration, validate_checkboxes, CheckboxError, RegistrationFields,
};

// A baseline of fields that pass every check; each test tweaks one field.
fn ok() -> RegistrationFields<'static> {
    RegistrationFields {
        email: "happy@example.com",
        username: "happy_user",
        password: "StrongPass99!",
        confirm_password: "StrongPass99!",
        privacy_accepted: true,
        eula_accepted: true,
    }
}

#[test]
fn baseline_can_submit() {
    assert!(can_submit_registration(ok()));
}

#[test]
fn t5_weak_password_blocks_submit() {
    let mut f = ok();
    f.password = "abcd";
    f.confirm_password = "abcd";
    assert!(!can_submit_registration(f));
}

#[test]
fn t5_password_missing_uppercase_blocks_submit() {
    let mut f = ok();
    f.password = "lowercase1!";
    f.confirm_password = "lowercase1!";
    assert!(!can_submit_registration(f));
}

#[test]
fn t5_password_missing_digit_blocks_submit() {
    let mut f = ok();
    f.password = "NoDigitsHere!";
    f.confirm_password = "NoDigitsHere!";
    assert!(!can_submit_registration(f));
}

#[test]
fn t6_mismatched_confirm_blocks_submit() {
    let mut f = ok();
    f.confirm_password = "DifferentPass456!";
    assert!(!can_submit_registration(f));
}

#[test]
fn t6_empty_confirm_blocks_submit() {
    let mut f = ok();
    f.confirm_password = "";
    assert!(!can_submit_registration(f));
}

#[test]
fn t7_both_checkboxes_unchecked_blocks_submit() {
    let mut f = ok();
    f.privacy_accepted = false;
    f.eula_accepted = false;
    assert!(!can_submit_registration(f));
}

#[test]
fn t7b_eula_unchecked_blocks_submit() {
    let mut f = ok();
    f.eula_accepted = false;
    assert!(!can_submit_registration(f));
}

#[test]
fn t7b_privacy_unchecked_blocks_submit() {
    let mut f = ok();
    f.privacy_accepted = false;
    assert!(!can_submit_registration(f));
}

#[test]
fn invalid_email_blocks_submit() {
    let mut f = ok();
    f.email = "not-an-email";
    assert!(!can_submit_registration(f));
}

#[test]
fn invalid_username_blocks_submit() {
    let mut f = ok();
    f.username = "ab";
    assert!(!can_submit_registration(f));
}

#[test]
fn checkboxes_both_checked_returns_none() {
    let result = validate_checkboxes(true, true);
    assert_eq!(result, CheckboxError::Clear);
    assert!(!result.has_error());
    assert_eq!(result.message(), "");
}

#[test]
fn checkboxes_neither_checked_returns_both_required() {
    let result = validate_checkboxes(false, false);
    assert_eq!(result, CheckboxError::BothRequired);
    assert!(result.has_error());
    assert!(result.message().contains("both"));
}

#[test]
fn checkboxes_only_privacy_unchecked() {
    let result = validate_checkboxes(false, true);
    assert_eq!(result, CheckboxError::PrivacyRequired);
    assert!(result.message().contains("Privacy Policy"));
}

#[test]
fn checkboxes_only_eula_unchecked() {
    let result = validate_checkboxes(true, false);
    assert_eq!(result, CheckboxError::EulaRequired);
    assert!(result.message().contains("EULA"));
}
