use peer_web::components::registration_form::{
    confirm_message, email_message, field_state, registration_submit, username_message, FieldState,
    SubmitOutcome,
};
use peer_web::components::registration_gate::{CheckboxError, RegistrationFields};
use peer_web::components::settings::account::{
    change_email_can_submit, change_password_can_submit, delete_disabled, delete_label,
    email_change_error, email_to_send, new_passwords_match, password_change_error,
    shows_mismatch_hint,
};
use peer_web::components::settings::content::{
    confirm_dialog_text, level_for, level_is_lenient, saved_message,
};
use peer_web::components::shop::checkout_popup::{
    optional_address_line, price_display, size_in_stock, CheckoutFlow, CheckoutStep, PaymentState,
};
use peer_web::components::toast::{ToastQueue, ToastType};
use peer_web::components::widgets::main_menu::{
    follow_label, shows_unread_badge, toggle_follow, total_unread, unread_label,
};
use peer_web::models::settings::ContentFilterLevel;
use peer_web::models::shop::DeliveryFormErrors;

fn fields<'a>(
    email: &'a str,
    username: &'a str,
    password: &'a str,
    confirm: &'a str,
    privacy: bool,
    eula: bool,
) -> RegistrationFields<'a> {
    RegistrationFields {
        email,
        username,
        password,
        confirm_password: confirm,
        privacy_accepted: privacy,
        eula_accepted: eula,
    }
}

#[test]
fn field_state_follows_emptiness_then_validity() {
    assert_eq!(field_state(true, false), FieldState::Empty);
    assert_eq!(field_state(true, true), FieldState::Empty);
    assert_eq!(field_state(false, true), FieldState::Valid);
    assert_eq!(field_state(false, false), FieldState::Invalid);
}

#[test]
fn field_messages_only_for_filled_invalid_fields() {
    assert_eq!(email_message(""), "");
    assert_eq!(email_message("user@example.com"), "");
    assert_eq!(email_message("nope"), "Please enter a valid email address");
    assert_eq!(username_message(""), "");
    assert_eq!(username_message("ab"), "Username must be 3-23 characters");
    assert_eq!(username_message("good_name"), "");
    assert_eq!(confirm_message("Secret123!", ""), "");
    assert_eq!(confirm_message("Secret123!", "Secret123!"), "");
    assert_eq!(confirm_message("Secret123!", "Other"), "Passwords do not match");
}

#[test]
fn submit_outcomes() {
    let ok = fields("user@example.com", "testuser", "StrongPass123!", "StrongPass123!", true, true);
    assert_eq!(registration_submit(ok), SubmitOutcome::Dispatch);
    let no_eula = fields("user@example.com", "testuser", "StrongPass123!", "StrongPass123!", true, false);
    assert_eq!(
        registration_submit(no_eula),
        SubmitOutcome::CheckboxMessage(CheckboxError::EulaRequired)
    );
    let neither = fields("user@example.com", "testuser", "StrongPass123!", "StrongPass123!", false, false);
    assert_eq!(
        registration_submit(neither),
        SubmitOutcome::CheckboxMessage(CheckboxError::BothRequired)
    );
    let bad_email = fields("bad", "testuser", "StrongPass123!", "StrongPass123!", true, true);
    assert_eq!(registration_submit(bad_email), SubmitOutcome::Rejected);
}

#[test]
fn change_email_gate() {
    assert!(change_email_can_submit("user@example.com", "pw", false));
    assert!(!change_email_can_submit("user@example.com", "pw", true));
    assert!(!change_email_can_submit("user@example.com", "", false));
    assert!(!change_email_can_submit("user", "pw", false));
    assert_eq!(email_to_send("  user@example.com \n"), "user@example.com");
}

#[test]
fn account_error_messages() {
    assert_eq!(email_change_error("error 30103 bad"), "Invalid email format.");
    assert_eq!(email_change_error("code 31001"), "Incorrect password.");
    assert_eq!(email_change_error("network down"), "network down");
    assert_eq!(password_change_error("31001"), "Current password is incorrect.");
    assert_eq!(password_change_error("30103"), "30103");
}

#[test]
fn change_password_gate() {
    assert!(new_passwords_match("Abcdefg1!", "Abcdefg1!"));
    assert!(!new_passwords_match("", ""));
    assert!(!new_passwords_match("Abcdefg1!", "Abcdefg1"));
    assert!(change_password_can_submit("old", "Abcdefg1!", "Abcdefg1!", false));
    assert!(!change_password_can_submit("", "Abcdefg1!", "Abcdefg1!", false));
    assert!(!change_password_can_submit("old", "weak", "weak", false));
    assert!(!change_password_can_submit("old", "Abcdefg1!", "Abcdefg1!", true));
    assert!(shows_mismatch_hint("Abcdefg1!", "Abc"));
    assert!(!shows_mismatch_hint("Abcdefg1!", ""));
    assert!(!shows_mismatch_hint("Abcdefg1!", "Abcdefg1!"));
}

#[test]
fn delete_account_button() {
    assert!(delete_disabled("", false));
    assert!(delete_disabled("pw", true));
    assert!(!delete_disabled("pw", false));
    assert_eq!(delete_label(true), "Deleting...");
    assert_eq!(delete_label(false), "Delete Account");
}

#[test]
fn content_filter_settings() {
    assert!(level_is_lenient("MYGRANDMAHATES"));
    assert!(!level_is_lenient("MYGRANDMALIKES"));
    assert!(!level_is_lenient("mygrandmahates"));
    assert_eq!(level_for(true), ContentFilterLevel::Lenient);
    assert_eq!(level_for(false), ContentFilterLevel::Strict);
    assert_eq!(confirm_dialog_text(true).0, "Show reported content?");
    assert_eq!(
        confirm_dialog_text(false).1,
        "You're about to hide all reported posts from your feed."
    );
    assert_eq!(
        saved_message(true),
        "Content restored. Reported posts are now visible in your feed."
    );
    assert_eq!(
        saved_message(false),
        "Hidden successfully. Reported posts have been removed from your feed."
    );
}

fn no_errors() -> DeliveryFormErrors {
    DeliveryFormErrors::default()
}

#[test]
fn checkout_flow_happy_path() {
    let mut f = CheckoutFlow::open();
    assert!(f.is_open);
    assert_eq!(f.step, CheckoutStep::DeliveryForm);
    assert!(f.next(&no_errors()));
    assert_eq!(f.step, CheckoutStep::ReviewPayment);
    assert!(!f.pay_disabled());
    f.start_payment();
    assert!(f.pay_disabled());
    assert!(f.shows_checkout());
    f.finish_payment(true);
    assert_eq!(f.payment, PaymentState::Success);
    assert!(!f.shows_checkout());
    f.reset();
    assert!(!f.is_open);
    assert_eq!(f.step, CheckoutStep::DeliveryForm);
    assert_eq!(f.payment, PaymentState::Idle);
}

#[test]
fn checkout_flow_errors_and_retry() {
    let mut f = CheckoutFlow::open();
    let mut errors = no_errors();
    errors.email = Some("Email is required".to_string());
    assert!(!f.next(&errors));
    assert_eq!(f, CheckoutFlow::open());
    assert!(f.next(&no_errors()));
    f.start_payment();
    f.finish_payment(false);
    assert_eq!(f.payment, PaymentState::Failed);
    f.retry();
    assert_eq!(f.payment, PaymentState::Idle);
    assert_eq!(f.step, CheckoutStep::ReviewPayment);
    assert!(!f.pay_disabled());
    f.back();
    assert_eq!(f.step, CheckoutStep::DeliveryForm);
    assert!(f.is_open);
    f.back();
    assert!(!f.is_open);
}

#[test]
fn checkout_helpers() {
    assert_eq!(optional_address_line("   ".to_string()), None);
    assert_eq!(optional_address_line(" Apt 4 ".to_string()), Some(" Apt 4 ".to_string()));
    assert_eq!(price_display(25, true), "25.00");
    assert_eq!(price_display(0, false), "0");
    assert_eq!(price_display(1234, false), "1234");
    assert!(size_in_stock(3));
    assert!(!size_in_stock(0));
}

#[test]
fn toast_show_and_dismiss() {
    let mut q = ToastQueue::new();
    assert!(q.toasts().is_empty());
    let a = q.show("Saved", ToastType::Success);
    let b = q.show(String::from("Failed"), ToastType::Error);
    assert_eq!(a, 0);
    assert_eq!(b, 1);
    assert_eq!(q.toasts().len(), 2);
    assert_eq!(q.toasts()[1].message, "Failed");
    assert_eq!(q.toasts()[1].toast_type, ToastType::Error);
    q.dismiss(a);
    assert_eq!(q.toasts().len(), 1);
    assert_eq!(q.toasts()[0].id, b);
    q.dismiss(42);
    assert_eq!(q.toasts().len(), 1);
}

#[test]
fn dismissing_a_shown_toast_restores_the_queue() {
    let mut q = ToastQueue::new();
    q.show("first", ToastType::Info);
    let before: Vec<u32> = q.toasts().iter().map(|t| t.id).collect();
    let id = q.show("second", ToastType::Info);
    q.dismiss(id);
    let after: Vec<u32> = q.toasts().iter().map(|t| t.id).collect();
    assert_eq!(before, after);
}

#[test]
fn main_menu_badge() {
    assert_eq!(total_unread(&vec![]), 0);
    assert_eq!(total_unread(&vec![3, 0, 7]), 10);
    assert_eq!(unread_label(0), "0");
    assert_eq!(unread_label(99), "99");
    assert_eq!(unread_label(100), "99+");
    assert!(shows_unread_badge(true, 5));
    assert!(!shows_unread_badge(false, 5));
    assert!(!shows_unread_badge(true, 0));
}

#[test]
fn follow_button() {
    assert_eq!(follow_label(true), "Following");
    assert_eq!(follow_label(false), "Follow");
    assert!(toggle_follow(false, false));
    assert!(!toggle_follow(true, false));
    assert!(toggle_follow(true, true));
}

use peer_web::components::settings::account::{change_password_request, PasswordChangeForm};
use peer_web::components::shop::checkout_popup::shop_order_request;
use peer_web::models::shop::{DeliveryFormData, PerformShopOrderResponse};

#[test]
fn password_change_sends_new_then_current() {
    assert_eq!(
        change_password_request("OldPass1!", "NewPass123!", "NewPass123!", false),
        Some(("NewPass123!".to_string(), "OldPass1!".to_string()))
    );
    assert_eq!(change_password_request("", "NewPass123!", "NewPass123!", false), None);
    assert_eq!(change_password_request("OldPass1!", "NewPass123!", "NewPass123", false), None);
    assert_eq!(change_password_request("OldPass1!", "NewPass123!", "NewPass123!", true), None);
}

#[test]
fn password_form_clears_after_success() {
    let mut f = PasswordChangeForm::new();
    f.old_password = "OldPass1!".to_string();
    f.new_password = "NewPass123!".to_string();
    f.confirm_password = "NewPass123!".to_string();
    assert_eq!(f.submit(), Some(("NewPass123!".to_string(), "OldPass1!".to_string())));
    assert!(f.is_submitting);
    assert_eq!(f.submit(), None);
    f.finish(Ok(()));
    assert!(!f.is_submitting);
    assert_eq!((f.old_password.as_str(), f.new_password.as_str(), f.confirm_password.as_str()), ("", "", ""));
    assert_eq!(f.response, Some(("Password changed successfully.".to_string(), true)));
}

#[test]
fn password_form_keeps_fields_on_failure() {
    let mut f = PasswordChangeForm::new();
    f.old_password = "wrong".to_string();
    f.new_password = "NewPass123!".to_string();
    f.confirm_password = "NewPass123!".to_string();
    assert!(f.submit().is_some());
    f.finish(Err("API error (31001): bad".to_string()));
    assert!(!f.is_submitting);
    assert_eq!(f.old_password, "wrong");
    assert_eq!(f.response, Some(("Current password is incorrect.".to_string(), false)));
    f.finish(Err("network down".to_string()));
    assert_eq!(f.response, Some(("network down".to_string(), false)));
}

fn delivery(line2: &str) -> DeliveryFormData {
    DeliveryFormData {
        name: "Jo Doe".to_string(),
        email: "jo@example.com".to_string(),
        address_line_1: "Main St 1".to_string(),
        address_line_2: line2.to_string(),
        city: "Berlin".to_string(),
        zipcode: "10115".to_string(),
    }
}

#[test]
fn shop_order_carries_the_form() {
    let r = shop_order_request(25, "post-9", &delivery("  "), &Some("M".to_string()));
    assert_eq!(r.token_amount, "25");
    assert_eq!(r.shop_item_id, "post-9");
    assert_eq!(r.name, "Jo Doe");
    assert_eq!(r.email, "jo@example.com");
    assert_eq!(r.address_line_1, "Main St 1");
    assert_eq!(r.address_line_2, None);
    assert_eq!(r.city, "Berlin");
    assert_eq!(r.zipcode, "10115");
    assert_eq!(r.size, Some("M".to_string()));
    let r = shop_order_request(7, "p", &delivery("Apt 2"), &None);
    assert_eq!(r.address_line_2, Some("Apt 2".to_string()));
    assert_eq!(r.size, None);
}

#[test]
fn payment_outcome_follows_the_response() {
    let mut f = CheckoutFlow::open();
    assert!(f.next(&DeliveryFormErrors::default()));
    let req = f.pay(10, "p", &delivery(""), &None);
    assert_eq!(req.token_amount, "10");
    assert_eq!(f.payment, PaymentState::Processing);
    let ok = PerformShopOrderResponse {
        status: "success".to_string(),
        request_id: None,
        response_code: None,
        response_message: None,
    };
    f.finish_order(&Some(ok.clone()));
    assert_eq!(f.payment, PaymentState::Success);
    f.finish_order(&Some(PerformShopOrderResponse { status: "error".to_string(), ..ok }));
    assert_eq!(f.payment, PaymentState::Failed);
    f.finish_order(&None);
    assert_eq!(f.payment, PaymentState::Failed);
}
