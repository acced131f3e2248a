use peer_web::models::post::{CreateContentType, MediaFile};
use peer_web::pages::admin::classify_role_check;
use peer_web::pages::forgot_password::{
    back_action, back_href, code_field_state, email_step_message, countdown_display, email_field_state, next_step,
    new_password_can_submit, resend_cooldown, reset_error_is_inline, shows_back_button,
    verification_code, BackAction, ForgotStep, ResendState, MAX_RESENDS,
};
use peer_web::components::registration_form::FieldState;
use peer_web::pages::invite::{
    deep_link, detect_platform, fallback_target, invite_copy_text, invite_target, register_url,
    Platform, ANDROID_STORE, IOS_STORE,
};
use peer_web::pages::new_post::NewPostContext;
use peer_web::pages::settings::{back_tab, ReferralTab, SettingsTab};
use peer_web::pages::view_profile::{classify_profile_error, profile_page_title, ProfileLoadError};

#[test]
fn forgot_password_steps() {
    assert_eq!(next_step(ForgotStep::Email), ForgotStep::VerifyCode);
    assert_eq!(next_step(ForgotStep::VerifyCode), ForgotStep::NewPassword);
    assert_eq!(next_step(ForgotStep::NewPassword), ForgotStep::Success);
    assert_eq!(next_step(ForgotStep::Success), ForgotStep::Success);
    assert_eq!(ForgotStep::VerifyCode.data_step(), "2");
    assert_eq!(ForgotStep::Success.announcement(), "Password updated successfully!");
}

#[test]
fn back_goes_one_step_back() {
    assert_eq!(back_action(ForgotStep::Email), BackAction::ToLogin);
    assert_eq!(back_action(ForgotStep::VerifyCode), BackAction::ToStep(ForgotStep::Email));
    assert_eq!(back_action(ForgotStep::NewPassword), BackAction::ToStep(ForgotStep::VerifyCode));
    assert_eq!(back_action(ForgotStep::Success), BackAction::Stay);
    for step in [ForgotStep::Email, ForgotStep::VerifyCode] {
        assert_eq!(back_action(next_step(step)), BackAction::ToStep(step));
    }
    assert_eq!(back_href(ForgotStep::Email), Some("/login"));
    assert_eq!(back_href(ForgotStep::VerifyCode), None);
    assert!(shows_back_button(ForgotStep::NewPassword));
    assert!(!shows_back_button(ForgotStep::Success));
}

#[test]
fn resend_rate_limit() {
    assert_eq!(resend_cooldown(0), 60);
    assert_eq!(resend_cooldown(1), 600);
    assert_eq!(resend_cooldown(2), 0);
    let mut s = ResendState::new();
    assert!(s.can_resend());
    s.record_resend();
    assert_eq!(s.countdown_seconds, 60);
    assert!(!s.can_resend());
    for _ in 0..60 {
        s.tick();
    }
    assert!(!s.has_countdown());
    assert!(s.can_resend());
    s.record_resend();
    assert_eq!(s.countdown_seconds, 600);
    s.countdown_seconds = 1;
    s.tick();
    assert_eq!(s.countdown_seconds, 0);
    s.record_resend();
    assert_eq!(s.resend_count, MAX_RESENDS);
    assert!(s.is_locked());
    assert!(!s.can_resend());
    s.tick();
    assert_eq!(s.countdown_seconds, 0);
}

#[test]
fn countdown_text() {
    assert_eq!(countdown_display(0), "");
    assert_eq!(countdown_display(-5), "");
    assert_eq!(countdown_display(60), "01:00");
    assert_eq!(countdown_display(599), "09:59");
    assert_eq!(countdown_display(600), "10:00");
    assert_eq!(countdown_display(7), "00:07");
}

#[test]
fn forgot_password_fields() {
    assert_eq!(email_field_state("", false), FieldState::Empty);
    assert_eq!(email_field_state("user@example.com", false), FieldState::Valid);
    assert_eq!(email_field_state("user@example.com", true), FieldState::Invalid);
    assert_eq!(email_field_state("user", false), FieldState::Invalid);
    assert_eq!(code_field_state("", true), FieldState::Empty);
    assert_eq!(code_field_state("123456", false), FieldState::Valid);
    assert_eq!(code_field_state("123456", true), FieldState::Invalid);
    assert!(reset_error_is_inline("31901"));
    assert!(reset_error_is_inline("31903"));
    assert!(!reset_error_is_inline("31902"));
    assert_eq!(verification_code("  123456 "), Ok("123456"));
    assert_eq!(verification_code("   "), Err("Please enter the verification code"));
    assert!(new_password_can_submit("Abcdefg1!", "Abcdefg1!", false));
    assert!(!new_password_can_submit("Abcdefg1!", "Abcdefg1!", true));
    assert!(!new_password_can_submit("Abcdefg1!", "Abcdefg2!", false));
    assert!(!new_password_can_submit("short", "short", false));
}

#[test]
fn invite_platforms() {
    let android = "Mozilla/5.0 (Linux; Android 14) Mobile";
    let iphone = "Mozilla/5.0 (iPhone; CPU iPhone OS 17_0 like Mac OS X)";
    let desktop = "Mozilla/5.0 (X11; Linux x86_64)";
    assert_eq!(detect_platform(android), Platform::Android);
    assert_eq!(detect_platform(iphone), Platform::Ios);
    assert_eq!(detect_platform("SOMETHING IPAD"), Platform::Ios);
    assert_eq!(detect_platform(desktop), Platform::Desktop);
    assert_eq!(detect_platform("ANDROID"), Platform::Android);
}

#[test]
fn invite_links() {
    assert_eq!(deep_link("abc"), "peer://invite/abc");
    assert_eq!(register_url("https://peer.test", "abc"), "https://peer.test/register?referralUuid=abc");
    assert_eq!(invite_copy_text(Platform::Desktop, "abc"), "abc");
    assert_eq!(invite_copy_text(Platform::Ios, "abc"), "peer://invite/abc");
    assert_eq!(invite_target(Platform::Android, "o", "abc"), ANDROID_STORE);
    assert_eq!(invite_target(Platform::Ios, "o", "abc"), IOS_STORE);
    assert_eq!(invite_target(Platform::Desktop, "o", "abc"), "o/register?referralUuid=abc");
    assert_eq!(
        fallback_target(Platform::Desktop, "o", "abc"),
        Some("o/register?referralUuid=abc".to_string())
    );
    assert_eq!(fallback_target(Platform::Android, "o", "abc"), None);
}

#[test]
fn admin_role_check() {
    assert_eq!(classify_role_check(false, None), Ok(false));
    assert_eq!(classify_role_check(true, None), Ok(true));
    assert_eq!(classify_role_check(true, Some("Not authorized")), Ok(false));
    assert_eq!(classify_role_check(true, Some("code 62101")), Ok(false));
    assert_eq!(
        classify_role_check(true, Some("timeout")),
        Err("Permission check failed: timeout".to_string())
    );
}

#[test]
fn profile_page() {
    assert_eq!(classify_profile_error("Profile not found"), ProfileLoadError::NotFound);
    assert_eq!(classify_profile_error("user not found"), ProfileLoadError::NotFound);
    assert_eq!(classify_profile_error("server error"), ProfileLoadError::Other);
    assert_eq!(profile_page_title("alice"), "alice - Peer Network");
}

#[test]
fn settings_tabs() {
    assert_eq!(SettingsTab::Profile.menu_label(), Some("Profile Settings"));
    assert_eq!(SettingsTab::Content.menu_label(), Some("Content Settings"));
    assert_eq!(SettingsTab::Deactivate.menu_label(), None);
    assert_eq!(back_tab(), SettingsTab::Profile);
    assert_eq!(ReferralTab::default(), ReferralTab::Invited);
}

fn file(name: &str) -> MediaFile {
    MediaFile::new(name.to_string(), "image/png".to_string(), vec![1, 2, 3])
}

#[test]
fn new_post_tags() {
    let mut c = NewPostContext::new();
    c.add_tag("Rust");
    c.add_tag("rust");
    c.add_tag("Verus");
    assert_eq!(c.tags, vec!["rust".to_string(), "verus".to_string()]);
    c.remove_tag("rust");
    assert_eq!(c.tags, vec!["verus".to_string()]);
    for i in 0..20 {
        c.add_tag(&format!("t{}", i));
    }
    assert_eq!(c.tags.len(), 10);
}

#[test]
fn removing_an_added_tag_restores_the_list() {
    let mut c = NewPostContext::new();
    c.add_tag("one");
    c.add_tag("two");
    let before = c.tags.clone();
    c.add_tag("three");
    c.remove_tag("three");
    assert_eq!(c.tags, before);
}

#[test]
fn new_post_media() {
    let mut c = NewPostContext::new();
    c.content_type = CreateContentType::Audio;
    c.add_media(file("a"));
    c.add_media(file("b"));
    assert_eq!(c.media_files.len(), 1);
    c.content_type = CreateContentType::Image;
    c.add_media(file("c"));
    c.add_media(file("d"));
    assert_eq!(c.media_files.len(), 3);
    c.current_media_index = 2;
    c.remove_media(2);
    assert_eq!(c.media_files.len(), 2);
    assert_eq!(c.current_media_index, 1);
    c.remove_media(7);
    assert_eq!(c.media_files.len(), 2);
    assert_eq!(c.media_files[0].name, "a");
}

#[test]
fn new_post_validation() {
    let mut c = NewPostContext::new();
    assert_eq!(c.validate(), Err("Title is required".to_string()));
    c.title = "x".repeat(64);
    assert_eq!(c.validate(), Err("Title must be 63 characters or less".to_string()));
    c.title = "Hello".to_string();
    c.description = "d".repeat(501);
    assert_eq!(c.validate(), Err("Description must be 500 characters or less".to_string()));
    c.description = "fine".to_string();
    assert_eq!(c.validate(), Ok(()));
    c.content_type = CreateContentType::Video;
    assert_eq!(c.validate(), Err("Video Post requires at least one media file".to_string()));
    c.add_media(file("v"));
    assert_eq!(c.validate(), Ok(()));
}

#[test]
fn new_post_input_and_reset() {
    let mut c = NewPostContext::new();
    c.title = "Hello".to_string();
    let input = c.build_input();
    assert_eq!(input.title, "Hello");
    assert_eq!(input.mediadescription, None);
    assert_eq!(input.tags, None);
    c.description = "About".to_string();
    c.add_tag("news");
    let input = c.build_input();
    assert_eq!(input.mediadescription, Some("About".to_string()));
    assert_eq!(input.tags, Some(vec!["news".to_string()]));
    assert!(input.media.is_none() && input.cover.is_none() && input.uploaded_files.is_none());
    c.content_type = CreateContentType::Image;
    c.reset();
    assert!(c.title.is_empty() && c.description.is_empty() && c.tags.is_empty());
    assert_eq!(c.content_type, CreateContentType::Image);
}

#[test]
fn email_step_message_order() {
    assert_eq!(email_step_message("bad", true, &Some("Server says no".to_string())), "Server says no");
    assert_eq!(email_step_message("bad", false, &None), "");
    assert_eq!(email_step_message("", true, &None), "");
    assert_eq!(email_step_message("bad", true, &None), "Please enter a valid email address");
    assert_eq!(email_step_message("user@example.com", true, &None), "");
}

#[test]
fn new_post_lengths_count_characters() {
    let mut c = NewPostContext::new();
    c.title = "é".repeat(63);
    c.description = "ü".repeat(500);
    assert_eq!(c.validate(), Ok(()));
    c.title = "é".repeat(64);
    assert_eq!(c.validate(), Err("Title must be 63 characters or less".to_string()));
}
