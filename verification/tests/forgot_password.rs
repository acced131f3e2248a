use peer_web::pages::forgot_password::mask_email;

#[test]
fn mask_email_standard() {
    assert_eq!(mask_email("cameron@example.com"), "ca*****@example.com");
}

#[test]
fn mask_email_short_user() {
    assert_eq!(mask_email("ab@example.com"), "**@example.com");
}

#[test]
fn mask_email_single_char() {
    assert_eq!(mask_email("a@example.com"), "*@example.com");
}

#[test]
fn mask_email_no_at_sign() {
    assert_eq!(mask_email("notanemail"), "notanemail");
}

#[test]
fn mask_email_empty() {
    assert_eq!(mask_email(""), "");
}
