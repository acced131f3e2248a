use peer_web::components::wallet::transaction_history::{HistoryCursor, HISTORY_PAGE_SIZE};
use peer_web::components::wallet::transaction_item::format_date;
use peer_web::components::wallet::transfer_modal::{
    balance_label, is_search_query, shows_header_controls, transfer_back, transfer_message,
    transfer_message_error, transfer_title, RecipientUser, TransferStep,
};
use peer_web::models::post::UserSearchResult;

fn ids(v: &[&str]) -> Vec<String> {
    v.iter().map(|s| s.to_string()).collect()
}

#[test]
fn transaction_dates() {
    assert_eq!(format_date("2025-06-10T04:20:00Z"), "10 Jun 2025, 04:20");
    assert_eq!(format_date("2025-06-10T04:20:00+02:00"), "10 Jun 2025, 04:20");
    assert_eq!(format_date("2025-06-10T04:20:00.5"), "10 Jun 2025, 04:20");
    assert_eq!(format_date("2025-06-10Tgarbage"), "2025-06-10");
    assert_eq!(format_date("no date"), "no date");
    assert_eq!(format_date(""), "");
}

#[test]
fn history_pages_drop_repeated_ids() {
    let mut h = HistoryCursor::new();
    assert!(h.can_load());
    h.start_loading();
    assert!(!h.can_load());
    let page: Vec<String> = (0..20).map(|n| format!("tx{}", n)).collect();
    let keep = h.accept_page(&page);
    assert!(keep.iter().all(|k| *k));
    assert_eq!(h.offset(), HISTORY_PAGE_SIZE);
    assert!(h.can_load());
    let keep = h.accept_page(&ids(&["tx19", "tx20", "tx20", "tx21"]));
    assert_eq!(keep, vec![false, true, false, true]);
    assert_eq!(h.offset(), 24);
    assert!(!h.can_load());
}

#[test]
fn history_error_keeps_position() {
    let mut h = HistoryCursor::new();
    h.start_loading();
    h.record_error();
    assert!(h.can_load());
    assert_eq!(h.offset(), 0);
    let keep = h.accept_page(&ids(&[]));
    assert!(keep.is_empty());
    assert!(!h.can_load());
}

#[test]
fn transfer_steps() {
    assert_eq!(transfer_back(TransferStep::Confirm), TransferStep::EnterAmount);
    assert_eq!(transfer_back(TransferStep::EnterAmount), TransferStep::SelectUser);
    assert_eq!(transfer_back(TransferStep::SelectUser), TransferStep::SelectUser);
    assert_eq!(transfer_back(TransferStep::Success), TransferStep::Success);
    assert_eq!(transfer_title(TransferStep::SelectUser), "Transfer");
    assert_eq!(transfer_title(TransferStep::Confirm), "Summary");
    assert_eq!(transfer_title(TransferStep::Success), "Completed");
    assert_eq!(balance_label(TransferStep::Confirm), "Remaining balance");
    assert_eq!(balance_label(TransferStep::EnterAmount), "Your Balance");
    assert!(shows_header_controls(TransferStep::Confirm));
    assert!(!shows_header_controls(TransferStep::Success));
}

#[test]
fn transfer_message_rules() {
    assert_eq!(transfer_message_error(&"m".repeat(500)), None);
    assert_eq!(
        transfer_message_error(&"m".repeat(501)),
        Some("Message exceeds 500 characters")
    );
    assert_eq!(transfer_message_error(&"ä".repeat(500)), None);
    assert_eq!(
        transfer_message_error(&"ä".repeat(501)),
        Some("Message exceeds 500 characters")
    );
    assert_eq!(transfer_message(String::new()), None);
    assert_eq!(transfer_message("thanks".to_string()), Some("thanks".to_string()));
    assert!(!is_search_query("a"));
    assert!(is_search_query("ab"));
    assert!(is_search_query("é"));
}

#[test]
fn recipient_avatar() {
    let u = RecipientUser::from_search_result(UserSearchResult {
        id: "1".to_string(),
        username: "bob".to_string(),
        slug: "bob".to_string(),
        img: Some("media/media/pic.png".to_string()),
        biography: None,
    });
    assert_eq!(u.username, "bob");
    assert_eq!(u.avatar_url(), "/media/pic.png");
    let plain = RecipientUser { img: Some("pic.png".to_string()), ..u.clone() };
    assert_eq!(plain.avatar_url(), "/media/pic.png");
    let none = RecipientUser { img: None, ..u };
    assert_eq!(none.avatar_url(), "/svg/noname.svg");
}

use peer_web::components::wallet::transfer_amount::{
    amount_less_than, parse_amount, transfer_amount_error, Amount,
};

fn amt(mantissa: i128, scale: u32) -> Amount {
    Amount { mantissa, scale }
}

#[test]
fn amounts_parse_as_decimals() {
    assert_eq!(parse_amount("1.5"), Some(amt(15, 1)));
    assert_eq!(parse_amount("0.000001"), Some(amt(1, 6)));
    assert_eq!(parse_amount("-2"), Some(amt(-2, 0)));
    assert_eq!(parse_amount("100.00"), Some(amt(10000, 2)));
    assert_eq!(parse_amount("abc"), None);
    assert_eq!(parse_amount(""), None);
}

#[test]
fn amounts_compare_by_value() {
    assert!(amount_less_than(amt(15, 1), amt(2, 0)));
    assert!(!amount_less_than(amt(2, 0), amt(15, 1)));
    assert!(!amount_less_than(amt(100, 2), amt(1, 0)));
    assert!(!amount_less_than(amt(1, 0), amt(100, 2)));
    assert!(amount_less_than(amt(-1, 28), amt(0, 0)));
    let big = (1i128 << 96) - 1;
    assert!(amount_less_than(amt(1, 28), amt(big, 0)));
    assert!(!amount_less_than(amt(big, 0), amt(1, 28)));
    assert!(amount_less_than(amt(-big, 0), amt(-1, 28)));
    assert!(amount_less_than(amt(big, 28), amt(big, 0)));
}

#[test]
fn transfer_amount_checks() {
    let balance = amt(1000, 0);
    assert_eq!(
        transfer_amount_error(None, amt(0, 0), balance, ""),
        Some("Please enter a valid amount")
    );
    assert_eq!(
        transfer_amount_error(Some(amt(9, 7)), amt(9, 7), balance, ""),
        Some("Minimum amount is 0.000001")
    );
    assert_eq!(
        transfer_amount_error(Some(amt(1000, 0)), amt(104000, 2), balance, ""),
        Some("Insufficient balance")
    );
    assert_eq!(
        transfer_amount_error(Some(amt(10, 0)), amt(1040, 2), balance, &"x".repeat(501)),
        Some("Message exceeds 500 characters")
    );
    assert_eq!(transfer_amount_error(Some(amt(10, 0)), amt(1040, 2), balance, "thanks"), None);
    assert_eq!(transfer_amount_error(Some(amt(1, 6)), amt(1000, 0), balance, ""), None);
}
