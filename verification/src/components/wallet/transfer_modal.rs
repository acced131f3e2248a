//! The transfer modal's steps, recipient display and message check.
use vstd::prelude::*;
use crate::models::post::UserSearchResult;
use crate::text::{byte_len, encode_utf8_len, occurs_at, starts_with_text};

verus! {

/// Transfer modal steps.
#[derive(Debug, Clone, Copy, PartialEq, Eq, Structural)]
pub enum TransferStep {
    SelectUser,
    EnterAmount,
    Confirm,
    Success,
}

/// The step the back button leads to.
pub open spec fn spec_transfer_back(step: TransferStep) -> TransferStep {
    match step {
        TransferStep::EnterAmount => TransferStep::SelectUser,
        TransferStep::Confirm => TransferStep::EnterAmount,
        _ => step,
    }
}

/// Back from the amount form returns to recipient choice, back from the
/// summary returns to the amount form; other steps stay.
pub fn transfer_back(step: TransferStep) -> (r: TransferStep)
    ensures
        r == spec_transfer_back(step),
{
    match step {
        TransferStep::EnterAmount => TransferStep::SelectUser,
        TransferStep::Confirm => TransferStep::EnterAmount,
        _ => step,
    }
}

/// The modal's heading on each step.
pub fn transfer_title(step: TransferStep) -> (r: &'static str)
    ensures
        r@ == match step {
            TransferStep::Confirm => "Summary"@,
            TransferStep::Success => "Completed"@,
            _ => "Transfer"@,
        },
{
    match step {
        TransferStep::Confirm => "Summary",
        TransferStep::Success => "Completed",
        _ => "Transfer",
    }
}

/// The label of the balance line: the balance left after the transfer on
/// the summary, the current balance elsewhere.
pub fn balance_label(step: TransferStep) -> (r: &'static str)
    ensures
        r@ == if step == TransferStep::Confirm {
            "Remaining balance"@
        } else {
            "Your Balance"@
        },
{
    if matches!(step, TransferStep::Confirm) {
        "Remaining balance"
    } else {
        "Your Balance"
    }
}

/// Whether the close button and the balance line are shown.
pub fn shows_header_controls(step: TransferStep) -> (r: bool)
    ensures
        r == (step != TransferStep::Success),
{
    !matches!(step, TransferStep::Success)
}

/// The longest message a transfer may carry, in characters.
pub const MAX_TRANSFER_MESSAGE: usize = 500;

/// The error for a message longer than [`MAX_TRANSFER_MESSAGE`] characters.
pub fn transfer_message_error(message: &str) -> (r: Option<&'static str>)
    ensures
        message@.len() > 500 ==> (r matches Some(m) && m@ == "Message exceeds 500 characters"@),
        message@.len() <= 500 ==> r is None,
{
    if message.unicode_len() > MAX_TRANSFER_MESSAGE {
        Some("Message exceeds 500 characters")
    } else {
        None
    }
}

/// The message sent with a transfer: none when empty.
pub fn transfer_message(message: String) -> (r: Option<String>)
    ensures
        message@.len() == 0 ==> r is None,
        message@.len() > 0 ==> r == Some(message),
{
    if message.as_str().is_empty() {
        None
    } else {
        Some(message)
    }
}

/// Whether a search is run for `query` (two bytes at least); shorter
/// queries clear the results and show the friends list.
pub fn is_search_query(query: &str) -> (r: bool)
    ensures
        r == (encode_utf8_len(query@) >= 2),
{
    byte_len(query) >= 2
}

/// A user who can receive a transfer.
#[derive(Debug, Clone)]
pub struct RecipientUser {
    pub id: String,
    pub username: String,
    pub slug: String,
    pub img: Option<String>,
}

/// `s` with every leading copy of `p` removed (`trim_start_matches`).
pub open spec fn strip_all_prefixes(s: Seq<char>, p: Seq<char>) -> Seq<char>
    decreases s.len(),
{
    if p.len() > 0 && occurs_at(s, p, 0) {
        strip_all_prefixes(s.skip(p.len() as int), p)
    } else {
        s
    }
}

/// Where a user's picture is served from.
pub open spec fn spec_avatar_url(img: Option<String>) -> Seq<char> {
    match img {
        Some(i) => if occurs_at(i@, "media/"@, 0) {
            "/media/"@ + strip_all_prefixes(i@, "media/"@)
        } else {
            "/media/"@ + i@
        },
        None => "/svg/noname.svg"@,
    }
}

fn strip_media_prefixes(s: &str) -> (r: &str)
    ensures
        r@ == strip_all_prefixes(s@, "media/"@),
{
    proof {
        reveal_strlit("media/");
    }
    let mut cur = s;
    while starts_with_text(cur, "media/")
        invariant
            strip_all_prefixes(cur@, "media/"@) == strip_all_prefixes(s@, "media/"@),
            "media/"@.len() == 6,
        decreases cur@.len(),
    {
        let n = cur.unicode_len();
        cur = cur.substring_char(6, n);
    }
    cur
}

impl RecipientUser {
    /// The avatar URL: `/media/` and the image path (any leading `media/`
    /// dropped), or the placeholder when there is no image.
    pub fn avatar_url(&self) -> (r: String)
        ensures
            r@ == spec_avatar_url(self.img),
    {
        match &self.img {
            Some(img) => {
                let mut r = "/media/".to_owned();
                if starts_with_text(img.as_str(), "media/") {
                    r.append(strip_media_prefixes(img.as_str()));
                } else {
                    r.append(img.as_str());
                }
                r
            },
            None => "/svg/noname.svg".to_owned(),
        }
    }

    /// A recipient found by user search.
    pub fn from_search_result(u: UserSearchResult) -> (r: Self)
        ensures
            r.id == u.id,
            r.username == u.username,
            r.slug == u.slug,
            r.img == u.img,
    {
        RecipientUser { id: u.id, username: u.username, slug: u.slug, img: u.img }
    }
}

} // verus!
