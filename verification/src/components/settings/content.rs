//! The reported-content preference: its toggle, confirmation and result.
use vstd::prelude::*;
use crate::models::settings::ContentFilterLevel;
use crate::text::text_eq;

verus! {

/// Whether the stored level shows reported content (`MYGRANDMAHATES`).
pub fn level_is_lenient(level: &str) -> (r: bool)
    ensures
        r == (level@ == "MYGRANDMAHATES"@),
{
    text_eq(level, "MYGRANDMAHATES")
}

/// The level a confirmed toggle sends: lenient when enabling.
pub fn level_for(enabling: bool) -> (r: ContentFilterLevel)
    ensures
        r == if enabling {
            ContentFilterLevel::Lenient
        } else {
            ContentFilterLevel::Strict
        },
{
    if enabling {
        ContentFilterLevel::Lenient
    } else {
        ContentFilterLevel::Strict
    }
}

/// The title and text of the confirmation dialog.
pub fn confirm_dialog_text(enabling: bool) -> (r: (&'static str, &'static str))
    ensures
        enabling ==> r.0@ == "Show reported content?"@ && r.1@
            == "You're about to see all reported posts in your feed. This content may be inappropriate or offensive."@,
        !enabling ==> r.0@ == "Hide reported content?"@ && r.1@
            == "You're about to hide all reported posts from your feed."@,
{
    if enabling {
        (
            "Show reported content?",
            "You're about to see all reported posts in your feed. This content may be inappropriate or offensive.",
        )
    } else {
        ("Hide reported content?", "You're about to hide all reported posts from your feed.")
    }
}

/// The message after the preference was saved.
pub fn saved_message(enabling: bool) -> (r: &'static str)
    ensures
        r@ == if enabling {
            "Content restored. Reported posts are now visible in your feed."@
        } else {
            "Hidden successfully. Reported posts have been removed from your feed."@
        },
{
    if enabling {
        "Content restored. Reported posts are now visible in your feed."
    } else {
        "Hidden successfully. Reported posts have been removed from your feed."
    }
}

} // verus!
