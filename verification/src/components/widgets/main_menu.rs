//! The main menu's unread-messages badge.
use vstd::prelude::*;
use crate::text::{decimal, decimal_text};

verus! {

/// The sum of the unread counters.
pub open spec fn unread_sum(counts: Seq<u32>) -> int
    decreases counts.len(),
{
    if counts.len() == 0 {
        0
    } else {
        unread_sum(counts.drop_last()) + counts.last()
    }
}

proof fn lemma_unread_sum_nonneg(counts: Seq<u32>)
    ensures
        unread_sum(counts) >= 0,
    decreases counts.len(),
{
    if counts.len() > 0 {
        lemma_unread_sum_nonneg(counts.drop_last());
    }
}

proof fn lemma_unread_sum_mono(counts: Seq<u32>, i: int)
    requires
        0 <= i <= counts.len(),
    ensures
        0 <= unread_sum(counts.take(i)) <= unread_sum(counts),
    decreases counts.len() - i,
{
    lemma_unread_sum_nonneg(counts.take(i));
    if i < counts.len() {
        lemma_unread_sum_mono(counts, i + 1);
        assert(counts.take(i + 1).drop_last() =~= counts.take(i));
    } else {
        assert(counts.take(i) =~= counts);
    }
}

/// Unread messages over all chats; the sum must fit in `u32`.
pub fn total_unread(counts: &Vec<u32>) -> (r: u32)
    requires
        unread_sum(counts@) <= u32::MAX,
    ensures
        r == unread_sum(counts@),
{
    let mut total: u32 = 0;
    let mut i: usize = 0;
    while i < counts.len()
        invariant
            i <= counts@.len(),
            total == unread_sum(counts@.take(i as int)),
            unread_sum(counts@) <= u32::MAX,
        decreases counts@.len() - i,
    {
        proof {
            lemma_unread_sum_mono(counts@, i + 1);
            assert(counts@.take(i + 1).drop_last() =~= counts@.take(i as int));
        }
        total = total + counts[i];
        i = i + 1;
    }
    assert(counts@.take(counts@.len() as int) =~= counts@);
    total
}

/// The badge text: the count, or `99+` above 99.
pub fn unread_label(n: u32) -> (r: String)
    ensures
        r@ == if n > 99 {
            "99+"@
        } else {
            decimal(n as nat)
        },
{
    if n > 99 {
        "99+".to_owned()
    } else {
        decimal_text(n as u64)
    }
}

/// The badge shows on the chat entry when something is unread.
pub fn shows_unread_badge(is_chat: bool, total: u32) -> (r: bool)
    ensures
        r == (is_chat && total > 0),
{
    is_chat && total > 0
}

/// The follow button's label.
pub fn follow_label(is_following: bool) -> (r: &'static str)
    ensures
        r@ == if is_following {
            "Following"@
        } else {
            "Follow"@
        },
{
    if is_following {
        "Following"
    } else {
        "Follow"
    }
}

/// A follow click: guests change nothing, others toggle.
pub fn toggle_follow(is_following: bool, is_guest: bool) -> (r: bool)
    ensures
        r == if is_guest {
            is_following
        } else {
            !is_following
        },
{
    if is_guest {
        is_following
    } else {
        !is_following
    }
}

} // verus!
