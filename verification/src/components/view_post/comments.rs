//! Comment list paging, comment likes, and the comment and reply forms.
use vstd::prelude::*;
use crate::text::{decimal, push_decimal, trim, trimmed};
use crate::components::view_post::post_actions::dec_floor;

verus! {

/// Comments fetched per page.
pub const COMMENTS_PER_PAGE: i32 = 10;

/// Paging state of a list that loads more items on demand.
#[derive(Debug, Clone, Copy, PartialEq, Eq)]
pub struct PageCursor {
    /// Offset of the next page to ask for.
    pub offset: i32,
    /// Whether the server may hold more items.
    pub has_more: bool,
    /// Whether a page request is in flight.
    pub is_loading: bool,
}

impl PageCursor {
    /// Before the first page: offset zero, more expected, idle.
    pub fn new() -> (r: Self)
        ensures
            r.offset == 0,
            r.has_more,
            !r.is_loading,
    {
        PageCursor { offset: 0, has_more: true, is_loading: false }
    }

    /// A further page may be asked for.
    pub open spec fn spec_can_load_more(&self) -> bool {
        !self.is_loading && self.has_more
    }

    /// Whether the "load more" control is active.
    pub fn can_load_more(&self) -> (r: bool)
        ensures
            r == self.spec_can_load_more(),
    {
        !self.is_loading && self.has_more
    }

    /// Mark a page request as sent.
    pub fn start_loading(&mut self)
        ensures
            *final(self) == (PageCursor { is_loading: true, ..*old(self) }),
    {
        self.is_loading = true;
    }

    /// The filters changed: start again from the first page, expecting
    /// more; a request in flight stays in flight.
    pub fn reset(&mut self)
        ensures
            *final(self) == (PageCursor { offset: 0, has_more: true, ..*old(self) }),
    {
        self.offset = 0;
        self.has_more = true;
    }

    /// A page request failed: loading stops, the position stays.
    pub fn record_error(&mut self)
        ensures
            *final(self) == (PageCursor { is_loading: false, ..*old(self) }),
    {
        self.is_loading = false;
    }

    /// Apply a page of `received` items out of `counter` in total: the
    /// offset moves on by a page when items came, and more are expected
    /// only when items came and the total lies beyond the next offset.
    pub fn apply_page(&mut self, received: usize, counter: i32, per_page: i32)
        requires
            per_page > 0,
            old(self).offset + per_page <= i32::MAX,
        ensures
            final(self).offset == if received > 0 {
                old(self).offset + per_page
            } else {
                old(self).offset as int
            },
            final(self).has_more == (received > 0 && counter > old(self).offset + per_page),
            !final(self).is_loading,
    {
        let current = self.offset;
        let has_new = received > 0;
        if has_new {
            self.offset = current + per_page;
        }
        self.has_more = has_new && counter > current + per_page;
        self.is_loading = false;
    }
}

/// The viewer's like on one comment and its counter.
#[derive(Debug, Clone, Copy, PartialEq, Eq)]
pub struct CommentLike {
    pub liked: bool,
    pub count: i32,
}

impl CommentLike {
    /// Like click: guests change nothing; otherwise the like toggles and
    /// the counter follows (never below zero). Returns whether the click
    /// unlikes (`Some(true)`), likes (`Some(false)`) or does nothing.
    pub fn toggle(&mut self, is_guest: bool) -> (r: Option<bool>)
        requires
            !is_guest && !old(self).liked ==> old(self).count < i32::MAX,
        ensures
            is_guest ==> *final(self) == *old(self) && r is None,
            !is_guest ==> r == Some(old(self).liked) && final(self).liked == !old(self).liked
                && final(self).count == if old(self).liked {
                dec_floor(old(self).count) as int
            } else {
                old(self).count + 1
            },
    {
        if is_guest {
            return None;
        }
        let was_liked = self.liked;
        if was_liked {
            self.liked = false;
            self.count = if self.count <= 0 {
                0
            } else {
                self.count - 1
            };
        } else {
            self.liked = true;
            self.count = self.count + 1;
        }
        Some(was_liked)
    }
}

/// Liking and then unliking a comment restores it.
pub proof fn lemma_comment_like_round_trip(c: CommentLike)
    requires
        !c.liked,
        c.count >= 0,
        c.count < i32::MAX,
    ensures
        ({
            let once = CommentLike { liked: true, count: (c.count + 1) as i32 };
            let twice = CommentLike { liked: false, count: dec_floor(once.count) };
            twice == c
        }),
{
}

/// The text of the replies toggle.
pub open spec fn spec_replies_label(showing: bool, reply_count: u32) -> Seq<char> {
    if showing {
        "Hide replies"@
    } else {
        "Show "@ + decimal(reply_count as nat) + " replies..."@
    }
}

/// "Hide replies" while shown, else "Show <n> replies...".
pub fn replies_label(showing: bool, reply_count: u32) -> (r: String)
    ensures
        r@ == spec_replies_label(showing, reply_count),
{
    if showing {
        "Hide replies".to_owned()
    } else {
        let mut r = "Show ".to_owned();
        push_decimal(&mut r, reply_count as u64);
        r.append(" replies...");
        r
    }
}

/// The text a comment or reply form sends: the trimmed input, unless it
/// is empty or a submission is already running.
pub fn comment_to_send(content: &str, is_submitting: bool) -> (r: Option<&str>)
    ensures
        match r {
            Some(t) => t@ == trimmed(content@) && t@.len() > 0 && !is_submitting,
            None => trimmed(content@).len() == 0 || is_submitting,
        },
{
    let t = trim(content);
    if t.unicode_len() == 0 || is_submitting {
        None
    } else {
        Some(t)
    }
}

/// The avatar shown for a user: their image, or the placeholder.
pub fn avatar_or_placeholder(img: &Option<String>) -> (r: String)
    ensures
        r@ == match *img {
            Some(i) => i@,
            None => "/svg/noname.svg"@,
        },
{
    match img {
        Some(i) => i.clone(),
        None => "/svg/noname.svg".to_owned(),
    }
}

/// The profile page of a user: `/profile/<slug>`.
pub fn profile_url(slug: &str) -> (r: String)
    ensures
        r@ == "/profile/"@ + slug@,
{
    let mut r = "/profile/".to_owned();
    r.append(slug);
    r
}

} // verus!
