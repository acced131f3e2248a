//! Optimistic like / dislike / save state of a post, and the action each
//! click sends to the API.
use vstd::prelude::*;
use crate::models::post::{Post, PostActionType};

verus! {

/// The viewer's reactions to a post and its counters, as shown.
#[derive(Debug, Clone, Copy, PartialEq, Eq)]
pub struct PostReactions {
    pub liked: bool,
    pub disliked: bool,
    pub saved: bool,
    pub like_count: i32,
    pub dislike_count: i32,
}

/// `c - 1`, but never below zero.
pub open spec fn dec_floor(c: i32) -> i32 {
    if c - 1 < 0 {
        0
    } else {
        (c - 1) as i32
    }
}

fn decrement_floor(c: i32) -> (r: i32)
    ensures
        r == dec_floor(c),
{
    if c <= 0 {
        0
    } else {
        c - 1
    }
}

impl PostReactions {
    /// The reactions a post arrives with.
    pub fn from_post(post: &Post) -> (r: Self)
        ensures
            r.liked == post.isliked,
            r.disliked == post.isdisliked,
            r.saved == post.issaved,
            r.like_count == post.amountlikes,
            r.dislike_count == post.amountdislikes,
    {
        PostReactions {
            liked: post.isliked,
            disliked: post.isdisliked,
            saved: post.issaved,
            like_count: post.amountlikes,
            dislike_count: post.amountdislikes,
        }
    }

    /// The counters can each go up by one.
    pub open spec fn counters_below_max(&self) -> bool {
        self.like_count < i32::MAX && self.dislike_count < i32::MAX
    }

    /// The state after a like click by a signed-in viewer.
    pub open spec fn spec_after_like(self) -> PostReactions {
        if self.liked {
            PostReactions { liked: false, like_count: dec_floor(self.like_count), ..self }
        } else if self.disliked {
            PostReactions {
                liked: true,
                like_count: (self.like_count + 1) as i32,
                disliked: false,
                dislike_count: dec_floor(self.dislike_count),
                ..self
            }
        } else {
            PostReactions { liked: true, like_count: (self.like_count + 1) as i32, ..self }
        }
    }

    /// The state after a dislike click by a signed-in viewer.
    pub open spec fn spec_after_dislike(self) -> PostReactions {
        if self.disliked {
            PostReactions { disliked: false, dislike_count: dec_floor(self.dislike_count), ..self }
        } else if self.liked {
            PostReactions {
                disliked: true,
                dislike_count: (self.dislike_count + 1) as i32,
                liked: false,
                like_count: dec_floor(self.like_count),
                ..self
            }
        } else {
            PostReactions { disliked: true, dislike_count: (self.dislike_count + 1) as i32, ..self }
        }
    }

    /// Like click: a guest changes nothing and sends nothing; otherwise the
    /// like is toggled (removing a dislike when liking) and `Like` or
    /// `Unlike` is sent.
    pub fn toggle_like(&mut self, is_guest: bool) -> (r: Option<PostActionType>)
        requires
            !is_guest && !old(self).liked ==> old(self).like_count < i32::MAX,
        ensures
            is_guest ==> *final(self) == *old(self) && r is None,
            !is_guest ==> *final(self) == old(self).spec_after_like() && r == Some(
                if old(self).liked {
                    PostActionType::Unlike
                } else {
                    PostActionType::Like
                },
            ),
    {
        if is_guest {
            return None;
        }
        if self.liked {
            self.liked = false;
            self.like_count = decrement_floor(self.like_count);
            Some(PostActionType::Unlike)
        } else {
            self.liked = true;
            self.like_count = self.like_count + 1;
            if self.disliked {
                self.disliked = false;
                self.dislike_count = decrement_floor(self.dislike_count);
            }
            Some(PostActionType::Like)
        }
    }

    /// Dislike click: the mirror image of [`PostReactions::toggle_like`].
    pub fn toggle_dislike(&mut self, is_guest: bool) -> (r: Option<PostActionType>)
        requires
            !is_guest && !old(self).disliked ==> old(self).dislike_count < i32::MAX,
        ensures
            is_guest ==> *final(self) == *old(self) && r is None,
            !is_guest ==> *final(self) == old(self).spec_after_dislike() && r == Some(
                if old(self).disliked {
                    PostActionType::Undislike
                } else {
                    PostActionType::Dislike
                },
            ),
    {
        if is_guest {
            return None;
        }
        if self.disliked {
            self.disliked = false;
            self.dislike_count = decrement_floor(self.dislike_count);
            Some(PostActionType::Undislike)
        } else {
            self.disliked = true;
            self.dislike_count = self.dislike_count + 1;
            if self.liked {
                self.liked = false;
                self.like_count = decrement_floor(self.like_count);
            }
            Some(PostActionType::Dislike)
        }
    }

    /// Save click: toggles the bookmark and sends `Save` or `Unsave`.
    pub fn toggle_save(&mut self, is_guest: bool) -> (r: Option<PostActionType>)
        ensures
            is_guest ==> *final(self) == *old(self) && r is None,
            !is_guest ==> *final(self) == (PostReactions { saved: !old(self).saved, ..*old(self) })
                && r == Some(
                if old(self).saved {
                    PostActionType::Unsave
                } else {
                    PostActionType::Save
                },
            ),
    {
        if is_guest {
            return None;
        }
        let was_saved = self.saved;
        self.saved = !was_saved;
        if was_saved {
            Some(PostActionType::Unsave)
        } else {
            Some(PostActionType::Save)
        }
    }
}

/// The action a report click sends: none for guests.
pub fn report_action(is_guest: bool) -> (r: Option<PostActionType>)
    ensures
        r == if is_guest {
            None
        } else {
            Some(PostActionType::Report)
        },
{
    if is_guest {
        None
    } else {
        Some(PostActionType::Report)
    }
}

/// A post is never both liked and disliked after a click, when it was not
/// before.
pub proof fn lemma_like_dislike_exclusive(s: PostReactions)
    requires
        !(s.liked && s.disliked),
    ensures
        !(s.spec_after_like().liked && s.spec_after_like().disliked),
        !(s.spec_after_dislike().liked && s.spec_after_dislike().disliked),
{
}

/// Liking twice restores the like state and the like counter when the
/// counter is consistent with the state (at least one like while liked).
pub proof fn lemma_like_twice_restores(s: PostReactions)
    requires
        s.counters_below_max(),
        s.like_count >= 0,
        s.liked ==> s.like_count >= 1,
    ensures
        s.spec_after_like().spec_after_like().liked == s.liked,
        s.spec_after_like().spec_after_like().like_count == s.like_count,
        s.spec_after_like().spec_after_like().saved == s.saved,
{
}

/// Counters never go negative through clicks that start non-negative.
pub proof fn lemma_counts_stay_non_negative(s: PostReactions)
    requires
        s.counters_below_max(),
        s.like_count >= 0,
        s.dislike_count >= 0,
    ensures
        s.spec_after_like().like_count >= 0,
        s.spec_after_like().dislike_count >= 0,
        s.spec_after_dislike().like_count >= 0,
        s.spec_after_dislike().dislike_count >= 0,
{
}

/// The state after a signed-in viewer's clicks, in order: `true` is a
/// like click, `false` a dislike click.
pub open spec fn after_clicks(s: PostReactions, clicks: Seq<bool>) -> PostReactions
    decreases clicks.len(),
{
    if clicks.len() == 0 {
        s
    } else {
        let t = after_clicks(s, clicks.drop_last());
        if clicks.last() {
            t.spec_after_like()
        } else {
            t.spec_after_dislike()
        }
    }
}

/// Over any sequence of like and dislike clicks from a post that is not
/// both liked and disliked and whose counters are non-negative, the post
/// never becomes both liked and disliked, the counters never go below
/// zero, each counter grows by at most one per click, and the saved flag
/// is untouched. (The counters must have room for one more per click.)
pub proof fn lemma_click_sequence(s: PostReactions, clicks: Seq<bool>)
    requires
        !(s.liked && s.disliked),
        s.like_count >= 0,
        s.dislike_count >= 0,
        s.like_count + clicks.len() <= i32::MAX,
        s.dislike_count + clicks.len() <= i32::MAX,
    ensures
        !(after_clicks(s, clicks).liked && after_clicks(s, clicks).disliked),
        after_clicks(s, clicks).like_count >= 0,
        after_clicks(s, clicks).dislike_count >= 0,
        after_clicks(s, clicks).like_count <= s.like_count + clicks.len(),
        after_clicks(s, clicks).dislike_count <= s.dislike_count + clicks.len(),
        after_clicks(s, clicks).saved == s.saved,
    decreases clicks.len(),
{
    if clicks.len() > 0 {
        lemma_click_sequence(s, clicks.drop_last());
    }
}

/// The label of the save link.
pub fn save_label(saved: bool) -> (r: &'static str)
    ensures
        r@ == if saved {
            " Saved"@
        } else {
            " Save"@
        },
{
    if saved {
        " Saved"
    } else {
        " Save"
    }
}

} // verus!
