//! The queue of toast notifications: each shown toast gets a fresh id,
//! and dismissing an id removes that toast.
use vstd::prelude::*;
use crate::text::IntoText;

verus! {

/// Toast notification types with corresponding styling.
#[derive(Clone, Copy, Debug, PartialEq, Eq, Structural)]
pub enum ToastType {
    Success,
    Error,
    Info,
}

impl ToastType {
    /// The CSS modifier class of the toast.
    pub fn class(&self) -> (r: &'static str)
        ensures
            r@ == match *self {
                ToastType::Success => "toast--success"@,
                ToastType::Error => "toast--error"@,
                ToastType::Info => "toast--info"@,
            },
    {
        match self {
            ToastType::Success => "toast--success",
            ToastType::Error => "toast--error",
            ToastType::Info => "toast--info",
        }
    }
}

/// A single toast message.
#[derive(Clone, Debug)]
pub struct ToastMessage {
    pub id: u32,
    pub message: String,
    pub toast_type: ToastType,
}

/// The toasts on screen and the id the next one gets.
#[derive(Clone, Debug)]
pub struct ToastQueue {
    toasts: Vec<ToastMessage>,
    next_id: u32,
}

impl ToastQueue {
    /// Every toast's id is below `next_id`, and ids increase along the
    /// queue (so no id occurs twice).
    pub closed spec fn wf(&self) -> bool {
        &&& forall|i: int| 0 <= i < self.toasts@.len() ==> (#[trigger] self.toasts@[i]).id < self.next_id
        &&& forall|i: int, j: int| 0 <= i < j < self.toasts@.len() ==> self.toasts@[i].id < self.toasts@[j].id
    }

    /// The toasts on screen, oldest first.
    pub closed spec fn messages(&self) -> Seq<ToastMessage> {
        self.toasts@
    }

    /// The id the next toast will get.
    pub closed spec fn spec_next_id(&self) -> u32 {
        self.next_id
    }

    /// No toast, ids starting at zero.
    pub fn new() -> (r: Self)
        ensures
            r.wf(),
            r.messages().len() == 0,
            r.spec_next_id() == 0,
    {
        ToastQueue { toasts: Vec::new(), next_id: 0 }
    }

    /// The toasts on screen.
    pub fn toasts(&self) -> (r: &Vec<ToastMessage>)
        ensures
            r@ == self.messages(),
    {
        &self.toasts
    }

    /// Show a toast; returns its id, which is then dismissed after a
    /// timeout or by the user.
    pub fn show(&mut self, message: impl IntoText, toast_type: ToastType) -> (r: u32)
        requires
            old(self).wf(),
            old(self).spec_next_id() < u32::MAX,
        ensures
            final(self).wf(),
            r == old(self).spec_next_id(),
            final(self).spec_next_id() == old(self).spec_next_id() + 1,
            final(self).messages().len() == old(self).messages().len() + 1,
            final(self).messages().drop_last() == old(self).messages(),
            final(self).messages().last().id == r,
            final(self).messages().last().message@ == message.text(),
            final(self).messages().last().toast_type == toast_type,
    {
        let id = self.next_id;
        self.next_id = id + 1;
        let ghost before = self.toasts@;
        self.toasts.push(ToastMessage { id, message: message.into_text(), toast_type });
        assert(self.toasts@.drop_last() =~= before);
        id
    }

    /// Remove the toast with `id`, if it is on screen; the others stay in
    /// order.
    pub fn dismiss(&mut self, id: u32)
        requires
            old(self).wf(),
        ensures
            final(self).wf(),
            final(self).spec_next_id() == old(self).spec_next_id(),
            final(self).messages() == old(self).messages().filter(|t: ToastMessage| t.id != id),
    {
        let ghost before = self.toasts@;
        let mut kept: Vec<ToastMessage> = Vec::new();
        let mut i: usize = 0;
        while i < self.toasts.len()
            invariant
                self.toasts@ == before,
                self.wf(),
                i <= before.len(),
                kept@ == before.take(i as int).filter(|t: ToastMessage| t.id != id),
                forall|a: int| 0 <= a < kept@.len() ==> exists|b: int| 0 <= b < i && #[trigger] kept@[a] == before[b],
                forall|a: int, b: int| 0 <= a < b < kept@.len() ==> kept@[a].id < kept@[b].id,
            decreases before.len() - i,
        {
            let ghost prev = kept@;
            let t = &self.toasts[i];
            if t.id != id {
                kept.push(ToastMessage { id: t.id, message: t.message.clone(), toast_type: t.toast_type });
            }
            proof {
                reveal_with_fuel(Seq::<ToastMessage>::filter, 1);
                assert(before.take(i + 1).drop_last() =~= before.take(i as int));
                assert forall|a: int| 0 <= a < kept@.len() implies exists|b: int| 0 <= b < i + 1 && #[trigger] kept@[a] == before[b] by {
                    if a < prev.len() {
                        assert(kept@[a] == prev[a]);
                    } else {
                        assert(kept@[a] == before[i as int]);
                    }
                }
                assert forall|a: int, b: int| 0 <= a < b < kept@.len() implies kept@[a].id < kept@[b].id by {
                    if b >= prev.len() {
                        assert(kept@[a] == prev[a]);
                        let c = choose|c: int| 0 <= c < i && prev[a] == before[c];
                        assert(before[c].id < before[i as int].id);
                    } else {
                        assert(kept@[a] == prev[a]);
                        assert(kept@[b] == prev[b]);
                    }
                }
            }
            i = i + 1;
        }
        assert(before.take(before.len() as int) =~= before);
        proof {
            assert forall|a: int| 0 <= a < kept@.len() implies (#[trigger] kept@[a]).id < self.next_id by {
                let b = choose|b: int| 0 <= b < before.len() && kept@[a] == before[b];
            }
        }
        self.toasts = kept;
    }
}

/// Dismissing the toast that `show` just added gives back the toasts that
/// were on screen before it was shown.
pub proof fn lemma_dismiss_undoes_show(before: ToastQueue, shown: ToastQueue, after: ToastQueue)
    requires
        before.wf(),
        shown.messages().drop_last() == before.messages(),
        shown.messages().len() == before.messages().len() + 1,
        shown.messages().last().id == before.spec_next_id(),
        after.messages() == shown.messages().filter(
            |t: ToastMessage| t.id != before.spec_next_id(),
        ),
    ensures
        after.messages() == before.messages(),
{
    let id = before.spec_next_id();
    let f = |t: ToastMessage| t.id != id;
    reveal_with_fuel(Seq::<ToastMessage>::filter, 1);
    lemma_filter_keeps_all(before.messages(), f);
}

proof fn lemma_filter_keeps_all(s: Seq<ToastMessage>, f: spec_fn(ToastMessage) -> bool)
    requires
        forall|i: int| 0 <= i < s.len() ==> f(#[trigger] s[i]),
    ensures
        s.filter(f) == s,
    decreases s.len(),
{
    reveal_with_fuel(Seq::<ToastMessage>::filter, 1);
    if s.len() > 0 {
        lemma_filter_keeps_all(s.drop_last(), f);
        assert(s.drop_last().push(s.last()) =~= s);
    } else {
        assert(s.filter(f) =~= s);
    }
}

} // verus!
