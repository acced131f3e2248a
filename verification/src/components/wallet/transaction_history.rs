//! Paging of the transaction history, which drops transactions already
//! shown when pages overlap.
use vstd::prelude::*;
use crate::text::text_eq;

verus! {

/// Transactions asked for per page.
pub const HISTORY_PAGE_SIZE: i32 = 20;

/// Paging state of the history list and the ids already shown.
#[derive(Debug, Clone)]
pub struct HistoryCursor {
    offset: i32,
    has_more: bool,
    loading: bool,
    seen_ids: Vec<String>,
}

/// The ids as text.
pub open spec fn id_views(ids: Seq<String>) -> Seq<Seq<char>> {
    ids.map_values(|s: String| s@)
}

/// Whether page entry `i` is shown: its id was not shown before and does
/// not occur earlier in the page.
pub open spec fn is_fresh(seen: Seq<Seq<char>>, page: Seq<Seq<char>>, i: int) -> bool {
    &&& !seen.contains(page[i])
    &&& forall|j: int| 0 <= j < i ==> page[j] != page[i]
}

impl HistoryCursor {
    /// The ids shown so far, each once.
    pub closed spec fn seen(&self) -> Seq<Seq<char>> {
        id_views(self.seen_ids@)
    }

    /// Offset of the next page.
    pub closed spec fn spec_offset(&self) -> i32 {
        self.offset
    }

    /// Whether more transactions may exist.
    pub closed spec fn spec_has_more(&self) -> bool {
        self.has_more
    }

    /// Whether a request is in flight.
    pub closed spec fn spec_loading(&self) -> bool {
        self.loading
    }

    /// No id is recorded twice.
    pub closed spec fn wf(&self) -> bool {
        forall|a: int, b: int| 0 <= a < b < self.seen_ids@.len() ==> self.seen_ids@[a]@ != self.seen_ids@[b]@
    }

    /// Nothing shown yet.
    pub fn new() -> (r: Self)
        ensures
            r.wf(),
            r.seen().len() == 0,
            r.spec_offset() == 0,
            r.spec_has_more(),
            !r.spec_loading(),
    {
        HistoryCursor { offset: 0, has_more: true, loading: false, seen_ids: Vec::new() }
    }

    /// Offset of the next page.
    pub fn offset(&self) -> (r: i32)
        ensures
            r == self.spec_offset(),
    {
        self.offset
    }

    /// A page may be requested: none in flight and more expected.
    pub fn can_load(&self) -> (r: bool)
        ensures
            r == (!self.spec_loading() && self.spec_has_more()),
    {
        !self.loading && self.has_more
    }

    /// Mark a request as sent.
    pub fn start_loading(&mut self)
        ensures
            final(self).spec_loading(),
            final(self).seen() == old(self).seen(),
            final(self).spec_offset() == old(self).spec_offset(),
            final(self).spec_has_more() == old(self).spec_has_more(),
            old(self).wf() ==> final(self).wf(),
    {
        self.loading = true;
    }

    /// A request failed: loading stops, everything else stays.
    pub fn record_error(&mut self)
        ensures
            !final(self).spec_loading(),
            final(self).seen() == old(self).seen(),
            final(self).spec_offset() == old(self).spec_offset(),
            final(self).spec_has_more() == old(self).spec_has_more(),
            old(self).wf() ==> final(self).wf(),
    {
        self.loading = false;
    }

    /// Apply a page with the given transaction ids. Returns, for each
    /// entry, whether it is shown; the offset moves by the page length,
    /// and a short page ends the history.
    pub fn accept_page(&mut self, ids: &Vec<String>) -> (keep: Vec<bool>)
        requires
            old(self).wf(),
            ids@.len() <= i32::MAX,
            old(self).spec_offset() + ids@.len() <= i32::MAX,
        ensures
            final(self).wf(),
            keep@.len() == ids@.len(),
            forall|i: int| 0 <= i < ids@.len() ==> #[trigger] keep@[i] == is_fresh(
                old(self).seen(),
                id_views(ids@),
                i,
            ),
            forall|x: Seq<char>| #[trigger] final(self).seen().contains(x) <==> (old(self).seen().contains(x)
                || id_views(ids@).contains(x)),
            final(self).spec_offset() == old(self).spec_offset() + ids@.len(),
            final(self).spec_has_more() == (old(self).spec_has_more() && ids@.len()
                >= HISTORY_PAGE_SIZE),
            !final(self).spec_loading(),
    {
        let ghost seen0 = id_views(self.seen_ids@);
        let ghost page = id_views(ids@);
        let mut keep: Vec<bool> = Vec::new();
        let mut i: usize = 0;
        while i < ids.len()
            invariant
                i <= ids@.len(),
                page == id_views(ids@),
                keep@.len() == i,
                self.offset == old(self).offset,
                self.has_more == old(self).has_more,
                ids@.len() <= i32::MAX,
                self.offset + ids@.len() <= i32::MAX,
                forall|a: int, b: int| 0 <= a < b < self.seen_ids@.len() ==> self.seen_ids@[a]@ != self.seen_ids@[b]@,
                forall|k: int| 0 <= k < i ==> #[trigger] keep@[k] == is_fresh(seen0, page, k),
                forall|x: Seq<char>| #[trigger] id_views(self.seen_ids@).contains(x) <==> (seen0.contains(x)
                    || page.take(i as int).contains(x)),
            decreases ids@.len() - i,
        {
            let mut found = false;
            let mut j: usize = 0;
            while j < self.seen_ids.len()
                invariant
                    i < ids@.len(),
                    j <= self.seen_ids@.len(),
                    found == exists|k: int| 0 <= k < j && self.seen_ids@[k]@ == ids@[i as int]@,
                decreases self.seen_ids@.len() - j,
            {
                if text_eq(self.seen_ids[j].as_str(), ids[i].as_str()) {
                    found = true;
                }
                j = j + 1;
            }
            proof {
                assert(page[i as int] == ids@[i as int]@);
                if found {
                    let k = choose|k: int| 0 <= k < j && self.seen_ids@[k]@ == ids@[i as int]@;
                    assert(id_views(self.seen_ids@)[k] == page[i as int]);
                }
                let sv = id_views(self.seen_ids@);
                let p0 = page.take(i as int);
                if sv.contains(page[i as int]) {
                    let k = choose|k: int| 0 <= k < sv.len() && sv[k] == page[i as int];
                    assert(self.seen_ids@[k]@ == ids@[i as int]@);
                }
                if seen0.contains(page[i as int]) {
                    assert(sv.contains(page[i as int]));
                }
                assert forall|j2: int| 0 <= j2 < i implies page[j2] != page[i as int] || sv.contains(page[i as int]) by {
                    if page[j2] == page[i as int] {
                        assert(p0[j2] == page[j2]);
                        assert(p0.contains(page[j2]));
                    }
                }
                if !found {
                    assert forall|j2: int| 0 <= j2 < i implies page[j2] != page[i as int] by {}
                    assert(!seen0.contains(page[i as int]));
                } else {
                    if !seen0.contains(page[i as int]) {
                        assert(p0.contains(page[i as int]));
                        let j2 = choose|j2: int| 0 <= j2 < p0.len() && p0[j2] == page[i as int];
                        assert(page[j2] == page[i as int]);
                    }
                }
                assert(found != is_fresh(seen0, page, i as int));
            }
            let ghost before = self.seen_ids@;
            if !found {
                self.seen_ids.push(ids[i].clone());
                proof {
                    assert(id_views(self.seen_ids@) =~= id_views(before).push(ids@[i as int]@));
                }
            }
            keep.push(!found);
            proof {
                let p1 = page.take(i + 1);
                let p0 = page.take(i as int);
                let sv = id_views(self.seen_ids@);
                let bv = id_views(before);
                assert(p1 =~= p0.push(page[i as int]));
                assert forall|x: Seq<char>| #[trigger] sv.contains(x) <==> (seen0.contains(x)
                    || p1.contains(x)) by {
                    if p1.contains(x) && !p0.contains(x) {
                        let k = choose|k: int| 0 <= k < p1.len() && p1[k] == x;
                        if k < i {
                            assert(p0[k] == x);
                        }
                        assert(k == i);
                        if !found {
                            assert(sv.last() == x);
                        }
                    }
                    if sv.contains(x) && !bv.contains(x) {
                        let k = choose|k: int| 0 <= k < sv.len() && sv[k] == x;
                        if k < before.len() {
                            assert(bv[k] == x);
                        }
                        assert(k == before.len());
                        assert(p1[i as int] == x);
                    }
                    if bv.contains(x) {
                        let k = choose|k: int| 0 <= k < bv.len() && bv[k] == x;
                        assert(sv[k] == x);
                    }
                    if p0.contains(x) {
                        let k = choose|k: int| 0 <= k < p0.len() && p0[k] == x;
                        assert(p1[k] == x);
                    }
                }
                assert forall|a: int, b: int| 0 <= a < b < self.seen_ids@.len() implies self.seen_ids@[a]@ != self.seen_ids@[b]@ by {
                    if b == before.len() && !found {
                        assert(id_views(before)[a] == before[a]@);
                    }
                }
            }
            i = i + 1;
        }
        assert(page.take(ids@.len() as int) =~= page);
        let count = ids.len() as i32;
        self.offset = self.offset + count;
        if count < HISTORY_PAGE_SIZE {
            self.has_more = false;
        }
        self.loading = false;
        keep
    }
}

/// No transaction is listed twice: two entries of a page that are both
/// shown carry different ids, and neither was shown before.
pub proof fn lemma_shown_entries_are_new(seen: Seq<Seq<char>>, page: Seq<Seq<char>>, i: int, j: int)
    requires
        0 <= i < j < page.len(),
        is_fresh(seen, page, i),
        is_fresh(seen, page, j),
    ensures
        page[i] != page[j],
        !seen.contains(page[i]),
        !seen.contains(page[j]),
{
}

} // verus!
