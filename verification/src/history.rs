//! The bounded, deduplicating, insertion-ordered history store:
//! most-recent first, capacity 50, duplicates silently rejected, the
//! oldest entry evicted when the store is full.

use vstd::prelude::*;
use crate::types::{ClipboardHistoryItem, ContentKind, EntryView};

verus! {

/// Most entries the store ever holds.
pub const HISTORY_CAPACITY: usize = 50;

/// The candidate repeats an existing entry: text entries by their primary
/// content, image entries by kind and dimensions.
pub open spec fn is_dup(existing: EntryView, candidate: EntryView) -> bool {
    if candidate.content_type == ContentKind::Image {
        existing.content_type == ContentKind::Image && existing.image_dimensions
            == candidate.image_dimensions
    } else {
        existing.primary_content == candidate.primary_content
    }
}

pub open spec fn has_dup(s: Seq<EntryView>, e: EntryView) -> bool {
    exists|i: int| 0 <= i < s.len() && is_dup(s[i], e)
}

/// What one append leaves the store holding: unchanged on a duplicate,
/// otherwise the entry at the front with the oldest entry evicted if the
/// capacity would be exceeded.
pub open spec fn append_result(s: Seq<EntryView>, e: EntryView) -> Seq<EntryView> {
    if has_dup(s, e) {
        s
    } else if s.len() < HISTORY_CAPACITY {
        seq![e] + s
    } else {
        (seq![e] + s).take(HISTORY_CAPACITY as int)
    }
}

/// The ordered record of distinct clipboard snapshots, most recent first.
pub struct HistoryStore {
    entries: Vec<ClipboardHistoryItem>,
}

impl View for HistoryStore {
    type V = Seq<EntryView>;

    closed spec fn view(&self) -> Seq<EntryView> {
        self.entries.deep_view()
    }
}

fn same_dims(a: &Option<(u32, u32)>, b: &Option<(u32, u32)>) -> (r: bool)
    ensures
        r == (*a == *b),
{
    match (a, b) {
        (Some(x), Some(y)) => x.0 == y.0 && x.1 == y.1,
        (None, None) => true,
        _ => false,
    }
}

impl HistoryStore {
    /// The store never exceeds its capacity.
    pub open spec fn wf(self) -> bool {
        self@.len() <= HISTORY_CAPACITY
    }

    pub fn new() -> (s: Self)
        ensures
            s@ == Seq::<EntryView>::empty(),
            s.wf(),
    {
        let s = HistoryStore { entries: Vec::new() };
        proof {
            assert(s@ =~= Seq::<EntryView>::empty());
        }
        s
    }

    pub fn len(&self) -> (n: usize)
        ensures
            n == self@.len(),
    {
        self.entries.len()
    }

    /// Append with deduplication and eviction: a no-op if an entry with the
    /// same identity is anywhere in the store; otherwise the entry goes to
    /// the front, and the oldest entry leaves if the store was full.
    pub fn append(&mut self, item: ClipboardHistoryItem)
        requires
            old(self).wf(),
        ensures
            final(self).wf(),
            final(self)@ == append_result(old(self)@, item@),
    {
        let is_image = item.content_type == ContentKind::Image;
        let n = self.entries.len();
        let mut i: usize = 0;
        while i < n
            invariant
                self@ == old(self)@,
                self@.len() <= HISTORY_CAPACITY,
                n == self.entries@.len(),
                i <= n,
                forall|k: int| 0 <= k < i ==> !is_dup(self@[k], item@),
                is_image == (item.content_type == ContentKind::Image),
            decreases n - i,
        {
            let e = &self.entries[i];
            proof {
                assert(self@[i as int] == self.entries@[i as int]@);
            }
            let dup = if is_image {
                e.content_type == ContentKind::Image && same_dims(
                    &e.image_dimensions,
                    &item.image_dimensions,
                )
            } else {
                e.primary_content == item.primary_content
            };
            if dup {
                proof {
                    assert(is_dup(self@[i as int], item@));
                }
                return;
            }
            i += 1;
        }
        proof {
            assert(!has_dup(self@, item@));
        }
        let ghost before = self@;
        self.entries.insert(0, item);
        proof {
            assert(self@ =~= seq![item@] + before);
        }
        if self.entries.len() > HISTORY_CAPACITY {
            let ghost over = self@;
            self.entries.pop();
            proof {
                assert(self@ =~= over.take(HISTORY_CAPACITY as int));
            }
        }
    }

    /// An ordered copy, most recent first. The store keeps ownership of its
    /// own entries.
    pub fn snapshot(&self) -> (r: Vec<ClipboardHistoryItem>)
        ensures
            r.deep_view() == self@,
    {
        let r = self.entries.clone();
        proof {
            assert forall|i: int| 0 <= i < self.entries@.len() implies r.deep_view()[i]
                == self.entries.deep_view()[i] by {
                assert(cloned::<ClipboardHistoryItem>(self.entries@[i], r@[i]));
            }
            assert(r.deep_view() =~= self@);
        }
        r
    }

    /// Empty the store unconditionally.
    pub fn clear(&mut self)
        ensures
            final(self)@ == Seq::<EntryView>::empty(),
            final(self).wf(),
    {
        self.entries.clear();
        proof {
            assert(self@ =~= Seq::<EntryView>::empty());
        }
    }
}

// ---------------------------------------------------------------------------
// Laws of the store
// ---------------------------------------------------------------------------

/// Appending an entry and then appending another with the same identity
/// leaves the store exactly as after the first append: repeats never grow
/// the history nor refresh recency.
pub proof fn lemma_duplicate_append_is_noop(s: Seq<EntryView>, e1: EntryView, e2: EntryView)
    requires
        is_dup(e1, e2),
        e1.content_type == e2.content_type,
    ensures
        append_result(append_result(s, e1), e2) == append_result(s, e1),
{
    let t = append_result(s, e1);
    if has_dup(s, e1) {
        let i = choose|i: int| 0 <= i < s.len() && is_dup(s[i], e1);
        assert(is_dup(s[i], e2));
        assert(has_dup(s, e2));
    } else {
        assert(t[0] == e1);
        assert(has_dup(t, e2));
    }
}

/// One append never grows the store beyond its capacity, and a
/// non-duplicate append always lands at the front.
pub proof fn lemma_append_bounds(s: Seq<EntryView>, e: EntryView)
    requires
        s.len() <= HISTORY_CAPACITY,
    ensures
        append_result(s, e).len() <= HISTORY_CAPACITY,
        !has_dup(s, e) ==> append_result(s, e)[0] == e,
        !has_dup(s, e) ==> append_result(s, e).len() == if s.len() < HISTORY_CAPACITY {
            s.len() + 1
        } else {
            HISTORY_CAPACITY as nat
        },
{
}

/// Folding a whole sequence of appends into an empty store, oldest first.
pub open spec fn append_all(entries: Seq<EntryView>) -> Seq<EntryView>
    decreases entries.len(),
{
    if entries.len() == 0 {
        Seq::empty()
    } else {
        append_result(append_all(entries.drop_last()), entries.last())
    }
}

/// The capacity law: appending pairwise distinct entries to an empty store
/// keeps the newest 50, most recent first — so the 51st append holds
/// entries 2..=51 and the 1st has been evicted.
pub proof fn lemma_append_all_distinct(entries: Seq<EntryView>)
    requires
        forall|i: int, j: int| 0 <= i < j < entries.len() ==> !is_dup(entries[i], entries[j]),
    ensures
        append_all(entries).len() == if entries.len() < HISTORY_CAPACITY {
            entries.len() as int
        } else {
            HISTORY_CAPACITY as int
        },
        forall|k: int|
            0 <= k < append_all(entries).len() ==> append_all(entries)[k] == entries[entries.len()
                - 1 - k],
    decreases entries.len(),
{
    if entries.len() == 0 {
    } else {
        let pre = entries.drop_last();
        let e = entries.last();
        assert forall|i: int, j: int| 0 <= i < j < pre.len() implies !is_dup(pre[i], pre[j]) by {
            assert(pre[i] == entries[i] && pre[j] == entries[j]);
        }
        lemma_append_all_distinct(pre);
        let acc = append_all(pre);
        assert forall|k: int| 0 <= k < acc.len() implies !is_dup(acc[k], e) by {
            assert(acc[k] == pre[pre.len() - 1 - k]);
            assert(pre[pre.len() - 1 - k] == entries[pre.len() - 1 - k]);
            assert(!is_dup(entries[pre.len() - 1 - k], entries[entries.len() - 1]));
        }
        assert(!has_dup(acc, e));
        assert forall|k: int|
            0 <= k < append_result(acc, e).len() implies append_result(acc, e)[k]
            == entries[entries.len() - 1 - k] by {
            if k == 0 {
                assert(append_result(acc, e)[0] == e);
            } else {
                assert(append_result(acc, e)[k] == acc[k - 1]);
                assert(acc[k - 1] == pre[pre.len() - 1 - (k - 1)]);
            }
        }
    }
}

} // verus!
