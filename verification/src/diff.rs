//! The diff engine: which sections became available between two snapshots.

use vstd::prelude::*;

use crate::key::SectionKey;
use crate::kvmap::{distinct_keys, entries_map, lemma_entries_map_contains, lemma_entries_map_index,
    seq_has_key};
use crate::snapshot::SeatSnapshot;

verus! {

/// One qualifying transition: the section `key` moved from `previous` free
/// seats (`None` when the previous snapshot did not report it) to `current`
/// free seats.
#[derive(PartialEq, Eq, Clone, Copy, Debug)]
pub struct Transition {
    pub key: SectionKey,
    pub previous: Option<u64>,
    pub current: u64,
}

/// The transition rule: a section qualifies for notification exactly when
/// the previous snapshot reported it with zero free seats or not at all, and
/// the current count is nonzero.
pub open spec fn qualifies(prev: Map<SectionKey, u64>, key: SectionKey, current: u64) -> bool {
    current != 0 && (!prev.dom().contains(key) || prev[key] == 0)
}

/// What a qualifying transition reports as the previous count.
pub open spec fn previous_of(prev: Map<SectionKey, u64>, key: SectionKey) -> Option<u64> {
    if prev.dom().contains(key) {
        Some(prev[key])
    } else {
        None
    }
}

/// The transitions the diff reports: the current snapshot's entries, in
/// order, filtered by the transition rule.
pub open spec fn spec_diff(prev: Map<SectionKey, u64>, entries: Seq<(SectionKey, u64)>) -> Seq<
    Transition,
>
    decreases entries.len(),
{
    if entries.len() == 0 {
        Seq::empty()
    } else {
        let rest = spec_diff(prev, entries.drop_last());
        let e = entries.last();
        if qualifies(prev, e.0, e.1) {
            rest.push(
                Transition { key: e.0, previous: previous_of(prev, e.0), current: e.1 },
            )
        } else {
            rest
        }
    }
}

/// Whether some reported transition concerns the key `k`.
pub open spec fn diff_has_key(d: Seq<Transition>, k: SectionKey) -> bool {
    exists|i: int| 0 <= i < d.len() && (#[trigger] d[i]).key == k
}

/// Compares the current seat snapshot against the previous one and returns
/// one transition per section that became available, in the order the
/// current snapshot stores its entries.
pub fn diff(prev: &SeatSnapshot, curr: &SeatSnapshot) -> (out: Vec<Transition>)
    requires
        prev.wf(),
        curr.wf(),
    ensures
        out@ == spec_diff(prev@, curr.entries@),
{
    let mut out: Vec<Transition> = Vec::new();
    let len: usize = curr.entries.len();
    let mut i: usize = 0;
    proof {
        assert(curr.entries@.take(0) =~= Seq::<(SectionKey, u64)>::empty());
    }
    while i < len
        invariant
            prev.wf(),
            curr.wf(),
            len == curr.entries@.len(),
            i <= len,
            out@ == spec_diff(prev@, curr.entries@.take(i as int)),
        decreases len - i,
    {
        let key = curr.entries[i].0;
        let current = curr.entries[i].1;
        proof {
            assert(curr.entries@.take(i + 1).drop_last() =~= curr.entries@.take(i as int));
            assert(curr.entries@.take(i + 1).last() == curr.entries@[i as int]);
        }
        match prev.get(&key) {
            Some(stored) => {
                let stored = *stored;
                if stored == 0 && current != 0 {
                    out.push(Transition { key, previous: Some(stored), current });
                }
            },
            None => {
                if current != 0 {
                    out.push(Transition { key, previous: None, current });
                }
            },
        }
        i += 1;
    }
    proof {
        assert(curr.entries@.take(len as int) =~= curr.entries@);
    }
    out
}

/// The diff reports a transition exactly for what the transition rule
/// selects: `t` is reported iff the current snapshot stores `t.current`
/// under `t.key`, that count is nonzero, the previous snapshot stored zero
/// under `t.key` or nothing, and `t.previous` is that stored count or `None`.
pub proof fn lemma_diff_membership(
    prev: Map<SectionKey, u64>,
    entries: Seq<(SectionKey, u64)>,
    t: Transition,
)
    requires
        distinct_keys(entries),
    ensures
        spec_diff(prev, entries).contains(t) <==> {
            let curr = entries_map(entries);
            &&& curr.dom().contains(t.key)
            &&& curr[t.key] == t.current
            &&& qualifies(prev, t.key, t.current)
            &&& t.previous == previous_of(prev, t.key)
        },
    decreases entries.len(),
{
    let d = spec_diff(prev, entries);
    let curr = entries_map(entries);
    if entries.len() > 0 {
        let head = entries.drop_last();
        let e = entries.last();
        assert(distinct_keys(head));
        lemma_diff_membership(prev, head, t);
        lemma_entries_map_contains(head, t.key);
        let rest = spec_diff(prev, head);
        if qualifies(prev, e.0, e.1) {
            let last_t = Transition { key: e.0, previous: previous_of(prev, e.0), current: e.1 };
            assert(d == rest.push(last_t));
            assert(d.contains(t) <==> (rest.contains(t) || t == last_t)) by {
                if d.contains(t) {
                    let i = choose|i: int| 0 <= i < d.len() && d[i] == t;
                    if i < rest.len() {
                        assert(rest[i] == t);
                    }
                } else {
                    if rest.contains(t) {
                        let i = choose|i: int| 0 <= i < rest.len() && rest[i] == t;
                        assert(d[i] == t);
                    }
                    assert(d[d.len() - 1] == last_t);
                }
            }
            if t.key == e.0 {
                // An earlier entry cannot carry the last entry's key.
                assert(!seq_has_key(head, e.0)) by {
                    if seq_has_key(head, e.0) {
                        let j = choose|j: int|
                            0 <= j < head.len() && (#[trigger] head[j]).0 == e.0;
                        assert(entries[j].0 == entries[entries.len() - 1].0);
                    }
                }
                assert(!rest.contains(t));
            }
        } else {
            assert(d == rest);
            if t.key == e.0 {
                assert(!seq_has_key(head, e.0)) by {
                    if seq_has_key(head, e.0) {
                        let j = choose|j: int|
                            0 <= j < head.len() && (#[trigger] head[j]).0 == e.0;
                        assert(entries[j].0 == entries[entries.len() - 1].0);
                    }
                }
            }
        }
    }
}

/// A key is reported at all exactly when the transition rule selects it:
/// present in the current snapshot with a nonzero count, and previously
/// stored as zero or absent.
pub proof fn lemma_diff_key_membership(
    prev: Map<SectionKey, u64>,
    entries: Seq<(SectionKey, u64)>,
    k: SectionKey,
)
    requires
        distinct_keys(entries),
    ensures
        diff_has_key(spec_diff(prev, entries), k) <==> {
            let curr = entries_map(entries);
            &&& curr.dom().contains(k)
            &&& curr[k] != 0
            &&& (!prev.dom().contains(k) || prev[k] == 0)
        },
{
    let d = spec_diff(prev, entries);
    let curr = entries_map(entries);
    if diff_has_key(d, k) {
        let i = choose|i: int| 0 <= i < d.len() && (#[trigger] d[i]).key == k;
        assert(d.contains(d[i]));
        lemma_diff_membership(prev, entries, d[i]);
    }
    if curr.dom().contains(k) && curr[k] != 0 && (!prev.dom().contains(k) || prev[k] == 0) {
        let t = Transition { key: k, previous: previous_of(prev, k), current: curr[k] };
        lemma_diff_membership(prev, entries, t);
        let i = choose|i: int| 0 <= i < d.len() && d[i] == t;
        assert(0 <= i < d.len() && d[i].key == k);
    }
}

/// The diff never reports more transitions than the current snapshot has
/// entries.
pub proof fn lemma_diff_len(prev: Map<SectionKey, u64>, entries: Seq<(SectionKey, u64)>)
    ensures
        spec_diff(prev, entries).len() <= entries.len(),
    decreases entries.len(),
{
    if entries.len() > 0 {
        lemma_diff_len(prev, entries.drop_last());
    }
}

/// The diff never reports more transitions than the current snapshot has
/// sections.
pub proof fn lemma_diff_len_bound(prev: Map<SectionKey, u64>, curr: SeatSnapshot)
    requires
        curr.wf(),
    ensures
        curr@.dom().finite(),
        spec_diff(prev, curr.entries@).len() <= curr@.dom().len(),
{
    lemma_diff_len(prev, curr.entries@);
    crate::kvmap::lemma_entries_map_len(curr.entries@);
}

/// The diff reports each section at most once.
pub proof fn lemma_diff_keys_distinct(prev: Map<SectionKey, u64>, entries: Seq<(SectionKey, u64)>)
    requires
        distinct_keys(entries),
    ensures
        forall|i: int, j: int|
            0 <= i < j < spec_diff(prev, entries).len() ==> (#[trigger] spec_diff(
                prev,
                entries,
            )[i]).key != (#[trigger] spec_diff(prev, entries)[j]).key,
    decreases entries.len(),
{
    let d = spec_diff(prev, entries);
    if entries.len() > 0 {
        let head = entries.drop_last();
        let e = entries.last();
        assert(distinct_keys(head));
        lemma_diff_keys_distinct(prev, head);
        let rest = spec_diff(prev, head);
        if qualifies(prev, e.0, e.1) {
            assert forall|i: int, j: int| 0 <= i < j < d.len() implies (#[trigger] d[i]).key != (
            #[trigger] d[j]).key by {
                if j == d.len() - 1 {
                    assert(rest.contains(rest[i]));
                    lemma_diff_membership(prev, head, rest[i]);
                    lemma_entries_map_contains(head, rest[i].key);
                    let l = choose|l: int| 0 <= l < head.len() && (#[trigger] head[l]).0
                        == rest[i].key;
                    assert(entries[l].0 == rest[i].key);
                    assert(entries[l].0 != entries[entries.len() - 1].0);
                } else {
                    assert(d[i] == rest[i] && d[j] == rest[j]);
                }
            }
        }
    }
}

/// The diff is a pure function of the two mappings' contents: two current
/// snapshots that store the same entries in any order are reported with the
/// same set of transitions.
pub proof fn lemma_diff_order_independent(
    prev: Map<SectionKey, u64>,
    entries1: Seq<(SectionKey, u64)>,
    entries2: Seq<(SectionKey, u64)>,
)
    requires
        distinct_keys(entries1),
        distinct_keys(entries2),
        entries_map(entries1) == entries_map(entries2),
    ensures
        forall|t: Transition|
            spec_diff(prev, entries1).contains(t) <==> spec_diff(prev, entries2).contains(t),
{
    assert forall|t: Transition|
        spec_diff(prev, entries1).contains(t) <==> spec_diff(prev, entries2).contains(t) by {
        lemma_diff_membership(prev, entries1, t);
        lemma_diff_membership(prev, entries2, t);
    }
}

/// Comparing a snapshot against itself reports nothing.
pub proof fn lemma_diff_idempotent(entries: Seq<(SectionKey, u64)>)
    requires
        distinct_keys(entries),
    ensures
        spec_diff(entries_map(entries), entries) == Seq::<Transition>::empty(),
{
    let m = entries_map(entries);
    let d = spec_diff(m, entries);
    if d.len() > 0 {
        assert(d.contains(d[0]));
        lemma_diff_membership(m, entries, d[0]);
    }
    assert(d =~= Seq::<Transition>::empty());
}

} // verus!
