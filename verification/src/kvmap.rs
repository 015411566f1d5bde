//! A small association map with insert-or-overwrite semantics.
//!
//! Both snapshots of a poll cycle are mappings with a handful of entries, so
//! they are held as a vector of key/value pairs with pairwise-distinct keys.
//! The view of such a map is the mathematical `Map` built by inserting the
//! entries in order, and every operation is specified against that view.

use vstd::prelude::*;

use crate::key::SectionKey;

verus! {

/// A key type that can decide equality in executable code, agreeing with
/// mathematical equality on the type.
pub trait EqKey: Sized + Copy {
    fn eq_key(&self, other: &Self) -> (r: bool)
        ensures
            r == (*self == *other),
    ;
}

impl EqKey for u64 {
    fn eq_key(&self, other: &Self) -> (r: bool) {
        *self == *other
    }
}

impl EqKey for SectionKey {
    fn eq_key(&self, other: &Self) -> (r: bool) {
        self.stream_id == other.stream_id && self.block_id == other.block_id && self.course_id
            == other.course_id
    }
}

/// The mapping denoted by a sequence of key/value entries, later entries
/// overriding earlier ones.
pub open spec fn entries_map<K, V>(s: Seq<(K, V)>) -> Map<K, V>
    decreases s.len(),
{
    if s.len() == 0 {
        Map::empty()
    } else {
        entries_map(s.drop_last()).insert(s.last().0, s.last().1)
    }
}

/// Whether some entry of `s` carries the key `k`.
pub open spec fn seq_has_key<K, V>(s: Seq<(K, V)>, k: K) -> bool {
    exists|i: int| 0 <= i < s.len() && (#[trigger] s[i]).0 == k
}

/// A key occurs in the denoted mapping exactly when some entry carries it.
pub proof fn lemma_entries_map_contains<K, V>(s: Seq<(K, V)>, k: K)
    ensures
        entries_map(s).dom().contains(k) <==> seq_has_key(s, k),
    decreases s.len(),
{
    if s.len() > 0 {
        lemma_entries_map_contains(s.drop_last(), k);
        if s.last().0 == k {
            assert(s[s.len() - 1].0 == k);
        } else if seq_has_key(s.drop_last(), k) {
            let i = choose|i: int| 0 <= i < s.drop_last().len() && (#[trigger] s.drop_last()[i]).0
                == k;
            assert(s[i].0 == k);
        } else if seq_has_key(s, k) {
            let i = choose|i: int| 0 <= i < s.len() && (#[trigger] s[i]).0 == k;
            assert(s.drop_last()[i].0 == k);
        }
    }
}

/// Pairwise-distinct keys.
pub open spec fn distinct_keys<K, V>(s: Seq<(K, V)>) -> bool {
    forall|i: int, j: int|
        0 <= i < j < s.len() ==> (#[trigger] s[i]).0 != (#[trigger] s[j]).0
}

/// Under distinct keys, each entry gives the value the denoted mapping takes.
pub proof fn lemma_entries_map_index<K, V>(s: Seq<(K, V)>, i: int)
    requires
        distinct_keys(s),
        0 <= i < s.len(),
    ensures
        entries_map(s).dom().contains(s[i].0),
        entries_map(s)[s[i].0] == s[i].1,
    decreases s.len(),
{
    if i < s.len() - 1 {
        assert(distinct_keys(s.drop_last()));
        lemma_entries_map_index(s.drop_last(), i);
        assert(s.drop_last()[i] == s[i]);
        assert(s[i].0 != s.last().0);
    }
}

/// Under distinct keys, the denoted mapping has exactly one key per entry.
pub proof fn lemma_entries_map_len<K, V>(s: Seq<(K, V)>)
    requires
        distinct_keys(s),
    ensures
        entries_map(s).dom().finite(),
        entries_map(s).dom().len() == s.len(),
    decreases s.len(),
{
    if s.len() > 0 {
        assert(distinct_keys(s.drop_last()));
        lemma_entries_map_len(s.drop_last());
        lemma_entries_map_contains(s.drop_last(), s.last().0);
        assert(!seq_has_key(s.drop_last(), s.last().0)) by {
            if seq_has_key(s.drop_last(), s.last().0) {
                let i = choose|i: int|
                    0 <= i < s.drop_last().len() && (#[trigger] s.drop_last()[i]).0 == s.last().0;
                assert(s[i].0 == s[s.len() - 1].0);
            }
        }
    }
}

/// An association map whose view is a `Map<K, V>`.
#[derive(Debug, PartialEq, Eq, Clone)]
pub struct KvMap<K, V> {
    pub entries: Vec<(K, V)>,
}

impl<K, V> View for KvMap<K, V> {
    type V = Map<K, V>;

    open spec fn view(&self) -> Map<K, V> {
        entries_map(self.entries@)
    }
}

impl<K: EqKey, V> KvMap<K, V> {
    /// No two entries carry the same key.
    pub open spec fn wf(&self) -> bool {
        distinct_keys(self.entries@)
    }

    pub fn new() -> (r: KvMap<K, V>)
        ensures
            r.wf(),
            r@ == Map::<K, V>::empty(),
            r.entries@.len() == 0,
    {
        KvMap { entries: Vec::new() }
    }

    pub fn len(&self) -> (r: usize)
        requires
            self.wf(),
        ensures
            r == self.entries@.len(),
            r == self@.dom().len(),
            self@.dom().finite(),
    {
        proof {
            lemma_entries_map_len(self.entries@);
        }
        self.entries.len()
    }

    /// The value stored under `k`, if any.
    pub fn get(&self, k: &K) -> (r: Option<&V>)
        requires
            self.wf(),
        ensures
            match r {
                Some(v) => self@.dom().contains(*k) && self@[*k] == *v,
                None => !self@.dom().contains(*k),
            },
    {
        let len: usize = self.entries.len();
        let mut i: usize = 0;
        while i < len
            invariant
                self.wf(),
                len == self.entries@.len(),
                i <= len,
                forall|j: int| 0 <= j < i ==> (#[trigger] self.entries@[j]).0 != *k,
            decreases len - i,
        {
            if self.entries[i].0.eq_key(k) {
                proof {
                    lemma_entries_map_index(self.entries@, i as int);
                }
                return Some(&self.entries[i].1);
            }
            i += 1;
        }
        proof {
            lemma_entries_map_contains(self.entries@, *k);
        }
        None
    }

    /// Stores `v` under `k`, replacing any value the key held before.
    pub fn insert(&mut self, k: K, v: V)
        requires
            old(self).wf(),
        ensures
            final(self).wf(),
            final(self)@ == old(self)@.insert(k, v),
            final(self).entries@.len() <= old(self).entries@.len() + 1,
    {
        let len: usize = self.entries.len();
        let mut i: usize = 0;
        while i < len
            invariant
                self == old(self),
                self.wf(),
                len == self.entries@.len(),
                i <= len,
                forall|j: int| 0 <= j < i ==> (#[trigger] self.entries@[j]).0 != k,
            decreases len - i,
        {
            if self.entries[i].0.eq_key(&k) {
                proof {
                    lemma_entries_map_overwrite(self.entries@, i as int, v);
                }
                self.entries[i] = (k, v);
                return ;
            }
            i += 1;
        }
        proof {
            lemma_entries_map_contains(self.entries@, k);
            assert(self.entries@.push((k, v)).drop_last() =~= self.entries@);
        }
        self.entries.push((k, v));
        proof {
            let pushed = old(self).entries@.push((k, v));
            assert forall|a: int, b: int| 0 <= a < b < pushed.len() implies (#[trigger] pushed[a]).0
                != (#[trigger] pushed[b]).0 by {
                if b < pushed.len() - 1 {
                    assert(old(self).entries@[a] == pushed[a]);
                    assert(old(self).entries@[b] == pushed[b]);
                } else {
                    assert(old(self).entries@[a] == pushed[a]);
                }
            }
        }
    }
}

/// Overwriting the entry that carries `k` denotes `insert(k, v)` on the map.
proof fn lemma_entries_map_overwrite<K, V>(s: Seq<(K, V)>, i: int, v: V)
    requires
        distinct_keys(s),
        0 <= i < s.len(),
    ensures
        distinct_keys(s.update(i, (s[i].0, v))),
        entries_map(s.update(i, (s[i].0, v))) == entries_map(s).insert(s[i].0, v),
    decreases s.len(),
{
    let k = s[i].0;
    let t = s.update(i, (k, v));
    assert(distinct_keys(t)) by {
        assert forall|a: int, b: int| 0 <= a < b < t.len() implies (#[trigger] t[a]).0 != (
        #[trigger] t[b]).0 by {
            assert(t[a].0 == s[a].0);
            assert(t[b].0 == s[b].0);
        }
    }
    if i == s.len() - 1 {
        assert(t.drop_last() =~= s.drop_last());
        assert(entries_map(t) == entries_map(s.drop_last()).insert(k, v));
        assert(entries_map(s).insert(k, v) =~= entries_map(s.drop_last()).insert(k, v));
    } else {
        assert(distinct_keys(s.drop_last()));
        lemma_entries_map_overwrite(s.drop_last(), i, v);
        assert(t.drop_last() =~= s.drop_last().update(i, (k, v)));
        assert(t.last() == s.last());
        assert(entries_map(t) == entries_map(s.drop_last()).insert(k, v).insert(
            s.last().0,
            s.last().1,
        ));
        assert(k != s.last().0) by {
            assert(s[i].0 != s[s.len() - 1].0);
        }
        assert(entries_map(s.drop_last()).insert(k, v).insert(s.last().0, s.last().1)
            =~= entries_map(s.drop_last()).insert(s.last().0, s.last().1).insert(k, v));
    }
}

} // verus!
