use vstd::prelude::*;

verus! {

/// True when no key occurs twice among the entries.
pub open spec fn keys_unique<T>(s: Seq<(u64, T)>) -> bool {
    forall|i: int, j: int|
        0 <= i < s.len() && 0 <= j < s.len() && i != j ==> #[trigger] s[i].0 != #[trigger] s[j].0
}

/// True when some entry carries key `k`.
pub open spec fn has_key<T>(s: Seq<(u64, T)>, k: u64) -> bool {
    exists|i: int| 0 <= i < s.len() && #[trigger] s[i].0 == k
}

/// The record stored under `k`, if any.
pub open spec fn lookup<T>(s: Seq<(u64, T)>, k: u64) -> Option<T> {
    if has_key(s, k) {
        Some(s[choose|i: int| 0 <= i < s.len() && #[trigger] s[i].0 == k].1)
    } else {
        None
    }
}

/// With unique keys, the entry at index `i` is what `lookup` finds for its key.
pub proof fn lemma_lookup_at<T>(s: Seq<(u64, T)>, i: int)
    requires
        keys_unique(s),
        0 <= i < s.len(),
    ensures
        lookup(s, s[i].0) == Some(s[i].1),
{
    assert(has_key(s, s[i].0));
    let j = choose|j: int| 0 <= j < s.len() && #[trigger] s[j].0 == s[i].0;
    assert(i == j);
}

/// An in-memory map from identifier to record.  Records are kept in the
/// order in which their keys were first inserted, and no record is ever
/// removed.
pub struct EntityStore<T> {
    entries: Vec<(u64, T)>,
}

impl<T> EntityStore<T> {
    /// The (key, record) pairs, in insertion order.
    pub closed spec fn view(&self) -> Seq<(u64, T)> {
        self.entries@
    }

    pub open spec fn wf(&self) -> bool {
        keys_unique(self@)
    }

    pub open spec fn spec_get(&self, k: u64) -> Option<T> {
        lookup(self@, k)
    }

    pub fn new() -> (r: Self)
        ensures
            r.wf(),
            r@ == Seq::<(u64, T)>::empty(),
    {
        EntityStore { entries: Vec::new() }
    }

    pub fn len(&self) -> (r: usize)
        ensures
            r == self@.len(),
    {
        self.entries.len()
    }

    /// The entry at position `i` of the scan order.
    pub fn entry_at(&self, i: usize) -> (r: (u64, &T))
        requires
            i < self@.len(),
        ensures
            r.0 == self@[i as int].0,
            *r.1 == self@[i as int].1,
    {
        let e = &self.entries[i];
        (e.0, &e.1)
    }

    /// Position of key `k` in the scan order, if it is stored.
    fn position(&self, k: u64) -> (r: Option<usize>)
        ensures
            match r {
                Some(i) => i < self@.len() && self@[i as int].0 == k,
                None => !has_key(self@, k),
            },
    {
        let mut i: usize = 0;
        while i < self.entries.len()
            invariant
                i <= self.entries@.len(),
                forall|j: int| 0 <= j < i ==> #[trigger] self.entries@[j].0 != k,
            decreases self.entries@.len() - i,
        {
            if self.entries[i].0 == k {
                return Some(i);
            }
            i = i + 1;
        }
        None
    }

    /// Point lookup.
    pub fn get(&self, k: u64) -> (r: Option<&T>)
        requires
            self.wf(),
        ensures
            match r {
                Some(v) => self.spec_get(k) == Some(*v),
                None => self.spec_get(k).is_none(),
            },
    {
        match self.position(k) {
            Some(i) => {
                proof {
                    lemma_lookup_at(self@, i as int);
                }
                Some(&self.entries[i].1)
            },
            None => None,
        }
    }

    /// Inserts or replaces the record under `k`; returns the record that was
    /// replaced, if one was.  A new key goes to the end of the scan order; a
    /// replaced record keeps its place.
    pub fn upsert(&mut self, k: u64, v: T) -> (r: Option<T>)
        requires
            old(self).wf(),
        ensures
            final(self).wf(),
            r == old(self).spec_get(k),
            final(self).spec_get(k) == Some(v),
            forall|j: u64| j != k ==> #[trigger] final(self).spec_get(j) == old(self).spec_get(j),
            match r {
                Some(_) => exists|i: int|
                    0 <= i < old(self)@.len() && old(self)@[i].0 == k && final(self)@ == old(
                        self,
                    )@.update(i, (k, v)),
                None => final(self)@ == old(self)@.push((k, v)),
            },
    {
        let ghost s0 = self@;
        match self.position(k) {
            Some(i) => {
                proof {
                    lemma_lookup_at(s0, i as int);
                }
                let (_, prev) = self.entries.remove(i);
                self.entries.insert(i, (k, v));
                let ghost s1 = self@;
                proof {
                    assert(s1 =~= s0.update(i as int, (k, v)));
                    assert(keys_unique(s1));
                    lemma_lookup_at(s1, i as int);
                    assert forall|j: u64| j != k implies #[trigger] lookup(s1, j) == lookup(s0, j) by {
                        if has_key(s0, j) {
                            let m = choose|m: int| 0 <= m < s0.len() && #[trigger] s0[m].0 == j;
                            lemma_lookup_at(s0, m);
                            assert(s1[m] == s0[m]);
                            lemma_lookup_at(s1, m);
                        } else {
                            if has_key(s1, j) {
                                let m = choose|m: int| 0 <= m < s1.len() && #[trigger] s1[m].0 == j;
                                assert(s0[m].0 == j);
                            }
                        }
                    }
                }
                Some(prev)
            },
            None => {
                self.entries.push((k, v));
                let ghost s1 = self@;
                proof {
                    assert(keys_unique(s1));
                    lemma_lookup_at(s1, s0.len() as int);
                    assert forall|j: u64| j != k implies #[trigger] lookup(s1, j) == lookup(s0, j) by {
                        if has_key(s0, j) {
                            let m = choose|m: int| 0 <= m < s0.len() && #[trigger] s0[m].0 == j;
                            lemma_lookup_at(s0, m);
                            assert(s1[m] == s0[m]);
                            lemma_lookup_at(s1, m);
                        } else {
                            if has_key(s1, j) {
                                let m = choose|m: int| 0 <= m < s1.len() && #[trigger] s1[m].0 == j;
                                assert(s0[m].0 == j);
                            }
                        }
                    }
                }
                None
            },
        }
    }
}

} // verus!
