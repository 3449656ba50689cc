//! A small map keyed by logical inputs.

use vstd::prelude::*;
use crate::keys::LogicalInput;

verus! {

/// A map from logical inputs to values, kept as a list of entries whose
/// inputs are pairwise distinct.
#[verifier::reject_recursive_types(K)]
pub struct InputMap<K, V> {
    entries: Vec<(K, V)>,
    contents: Ghost<Map<K, V>>,
}

impl<K: LogicalInput, V> InputMap<K, V> {
    /// What the map holds.
    pub closed spec fn view(&self) -> Map<K, V> {
        self.contents@
    }

    /// The entries hold distinct inputs, and hold exactly what the map holds.
    pub closed spec fn wf(&self) -> bool {
        &&& forall|i: int, j: int|
            0 <= i < j < self.entries.len() ==> #[trigger] self.entries[i].0
                != #[trigger] self.entries[j].0
        &&& forall|i: int|
            0 <= i < self.entries.len() ==> self.contents@.contains_key(
                #[trigger] self.entries[i].0,
            ) && self.contents@[self.entries[i].0] == self.entries[i].1
        &&& forall|k: K|
            #[trigger] self.contents@.contains_key(k) ==> exists|i: int|
                0 <= i < self.entries.len() && #[trigger] self.entries[i].0 == k
    }

    /// An empty map.
    pub fn new() -> (r: Self)
        ensures
            r.wf(),
            r@ == Map::<K, V>::empty(),
    {
        InputMap { entries: Vec::new(), contents: Ghost(Map::empty()) }
    }

    fn find(&self, k: &K) -> (r: Option<usize>)
        requires
            self.wf(),
        ensures
            match r {
                Some(i) => i < self.entries.len() && self.entries[i as int].0 == *k,
                None => !self@.contains_key(*k),
            },
    {
        let mut i: usize = 0;
        while i < self.entries.len()
            invariant
                i <= self.entries.len(),
                forall|j: int| 0 <= j < i ==> self.entries[j].0 != *k,
            decreases self.entries.len() - i,
        {
            if self.entries[i].0.same(k) {
                return Some(i);
            }
            i += 1;
        }
        None
    }

    /// The value held for `k`, if any.
    pub fn get(&self, k: &K) -> (r: Option<&V>)
        requires
            self.wf(),
        ensures
            match r {
                Some(v) => self@.contains_key(*k) && self@[*k] == *v,
                None => !self@.contains_key(*k),
            },
    {
        match self.find(k) {
            Some(i) => Some(&self.entries[i].1),
            None => None,
        }
    }

    /// Whether the map holds a value for `k`.
    pub fn contains(&self, k: &K) -> (r: bool)
        requires
            self.wf(),
        ensures
            r == self@.contains_key(*k),
    {
        self.find(k).is_some()
    }

    /// Whether the map holds nothing.
    pub fn is_empty(&self) -> (r: bool)
        requires
            self.wf(),
        ensures
            r == (self@ == Map::<K, V>::empty()),
    {
        if self.entries.len() == 0 {
            assert(self@ =~= Map::<K, V>::empty());
            true
        } else {
            assert(self@.contains_key(self.entries[0].0));
            false
        }
    }

    /// Holds `v` for `k`, in place of what was held for it before.
    pub fn insert(&mut self, k: K, v: V)
        requires
            old(self).wf(),
        ensures
            final(self).wf(),
            final(self)@ == old(self)@.insert(k, v),
    {
        let ghost new_contents = self.contents@.insert(k, v);
        match self.find(&k) {
            Some(i) => {
                self.entries[i] = (k, v);
                self.contents = Ghost(new_contents);
                assert forall|k2: K| #[trigger] self.contents@.contains_key(k2) implies exists|
                    j: int,
                | 0 <= j < self.entries.len() && #[trigger] self.entries[j].0 == k2 by {
                    if k2 == k {
                        assert(self.entries[i as int].0 == k2);
                    } else {
                        assert(old(self).contents@.contains_key(k2));
                        let j = choose|j: int|
                            0 <= j < old(self).entries.len() && #[trigger] old(self).entries[j].0
                                == k2;
                        assert(self.entries[j].0 == k2);
                    }
                }
            },
            None => {
                self.entries.push((k, v));
                self.contents = Ghost(new_contents);
                assert forall|k2: K| #[trigger] self.contents@.contains_key(k2) implies exists|
                    j: int,
                | 0 <= j < self.entries.len() && #[trigger] self.entries[j].0 == k2 by {
                    if k2 == k {
                        assert(self.entries[self.entries.len() - 1].0 == k2);
                    } else {
                        assert(old(self).contents@.contains_key(k2));
                        let j = choose|j: int|
                            0 <= j < old(self).entries.len() && #[trigger] old(self).entries[j].0
                                == k2;
                        assert(self.entries[j].0 == k2);
                    }
                }
            },
        }
    }

    /// Drops what is held for `k`, if anything.
    pub fn remove(&mut self, k: &K)
        requires
            old(self).wf(),
        ensures
            final(self).wf(),
            final(self)@ == old(self)@.remove(*k),
    {
        match self.find(k) {
            Some(i) => {
                let _ = self.entries.remove(i);
                self.contents = Ghost(self.contents@.remove(*k));
                assert forall|a: int, b: int|
                    0 <= a < b < self.entries.len() implies #[trigger] self.entries[a].0
                    != #[trigger] self.entries[b].0 by {
                    let oa = if a < i {
                        a
                    } else {
                        a + 1
                    };
                    let ob = if b < i {
                        b
                    } else {
                        b + 1
                    };
                    assert(self.entries[a] == old(self).entries[oa]);
                    assert(self.entries[b] == old(self).entries[ob]);
                }
                assert forall|a: int| 0 <= a < self.entries.len() implies self.contents@.contains_key(
                    #[trigger] self.entries[a].0,
                ) && self.contents@[self.entries[a].0] == self.entries[a].1 by {
                    let oa = if a < i {
                        a
                    } else {
                        a + 1
                    };
                    assert(self.entries[a] == old(self).entries[oa]);
                    assert(oa != i);
                }
                assert forall|k2: K| #[trigger] self.contents@.contains_key(k2) implies exists|
                    j: int,
                | 0 <= j < self.entries.len() && #[trigger] self.entries[j].0 == k2 by {
                    assert(old(self).contents@.contains_key(k2));
                    let j = choose|j: int|
                        0 <= j < old(self).entries.len() && #[trigger] old(self).entries[j].0
                            == k2;
                    assert(j != i);
                    if j < i {
                        assert(self.entries[j].0 == k2);
                    } else {
                        assert(self.entries[j - 1].0 == k2);
                    }
                }
            },
            None => {
                assert(self.contents@.remove(*k) =~= self.contents@);
            },
        }
    }
}

} // verus!
