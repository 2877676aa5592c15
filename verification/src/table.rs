//! A finite map from keys to `u64` amounts, as the contract keeps them in
//! storage (stakes, nonces, leases, heartbeat timestamps).

use vstd::prelude::*;

use crate::types::{Address, Symbol};

verus! {

/// Keys that can be compared for equality of their views.
pub trait TableKey: View + Sized {
    fn same_key(&self, other: &Self) -> (r: bool)
        ensures
            r == (self@ == other@),
    ;
}

impl TableKey for Address {
    fn same_key(&self, other: &Self) -> (r: bool) {
        *self == *other
    }
}

impl TableKey for Symbol {
    fn same_key(&self, other: &Self) -> (r: bool) {
        self.same_symbol(other)
    }
}

/// A map from keys to amounts, held as a list of entries with distinct keys.
pub struct Table<K: TableKey> {
    entries: Vec<(K, u64)>,
}

impl<K: TableKey> Table<K> {
    #[verifier::type_invariant]
    closed spec fn keys_distinct(self) -> bool {
        forall|i: int, j: int|
            0 <= i < self.entries@.len() && 0 <= j < self.entries@.len() && i != j
                ==> #[trigger] self.entries@[i].0@ != #[trigger] self.entries@[j].0@
    }

    /// Some entry holds key `k`.
    closed spec fn holds(self, k: K::V) -> bool {
        exists|i: int| 0 <= i < self.entries@.len() && #[trigger] self.entries@[i].0@ == k
    }

    /// The position of the entry that holds key `k`.
    closed spec fn slot(self, k: K::V) -> int {
        choose|i: int| 0 <= i < self.entries@.len() && #[trigger] self.entries@[i].0@ == k
    }

    /// The keys of the entries, in order.
    closed spec fn key_seq(self) -> Seq<K::V> {
        self.entries@.map_values(|e: (K, u64)| e.0@)
    }

    proof fn lemma_slot(self, i: int)
        requires
            self.keys_distinct(),
            0 <= i < self.entries@.len(),
        ensures
            self.holds(self.entries@[i].0@),
            self.slot(self.entries@[i].0@) == i,
            self@.contains_key(self.entries@[i].0@),
            self@[self.entries@[i].0@] == self.entries@[i].1,
    {
        let k = self.entries@[i].0@;
        assert(self.holds(k));
        let j = self.slot(k);
        assert(self.entries@[j].0@ == k);
    }

    /// The keys of a table form a finite set.
    pub proof fn lemma_finite(self)
        ensures
            self@.dom().finite(),
    {
        assert(self@.dom() =~= self.key_seq().to_set()) by {
            assert forall|k: K::V| self@.dom().contains(k) implies self.key_seq().to_set().contains(
                k,
            ) by {
                let i = self.slot(k);
                assert(self.key_seq()[i] == k);
            }
            assert forall|k: K::V| self.key_seq().to_set().contains(k) implies self@.dom().contains(
                k,
            ) by {
                let i = choose|i: int| 0 <= i < self.key_seq().len() && self.key_seq()[i] == k;
                assert(self.entries@[i].0@ == k);
            }
        }
        vstd::seq_lib::seq_to_set_is_finite(self.key_seq());
    }

    /// An empty table.
    pub fn new() -> (t: Self)
        ensures
            t@ == Map::<K::V, u64>::empty(),
    {
        let t = Table { entries: Vec::new() };
        assert(t@ =~= Map::<K::V, u64>::empty());
        t
    }

    /// The position of the entry holding `key`, if any.
    fn find(&self, key: &K) -> (r: Option<usize>)
        ensures
            match r {
                Some(i) => i < self.entries@.len() && self.entries@[i as int].0@ == key@,
                None => !self@.contains_key(key@),
            },
    {
        let n = self.entries.len();
        let mut i: usize = 0;
        while i < n
            invariant
                n == self.entries@.len(),
                i <= n,
                forall|j: int| 0 <= j < i ==> self.entries@[j].0@ != key@,
            decreases n - i,
        {
            if self.entries[i].0.same_key(key) {
                return Some(i);
            }
            i = i + 1;
        }
        None
    }

    /// The amount stored under `key`, if any.
    pub fn get(&self, key: &K) -> (r: Option<u64>)
        ensures
            r == self@.get(key@),
    {
        proof {
            use_type_invariant(self);
        }
        match self.find(key) {
            Some(i) => {
                proof {
                    self.lemma_slot(i as int);
                }
                Some(self.entries[i].1)
            },
            None => None,
        }
    }

    /// Whether some amount is stored under `key`.
    pub fn contains_key(&self, key: &K) -> (r: bool)
        ensures
            r == self@.contains_key(key@),
    {
        proof {
            use_type_invariant(self);
        }
        match self.find(key) {
            Some(i) => {
                proof {
                    self.lemma_slot(i as int);
                }
                true
            },
            None => false,
        }
    }

    /// Stores `value` under `key`, replacing any amount stored there.
    pub fn set(&mut self, key: K, value: u64)
        ensures
            final(self)@ == old(self)@.insert(key@, value),
    {
        proof {
            use_type_invariant(&*self);
        }
        let ghost pre = *self;
        let ghost k = key@;
        match self.find(&key) {
            Some(i) => {
                let mut entries = Vec::new();
                std::mem::swap(&mut entries, &mut self.entries);
                entries.set(i, (key, value));
                proof {
                    assert forall|a: int, b: int|
                        0 <= a < entries@.len() && 0 <= b < entries@.len() && a != b implies #[trigger] entries@[a].0@
                        != #[trigger] entries@[b].0@ by {
                        if a != i && b != i {
                            assert(pre.entries@[a].0@ != pre.entries@[b].0@);
                        } else if a == i {
                            assert(pre.entries@[i as int].0@ != pre.entries@[b].0@);
                        } else {
                            assert(pre.entries@[a].0@ != pre.entries@[i as int].0@);
                        }
                    }
                }
                self.entries = entries;
                proof {
                    let post = *self;
                    assert(post@ =~= pre@.insert(k, value)) by {
                        assert forall|q: K::V| #[trigger] post@.contains_key(q) == pre@.insert(
                            k,
                            value,
                        ).contains_key(q) by {
                            if post.holds(q) {
                                let a = post.slot(q);
                                if a != i {
                                    assert(pre.entries@[a].0@ == q);
                                }
                            }
                            if pre.holds(q) {
                                let a = pre.slot(q);
                                if a != i {
                                    assert(post.entries@[a].0@ == q);
                                } else {
                                    assert(post.entries@[i as int].0@ == q);
                                }
                            }
                            if q == k {
                                assert(post.entries@[i as int].0@ == q);
                            }
                        }
                        assert forall|q: K::V| #[trigger] post@.contains_key(q) implies post@[q]
                            == pre@.insert(k, value)[q] by {
                            let a = post.slot(q);
                            post.lemma_slot(a);
                            if q != k {
                                assert(a != i);
                                assert(pre.entries@[a] == post.entries@[a]);
                                pre.lemma_slot(a);
                            } else {
                                post.lemma_slot(i as int);
                            }
                        }
                    }
                }
            },
            None => {
                let mut entries = Vec::new();
                std::mem::swap(&mut entries, &mut self.entries);
                entries.push((key, value));
                proof {
                    let n = pre.entries@.len() as int;
                    assert forall|a: int| 0 <= a < n implies pre.entries@[a].0@ != k by {
                        pre.lemma_slot(a);
                    }
                    assert forall|a: int, b: int|
                        0 <= a < entries@.len() && 0 <= b < entries@.len() && a != b implies #[trigger] entries@[a].0@
                        != #[trigger] entries@[b].0@ by {
                        if a < n && b < n {
                            assert(pre.entries@[a].0@ != pre.entries@[b].0@);
                        }
                    }
                }
                self.entries = entries;
                proof {
                    let post = *self;
                    let n = pre.entries@.len() as int;
                    assert(post@ =~= pre@.insert(k, value)) by {
                        assert forall|q: K::V| #[trigger] post@.contains_key(q) == pre@.insert(
                            k,
                            value,
                        ).contains_key(q) by {
                            if post.holds(q) {
                                let a = post.slot(q);
                                if a < n {
                                    assert(pre.entries@[a].0@ == q);
                                }
                            }
                            if pre.holds(q) {
                                let a = pre.slot(q);
                                assert(post.entries@[a].0@ == q);
                            }
                            if q == k {
                                assert(post.entries@[n].0@ == q);
                            }
                        }
                        assert forall|q: K::V| #[trigger] post@.contains_key(q) implies post@[q]
                            == pre@.insert(k, value)[q] by {
                            let a = post.slot(q);
                            post.lemma_slot(a);
                            if q != k {
                                assert(a < n);
                                pre.lemma_slot(a);
                            } else {
                                post.lemma_slot(n);
                            }
                        }
                    }
                }
            },
        }
    }

    /// Removes any amount stored under `key`.
    pub fn remove(&mut self, key: &K)
        ensures
            final(self)@ == old(self)@.remove(key@),
    {
        proof {
            use_type_invariant(&*self);
        }
        let ghost pre = *self;
        let ghost k = key@;
        match self.find(key) {
            Some(i) => {
                let mut entries = Vec::new();
                std::mem::swap(&mut entries, &mut self.entries);
                entries.remove(i);
                proof {
                    let ii = i as int;
                    // the entry at position `a` came from position `a` or `a + 1`
                    assert forall|a: int| 0 <= a < entries@.len() implies #[trigger] entries@[a]
                        == pre.entries@[if a < ii { a } else { a + 1 }] by {}
                    assert forall|a: int, b: int|
                        0 <= a < entries@.len() && 0 <= b < entries@.len() && a != b implies #[trigger] entries@[a].0@
                        != #[trigger] entries@[b].0@ by {
                        let pa = if a < ii { a } else { a + 1 };
                        let pb = if b < ii { b } else { b + 1 };
                        assert(pre.entries@[pa].0@ != pre.entries@[pb].0@);
                    }
                }
                self.entries = entries;
                proof {
                    let post = *self;
                    let ii = i as int;
                    assert(post@ =~= pre@.remove(k)) by {
                        assert forall|q: K::V| #[trigger] post@.contains_key(q) == pre@.remove(
                            k,
                        ).contains_key(q) by {
                            if post.holds(q) {
                                let a = post.slot(q);
                                let pa = if a < ii { a } else { a + 1 };
                                assert(pre.entries@[pa].0@ == q);
                                assert(pa != ii);
                            }
                            if pre.holds(q) && q != k {
                                let a = pre.slot(q);
                                assert(a != ii);
                                let qa = if a < ii { a } else { a - 1 };
                                assert(post.entries@[qa].0@ == q);
                            }
                        }
                        assert forall|q: K::V| #[trigger] post@.contains_key(q) implies post@[q]
                            == pre@.remove(k)[q] by {
                            let a = post.slot(q);
                            post.lemma_slot(a);
                            let pa = if a < ii { a } else { a + 1 };
                            pre.lemma_slot(pa);
                        }
                    }
                }
            },
            None => {
                proof {
                    assert(pre@ =~= pre@.remove(k));
                }
            },
        }
    }

    /// The number of entries.
    pub fn len(&self) -> (n: usize)
        ensures
            n == self@.len(),
    {
        proof {
            use_type_invariant(self);
            self.lemma_len();
        }
        self.entries.len()
    }

    proof fn lemma_len(self)
        requires
            self.keys_distinct(),
        ensures
            self@.len() == self.entries@.len(),
    {
        assert(self@.dom() =~= self.key_seq().to_set()) by {
            assert forall|k: K::V| self@.dom().contains(k) implies self.key_seq().to_set().contains(
                k,
            ) by {
                let i = self.slot(k);
                assert(self.key_seq()[i] == k);
            }
            assert forall|k: K::V| self.key_seq().to_set().contains(k) implies self@.dom().contains(
                k,
            ) by {
                let i = choose|i: int| 0 <= i < self.key_seq().len() && self.key_seq()[i] == k;
                assert(self.entries@[i].0@ == k);
            }
        }
        assert(self.key_seq().no_duplicates()) by {
            assert forall|a: int, b: int|
                0 <= a < self.key_seq().len() && 0 <= b < self.key_seq().len() && a != b implies self.key_seq()[a]
                != self.key_seq()[b] by {
                assert(self.entries@[a].0@ != self.entries@[b].0@);
            }
        }
        self.key_seq().unique_seq_to_set();
    }

    /// The entry at position `i`: a key held by the table and its amount.
    /// Distinct positions below [`Table::len`] hold distinct keys.
    pub fn entry(&self, i: usize) -> (r: (&K, u64))
        requires
            i < self@.len(),
        ensures
            self@.contains_key(r.0@),
            self@[r.0@] == r.1,
    {
        proof {
            use_type_invariant(self);
            self.lemma_len();
            self.lemma_slot(i as int);
        }
        let e = &self.entries[i];
        (&e.0, e.1)
    }
}

impl<K: TableKey> View for Table<K> {
    type V = Map<K::V, u64>;

    closed spec fn view(&self) -> Map<K::V, u64> {
        Map::new(|k: K::V| self.holds(k), |k: K::V| self.entries@[self.slot(k)].1)
    }
}

} // verus!
