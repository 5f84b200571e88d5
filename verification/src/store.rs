//! The shared record store: a container mapping 128-bit identifiers to
//! records of one entity kind. Both repositories reuse it unchanged; it has
//! no entity-specific knowledge. Its abstract state is a `Map` from
//! identifier to record, and every operation's contract is stated over that
//! map. Iteration order of `keys` is left unspecified by the contracts.

use vstd::prelude::*;

verus! {

/// A record container keyed by unique 128-bit identifiers.
#[derive(Debug)]
pub struct Store<T> {
    entries: Vec<(u128, T)>,
}

/// Whether some entry of `s` carries the key `k`.
spec fn seq_has_key<T>(s: Seq<(u128, T)>, k: u128) -> bool {
    exists|i: int| 0 <= i < s.len() && (#[trigger] s[i]).0 == k
}

/// The index of the entry of `s` carrying the key `k`.
spec fn seq_key_index<T>(s: Seq<(u128, T)>, k: u128) -> int {
    choose|i: int| 0 <= i < s.len() && (#[trigger] s[i]).0 == k
}

/// The record stored in `s` under the key `k`.
spec fn seq_value_of<T>(s: Seq<(u128, T)>, k: u128) -> T {
    s[seq_key_index(s, k)].1
}

/// No two entries of `s` carry the same key.
spec fn unique_keys<T>(s: Seq<(u128, T)>) -> bool {
    forall|i: int, j: int|
        0 <= i < j < s.len() ==> (#[trigger] s[i]).0 != (#[trigger] s[j]).0
}

/// The keys of `s`, in entry order.
spec fn keys_of<T>(s: Seq<(u128, T)>) -> Seq<u128> {
    s.map_values(|p: (u128, T)| p.0)
}

/// The map that a sequence of entries with unique keys represents.
spec fn map_of<T>(s: Seq<(u128, T)>) -> Map<u128, T> {
    Map::new(|k: u128| seq_has_key(s, k), |k: u128| seq_value_of(s, k))
}

proof fn lemma_key_index_unique<T>(s: Seq<(u128, T)>, k: u128, i: int)
    requires
        unique_keys(s),
        0 <= i < s.len(),
        s[i].0 == k,
    ensures
        seq_key_index(s, k) == i,
        seq_value_of(s, k) == s[i].1,
{
    let j = seq_key_index(s, k);
    assert(seq_has_key(s, k));
    assert(0 <= j < s.len() && s[j].0 == k);
    if i != j {
        assert(s[i].0 != s[j].0);
    }
}

proof fn lemma_map_len<T>(s: Seq<(u128, T)>)
    requires
        unique_keys(s),
    ensures
        map_of(s).dom().finite(),
        map_of(s).len() == s.len(),
{
    broadcast use vstd::seq_lib::seq_to_set_is_finite;

    let ks = keys_of(s);
    assert(forall|i: int| 0 <= i < s.len() ==> ks[i] == (#[trigger] s[i]).0);
    assert(ks.no_duplicates());
    assert(map_of(s).dom() =~= ks.to_set()) by {
        assert(forall|k: u128| #[trigger] ks.to_set().contains(k) <==> ks.contains(k));
        assert(forall|k: u128| seq_has_key(s, k) ==> ks.contains(k)) by {
            assert(forall|k: u128, i: int|
                0 <= i < s.len() && (#[trigger] s[i]).0 == k ==> ks[i] == k && #[trigger] ks.contains(k));
        };
        assert(forall|k: u128| ks.contains(k) ==> seq_has_key(s, k)) by {
            assert(forall|k: u128, i: int|
                0 <= i < ks.len() && (#[trigger] ks[i]) == k ==> (s[i]).0 == k && #[trigger] seq_has_key(s, k));
        };
    };
    ks.unique_seq_to_set();
}

impl<T> View for Store<T> {
    type V = Map<u128, T>;

    closed spec fn view(&self) -> Map<u128, T> {
        map_of(self.entries@)
    }
}

impl<T> Store<T> {
    #[verifier::type_invariant]
    spec fn inv(self) -> bool {
        unique_keys(self.entries@)
    }

    /// An empty store.
    pub fn new() -> (s: Self)
        ensures
            s@ == Map::<u128, T>::empty(),
    {
        let s = Store { entries: Vec::new() };
        proof {
            assert(s@ =~= Map::<u128, T>::empty());
        }
        s
    }

    /// The index of the entry carrying `id`, if any.
    fn find(&self, id: u128) -> (r: Option<usize>)
        ensures
            match r {
                Some(i) => i < self.entries@.len() && self.entries@[i as int].0 == id,
                None => !seq_has_key(self.entries@, id),
            },
    {
        let n = self.entries.len();
        let mut i: usize = 0;
        while i < n
            invariant
                n == self.entries@.len(),
                i <= n,
                forall|j: int| 0 <= j < i ==> (#[trigger] self.entries@[j]).0 != id,
            decreases n - i,
        {
            if self.entries[i].0 == id {
                return Some(i);
            }
            i += 1;
        }
        None
    }

    /// Whether a record is stored under `id`.
    pub fn contains(&self, id: u128) -> (b: bool)
        ensures
            b == self@.contains_key(id),
    {
        proof {
            use_type_invariant(&*self);
        }
        self.find(id).is_some()
    }

    /// Point lookup: the record under `id`, or absence when there is none.
    pub fn get(&self, id: u128) -> (r: Option<&T>)
        ensures
            match r {
                Some(v) => self@.contains_key(id) && *v == self@[id],
                None => !self@.contains_key(id),
            },
    {
        proof {
            use_type_invariant(&*self);
        }
        match self.find(id) {
            Some(i) => {
                proof {
                    lemma_key_index_unique(self.entries@, id, i as int);
                }
                Some(&self.entries[i].1)
            },
            None => None,
        }
    }

    /// Inserts or overwrites the record under `id`.
    pub fn put(&mut self, id: u128, value: T)
        ensures
            final(self)@ == old(self)@.insert(id, value),
    {
        proof {
            use_type_invariant(&*self);
        }
        let found = self.find(id);
        let mut entries: Vec<(u128, T)> = Vec::new();
        core::mem::swap(&mut self.entries, &mut entries);
        let ghost s0 = entries@;
        if let Some(i) = found {
            entries.remove(i);
            proof {
                s0.remove_ensures(i as int);
                assert forall|a: int, b: int| 0 <= a < b < entries@.len() implies
                    (#[trigger] entries@[a]).0 != (#[trigger] entries@[b]).0 by {
                    if b < i {
                        assert(entries@[a] == s0[a] && entries@[b] == s0[b]);
                    } else if a < i {
                        assert(entries@[a] == s0[a] && entries@[b] == s0[b + 1]);
                    } else {
                        assert(entries@[a] == s0[a + 1] && entries@[b] == s0[b + 1]);
                    }
                };
                assert forall|j: int| 0 <= j < entries@.len() implies
                    (#[trigger] entries@[j]).0 != id by {
                    lemma_key_index_unique(s0, id, i as int);
                    if j < i {
                        assert(entries@[j] == s0[j]);
                        if s0[j].0 == id {
                            lemma_key_index_unique(s0, id, j);
                        }
                    } else {
                        assert(entries@[j] == s0[j + 1]);
                        if s0[j + 1].0 == id {
                            lemma_key_index_unique(s0, id, j + 1);
                        }
                    }
                };
                assert forall|k: u128| k != id && seq_has_key(s0, k) implies
                    seq_has_key(entries@, k) && seq_value_of(entries@, k) == seq_value_of(s0, k) by {
                    let j = seq_key_index(s0, k);
                    assert(0 <= j < s0.len() && s0[j].0 == k);
                    assert(j != i);
                    if j < i {
                        assert(entries@[j] == s0[j]);
                        lemma_key_index_unique(entries@, k, j);
                    } else {
                        assert(entries@[j - 1] == s0[j]);
                        lemma_key_index_unique(entries@, k, j - 1);
                    }
                    lemma_key_index_unique(s0, k, j);
                };
                assert forall|k: u128| seq_has_key(entries@, k) implies
                    seq_has_key(s0, k) by {
                    let j = seq_key_index(entries@, k);
                    assert(0 <= j < entries@.len() && entries@[j].0 == k);
                    if j < i {
                        assert(entries@[j] == s0[j]);
                    } else {
                        assert(entries@[j] == s0[j + 1]);
                    }
                };
            }
        }
        let ghost s1 = entries@;
        entries.push((id, value));
        proof {
            let s2 = entries@;
            assert(s2 == s1.push((id, value)));
            assert(forall|j: int| 0 <= j < s1.len() ==> s2[j] == (#[trigger] s1[j]));
            assert(s2[s1.len() as int] == (id, value));
            assert forall|a: int, b: int| 0 <= a < b < s2.len() implies
                (#[trigger] s2[a]).0 != (#[trigger] s2[b]).0 by {
                if b == s1.len() {
                    assert(s2[a] == s1[a]);
                    assert(s1[a].0 != id);
                } else {
                    assert(s2[a] == s1[a] && s2[b] == s1[b]);
                }
            };
            assert(map_of(s2) =~= map_of(s0).insert(id, value)) by {
                assert(seq_has_key(s2, id)) by {
                    assert(s2[s1.len() as int].0 == id);
                };
                lemma_key_index_unique(s2, id, s1.len() as int);
                assert forall|k: u128| k != id && #[trigger] seq_has_key(s2, k) implies
                    seq_has_key(s0, k) && seq_value_of(s2, k) == seq_value_of(s0, k) by {
                    let j = seq_key_index(s2, k);
                    assert(0 <= j < s2.len() && s2[j].0 == k);
                    assert(j != s1.len());
                    assert(s2[j] == s1[j]);
                    lemma_key_index_unique(s1, k, j);
                    if found is Some {
                        assert(seq_has_key(s0, k) && seq_value_of(s1, k) == seq_value_of(s0, k));
                    } else {
                        lemma_key_index_unique(s0, k, j);
                    }
                    lemma_key_index_unique(s2, k, j);
                };
                assert forall|k: u128| k != id && #[trigger] seq_has_key(s0, k) implies
                    seq_has_key(s2, k) by {
                    if found is Some {
                        assert(seq_has_key(s1, k));
                    }
                    let j = seq_key_index(s1, k);
                    assert(s2[j].0 == k);
                };
            };
        }
        self.entries = entries;
    }

    /// Overwrites the record under `id` only when one is already there;
    /// reports whether it was.
    pub fn replace_if_present(&mut self, id: u128, value: T) -> (r: bool)
        ensures
            r == old(self)@.contains_key(id),
            r ==> final(self)@ == old(self)@.insert(id, value),
            !r ==> final(self)@ == old(self)@,
    {
        if self.contains(id) {
            self.put(id, value);
            true
        } else {
            false
        }
    }

    /// Removes the record under `id` if present; reports whether removal
    /// occurred.
    pub fn remove(&mut self, id: u128) -> (r: bool)
        ensures
            r == old(self)@.contains_key(id),
            final(self)@ == old(self)@.remove(id),
    {
        proof {
            use_type_invariant(&*self);
        }
        let found = self.find(id);
        match found {
            None => {
                proof {
                    assert(self@ =~= self@.remove(id));
                }
                false
            },
            Some(i) => {
                let mut entries: Vec<(u128, T)> = Vec::new();
                core::mem::swap(&mut self.entries, &mut entries);
                let ghost s0 = entries@;
                entries.remove(i);
                proof {
                    let s1 = entries@;
                    s0.remove_ensures(i as int);
                    assert forall|a: int, b: int| 0 <= a < b < s1.len() implies
                        (#[trigger] s1[a]).0 != (#[trigger] s1[b]).0 by {
                        if b < i {
                            assert(s1[a] == s0[a] && s1[b] == s0[b]);
                        } else if a < i {
                            assert(s1[a] == s0[a] && s1[b] == s0[b + 1]);
                        } else {
                            assert(s1[a] == s0[a + 1] && s1[b] == s0[b + 1]);
                        }
                    };
                    assert(map_of(s1) =~= map_of(s0).remove(id)) by {
                        lemma_key_index_unique(s0, id, i as int);
                        assert forall|k: u128| #[trigger] seq_has_key(s1, k) implies
                            seq_has_key(s0, k) && k != id && seq_value_of(s1, k) == seq_value_of(s0, k) by {
                            let j = seq_key_index(s1, k);
                            assert(0 <= j < s1.len() && s1[j].0 == k);
                            if j < i {
                                assert(s1[j] == s0[j]);
                                lemma_key_index_unique(s0, k, j);
                            } else {
                                assert(s1[j] == s0[j + 1]);
                                lemma_key_index_unique(s0, k, j + 1);
                            }
                            lemma_key_index_unique(s1, k, j);
                        };
                        assert forall|k: u128| k != id && #[trigger] seq_has_key(s0, k) implies
                            seq_has_key(s1, k) by {
                            let j = seq_key_index(s0, k);
                            assert(0 <= j < s0.len() && s0[j].0 == k);
                            assert(j != i);
                            if j < i {
                                assert(s1[j].0 == k);
                            } else {
                                assert(s1[j - 1].0 == k);
                            }
                        };
                    };
                }
                self.entries = entries;
                true
            },
        }
    }

    /// The identifiers of all stored records, each exactly once, in
    /// unspecified order.
    pub fn keys(&self) -> (r: Vec<u128>)
        ensures
            r@.no_duplicates(),
            forall|k: u128| #[trigger] r@.contains(k) <==> self@.contains_key(k),
            r@.len() == self@.len(),
    {
        proof {
            use_type_invariant(&*self);
            lemma_map_len(self.entries@);
        }
        let n = self.entries.len();
        let mut r: Vec<u128> = Vec::new();
        let mut i: usize = 0;
        while i < n
            invariant
                n == self.entries@.len(),
                i <= n,
                r@.len() == i,
                forall|j: int| 0 <= j < i ==> r@[j] == (#[trigger] self.entries@[j]).0,
            decreases n - i,
        {
            r.push(self.entries[i].0);
            i += 1;
        }
        proof {
            let s = self.entries@;
            assert forall|a: int, b: int| 0 <= a < b < r@.len() implies r@[a] != r@[b] by {
                assert(r@[a] == s[a].0 && r@[b] == s[b].0);
            };
            assert forall|k: u128| #[trigger] r@.contains(k) implies seq_has_key(s, k) by {
                let j = choose|j: int| 0 <= j < r@.len() && r@[j] == k;
                assert(s[j].0 == k);
            };
            assert forall|k: u128| seq_has_key(s, k) implies #[trigger] r@.contains(k) by {
                let j = seq_key_index(s, k);
                assert(r@[j] == s[j].0);
            };
        }
        r
    }

    /// Removes every record satisfying the predicate, in one sweep; returns
    /// how many were removed. A surviving record is one the predicate could
    /// have rejected; a removed one is one it could have accepted.
    pub fn remove_many<F: Fn(&T) -> bool>(&mut self, f: F) -> (count: usize)
        requires
            forall|t: &T| #[trigger] f.requires((t,)),
        ensures
            forall|k: u128| #[trigger] final(self)@.contains_key(k) ==>
                old(self)@.contains_key(k)
                && final(self)@[k] == old(self)@[k]
                && f.ensures((&old(self)@[k],), false),
            forall|k: u128| #[trigger] old(self)@.contains_key(k) ==>
                final(self)@.contains_key(k) || f.ensures((&old(self)@[k],), true),
            old(self)@.len() == final(self)@.len() + count,
    {
        proof {
            use_type_invariant(&*self);
            lemma_map_len(self.entries@);
        }
        let mut entries: Vec<(u128, T)> = Vec::new();
        core::mem::swap(&mut self.entries, &mut entries);
        let ghost s0 = entries@;
        let n0 = entries.len();
        let mut kept: Vec<(u128, T)> = Vec::new();
        let mut count: usize = 0;
        proof {
            assert(entries@ == s0.subrange(0, s0.len() as int));
        }
        while entries.len() > 0
            invariant
                forall|t: &T| #[trigger] f.requires((t,)),
                unique_keys(s0),
                s0.len() == n0,
                entries@ == s0.subrange(0, entries@.len() as int),
                unique_keys(kept@),
                kept@.len() + count == s0.len() - entries@.len(),
                forall|k: u128| #[trigger] seq_has_key(kept@, k) ==>
                    seq_has_key(s0, k)
                    && seq_value_of(kept@, k) == seq_value_of(s0, k)
                    && f.ensures((&seq_value_of(s0, k),), false)
                    && !seq_has_key(entries@, k),
                forall|k: u128| #[trigger] seq_has_key(s0, k) && !seq_has_key(entries@, k) ==>
                    seq_has_key(kept@, k) || f.ensures((&seq_value_of(s0, k),), true),
            decreases entries@.len(),
        {
            let ghost pre = entries@;
            let ghost kept_before = kept@;
            let pair = entries.pop().unwrap();
            let ghost popped_idx = pre.len() - 1;
            proof {
                assert(pre == s0.subrange(0, pre.len() as int));
                assert(pair == pre[popped_idx]);
                assert(pre[popped_idx] == s0[popped_idx]);
                assert(entries@ == pre.drop_last());
                assert(entries@ =~= s0.subrange(0, entries@.len() as int));
                lemma_key_index_unique(s0, s0[popped_idx].0, popped_idx);
                assert forall|k2: u128| #[trigger] seq_has_key(entries@, k2) implies
                    seq_has_key(pre, k2) && k2 != s0[popped_idx].0 by {
                    let j = seq_key_index(entries@, k2);
                    assert(entries@[j] == pre[j]);
                    assert(pre[j] == s0[j]);
                    if k2 == s0[popped_idx].0 {
                        lemma_key_index_unique(s0, k2, j);
                    }
                };
            }
            let (k, v) = pair;
            let dropped = f(&v);
            proof {
                assert(f.ensures((&v,), dropped));
                assert(v == seq_value_of(s0, k));
                assert(!seq_has_key(kept_before, k)) by {
                    if seq_has_key(kept_before, k) {
                        assert(seq_has_key(pre, k));
                    }
                };
            }
            if dropped {
                count += 1;
            } else {
                kept.push((k, v));
                proof {
                    assert(kept@ == kept_before.push((k, v)));
                    assert(forall|j: int| 0 <= j < kept_before.len() ==> kept@[j] == (#[trigger] kept_before[j]));
                    assert(kept@[kept_before.len() as int] == (k, v));
                    assert forall|a: int, b: int| 0 <= a < b < kept@.len() implies
                        (#[trigger] kept@[a]).0 != (#[trigger] kept@[b]).0 by {
                        if b == kept_before.len() {
                            assert(kept@[a] == kept_before[a]);
                            if kept_before[a].0 == k {
                                assert(seq_has_key(kept_before, k));
                            }
                        } else {
                            assert(kept@[a] == kept_before[a] && kept@[b] == kept_before[b]);
                        }
                    };
                    lemma_key_index_unique(kept@, k, kept_before.len() as int);
                }
            }
            proof {
                assert forall|k2: u128| #[trigger] seq_has_key(kept@, k2) implies
                    seq_has_key(s0, k2)
                    && seq_value_of(kept@, k2) == seq_value_of(s0, k2)
                    && f.ensures((&seq_value_of(s0, k2),), false)
                    && !seq_has_key(entries@, k2) by {
                    if !dropped && k2 == k {
                        assert(seq_value_of(kept@, k) == v);
                    } else {
                        let j = seq_key_index(kept@, k2);
                        assert(0 <= j < kept@.len() && kept@[j].0 == k2);
                        if !dropped {
                            assert(j != kept_before.len());
                            assert(kept@[j] == kept_before[j]);
                        }
                        assert(seq_has_key(kept_before, k2));
                        lemma_key_index_unique(kept@, k2, j);
                        lemma_key_index_unique(kept_before, k2, seq_key_index(kept_before, k2));
                        assert(seq_value_of(kept@, k2) == seq_value_of(kept_before, k2)) by {
                            let j0 = seq_key_index(kept_before, k2);
                            assert(kept@[j0] == kept_before[j0]);
                            lemma_key_index_unique(kept@, k2, j0);
                        };
                    }
                };
                assert forall|k2: u128| #[trigger] seq_has_key(s0, k2) && !seq_has_key(entries@, k2) implies
                    seq_has_key(kept@, k2) || f.ensures((&seq_value_of(s0, k2),), true) by {
                    if k2 == k {
                        if !dropped {
                            assert(seq_has_key(kept@, k2));
                        }
                    } else if seq_has_key(pre, k2) {
                        let j = seq_key_index(pre, k2);
                        assert(pre[j] == s0[j]);
                        assert(pre[j].0 == k2);
                        assert(j != popped_idx);
                        assert(entries@[j] == pre[j]);
                        assert(seq_has_key(entries@, k2));
                    } else {
                        assert(seq_has_key(kept_before, k2) || f.ensures((&seq_value_of(s0, k2),), true));
                        if seq_has_key(kept_before, k2) {
                            let j0 = seq_key_index(kept_before, k2);
                            assert(kept@[j0] == kept_before[j0]);
                            assert(seq_has_key(kept@, k2));
                        }
                    }
                };
            }
        }
        proof {
            lemma_map_len(kept@);
            assert(map_of(s0).len() == s0.len());
            assert forall|k: u128| #[trigger] seq_has_key(s0, k) implies
                seq_has_key(kept@, k) || f.ensures((&seq_value_of(s0, k),), true) by {
                assert(!seq_has_key(entries@, k));
            };
        }
        self.entries = kept;
        count
    }
}

} // verus!
