use vstd::prelude::*;

verus! {

/// Whether the keys of `s` increase strictly.
pub open spec fn sorted_keys<V>(s: Seq<(u64, V)>) -> bool {
    forall|i: int, j: int| 0 <= i < j < s.len() ==> s[i].0 < s[j].0
}

/// Whether some entry of `s` has key `k`.
pub open spec fn has_key<V>(s: Seq<(u64, V)>, k: u64) -> bool {
    exists|i: int| 0 <= i < s.len() && s[i].0 == k
}

/// The map that the entries `s` stand for.
pub open spec fn map_of<V>(s: Seq<(u64, V)>) -> Map<u64, V> {
    Map::new(|k: u64| has_key(s, k), |k: u64| s[choose|i: int| 0 <= i < s.len() && s[i].0 == k].1)
}

/// Whether `r` is the window of keys of `m` in `[lo, hi]`, ascending, that
/// starts at the smallest such key and holds `limit` keys, or all of them
/// when there are fewer.
pub open spec fn is_window<V>(m: Map<u64, V>, lo: u64, hi: u64, limit: nat, r: Seq<u64>) -> bool {
    &&& r.len() <= limit
    &&& forall|i: int, j: int| 0 <= i < j < r.len() ==> r[i] < r[j]
    &&& forall|i: int|
        0 <= i < r.len() ==> m.contains_key(#[trigger] r[i]) && lo <= r[i] <= hi
    &&& forall|k: u64|
        #![trigger m.contains_key(k)]
        m.contains_key(k) && lo <= k <= hi && (r.len() < limit || (r.len() > 0 && k <= r.last()))
            ==> r.contains(k)
}

/// A map from `u64` keys, held as entries sorted by key.
pub struct KeyMap<V> {
    entries: Vec<(u64, V)>,
}

impl<V> View for KeyMap<V> {
    type V = Map<u64, V>;

    closed spec fn view(&self) -> Map<u64, V> {
        map_of(self.entries@)
    }
}

proof fn lemma_entry<V>(s: Seq<(u64, V)>, i: int)
    requires
        sorted_keys(s),
        0 <= i < s.len(),
    ensures
        map_of(s).contains_key(s[i].0),
        map_of(s)[s[i].0] == s[i].1,
{
    let k = s[i].0;
    assert(has_key(s, k));
    let j = choose|j: int| 0 <= j < s.len() && s[j].0 == k;
    if j < i {
        assert(s[j].0 < s[i].0);
    } else if j > i {
        assert(s[i].0 < s[j].0);
    }
}

proof fn lemma_absent<V>(s: Seq<(u64, V)>, k: u64)
    requires
        forall|i: int| 0 <= i < s.len() ==> s[i].0 != k,
    ensures
        !map_of(s).contains_key(k),
{
}

impl<V> KeyMap<V> {
    /// The entries are sorted by key.
    pub closed spec fn wf(&self) -> bool {
        sorted_keys(self.entries@)
    }

    /// An empty map.
    pub fn new() -> (r: KeyMap<V>)
        ensures
            r@ == Map::<u64, V>::empty(),
            r.wf(),
    {
        let r = KeyMap { entries: Vec::new() };
        assert(map_of(r.entries@) =~= Map::<u64, V>::empty());
        r
    }

    /// The index of the first entry whose key is at least `k`.
    fn position(&self, k: u64) -> (p: usize)
        requires
            self.wf(),
        ensures
            p <= self.entries@.len(),
            forall|i: int| 0 <= i < p ==> self.entries@[i].0 < k,
            p < self.entries@.len() ==> self.entries@[p as int].0 >= k,
    {
        let mut i: usize = 0;
        while i < self.entries.len() && self.entries[i].0 < k
            invariant
                i <= self.entries@.len(),
                forall|j: int| 0 <= j < i ==> self.entries@[j].0 < k,
            decreases self.entries@.len() - i,
        {
            i = i + 1;
        }
        i
    }

    /// The index of the entry with key `k`, if any.
    fn find(&self, k: u64) -> (r: Option<usize>)
        requires
            self.wf(),
        ensures
            match r {
                Some(i) => i < self.entries@.len() && self.entries@[i as int].0 == k,
                None => !self@.contains_key(k),
            },
    {
        let p = self.position(k);
        if p < self.entries.len() && self.entries[p].0 == k {
            Some(p)
        } else {
            proof {
                assert forall|i: int| 0 <= i < self.entries@.len() implies self.entries@[i].0 != k by {
                    if i > p {
                        assert(self.entries@[p as int].0 < self.entries@[i].0);
                    }
                }
                lemma_absent(self.entries@, k);
            }
            None
        }
    }

    /// Whether `k` has a value.
    pub fn contains_key(&self, k: u64) -> (r: bool)
        requires
            self.wf(),
        ensures
            r == self@.contains_key(k),
    {
        match self.find(k) {
            Some(i) => {
                proof {
                    lemma_entry(self.entries@, i as int);
                }
                true
            },
            None => false,
        }
    }

    /// The value of `k`, if any.
    pub fn get(&self, k: u64) -> (r: Option<&V>)
        requires
            self.wf(),
        ensures
            match r {
                Some(v) => self@.contains_key(k) && *v == self@[k],
                None => !self@.contains_key(k),
            },
    {
        match self.find(k) {
            Some(i) => {
                proof {
                    lemma_entry(self.entries@, i as int);
                }
                Some(&self.entries[i].1)
            },
            None => None,
        }
    }

    /// Sets the value of `k`.
    pub fn insert(&mut self, k: u64, v: V)
        requires
            old(self).wf(),
        ensures
            final(self).wf(),
            final(self)@ == old(self)@.insert(k, v),
    {
        let p = self.position(k);
        let ghost s = self.entries@;
        if p < self.entries.len() && self.entries[p].0 == k {
            self.entries.set(p, (k, v));
            let ghost t = self.entries@;
            assert(t == s.update(p as int, (k, v)));
            assert(sorted_keys(t));
            proof {
                lemma_entry(t, p as int);
                assert forall|k2: u64|
                    #![trigger map_of(t).contains_key(k2)]
                    #![trigger map_of(s).contains_key(k2)]
                    k2 != k implies map_of(t).contains_key(k2) == map_of(
                    s,
                ).contains_key(k2) && (map_of(s).contains_key(k2) ==> map_of(t)[k2] == map_of(
                    s,
                )[k2]) by {
                    if map_of(s).contains_key(k2) {
                        let i = choose|i: int| 0 <= i < s.len() && s[i].0 == k2;
                        lemma_entry(s, i);
                        lemma_entry(t, i);
                    } else {
                        assert forall|i: int| 0 <= i < t.len() implies t[i].0 != k2 by {
                            if i != p {
                                assert(t[i] == s[i]);
                            }
                        }
                        lemma_absent(t, k2);
                    }
                }
                assert(map_of(t) =~= map_of(s).insert(k, v));
            }
        } else {
            self.entries.insert(p, (k, v));
            let ghost t = self.entries@;
            assert(t == s.insert(p as int, (k, v)));
            assert(sorted_keys(t)) by {
                assert forall|i: int, j: int| 0 <= i < j < t.len() implies t[i].0 < t[j].0 by {
                    if j < p {
                    } else if j == p {
                    } else if i < p {
                        assert(s[p as int].0 > k);
                        if j - 1 > p {
                            assert(s[p as int].0 < s[j - 1].0);
                        }
                    } else if i == p {
                        assert(s[p as int].0 > k);
                        if j - 1 > p {
                            assert(s[p as int].0 < s[j - 1].0);
                        }
                    } else {
                        assert(s[i - 1].0 < s[j - 1].0);
                    }
                }
            }
            proof {
                lemma_entry(t, p as int);
                assert forall|k2: u64|
                    #![trigger map_of(t).contains_key(k2)]
                    #![trigger map_of(s).contains_key(k2)]
                    k2 != k implies map_of(t).contains_key(k2) == map_of(
                    s,
                ).contains_key(k2) && (map_of(s).contains_key(k2) ==> map_of(t)[k2] == map_of(
                    s,
                )[k2]) by {
                    if map_of(s).contains_key(k2) {
                        let i = choose|i: int| 0 <= i < s.len() && s[i].0 == k2;
                        lemma_entry(s, i);
                        if i < p {
                            lemma_entry(t, i);
                        } else {
                            assert(t[i + 1] == s[i]);
                            lemma_entry(t, i + 1);
                        }
                    } else {
                        assert forall|i: int| 0 <= i < t.len() implies t[i].0 != k2 by {
                            if i < p {
                                assert(t[i] == s[i]);
                            } else if i > p {
                                assert(t[i] == s[i - 1]);
                            }
                        }
                        lemma_absent(t, k2);
                    }
                }
                assert(map_of(t) =~= map_of(s).insert(k, v));
            }
        }
    }

    /// Removes `k`, returning its value if it had one.
    pub fn remove(&mut self, k: u64) -> (r: Option<V>)
        requires
            old(self).wf(),
        ensures
            final(self).wf(),
            final(self)@ == old(self)@.remove(k),
            match r {
                Some(v) => old(self)@.contains_key(k) && v == old(self)@[k],
                None => !old(self)@.contains_key(k),
            },
    {
        let ghost s = self.entries@;
        match self.find(k) {
            None => {
                assert(map_of(s) =~= map_of(s).remove(k));
                None
            },
            Some(p) => {
                proof {
                    lemma_entry(s, p as int);
                }
                let (_, v) = self.entries.remove(p);
                let ghost t = self.entries@;
                assert(t == s.remove(p as int));
                assert(sorted_keys(t)) by {
                    assert forall|i: int, j: int| 0 <= i < j < t.len() implies t[i].0 < t[j].0 by {
                        if j < p {
                        } else if i < p {
                            assert(t[j] == s[j + 1]);
                        } else {
                            assert(t[i] == s[i + 1] && t[j] == s[j + 1]);
                        }
                    }
                }
                proof {
                    assert forall|i: int| 0 <= i < t.len() implies t[i].0 != k by {
                        if i < p {
                            assert(s[i].0 < s[p as int].0);
                        } else {
                            assert(t[i] == s[i + 1]);
                            assert(s[p as int].0 < s[i + 1].0);
                        }
                    }
                    lemma_absent(t, k);
                    assert forall|k2: u64|
                    #![trigger map_of(t).contains_key(k2)]
                    #![trigger map_of(s).contains_key(k2)]
                    k2 != k implies map_of(t).contains_key(k2) == map_of(
                        s,
                    ).contains_key(k2) && (map_of(s).contains_key(k2) ==> map_of(t)[k2] == map_of(
                        s,
                    )[k2]) by {
                        if map_of(s).contains_key(k2) {
                            let i = choose|i: int| 0 <= i < s.len() && s[i].0 == k2;
                            lemma_entry(s, i);
                            if i < p {
                                lemma_entry(t, i);
                            } else {
                                assert(i != p);
                                assert(t[i - 1] == s[i]);
                                lemma_entry(t, i - 1);
                            }
                        } else {
                            assert forall|i: int| 0 <= i < t.len() implies t[i].0 != k2 by {
                                if i < p {
                                    assert(t[i] == s[i]);
                                } else {
                                    assert(t[i] == s[i + 1]);
                                }
                            }
                            lemma_absent(t, k2);
                        }
                    }
                    assert(map_of(t) =~= map_of(s).remove(k));
                }
                Some(v)
            },
        }
    }

    /// The keys in `[lo, hi]`, ascending, at most `limit` of them, starting
    /// from the smallest.
    pub fn keys_in_range(&self, lo: u64, hi: u64, limit: usize) -> (r: Vec<u64>)
        requires
            self.wf(),
        ensures
            is_window(self@, lo, hi, limit as nat, r@),
    {
        let ghost s = self.entries@;
        let start = self.position(lo);
        let mut i: usize = start;
        let mut r: Vec<u64> = Vec::new();
        while i < self.entries.len() && self.entries[i].0 <= hi && r.len() < limit
            invariant
                s == self.entries@,
                sorted_keys(s),
                start <= i <= s.len(),
                r@.len() == i - start,
                r@.len() <= limit,
                forall|j: int| 0 <= j < start ==> s[j].0 < lo,
                start < s.len() ==> s[start as int].0 >= lo,
                forall|j: int| 0 <= j < r@.len() ==> r@[j] == s[start + j].0,
                forall|j: int| start <= j < i ==> s[j].0 <= hi,
            decreases s.len() - i,
        {
            r.push(self.entries[i].0);
            i = i + 1;
        }
        proof {
            assert forall|a: int, b: int| 0 <= a < b < r@.len() implies r@[a] < r@[b] by {
                assert(s[start + a].0 < s[start + b].0);
            }
            assert forall|a: int| 0 <= a < r@.len() implies self@.contains_key(#[trigger] r@[a])
                && lo <= r@[a] <= hi by {
                lemma_entry(s, start + a);
                if a > 0 {
                    assert(s[start as int].0 < s[start + a].0);
                }
            }
            assert forall|k: u64|
                #![trigger self@.contains_key(k)]
                self@.contains_key(k) && lo <= k <= hi && (r@.len() < limit || (r@.len() > 0 && k
                    <= r@.last())) implies r@.contains(k) by {
                let m = choose|m: int| 0 <= m < s.len() && s[m].0 == k;
                assert(m >= start);
                if m >= i {
                    if r@.len() < limit {
                        if i < s.len() {
                            assert(s[i as int].0 > hi);
                            if m > i {
                                assert(s[i as int].0 < s[m].0);
                            }
                        }
                    } else {
                        assert(r@.last() == s[i - 1].0);
                        assert(s[i - 1].0 < s[m].0);
                    }
                }
                assert(r@[m - start] == k);
            }
        }
        r
    }
}

} // verus!
