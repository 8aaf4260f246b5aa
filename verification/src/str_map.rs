//! Maps keyed by strings: place mappings, ASP argument maps and environment
//! maps. The entries are kept in insertion order and no key occurs twice.
use vstd::prelude::*;

verus! {

/// A map from strings to values.
#[derive(Debug)]
pub struct StrMap<V> {
    entries: Vec<(String, V)>,
}

/// Whether some entry has key `k`.
pub open spec fn has_key<V>(entries: Seq<(String, V)>, k: Seq<char>) -> bool {
    exists|i: int| 0 <= i < entries.len() && #[trigger] entries[i].0@ == k
}

/// The value of an entry with key `k`, if there is one.
pub open spec fn lookup<V>(entries: Seq<(String, V)>, k: Seq<char>) -> Option<V> {
    if has_key(entries, k) {
        Some(entries[choose|i: int| 0 <= i < entries.len() && #[trigger] entries[i].0@ == k].1)
    } else {
        None
    }
}

/// No two entries have the same key.
pub open spec fn keys_distinct<V>(entries: Seq<(String, V)>) -> bool {
    forall|i: int, j: int|
        0 <= i < entries.len() && 0 <= j < entries.len() && i != j ==> entries[i].0@
            != entries[j].0@
}

/// Where keys are distinct, the entry with key `k` gives the value found.
pub proof fn lemma_lookup_at<V>(entries: Seq<(String, V)>, k: Seq<char>, i: int)
    requires
        keys_distinct(entries),
        0 <= i < entries.len(),
        entries[i].0@ == k,
    ensures
        lookup(entries, k) == Some(entries[i].1),
{
    assert(has_key(entries, k));
}

impl<V> View for StrMap<V> {
    type V = Map<Seq<char>, V>;

    closed spec fn view(&self) -> Map<Seq<char>, V> {
        Map::new(
            |k: Seq<char>| lookup(self.entries@, k) is Some,
            |k: Seq<char>| lookup(self.entries@, k).unwrap(),
        )
    }
}

impl<V> StrMap<V> {
    #[verifier::type_invariant]
    spec fn inv(&self) -> bool {
        keys_distinct(self.entries@)
    }

    /// The keys, in insertion order.
    pub closed spec fn spec_keys(&self) -> Seq<Seq<char>> {
        self.entries@.map_values(|e: (String, V)| e.0@)
    }

    /// An empty map.
    pub fn new() -> (m: StrMap<V>)
        ensures
            m@ == Map::<Seq<char>, V>::empty(),
    {
        let m = StrMap { entries: Vec::new() };
        assert(m@ =~= Map::<Seq<char>, V>::empty());
        m
    }

    /// The number of keys.
    pub fn len(&self) -> (n: usize)
        ensures
            n == self@.dom().len(),
            self@.dom().finite(),
    {
        proof {
            use_type_invariant(self);
            self.lemma_dom();
        }
        self.entries.len()
    }

    /// The domain is the set of the entries' keys, of which there are as many as entries.
    proof fn lemma_dom(&self)
        requires
            keys_distinct(self.entries@),
        ensures
            self@.dom() == self.spec_keys().to_set(),
            self@.dom().finite(),
            self@.dom().len() == self.entries@.len(),
    {
        let keys = self.spec_keys();
        assert forall|k: Seq<char>| self@.dom().contains(k) <==> keys.to_set().contains(k) by {
            if self@.dom().contains(k) {
                let i = choose|i: int|
                    0 <= i < self.entries@.len() && #[trigger] self.entries@[i].0@ == k;
                assert(keys[i] == k);
            }
            if keys.to_set().contains(k) {
                let i = choose|i: int| 0 <= i < keys.len() && keys[i] == k;
                assert(self.entries@[i].0@ == k);
            }
        }
        assert(self@.dom() =~= keys.to_set());
        assert(keys.no_duplicates()) by {
            assert forall|i: int, j: int|
                0 <= i < keys.len() && 0 <= j < keys.len() && i != j implies keys[i]
                != keys[j] by {
                assert(keys[i] == self.entries@[i].0@);
                assert(keys[j] == self.entries@[j].0@);
            }
        }
        keys.unique_seq_to_set();
    }

    /// The index of the entry with key `key`, if there is one.
    fn find(&self, key: &String) -> (res: Option<usize>)
        ensures
            match res {
                Some(i) => i < self.entries@.len() && self.entries@[i as int].0@ == key@,
                None => forall|i: int|
                    0 <= i < self.entries@.len() ==> self.entries@[i].0@ != key@,
            },
    {
        let n = self.entries.len();
        let mut i: usize = 0;
        while i < n
            invariant
                n == self.entries@.len(),
                i <= n,
                forall|j: int| 0 <= j < i ==> self.entries@[j].0@ != key@,
            decreases n - i,
        {
            if self.entries[i].0 == *key {
                return Some(i);
            }
            i = i + 1;
        }
        None
    }

    /// The value stored under `key`.
    pub fn get(&self, key: &String) -> (res: Option<&V>)
        ensures
            match res {
                Some(v) => self@.dom().contains(key@) && *v == self@[key@],
                None => !self@.dom().contains(key@),
            },
    {
        match self.find(key) {
            Some(i) => {
                proof {
                    use_type_invariant(self);
                    lemma_lookup_at(self.entries@, key@, i as int);
                }
                Some(&self.entries[i].1)
            },
            None => None,
        }
    }

    /// Whether `key` is stored.
    pub fn contains_key(&self, key: &String) -> (res: bool)
        ensures
            res == self@.dom().contains(key@),
    {
        self.get(key).is_some()
    }

    /// Takes out the value stored under `key`, if any.
    pub fn remove(&mut self, key: &String) -> (res: Option<V>)
        ensures
            match res {
                Some(v) => old(self)@.dom().contains(key@) && v == old(self)@[key@],
                None => !old(self)@.dom().contains(key@),
            },
            final(self)@ == old(self)@.remove(key@),
    {
        proof {
            use_type_invariant(&*self);
        }
        let ghost old_entries = self.entries@;
        let ghost kv = key@;
        let found = self.find(key);
        match found {
            Some(i) => {
                let mut entries: Vec<(String, V)> = Vec::new();
                std::mem::swap(&mut entries, &mut self.entries);
                let (_, v) = entries.remove(i);
                proof {
                    lemma_lookup_at(old_entries, kv, i as int);
                    let e = entries@;
                    assert(e =~= old_entries.remove(i as int));
                    assert forall|a: int, b: int|
                        0 <= a < e.len() && 0 <= b < e.len() && a != b implies e[a].0@
                        != e[b].0@ by {
                        let a2 = if a < i { a } else { a + 1 };
                        let b2 = if b < i { b } else { b + 1 };
                        assert(e[a] == old_entries[a2] && e[b] == old_entries[b2]);
                    }
                    assert forall|k: Seq<char>| #![all_triggers]
                        lookup(e, k) == if k == kv {
                            None
                        } else {
                            lookup(old_entries, k)
                        } by {
                        if k == kv {
                            assert forall|j: int| 0 <= j < e.len() implies e[j].0@ != k by {
                                let j2 = if j < i { j } else { j + 1 };
                                assert(e[j] == old_entries[j2]);
                            }
                        } else if has_key(old_entries, k) {
                            let m = choose|m: int|
                                0 <= m < old_entries.len() && #[trigger] old_entries[m].0@ == k;
                            let m2 = if m < i { m } else { m - 1 };
                            assert(e[m2] == old_entries[m]);
                            lemma_lookup_at(e, k, m2);
                            lemma_lookup_at(old_entries, k, m);
                        } else {
                            assert forall|j: int| 0 <= j < e.len() implies e[j].0@ != k by {
                                let j2 = if j < i { j } else { j + 1 };
                                assert(e[j] == old_entries[j2]);
                            }
                        }
                    }
                }
                self.entries = entries;
                proof {
                    assert(self@ =~= old(self)@.remove(kv));
                }
                Some(v)
            },
            None => {
                proof {
                    assert(self@ =~= old(self)@.remove(kv));
                }
                None
            },
        }
    }

    /// The entries, in insertion order: each key once, with its value.
    pub fn into_entries(self) -> (res: Vec<(String, V)>)
        ensures
            res@.len() == self@.dom().len(),
            forall|i: int|
                0 <= i < res@.len() ==> #[trigger] self@.dom().contains(res@[i].0@)
                    && self@[res@[i].0@] == res@[i].1,
            forall|i: int, j: int|
                0 <= i < res@.len() && 0 <= j < res@.len() && i != j ==> res@[i].0@
                    != res@[j].0@,
    {
        proof {
            use_type_invariant(&self);
            self.lemma_dom();
            assert forall|i: int| 0 <= i < self.entries@.len() implies #[trigger] self@.dom().contains(
                self.entries@[i].0@,
            ) && self@[self.entries@[i].0@] == self.entries@[i].1 by {
                lemma_lookup_at(self.entries@, self.entries@[i].0@, i);
            }
        }
        self.entries
    }

    /// Stores `value` under `key`, replacing the value stored there before.
    pub fn insert(&mut self, key: String, value: V)
        ensures
            final(self)@ == old(self)@.insert(key@, value),
    {
        proof {
            use_type_invariant(&*self);
        }
        let ghost old_entries = self.entries@;
        let ghost kv = key@;
        let found = self.find(&key);
        let mut entries: Vec<(String, V)> = Vec::new();
        std::mem::swap(&mut entries, &mut self.entries);
        match found {
            Some(i) => {
                entries.set(i, (key, value));
                proof {
                    let e = entries@;
                    assert(e =~= old_entries.update(i as int, e[i as int]));
                    assert forall|a: int, b: int|
                        0 <= a < e.len() && 0 <= b < e.len() && a != b implies e[a].0@
                        != e[b].0@ by {
                        if a != i && b != i {
                            assert(e[a] == old_entries[a] && e[b] == old_entries[b]);
                        } else if a == i {
                            assert(e[b] == old_entries[b]);
                        } else {
                            assert(e[a] == old_entries[a]);
                        }
                    }
                    assert forall|k: Seq<char>| #![all_triggers]
                        lookup(e, k) == if k == kv {
                            Some(value)
                        } else {
                            lookup(old_entries, k)
                        } by {
                        if k == kv {
                            lemma_lookup_at(e, k, i as int);
                        } else if has_key(old_entries, k) {
                            let m = choose|m: int|
                                0 <= m < old_entries.len() && #[trigger] old_entries[m].0@ == k;
                            assert(e[m] == old_entries[m]);
                            lemma_lookup_at(e, k, m);
                            lemma_lookup_at(old_entries, k, m);
                        } else {
                            assert forall|j: int| 0 <= j < e.len() implies e[j].0@ != k by {
                                if j != i {
                                    assert(e[j] == old_entries[j]);
                                }
                            }
                        }
                    }
                }
            },
            None => {
                entries.push((key, value));
                proof {
                    let e = entries@;
                    assert(e =~= old_entries.push(e[e.len() - 1]));
                    assert forall|a: int, b: int|
                        0 <= a < e.len() && 0 <= b < e.len() && a != b implies e[a].0@
                        != e[b].0@ by {
                        if a < old_entries.len() {
                            assert(e[a] == old_entries[a]);
                        }
                        if b < old_entries.len() {
                            assert(e[b] == old_entries[b]);
                        }
                    }
                    assert forall|k: Seq<char>| #![all_triggers]
                        lookup(e, k) == if k == kv {
                            Some(value)
                        } else {
                            lookup(old_entries, k)
                        } by {
                        if k == kv {
                            lemma_lookup_at(e, k, e.len() - 1);
                        } else if has_key(old_entries, k) {
                            let m = choose|m: int|
                                0 <= m < old_entries.len() && #[trigger] old_entries[m].0@ == k;
                            assert(e[m] == old_entries[m]);
                            lemma_lookup_at(e, k, m);
                            lemma_lookup_at(old_entries, k, m);
                        } else {
                            assert forall|j: int| 0 <= j < e.len() implies e[j].0@ != k by {
                                if j < old_entries.len() {
                                    assert(e[j] == old_entries[j]);
                                }
                            }
                        }
                    }
                }
            },
        }
        self.entries = entries;
        proof {
            assert(self@ =~= old(self)@.insert(kv, value));
        }
    }
}

} // verus!
