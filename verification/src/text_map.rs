use vstd::prelude::*;

verus! {

/// No two entries share a key (compared by text).
pub open spec fn keys_unique<V>(s: Seq<(String, V)>) -> bool {
    forall|a: int, b: int|
        0 <= a < s.len() && 0 <= b < s.len() && a != b ==> #[trigger] s[a].0@ != #[trigger] s[b].0@
}

/// The map that a sequence of entries denotes: a later entry for a key wins.
pub open spec fn entries_map<V>(s: Seq<(String, V)>) -> Map<Seq<char>, V>
    decreases s.len(),
{
    if s.len() == 0 {
        Map::empty()
    } else {
        entries_map(s.drop_last()).insert(s.last().0@, s.last().1)
    }
}

/// A key is mapped exactly when some entry carries it.
pub proof fn lemma_entries_map_dom<V>(s: Seq<(String, V)>, k: Seq<char>)
    ensures
        entries_map(s).contains_key(k) <==> exists|i: int| 0 <= i < s.len() && #[trigger] s[i].0@ == k,
    decreases s.len(),
{
    if s.len() > 0 {
        lemma_entries_map_dom(s.drop_last(), k);
        if entries_map(s.drop_last()).contains_key(k) {
            let i = choose|i: int| 0 <= i < s.drop_last().len() && #[trigger] s.drop_last()[i].0@ == k;
            assert(s[i].0@ == k);
        }
        if exists|i: int| 0 <= i < s.len() && #[trigger] s[i].0@ == k {
            let i = choose|i: int| 0 <= i < s.len() && #[trigger] s[i].0@ == k;
            if i < s.len() - 1 {
                assert(s.drop_last()[i].0@ == k);
            }
        }
    }
}

/// With unique keys, each entry's key is mapped to that entry's value.
pub proof fn lemma_entries_map_value<V>(s: Seq<(String, V)>, i: int)
    requires
        keys_unique(s),
        0 <= i < s.len(),
    ensures
        entries_map(s).contains_key(s[i].0@),
        entries_map(s)[s[i].0@] == s[i].1,
    decreases s.len(),
{
    if i < s.len() - 1 {
        let d = s.drop_last();
        assert(keys_unique(d)) by {
            assert forall|a: int, b: int|
                0 <= a < d.len() && 0 <= b < d.len() && a != b implies #[trigger] d[a].0@
                != #[trigger] d[b].0@ by {
                assert(d[a] == s[a] && d[b] == s[b]);
            }
        }
        assert(d[i] == s[i]);
        lemma_entries_map_value(d, i);
        assert(s[i].0@ != s[s.len() - 1].0@);
    }
}

/// With unique keys, there are as many mapped keys as entries.
pub proof fn lemma_entries_map_len<V>(s: Seq<(String, V)>)
    requires
        keys_unique(s),
    ensures
        entries_map(s).dom().finite(),
        entries_map(s).dom().len() == s.len(),
    decreases s.len(),
{
    if s.len() > 0 {
        let d = s.drop_last();
        assert(keys_unique(d)) by {
            assert forall|a: int, b: int|
                0 <= a < d.len() && 0 <= b < d.len() && a != b implies #[trigger] d[a].0@
                != #[trigger] d[b].0@ by {
                assert(d[a] == s[a] && d[b] == s[b]);
            }
        }
        lemma_entries_map_len(d);
        lemma_entries_map_dom(d, s.last().0@);
        if entries_map(d).contains_key(s.last().0@) {
            let i = choose|i: int| 0 <= i < d.len() && #[trigger] d[i].0@ == s.last().0@;
            assert(s[i] == d[i]);
        }
    }
}

/// Replacing the value of an existing entry updates the map at that key.
pub proof fn lemma_entries_map_update<V>(s: Seq<(String, V)>, i: int, e: (String, V))
    requires
        keys_unique(s),
        0 <= i < s.len(),
        e.0@ == s[i].0@,
    ensures
        entries_map(s.update(i, e)) == entries_map(s).insert(e.0@, e.1),
    decreases s.len(),
{
    let u = s.update(i, e);
    let d = s.drop_last();
    if i == s.len() - 1 {
        assert(u.drop_last() =~= d);
        assert(entries_map(u) =~= entries_map(s).insert(e.0@, e.1));
    } else {
        assert(keys_unique(d)) by {
            assert forall|a: int, b: int|
                0 <= a < d.len() && 0 <= b < d.len() && a != b implies #[trigger] d[a].0@
                != #[trigger] d[b].0@ by {
                assert(d[a] == s[a] && d[b] == s[b]);
            }
        }
        assert(u.drop_last() =~= d.update(i, e));
        lemma_entries_map_update(d, i, e);
        assert(s.last().0@ != s[i].0@);
        assert(entries_map(u) =~= entries_map(s).insert(e.0@, e.1));
    }
}

fn find_key<V>(entries: &Vec<(String, V)>, key: &String) -> (r: Option<usize>)
    ensures
        match r {
            Some(i) => i < entries@.len() && entries@[i as int].0@ == key@,
            None => forall|j: int| 0 <= j < entries@.len() ==> #[trigger] entries@[j].0@ != key@,
        },
{
    let mut i: usize = 0;
    while i < entries.len()
        invariant
            i <= entries@.len(),
            forall|j: int| 0 <= j < i ==> #[trigger] entries@[j].0@ != key@,
        decreases entries.len() - i,
    {
        if entries[i].0 == *key {
            return Some(i);
        }
        i = i + 1;
    }
    None
}

/// A map from text keys to values, kept as entries with distinct keys in the
/// order in which the keys were first inserted.
#[derive(Debug)]
pub struct TextMap<V> {
    entries: Vec<(String, V)>,
}

impl<V> View for TextMap<V> {
    type V = Map<Seq<char>, V>;

    closed spec fn view(&self) -> Map<Seq<char>, V> {
        entries_map(self.entries@)
    }
}

impl<V> TextMap<V> {
    #[verifier::type_invariant]
    closed spec fn distinct_keys(&self) -> bool {
        keys_unique(self.entries@)
    }

    /// The empty map.
    pub fn new() -> (m: TextMap<V>)
        ensures
            m@ == Map::<Seq<char>, V>::empty(),
    {
        TextMap { entries: Vec::new() }
    }

    /// The value stored under `key`, if any.
    pub fn get(&self, key: &str) -> (r: Option<&V>)
        ensures
            match r {
                Some(v) => self@.contains_key(key@) && *v == self@[key@],
                None => !self@.contains_key(key@),
            },
    {
        proof {
            use_type_invariant(self);
        }
        let k = String::from_str(key);
        proof {
            lemma_entries_map_dom(self.entries@, key@);
        }
        match find_key(&self.entries, &k) {
            Some(i) => {
                proof {
                    lemma_entries_map_value(self.entries@, i as int);
                }
                Some(&self.entries[i].1)
            },
            None => None,
        }
    }

    /// Whether `key` is mapped.
    pub fn contains_key(&self, key: &str) -> (r: bool)
        ensures
            r == self@.contains_key(key@),
    {
        self.get(key).is_some()
    }

    /// Maps `key` to `value`, replacing any value it had.
    pub fn insert(&mut self, key: String, value: V)
        ensures
            final(self)@ == old(self)@.insert(key@, value),
    {
        proof {
            use_type_invariant(&*self);
        }
        let ghost before = self.entries@;
        let mut entries: Vec<(String, V)> = Vec::new();
        std::mem::swap(&mut entries, &mut self.entries);
        match find_key(&entries, &key) {
            Some(i) => {
                let ghost k = key@;
                proof {
                    lemma_entries_map_update(before, i as int, (key, value));
                }
                entries.set(i, (key, value));
                proof {
                    assert(entries@ == before.update(i as int, (key, value)));
                    assert forall|a: int, b: int|
                        0 <= a < entries@.len() && 0 <= b < entries@.len() && a != b implies #[trigger] entries@[a].0@
                        != #[trigger] entries@[b].0@ by {
                        if a != i && b != i {
                            assert(entries@[a] == before[a] && entries@[b] == before[b]);
                        } else if a == i {
                            assert(entries@[b] == before[b]);
                        } else {
                            assert(entries@[a] == before[a]);
                        }
                    }
                }
            },
            None => {
                entries.push((key, value));
                proof {
                    assert(entries@ == before.push((key, value)));
                    assert(entries@.drop_last() =~= before);
                    assert forall|a: int, b: int|
                        0 <= a < entries@.len() && 0 <= b < entries@.len() && a != b implies #[trigger] entries@[a].0@
                        != #[trigger] entries@[b].0@ by {
                        if a < before.len() && b < before.len() {
                            assert(entries@[a] == before[a] && entries@[b] == before[b]);
                        } else if a < before.len() {
                            assert(entries@[a] == before[a]);
                        } else {
                            assert(entries@[b] == before[b]);
                        }
                    }
                }
            },
        }
        self.entries = entries;
    }

    /// The number of keys mapped.
    pub fn len(&self) -> (r: usize)
        ensures
            self@.dom().finite(),
            r == self@.dom().len(),
    {
        proof {
            use_type_invariant(self);
            lemma_entries_map_len(self.entries@);
        }
        self.entries.len()
    }

    /// Whether no key is mapped.
    pub fn is_empty(&self) -> (r: bool)
        ensures
            r == (self@.dom().len() == 0),
    {
        self.len() == 0
    }

    /// The entries, each key once, in the order in which keys were first inserted.
    pub fn entries(&self) -> (r: &Vec<(String, V)>)
        ensures
            entries_map(r@) == self@,
            keys_unique(r@),
    {
        proof {
            use_type_invariant(self);
        }
        &self.entries
    }
}

impl<V: Clone> Clone for TextMap<V> {
    /// A copy with the same keys, each value cloned.
    fn clone(&self) -> (r: Self)
        ensures
            r@.dom() == self@.dom(),
            forall|k: Seq<char>| #[trigger] r@.contains_key(k) ==> cloned::<V>(self@[k], r@[k]),
    {
        proof {
            use_type_invariant(self);
        }
        let s = &self.entries;
        let mut t: Vec<(String, V)> = Vec::new();
        let mut i: usize = 0;
        while i < s.len()
            invariant
                i <= s@.len(),
                t@.len() == i,
                forall|j: int| 0 <= j < i ==> #[trigger] t@[j].0@ == s@[j].0@,
                forall|j: int| 0 <= j < i ==> cloned::<V>(s@[j].1, #[trigger] t@[j].1),
            decreases s.len() - i,
        {
            let k = s[i].0.clone();
            let v = s[i].1.clone();
            t.push((k, v));
            i = i + 1;
        }
        proof {
            assert(keys_unique(t@)) by {
                assert forall|a: int, b: int|
                    0 <= a < t@.len() && 0 <= b < t@.len() && a != b implies #[trigger] t@[a].0@
                    != #[trigger] t@[b].0@ by {
                    assert(s@[a].0@ != s@[b].0@);
                }
            }
            assert forall|k: Seq<char>| #[trigger] entries_map(t@).contains_key(k)
                <==> entries_map(s@).contains_key(k) by {
                lemma_entries_map_dom(t@, k);
                lemma_entries_map_dom(s@, k);
                if exists|i: int| 0 <= i < t@.len() && #[trigger] t@[i].0@ == k {
                    let i = choose|i: int| 0 <= i < t@.len() && #[trigger] t@[i].0@ == k;
                    assert(s@[i].0@ == k);
                }
                if exists|i: int| 0 <= i < s@.len() && #[trigger] s@[i].0@ == k {
                    let i = choose|i: int| 0 <= i < s@.len() && #[trigger] s@[i].0@ == k;
                    assert(t@[i].0@ == k);
                }
            }
            assert(entries_map(t@).dom() =~= entries_map(s@).dom());
            assert forall|k: Seq<char>| #[trigger] entries_map(t@).contains_key(k) implies cloned::<V>(
                entries_map(s@)[k],
                entries_map(t@)[k],
            ) by {
                lemma_entries_map_dom(t@, k);
                let i = choose|i: int| 0 <= i < t@.len() && #[trigger] t@[i].0@ == k;
                lemma_entries_map_value(t@, i);
                lemma_entries_map_value(s@, i);
            }
        }
        TextMap { entries: t }
    }
}

} // verus!
