//! A map from text keys to values, kept as a list of entries with distinct keys.

use vstd::prelude::*;
use crate::text::string_of;

verus! {

/// The map that a list of entries denotes: a later entry for a key replaces an earlier one.
pub open spec fn entries_map<V>(s: Seq<(String, V)>) -> Map<Seq<char>, V>
    decreases s.len(),
{
    if s.len() == 0 {
        Map::empty()
    } else {
        entries_map(s.drop_last()).insert(s.last().0@, s.last().1)
    }
}

/// No key occurs twice in the entries.
pub open spec fn distinct_keys<V>(s: Seq<(String, V)>) -> bool {
    forall|i: int, j: int| 0 <= i < j < s.len() ==> (#[trigger] s[i]).0@ != (#[trigger] s[j]).0@
}

/// A key is in the map exactly when some entry has it.
pub proof fn lemma_entries_map_contains<V>(s: Seq<(String, V)>, k: Seq<char>)
    ensures
        entries_map(s).contains_key(k) <==> exists|i: int| 0 <= i < s.len() && (#[trigger] s[i]).0@ == k,
    decreases s.len(),
{
    if s.len() > 0 {
        lemma_entries_map_contains(s.drop_last(), k);
        if entries_map(s).contains_key(k) && s.last().0@ != k {
            let i = choose|i: int| 0 <= i < s.drop_last().len() && (#[trigger] s.drop_last()[i]).0@ == k;
            assert(s[i] == s.drop_last()[i]);
        }
        if exists|i: int| 0 <= i < s.len() && (#[trigger] s[i]).0@ == k {
            let i = choose|i: int| 0 <= i < s.len() && (#[trigger] s[i]).0@ == k;
            if i < s.len() - 1 {
                assert(s.drop_last()[i] == s[i]);
            }
        }
    }
}

/// With distinct keys, the map gives each entry's key that entry's value.
pub proof fn lemma_entries_map_value<V>(s: Seq<(String, V)>, i: int)
    requires
        distinct_keys(s),
        0 <= i < s.len(),
    ensures
        entries_map(s).contains_key(s[i].0@),
        entries_map(s)[s[i].0@] == s[i].1,
    decreases s.len(),
{
    if i < s.len() - 1 {
        assert(s.drop_last()[i] == s[i]);
        assert(distinct_keys(s.drop_last()));
        lemma_entries_map_value(s.drop_last(), i);
        assert(s[i].0@ != s[s.len() - 1].0@);
    }
}

/// Replacing the value of an entry replaces the key's value in the map.
pub proof fn lemma_entries_map_update<V>(s: Seq<(String, V)>, i: int, k: String, v: V)
    requires
        distinct_keys(s),
        0 <= i < s.len(),
        k@ == s[i].0@,
    ensures
        entries_map(s.update(i, (k, v))) == entries_map(s).insert(s[i].0@, v),
    decreases s.len(),
{
    let t = s.update(i, (k, v));
    if i == s.len() - 1 {
        assert(t.drop_last() =~= s.drop_last());
    } else {
        assert(t.drop_last() =~= s.drop_last().update(i, (k, v)));
        assert(distinct_keys(s.drop_last()));
        lemma_entries_map_update(s.drop_last(), i, k, v);
        assert(s[i].0@ != s.last().0@);
    }
    assert(entries_map(t) =~= entries_map(s).insert(s[i].0@, v));
}

/// Removing an entry removes its key from the map.
pub proof fn lemma_entries_map_remove<V>(s: Seq<(String, V)>, i: int)
    requires
        distinct_keys(s),
        0 <= i < s.len(),
    ensures
        entries_map(s.remove(i)) == entries_map(s).remove(s[i].0@),
    decreases s.len(),
{
    let t = s.remove(i);
    if i == s.len() - 1 {
        assert(t =~= s.drop_last());
        assert(!entries_map(s.drop_last()).contains_key(s[i].0@)) by {
            lemma_entries_map_contains(s.drop_last(), s[i].0@);
            if entries_map(s.drop_last()).contains_key(s[i].0@) {
                let j = choose|j: int| 0 <= j < s.drop_last().len() && (#[trigger] s.drop_last()[j]).0@ == s[i].0@;
                assert(s.drop_last()[j] == s[j]);
            }
        }
        assert(entries_map(t) =~= entries_map(s).remove(s[i].0@));
    } else {
        assert(t.drop_last() =~= s.drop_last().remove(i));
        assert(t.last() == s.last());
        assert(distinct_keys(s.drop_last()));
        lemma_entries_map_remove(s.drop_last(), i);
        assert(s[i].0@ != s.last().0@);
        assert(entries_map(t) =~= entries_map(s).remove(s[i].0@));
    }
}

/// A map from text keys to values that remembers insertion order.
#[derive(Clone, Debug)]
pub struct KeyedMap<V> {
    entries: Vec<(String, V)>,
}

impl<V> View for KeyedMap<V> {
    type V = Map<Seq<char>, V>;

    closed spec fn view(&self) -> Map<Seq<char>, V> {
        entries_map(self.entries@)
    }
}

impl<V> KeyedMap<V> {
    /// The map's internal invariant: no key occurs twice.
    pub closed spec fn wf(&self) -> bool {
        distinct_keys(self.entries@)
    }

    /// The keys in insertion order.
    pub closed spec fn key_list(&self) -> Seq<Seq<char>> {
        self.entries@.map_values(|e: (String, V)| e.0@)
    }

    /// The keys are the map's domain, each once.
    pub proof fn lemma_key_list(&self)
        requires
            self.wf(),
        ensures
            self.key_list().len() == self@.dom().len(),
            self.key_list().to_set() == self@.dom(),
            self.key_list().no_duplicates(),
            self@.dom().finite(),
    {
        self.lemma_domain();
    }

    proof fn lemma_domain(&self)
        requires
            self.wf(),
        ensures
            self.key_list().to_set() == self@.dom(),
            self.key_list().no_duplicates(),
            self.key_list().len() == self@.dom().len(),
            self@.dom().finite(),
    {
        let ks = self.key_list();
        assert forall|k: Seq<char>| ks.to_set().contains(k) <==> self@.dom().contains(k) by {
            lemma_entries_map_contains(self.entries@, k);
            if ks.to_set().contains(k) {
                let i = choose|i: int| 0 <= i < ks.len() && ks[i] == k;
                assert(self.entries@[i].0@ == k);
            }
            if self@.dom().contains(k) {
                let i = choose|i: int| 0 <= i < self.entries@.len() && (#[trigger] self.entries@[i]).0@ == k;
                assert(ks[i] == k);
            }
        }
        assert(ks.to_set() =~= self@.dom());
        assert(ks.no_duplicates()) by {
            assert forall|i: int, j: int| 0 <= i < ks.len() && 0 <= j < ks.len() && i != j implies ks[i] != ks[j] by {
                if i < j {
                    assert(self.entries@[i].0@ != self.entries@[j].0@);
                } else {
                    assert(self.entries@[j].0@ != self.entries@[i].0@);
                }
            }
        }
        ks.unique_seq_to_set();
    }

    /// An empty map.
    pub fn new() -> (m: KeyedMap<V>)
        ensures
            m.wf(),
            m@ == Map::<Seq<char>, V>::empty(),
    {
        KeyedMap { entries: Vec::new() }
    }

    /// The number of keys.
    pub fn len(&self) -> (n: usize)
        requires
            self.wf(),
        ensures
            n == self@.dom().len(),
    {
        proof {
            self.lemma_domain();
        }
        self.entries.len()
    }

    /// Whether the map has no key.
    pub fn is_empty(&self) -> (b: bool)
        requires
            self.wf(),
        ensures
            b == (self@.dom().len() == 0),
    {
        proof {
            self.lemma_domain();
        }
        self.entries.len() == 0
    }

    fn index_of(&self, key: &str) -> (r: Option<usize>)
        requires
            self.wf(),
        ensures
            r matches Some(i) ==> i < self.entries@.len() && self.entries@[i as int].0@ == key@,
            r is None ==> !self@.contains_key(key@),
    {
        let k = string_of(key);
        let mut i: usize = 0;
        while i < self.entries.len()
            invariant
                i <= self.entries@.len(),
                k@ == key@,
                forall|j: int| 0 <= j < i ==> (#[trigger] self.entries@[j]).0@ != key@,
            decreases self.entries.len() - i,
        {
            if self.entries[i].0 == k {
                return Some(i);
            }
            i = i + 1;
        }
        proof {
            lemma_entries_map_contains(self.entries@, key@);
        }
        None
    }

    /// Whether `key` is in the map.
    pub fn contains_key(&self, key: &str) -> (b: bool)
        requires
            self.wf(),
        ensures
            b == self@.contains_key(key@),
    {
        match self.index_of(key) {
            Some(i) => {
                proof {
                    lemma_entries_map_value(self.entries@, i as int);
                }
                true
            },
            None => false,
        }
    }

    /// The value of `key`, if it is in the map.
    pub fn get(&self, key: &str) -> (r: Option<&V>)
        requires
            self.wf(),
        ensures
            r matches Some(v) ==> self@.contains_key(key@) && *v == self@[key@],
            r is None ==> !self@.contains_key(key@),
    {
        match self.index_of(key) {
            Some(i) => {
                proof {
                    lemma_entries_map_value(self.entries@, i as int);
                }
                Some(&self.entries[i].1)
            },
            None => None,
        }
    }

    /// Sets the value of `key` to `value` and returns the value it replaced, if any.
    pub fn insert(&mut self, key: String, value: V) -> (r: Option<V>)
        requires
            old(self).wf(),
        ensures
            final(self).wf(),
            final(self)@ == old(self)@.insert(key@, value),
            r matches Some(v) ==> old(self)@.contains_key(key@) && v == old(self)@[key@],
            r is None ==> !old(self)@.contains_key(key@),
    {
        match self.index_of(key.as_str()) {
            Some(i) => {
                let ghost s = self.entries@;
                proof {
                    lemma_entries_map_value(s, i as int);
                    lemma_entries_map_update(s, i as int, key, value);
                }
                let ghost new_entry = (key, value);
                let mut entry = (key, value);
                self.entries.set_and_swap(i, &mut entry);
                proof {
                    assert(self.entries@ =~= s.update(i as int, new_entry));
                    assert(distinct_keys(self.entries@)) by {
                        assert forall|a: int, b: int| 0 <= a < b < self.entries@.len() implies (#[trigger] self.entries@[a]).0@
                            != (#[trigger] self.entries@[b]).0@ by {
                            assert(s[a].0@ != s[b].0@);
                        }
                    }
                }
                Some(entry.1)
            },
            None => {
                let ghost s = self.entries@;
                let ghost k = key@;
                self.entries.push((key, value));
                proof {
                    assert(self.entries@.drop_last() =~= s);
                    assert(distinct_keys(self.entries@)) by {
                        assert forall|a: int, b: int| 0 <= a < b < self.entries@.len() implies (#[trigger] self.entries@[a]).0@
                            != (#[trigger] self.entries@[b]).0@ by {
                            if b == s.len() {
                                lemma_entries_map_contains(s, k);
                                assert(s[a] == self.entries@[a]);
                            }
                        }
                    }
                }
                None
            },
        }
    }

    /// Removes `key` and returns its value, if it was in the map.
    pub fn remove(&mut self, key: &str) -> (r: Option<V>)
        requires
            old(self).wf(),
        ensures
            final(self).wf(),
            final(self)@ == old(self)@.remove(key@),
            r matches Some(v) ==> old(self)@.contains_key(key@) && v == old(self)@[key@],
            r is None ==> !old(self)@.contains_key(key@),
    {
        match self.index_of(key) {
            Some(i) => {
                let ghost s = self.entries@;
                proof {
                    lemma_entries_map_value(s, i as int);
                    lemma_entries_map_remove(s, i as int);
                }
                let e = self.entries.remove(i);
                proof {
                    assert(distinct_keys(self.entries@)) by {
                        assert forall|a: int, b: int| 0 <= a < b < self.entries@.len() implies (#[trigger] self.entries@[a]).0@
                            != (#[trigger] self.entries@[b]).0@ by {
                            let a2 = if a < i { a } else { a + 1 };
                            let b2 = if b < i { b } else { b + 1 };
                            assert(self.entries@[a] == s[a2]);
                            assert(self.entries@[b] == s[b2]);
                        }
                    }
                }
                Some(e.1)
            },
            None => {
                proof {
                    assert(old(self)@.remove(key@) =~= old(self)@);
                }
                None
            },
        }
    }

    /// The `i`-th key in insertion order.
    pub fn key_at(&self, i: usize) -> (k: &String)
        requires
            i < self.key_list().len(),
        ensures
            k@ == self.key_list()[i as int],
    {
        &self.entries[i].0
    }

    /// The value of the `i`-th key in insertion order.
    pub fn value_at(&self, i: usize) -> (v: &V)
        requires
            self.wf(),
            i < self.key_list().len(),
        ensures
            self@.contains_key(self.key_list()[i as int]),
            *v == self@[self.key_list()[i as int]],
    {
        proof {
            lemma_entries_map_value(self.entries@, i as int);
        }
        &self.entries[i].1
    }

    /// The number of keys, as the length of the key list.
    pub fn key_count(&self) -> (n: usize)
        ensures
            n == self.key_list().len(),
    {
        self.entries.len()
    }

    /// The keys in insertion order.
    pub fn keys(&self) -> (ks: Vec<String>)
        ensures
            ks@.map_values(|s: String| s@) == self.key_list(),
    {
        let n = self.entries.len();
        let mut ks: Vec<String> = Vec::new();
        let mut i: usize = 0;
        while i < n
            invariant
                n == self.entries@.len(),
                i <= n,
                ks@.map_values(|s: String| s@) == self.key_list().take(i as int),
            decreases n - i,
        {
            let k = self.entries[i].0.clone();
            let ghost before = ks@;
            ks.push(k);
            proof {
                assert(k@ == self.key_list()[i as int]);
                assert(ks@ == before.push(k));
                assert(ks@.map_values(|s: String| s@) =~= before.map_values(|s: String| s@).push(k@));
                assert(ks@.map_values(|s: String| s@) =~= self.key_list().take(i + 1));
            }
            i = i + 1;
        }
        assert(self.key_list().take(n as int) =~= self.key_list());
        ks
    }
}

} // verus!
