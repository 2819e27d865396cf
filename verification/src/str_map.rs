//! A map keyed by strings: entries in insertion order, no key twice.

use vstd::prelude::*;
use crate::text::str_eq;

verus! {

/// A map from string keys to values. It keeps its entries in the order in
/// which their keys were first inserted, and never holds one key twice.
#[derive(Debug)]
pub struct StrMap<V> {
    entries: Vec<(String, V)>,
}

/// The keys of a sequence of entries.
pub open spec fn keys_of<V>(entries: Seq<(String, V)>) -> Seq<Seq<char>> {
    entries.map_values(|e: (String, V)| e.0@)
}

/// No key occurs twice among `entries`.
pub open spec fn keys_distinct<V>(entries: Seq<(String, V)>) -> bool {
    forall|i: int, j: int|
        0 <= i < entries.len() && 0 <= j < entries.len() && i != j ==> #[trigger] entries[i].0@
            != #[trigger] entries[j].0@
}

/// The map that a sequence of entries with distinct keys stands for.
pub open spec fn map_of<V>(entries: Seq<(String, V)>) -> Map<Seq<char>, V> {
    Map::new(
        |k: Seq<char>| exists|i: int| 0 <= i < entries.len() && #[trigger] entries[i].0@ == k,
        |k: Seq<char>|
            entries[choose|i: int| 0 <= i < entries.len() && #[trigger] entries[i].0@ == k].1,
    )
}

/// In a sequence of entries with distinct keys, the entry at `i` gives the
/// value of its key.
pub proof fn lemma_map_of_entry<V>(entries: Seq<(String, V)>, i: int)
    requires
        keys_distinct(entries),
        0 <= i < entries.len(),
    ensures
        map_of(entries).contains_key(entries[i].0@),
        map_of(entries)[entries[i].0@] == entries[i].1,
{
    let k = entries[i].0@;
    assert(exists|j: int| 0 <= j < entries.len() && #[trigger] entries[j].0@ == k);
    let j = choose|j: int| 0 <= j < entries.len() && #[trigger] entries[j].0@ == k;
    assert(i == j);
}

/// The position of key `k` among `entries`, when some entry has it.
pub open spec fn key_index<V>(entries: Seq<(String, V)>, k: Seq<char>) -> int {
    choose|i: int| 0 <= i < entries.len() && #[trigger] entries[i].0@ == k
}

/// The entries after inserting `key` with `value`: the entry with that key
/// takes the new value in place, or a new entry comes last.
pub open spec fn entries_inserted<V>(entries: Seq<(String, V)>, key: String, value: V) -> Seq<
    (String, V),
> {
    if map_of(entries).contains_key(key@) {
        entries.update(key_index(entries, key@), (key, value))
    } else {
        entries.push((key, value))
    }
}

/// The entries after removing key `k`, the others keeping their order.
pub open spec fn entries_removed<V>(entries: Seq<(String, V)>, k: Seq<char>) -> Seq<(String, V)> {
    if map_of(entries).contains_key(k) {
        entries.remove(key_index(entries, k))
    } else {
        entries
    }
}

proof fn lemma_map_of_update<V>(entries: Seq<(String, V)>, i: int, key: String, value: V)
    requires
        keys_distinct(entries),
        0 <= i < entries.len(),
        entries[i].0@ == key@,
    ensures
        keys_distinct(entries.update(i, (key, value))),
        map_of(entries.update(i, (key, value))) == map_of(entries).insert(key@, value),
{
    let e2 = entries.update(i, (key, value));
    assert(keys_distinct(e2)) by {
        assert forall|a: int, b: int|
            0 <= a < e2.len() && 0 <= b < e2.len() && a != b implies #[trigger] e2[a].0@
            != #[trigger] e2[b].0@ by {
            assert(entries[a].0@ != entries[b].0@);
        }
    }
    let m1 = map_of(entries);
    let m2 = map_of(e2);
    assert forall|q: Seq<char>| #[trigger] m2.contains_key(q) <==> m1.insert(key@, value).contains_key(q) by {
        if m2.contains_key(q) {
            let j = choose|j: int| 0 <= j < e2.len() && #[trigger] e2[j].0@ == q;
            if j != i {
                assert(entries[j].0@ == q);
            }
        }
        if m1.contains_key(q) {
            let j = choose|j: int| 0 <= j < entries.len() && #[trigger] entries[j].0@ == q;
            assert(e2[j].0@ == q);
        }
        if q == key@ {
            assert(e2[i].0@ == q);
        }
    }
    assert forall|q: Seq<char>| #[trigger] m2.contains_key(q) implies m2[q] == m1.insert(key@, value)[q] by {
        let j = choose|j: int| 0 <= j < e2.len() && #[trigger] e2[j].0@ == q;
        lemma_map_of_entry(e2, j);
        if j != i {
            lemma_map_of_entry(entries, j);
        }
    }
    assert(m2 =~= m1.insert(key@, value));
}

proof fn lemma_map_of_push<V>(entries: Seq<(String, V)>, key: String, value: V)
    requires
        keys_distinct(entries),
        !map_of(entries).contains_key(key@),
    ensures
        keys_distinct(entries.push((key, value))),
        map_of(entries.push((key, value))) == map_of(entries).insert(key@, value),
{
    let e2 = entries.push((key, value));
    let n = entries.len() as int;
    assert forall|a: int| 0 <= a < n implies #[trigger] entries[a].0@ != key@ by {
        if entries[a].0@ == key@ {
            assert(map_of(entries).contains_key(key@));
        }
    }
    assert(keys_distinct(e2)) by {
        assert forall|a: int, b: int|
            0 <= a < e2.len() && 0 <= b < e2.len() && a != b implies #[trigger] e2[a].0@
            != #[trigger] e2[b].0@ by {
            if a < n && b < n {
                assert(entries[a].0@ != entries[b].0@);
            } else if a < n {
                assert(entries[a].0@ != key@);
            } else {
                assert(entries[b].0@ != key@);
            }
        }
    }
    let m1 = map_of(entries);
    let m2 = map_of(e2);
    assert forall|q: Seq<char>| #[trigger] m2.contains_key(q) <==> m1.insert(key@, value).contains_key(q) by {
        if m2.contains_key(q) {
            let j = choose|j: int| 0 <= j < e2.len() && #[trigger] e2[j].0@ == q;
            if j < n {
                assert(entries[j].0@ == q);
            }
        }
        if m1.contains_key(q) {
            let j = choose|j: int| 0 <= j < entries.len() && #[trigger] entries[j].0@ == q;
            assert(e2[j].0@ == q);
        }
        if q == key@ {
            assert(e2[n].0@ == q);
        }
    }
    assert forall|q: Seq<char>| #[trigger] m2.contains_key(q) implies m2[q] == m1.insert(key@, value)[q] by {
        let j = choose|j: int| 0 <= j < e2.len() && #[trigger] e2[j].0@ == q;
        lemma_map_of_entry(e2, j);
        if j < n {
            lemma_map_of_entry(entries, j);
        }
    }
    assert(m2 =~= m1.insert(key@, value));
}

proof fn lemma_map_of_remove<V>(entries: Seq<(String, V)>, i: int)
    requires
        keys_distinct(entries),
        0 <= i < entries.len(),
    ensures
        keys_distinct(entries.remove(i)),
        map_of(entries.remove(i)) == map_of(entries).remove(entries[i].0@),
{
    let e2 = entries.remove(i);
    let k = entries[i].0@;
    assert(keys_distinct(e2)) by {
        assert forall|a: int, b: int|
            0 <= a < e2.len() && 0 <= b < e2.len() && a != b implies #[trigger] e2[a].0@
            != #[trigger] e2[b].0@ by {
            let a1 = if a < i { a } else { a + 1 };
            let b1 = if b < i { b } else { b + 1 };
            assert(entries[a1].0@ != entries[b1].0@);
        }
    }
    let m1 = map_of(entries);
    let m2 = map_of(e2);
    assert forall|q: Seq<char>| #[trigger] m2.contains_key(q) <==> m1.remove(k).contains_key(q) by {
        if m2.contains_key(q) {
            let j = choose|j: int| 0 <= j < e2.len() && #[trigger] e2[j].0@ == q;
            let j1 = if j < i { j } else { j + 1 };
            assert(entries[j1].0@ == q);
            assert(entries[j1].0@ != entries[i].0@);
        }
        if m1.contains_key(q) && q != k {
            let j = choose|j: int| 0 <= j < entries.len() && #[trigger] entries[j].0@ == q;
            assert(j != i);
            let j2 = if j < i { j } else { j - 1 };
            assert(e2[j2].0@ == q);
        }
    }
    assert forall|q: Seq<char>| #[trigger] m2.contains_key(q) implies m2[q] == m1.remove(k)[q] by {
        let j = choose|j: int| 0 <= j < e2.len() && #[trigger] e2[j].0@ == q;
        lemma_map_of_entry(e2, j);
        let j1 = if j < i { j } else { j + 1 };
        assert(entries[j1] == e2[j]);
        lemma_map_of_entry(entries, j1);
    }
    assert(m2 =~= m1.remove(k));
}

impl<V> StrMap<V> {
    #[verifier::type_invariant]
    spec fn inv(self) -> bool {
        keys_distinct(self.entries@)
    }

    /// The entries, in order.
    pub closed spec fn entries(self) -> Seq<(String, V)> {
        self.entries@
    }

    /// An empty map.
    pub fn new() -> (m: Self)
        ensures
            m.entries() == Seq::<(String, V)>::empty(),
            m@ == Map::<Seq<char>, V>::empty(),
    {
        let m = StrMap { entries: Vec::new() };
        assert(m@ =~= Map::<Seq<char>, V>::empty());
        m
    }

    /// The number of entries.
    pub fn len(&self) -> (n: usize)
        ensures
            n == self.entries().len(),
    {
        self.entries.len()
    }

    /// Whether the map is empty.
    pub fn is_empty(&self) -> (b: bool)
        ensures
            b == (self.entries().len() == 0),
            b == (self@ == Map::<Seq<char>, V>::empty()),
    {
        proof {
            use_type_invariant(self);
            if self.entries@.len() > 0 {
                lemma_map_of_entry(self.entries@, 0);
                assert(self@.contains_key(self.entries@[0].0@));
            } else {
                assert(self@ =~= Map::<Seq<char>, V>::empty());
            }
        }
        self.entries.len() == 0
    }

    /// The key and value of entry `i`.
    pub fn entry(&self, i: usize) -> (e: (&String, &V))
        requires
            i < self.entries().len(),
        ensures
            *e.0 == self.entries()[i as int].0,
            *e.1 == self.entries()[i as int].1,
    {
        let e = &self.entries[i];
        (&e.0, &e.1)
    }

    /// The position of `key`, if the map holds it.
    fn find(&self, key: &str) -> (pos: Option<usize>)
        ensures
            match pos {
                Some(i) => i < self.entries@.len() && self.entries@[i as int].0@ == key@,
                None => forall|i: int|
                    0 <= i < self.entries@.len() ==> #[trigger] self.entries@[i].0@ != key@,
            },
    {
        let mut i: usize = 0;
        while i < self.entries.len()
            invariant
                i <= self.entries@.len(),
                forall|j: int| 0 <= j < i ==> #[trigger] self.entries@[j].0@ != key@,
            decreases self.entries@.len() - i,
        {
            if str_eq(self.entries[i].0.as_str(), key) {
                return Some(i);
            }
            i = i + 1;
        }
        None
    }

    /// Whether the map holds `key`.
    pub fn contains_key(&self, key: &str) -> (b: bool)
        ensures
            b == self@.contains_key(key@),
    {
        let pos = self.find(key);
        proof {
            use_type_invariant(self);
            if let Some(i) = pos {
                lemma_map_of_entry(self.entries@, i as int);
            }
        }
        pos.is_some()
    }

    /// The value of `key`, if the map holds it.
    pub fn get(&self, key: &str) -> (v: Option<&V>)
        ensures
            match v {
                Some(v) => self@.contains_key(key@) && *v == self@[key@],
                None => !self@.contains_key(key@),
            },
    {
        let pos = self.find(key);
        proof {
            use_type_invariant(self);
        }
        match pos {
            Some(i) => {
                proof {
                    lemma_map_of_entry(self.entries@, i as int);
                }
                Some(&self.entries[i].1)
            },
            None => None,
        }
    }

    /// Sets `key` to `value` and gives back the value it had. An existing
    /// entry keeps its place; a new key comes last.
    pub fn insert(&mut self, key: String, value: V) -> (prev: Option<V>)
        ensures
            final(self)@ == old(self)@.insert(key@, value),
            final(self).entries() == entries_inserted(old(self).entries(), key, value),
            prev == (if old(self)@.contains_key(key@) {
                Some(old(self)@[key@])
            } else {
                None
            }),
    {
        proof {
            use_type_invariant(&*self);
        }
        let pos = self.find(key.as_str());
        match pos {
            Some(i) => {
                proof {
                    lemma_map_of_entry(self.entries@, i as int);
                    lemma_map_of_update(self.entries@, i as int, key, value);
                    let k = choose|j: int| 0 <= j < self.entries@.len() && #[trigger] self.entries@[j].0@ == key@;
                    assert(self.entries@[k].0@ == self.entries@[i as int].0@);
                    assert(k == i);
                }
                let ghost before = self.entries@;
                let mut entries: Vec<(String, V)> = Vec::new();
                std::mem::swap(&mut entries, &mut self.entries);
                let old_entry = entries.remove(i);
                entries.insert(i, (key, value));
                assert(entries@ =~= before.update(i as int, (key, value)));
                self.entries = entries;
                Some(old_entry.1)
            },
            None => {
                proof {
                    if self@.contains_key(key@) {
                        let k = choose|j: int| 0 <= j < self.entries@.len() && #[trigger] self.entries@[j].0@ == key@;
                        assert(self.entries@[k].0@ != key@);
                    }
                    lemma_map_of_push(self.entries@, key, value);
                }
                let mut entries: Vec<(String, V)> = Vec::new();
                std::mem::swap(&mut entries, &mut self.entries);
                entries.push((key, value));
                self.entries = entries;
                None
            },
        }
    }

    /// Removes `key` and gives back its value; the other entries keep their
    /// order.
    pub fn remove(&mut self, key: &str) -> (prev: Option<V>)
        ensures
            final(self)@ == old(self)@.remove(key@),
            final(self).entries() == entries_removed(old(self).entries(), key@),
            prev == (if old(self)@.contains_key(key@) {
                Some(old(self)@[key@])
            } else {
                None
            }),
    {
        proof {
            use_type_invariant(&*self);
        }
        let pos = self.find(key);
        match pos {
            Some(i) => {
                proof {
                    lemma_map_of_entry(self.entries@, i as int);
                    lemma_map_of_remove(self.entries@, i as int);
                    let k = choose|j: int| 0 <= j < self.entries@.len() && #[trigger] self.entries@[j].0@ == key@;
                    assert(self.entries@[k].0@ == self.entries@[i as int].0@);
                    assert(k == i);
                }
                let mut entries: Vec<(String, V)> = Vec::new();
                std::mem::swap(&mut entries, &mut self.entries);
                let old_entry = entries.remove(i);
                self.entries = entries;
                Some(old_entry.1)
            },
            None => {
                proof {
                    if self@.contains_key(key@) {
                        let k = choose|j: int| 0 <= j < self.entries@.len() && #[trigger] self.entries@[j].0@ == key@;
                        assert(self.entries@[k].0@ != key@);
                    }
                    assert(self@.remove(key@) =~= self@);
                }
                None
            },
        }
    }
}

impl Clone for StrMap<String> {
    /// A copy with the same entries in the same order.
    fn clone(&self) -> (m: Self)
        ensures
            m.entries() == self.entries(),
            m@ == self@,
    {
        proof {
            use_type_invariant(self);
        }
        let mut entries: Vec<(String, String)> = Vec::new();
        let mut i: usize = 0;
        while i < self.entries.len()
            invariant
                i <= self.entries@.len(),
                entries@ == self.entries@.subrange(0, i as int),
            decreases self.entries@.len() - i,
        {
            let k = self.entries[i].0.clone();
            let v = self.entries[i].1.clone();
            entries.push((k, v));
            i = i + 1;
            assert(entries@ =~= self.entries@.subrange(0, i as int));
        }
        assert(entries@ =~= self.entries@);
        StrMap { entries }
    }
}

impl<V> View for StrMap<V> {
    type V = Map<Seq<char>, V>;

    closed spec fn view(&self) -> Map<Seq<char>, V> {
        map_of(self.entries@)
    }
}

} // verus!
