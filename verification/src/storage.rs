//! Persistence primitives: an association map with string keys and the
//! namespaced state store built on it.
//!
//! The store keeps one value per namespace string; a dispatch call loads
//! the value before the call and saves it back only when the call
//! succeeds, so a failed call leaves the store exactly as it was.

use vstd::prelude::*;

verus! {

/// Iteration order for range reads of a stored map.
#[derive(Clone, Copy, Debug, PartialEq, Eq)]
pub enum StorageOrder {
    Ascending,
    Descending,
}

impl StorageOrder {
    pub fn is_ascending(&self) -> (r: bool)
        ensures
            r == (*self == StorageOrder::Ascending),
    {
        match self {
            StorageOrder::Ascending => true,
            StorageOrder::Descending => false,
        }
    }
}

/// Does some entry of `s` carry the key `k`?
pub open spec fn entries_have_key<V>(s: Seq<(String, V)>, k: Seq<char>) -> bool {
    exists|i: int| 0 <= i < s.len() && #[trigger] s[i].0@ == k
}

/// Position of the entry carrying `k` (unique when keys are distinct).
pub open spec fn entry_index_of<V>(s: Seq<(String, V)>, k: Seq<char>) -> int {
    choose|i: int| 0 <= i < s.len() && #[trigger] s[i].0@ == k
}

/// All keys of `s` are pairwise distinct.
pub open spec fn entries_unique<V>(s: Seq<(String, V)>) -> bool {
    forall|i: int, j: int|
        0 <= i < j < s.len() ==> (#[trigger] s[i].0@) != (#[trigger] s[j].0@)
}

/// The finite map described by an entry sequence with distinct keys.
pub open spec fn entries_as_map<V>(s: Seq<(String, V)>) -> Map<Seq<char>, V> {
    Map::new(|k: Seq<char>| entries_have_key(s, k), |k: Seq<char>| s[entry_index_of(s, k)].1)
}

/// A map from strings to values, backed by a vector of entries whose
/// keys are kept pairwise distinct.
pub struct StrMap<V> {
    entries: Vec<(String, V)>,
}

impl<V> View for StrMap<V> {
    type V = Map<Seq<char>, V>;

    closed spec fn view(&self) -> Map<Seq<char>, V> {
        entries_as_map(self.entries@)
    }
}

impl<V> StrMap<V> {
    /// Internal well-formedness: keys are pairwise distinct.
    pub closed spec fn inv(&self) -> bool {
        entries_unique(self.entries@)
    }

    proof fn lemma_index(&self, i: int, k: Seq<char>)
        requires
            self.inv(),
            0 <= i < self.entries@.len(),
            self.entries@[i].0@ == k,
        ensures
            entries_have_key(self.entries@, k),
            entry_index_of(self.entries@, k) == i,
            self@.contains_key(k),
            self@[k] == self.entries@[i].1,
    {
        let s = self.entries@;
        assert(entries_have_key(s, k));
        let j = entry_index_of(s, k);
        assert(0 <= j < s.len() && s[j].0@ == k);
        if i < j {
            assert(s[i].0@ != s[j].0@);
        } else if j < i {
            assert(s[j].0@ != s[i].0@);
        }
    }

    pub fn new() -> (r: StrMap<V>)
        ensures
            r.inv(),
            r@ == Map::<Seq<char>, V>::empty(),
    {
        let r = StrMap { entries: Vec::new() };
        proof {
            assert(r@ =~= Map::<Seq<char>, V>::empty());
        }
        r
    }

    fn index_of(&self, key: &String) -> (r: Option<usize>)
        requires
            self.inv(),
        ensures
            match r {
                Some(i) => i < self.entries@.len() && self.entries@[i as int].0@ == key@
                    && self@.contains_key(key@) && self@[key@] == self.entries@[i as int].1,
                None => !self@.contains_key(key@),
            },
    {
        let n: usize = self.entries.len();
        let mut i: usize = 0;
        while i < n
            invariant
                self.inv(),
                n == self.entries@.len(),
                i <= n,
                forall|j: int| 0 <= j < i ==> (#[trigger] self.entries@[j].0@) != key@,
            decreases n - i,
        {
            if self.entries[i].0 == *key {
                proof {
                    self.lemma_index(i as int, key@);
                }
                return Some(i);
            }
            i = i + 1;
        }
        proof {
            assert(!entries_have_key(self.entries@, key@));
        }
        None
    }

    pub fn contains_key(&self, key: &String) -> (r: bool)
        requires
            self.inv(),
        ensures
            r == self@.contains_key(key@),
    {
        self.index_of(key).is_some()
    }

    pub fn get(&self, key: &String) -> (r: Option<&V>)
        requires
            self.inv(),
        ensures
            match r {
                Some(v) => self@.contains_key(key@) && *v == self@[key@],
                None => !self@.contains_key(key@),
            },
    {
        match self.index_of(key) {
            Some(i) => Some(&self.entries[i].1),
            None => None,
        }
    }

    /// Decide well-formedness at run time, for values rebuilt at a
    /// trust boundary.
    pub fn check_inv(&self) -> (b: bool)
        ensures
            b == self.inv(),
    {
        let n: usize = self.entries.len();
        let mut i: usize = 0;
        while i < n
            invariant
                n == self.entries@.len(),
                i <= n,
                forall|a: int, b2: int|
                    0 <= a < i && a < b2 < n ==> (#[trigger] self.entries@[a].0@)
                        != (#[trigger] self.entries@[b2].0@),
            decreases n - i,
        {
            let mut j: usize = i + 1;
            while j < n
                invariant
                    n == self.entries@.len(),
                    i < n,
                    i + 1 <= j <= n,
                    forall|b2: int|
                        i < b2 < j ==> (#[trigger] self.entries@[b2].0@)
                            != self.entries@[i as int].0@,
                decreases n - j,
            {
                if self.entries[i].0 == self.entries[j].0 {
                    proof {
                        assert(!entries_unique(self.entries@));
                    }
                    return false;
                }
                j = j + 1;
            }
            i = i + 1;
        }
        proof {
            assert(entries_unique(self.entries@));
        }
        true
    }

    /// Is every key of this map a key of `other`?
    pub fn keys_subset_of<W>(&self, other: &StrMap<W>) -> (r: bool)
        requires
            self.inv(),
            other.inv(),
        ensures
            r == (forall|d: Seq<char>| #[trigger] self@.contains_key(d) ==> other@.contains_key(
                d,
            )),
    {
        let n: usize = self.entries.len();
        let mut i: usize = 0;
        while i < n
            invariant
                self.inv(),
                other.inv(),
                n == self.entries@.len(),
                i <= n,
                forall|j: int|
                    0 <= j < i ==> other@.contains_key(#[trigger] self.entries@[j].0@),
            decreases n - i,
        {
            if !other.contains_key(&self.entries[i].0) {
                proof {
                    assert(entries_have_key(self.entries@, self.entries@[i as int].0@));
                    assert(self@.contains_key(self.entries@[i as int].0@));
                }
                return false;
            }
            i = i + 1;
        }
        proof {
            assert forall|d: Seq<char>| #[trigger] self@.contains_key(d) implies
                other@.contains_key(d) by {
                let j = entry_index_of(self.entries@, d);
                assert(0 <= j < n && self.entries@[j].0@ == d);
            }
        }
        true
    }

    /// Read-only view of the entries, for callers that walk the whole
    /// map (for instance to serialise it at the boundary).
    pub fn items(&self) -> (r: &Vec<(String, V)>)
        ensures
            entries_as_map(r@) == self@,
            self.inv() ==> entries_unique(r@),
    {
        &self.entries
    }

    /// Insert or replace the value stored under `key`.
    pub fn insert(&mut self, key: String, value: V)
        requires
            old(self).inv(),
        ensures
            final(self).inv(),
            final(self)@ == old(self)@.insert(key@, value),
    {
        let ghost old_entries = self.entries@;
        match self.index_of(&key) {
            Some(i) => {
                let ghost k = key@;
                let ghost v = value;
                self.entries.set(i, (key, value));
                proof {
                    let s = self.entries@;
                    assert forall|a: int, b: int| 0 <= a < b < s.len() implies
                        (#[trigger] s[a].0@) != (#[trigger] s[b].0@) by {
                        assert(old_entries[a].0@ != old_entries[b].0@);
                    }
                    assert forall|k2: Seq<char>| #[trigger] self@.contains_key(k2)
                        == old(self)@.insert(k, v).contains_key(k2) by {
                        if entries_have_key(s, k2) {
                            let a = entry_index_of(s, k2);
                            if a == i {
                                assert(k2 == k);
                            } else {
                                assert(old_entries[a].0@ == k2);
                                assert(entries_have_key(old_entries, k2));
                            }
                        }
                        if k2 == k {
                            assert(s[i as int].0@ == k2);
                            assert(entries_have_key(s, k2));
                        } else if entries_have_key(old_entries, k2) {
                            let a = entry_index_of(old_entries, k2);
                            assert(s[a].0@ == k2);
                            assert(entries_have_key(s, k2));
                        }
                    }
                    assert forall|k2: Seq<char>| self@.contains_key(k2)
                        implies #[trigger] self@[k2] == old(self)@.insert(k, v)[k2] by {
                        let a = entry_index_of(s, k2);
                        assert(0 <= a < s.len() && s[a].0@ == k2);
                        self.lemma_index(a, k2);
                        if k2 == k {
                            if a != i {
                                assert(old_entries[a].0@ == k);
                                assert(old_entries[i as int].0@ == k);
                            }
                            assert(self@[k2] == v);
                        } else {
                            assert(a != i);
                            assert(old_entries[a].0@ == k2);
                            lemma_entries_value(old_entries, a, k2);
                            assert(self@[k2] == s[a].1);
                        }
                    }
                    assert(self@ =~= old(self)@.insert(k, v));
                }
            },
            None => {
                let ghost k = key@;
                let ghost v = value;
                self.entries.push((key, value));
                proof {
                    let s = self.entries@;
                    assert forall|a: int, b: int| 0 <= a < b < s.len() implies
                        (#[trigger] s[a].0@) != (#[trigger] s[b].0@) by {
                        if b < old_entries.len() {
                            assert(old_entries[a].0@ != old_entries[b].0@);
                        } else {
                            assert(s[b].0@ == k);
                            assert(old_entries[a].0@ == s[a].0@);
                            assert(!entries_have_key(old_entries, k));
                        }
                    }
                    assert forall|k2: Seq<char>| #[trigger] self@.contains_key(k2)
                        == old(self)@.insert(k, v).contains_key(k2) by {
                        if entries_have_key(s, k2) {
                            let a = entry_index_of(s, k2);
                            if a < old_entries.len() {
                                assert(old_entries[a].0@ == k2);
                                assert(entries_have_key(old_entries, k2));
                            } else {
                                assert(k2 == k);
                            }
                        }
                        if k2 == k {
                            assert(s[s.len() - 1].0@ == k2);
                            assert(entries_have_key(s, k2));
                        } else if entries_have_key(old_entries, k2) {
                            let a = entry_index_of(old_entries, k2);
                            assert(s[a].0@ == k2);
                            assert(entries_have_key(s, k2));
                        }
                    }
                    assert forall|k2: Seq<char>| self@.contains_key(k2)
                        implies #[trigger] self@[k2] == old(self)@.insert(k, v)[k2] by {
                        let a = entry_index_of(s, k2);
                        assert(0 <= a < s.len() && s[a].0@ == k2);
                        self.lemma_index(a, k2);
                        if k2 == k {
                            if a < old_entries.len() {
                                assert(old_entries[a].0@ == k);
                                assert(entries_have_key(old_entries, k));
                            }
                            assert(a == s.len() - 1);
                            assert(self@[k2] == v);
                        } else {
                            assert(a < old_entries.len());
                            assert(old_entries[a].0@ == k2);
                            lemma_entries_value(old_entries, a, k2);
                            assert(self@[k2] == s[a].1);
                        }
                    }
                    assert(self@ =~= old(self)@.insert(k, v));
                }
            },
        }
    }
}

/// A value that can be copied exactly.
pub trait DupValue: Sized {
    fn dup(&self) -> (r: Self)
        ensures
            r == *self,
    ;
}

impl DupValue for u8 {
    fn dup(&self) -> (r: Self)
        ensures
            r == *self,
    {
        *self
    }
}

impl DupValue for u128 {
    fn dup(&self) -> (r: Self)
        ensures
            r == *self,
    {
        *self
    }
}

impl DupValue for String {
    fn dup(&self) -> (r: Self)
        ensures
            r == *self,
    {
        self.clone()
    }
}

impl<V: DupValue> StrMap<V> {
    /// An exact copy of the map.
    pub fn duplicate(&self) -> (r: Self)
        requires
            self.inv(),
        ensures
            r.inv(),
            r@ == self@,
    {
        let mut entries: Vec<(String, V)> = Vec::new();
        let n: usize = self.entries.len();
        let mut i: usize = 0;
        while i < n
            invariant
                n == self.entries@.len(),
                i <= n,
                entries@ =~= self.entries@.take(i as int),
            decreases n - i,
        {
            entries.push((self.entries[i].0.clone(), self.entries[i].1.dup()));
            proof {
                assert(entries@ =~= self.entries@.take((i + 1) as int));
            }
            i = i + 1;
        }
        proof {
            assert(entries@ =~= self.entries@);
        }
        let r = StrMap { entries };
        proof {
            assert(r@ == self@);
        }
        r
    }
}

/// Per-application persistence: one value per namespace string.
///
/// A dispatch call reads the owning application's value (or starts from
/// the application's default when the namespace is new) and writes it
/// back only when the call succeeds.
pub struct StateStore<V> {
    items: StrMap<V>,
}

impl<V> View for StateStore<V> {
    type V = Map<Seq<char>, V>;

    closed spec fn view(&self) -> Map<Seq<char>, V> {
        self.items@
    }
}

impl<V> StateStore<V> {
    pub closed spec fn inv(&self) -> bool {
        self.items.inv()
    }

    pub fn new() -> (r: StateStore<V>)
        ensures
            r.inv(),
            r@ == Map::<Seq<char>, V>::empty(),
    {
        StateStore { items: StrMap::new() }
    }

    /// Read the value stored under `namespace`, if any.
    pub fn load(&self, namespace: &String) -> (r: Option<&V>)
        requires
            self.inv(),
        ensures
            match r {
                Some(v) => self@.contains_key(namespace@) && *v == self@[namespace@],
                None => !self@.contains_key(namespace@),
            },
    {
        self.items.get(namespace)
    }

    /// Write `value` under `namespace`, replacing any previous value.
    pub fn save(&mut self, namespace: String, value: V)
        requires
            old(self).inv(),
        ensures
            final(self).inv(),
            final(self)@ == old(self)@.insert(namespace@, value),
    {
        self.items.insert(namespace, value)
    }
}

/// With distinct keys, the stored map sends a key to the value at its
/// (unique) position.
proof fn lemma_entries_value<V>(s: Seq<(String, V)>, i: int, k: Seq<char>)
    requires
        entries_unique(s),
        0 <= i < s.len(),
        s[i].0@ == k,
    ensures
        entries_have_key(s, k),
        entry_index_of(s, k) == i,
        entries_as_map(s)[k] == s[i].1,
{
    assert(entries_have_key(s, k));
    let j = entry_index_of(s, k);
    assert(0 <= j < s.len() && s[j].0@ == k);
    if i < j {
        assert(s[i].0@ != s[j].0@);
    } else if j < i {
        assert(s[j].0@ != s[i].0@);
    }
}

} // verus!
