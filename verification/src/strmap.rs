//! A small map keyed by strings, kept in insertion order.
//!
//! The map is a list of entries. A key is looked up by the characters it
//! holds, and the first entry with those characters is the one that counts.

use vstd::prelude::*;
use vstd::string::*;

verus! {

/// The position of the first entry of `s` whose key holds `k`, if any.
pub open spec fn first_index<V>(s: Seq<(String, V)>, k: Seq<char>) -> Option<int>
    decreases s.len(),
{
    if s.len() == 0 {
        None
    } else {
        match first_index(s.drop_last(), k) {
            Some(i) => Some(i),
            None => if s.last().0@ == k {
                Some(s.len() - 1)
            } else {
                None
            },
        }
    }
}

/// What `first_index` says: the index is in range, holds the key, and no
/// earlier entry does; `None` means that no entry holds the key.
pub proof fn lemma_first_index<V>(s: Seq<(String, V)>, k: Seq<char>)
    ensures
        match first_index(s, k) {
            Some(i) => 0 <= i < s.len() && s[i].0@ == k && forall|j: int|
                0 <= j < i ==> (#[trigger] s[j]).0@ != k,
            None => forall|j: int| 0 <= j < s.len() ==> (#[trigger] s[j]).0@ != k,
        },
    decreases s.len(),
{
    if s.len() > 0 {
        lemma_first_index(s.drop_last(), k);
        assert(forall|j: int| 0 <= j < s.len() - 1 ==> s.drop_last()[j] == s[j]);
    }
}

/// The first index is the one place that holds the key with none before it.
pub proof fn lemma_first_index_found<V>(s: Seq<(String, V)>, k: Seq<char>, i: int)
    requires
        0 <= i < s.len(),
        s[i].0@ == k,
        forall|j: int| 0 <= j < i ==> (#[trigger] s[j]).0@ != k,
    ensures
        first_index(s, k) == Some(i),
{
    lemma_first_index(s, k);
    match first_index(s, k) {
        Some(f) => {
            if f < i {
                assert(s[f].0@ != k);
            }
            if i < f {
                assert(s[i].0@ == k);
            }
        },
        None => {
            assert(s[i].0@ == k);
        },
    }
}

/// The mathematical map that a list of entries stands for.
pub open spec fn entries_map<V>(s: Seq<(String, V)>) -> Map<Seq<char>, V> {
    Map::new(
        |k: Seq<char>| first_index(s, k) is Some,
        |k: Seq<char>| s[first_index(s, k).unwrap()].1,
    )
}

/// A key of a map is a key of every map that extends it, with the same
/// value.
pub proof fn lemma_submap_get<V>(a: Map<Seq<char>, V>, b: Map<Seq<char>, V>, k: Seq<char>)
    requires
        a.submap_of(b),
        a.contains_key(k),
    ensures
        b.contains_key(k),
        b[k] == a[k],
{
    assert(a.dom().contains(k) ==> b.dom().contains(k));
}

/// A map that extends an extension of `a` extends `a`.
pub proof fn lemma_submap_trans<V>(a: Map<Seq<char>, V>, b: Map<Seq<char>, V>, c: Map<Seq<char>, V>)
    requires
        a.submap_of(b),
        b.submap_of(c),
    ensures
        a.submap_of(c),
{
    assert forall|k: Seq<char>| #[trigger] a.dom().contains(k) implies #[trigger] c.dom().contains(
        k,
    ) && a[k] == c[k] by {
        lemma_submap_get(a, b, k);
        lemma_submap_get(b, c, k);
    }
}

/// A map extends itself, and a map with one more key extends the map
/// without it.
pub proof fn lemma_submap_insert<V>(a: Map<Seq<char>, V>, k: Seq<char>, v: V)
    ensures
        a.submap_of(a),
        !a.contains_key(k) ==> a.submap_of(a.insert(k, v)),
{
    assert forall|q: Seq<char>| #[trigger] a.dom().contains(q) implies #[trigger] a.dom().contains(
        q,
    ) && a[q] == a[q] by {}
    if !a.contains_key(k) {
        assert forall|q: Seq<char>| #[trigger] a.dom().contains(q) implies #[trigger] a.insert(
            k,
            v,
        ).dom().contains(q) && a[q] == a.insert(k, v)[q] by {}
    }
}

/// A map from strings to values.
pub struct StringMap<V> {
    entries: Vec<(String, V)>,
}

impl<V> View for StringMap<V> {
    type V = Map<Seq<char>, V>;

    closed spec fn view(&self) -> Map<Seq<char>, V> {
        entries_map(self.entries@)
    }
}

/// Whether no two entries of `s` have the same key.
pub open spec fn keys_once<V>(s: Seq<(String, V)>) -> bool {
    forall|i: int, j: int| 0 <= i < j < s.len() ==> (#[trigger] s[i]).0@ != (#[trigger] s[j]).0@
}

impl<V> StringMap<V> {
    /// No key occurs twice among the entries.
    #[verifier::type_invariant]
    closed spec fn well_formed(self) -> bool {
        keys_once(self.entries@)
    }

    /// Whether each key occurs once in `key_seq`, and has the value at its
    /// place in `value_seq`.
    pub open spec fn each_key_once(&self) -> bool {
        &&& forall|i: int, j: int|
            0 <= i < j < self.key_seq().len() ==> #[trigger] self.key_seq()[i]
                != #[trigger] self.key_seq()[j]
        &&& forall|i: int|
            0 <= i < self.key_seq().len() ==> self@.contains_key(#[trigger] self.key_seq()[i])
                && self@[self.key_seq()[i]] == self.value_seq()[i]
    }

    /// The keys in the order in which they were first inserted.
    pub closed spec fn key_seq(&self) -> Seq<Seq<char>> {
        Seq::new(self.entries@.len(), |i: int| self.entries@[i].0@)
    }

    /// The values, in the order of `key_seq`.
    pub closed spec fn value_seq(&self) -> Seq<V> {
        Seq::new(self.entries@.len(), |i: int| self.entries@[i].1)
    }

    /// Every key of the map occurs in `key_seq`, at the place of its value,
    /// and every member of `key_seq` is a key of the map.
    pub proof fn lemma_keys(&self)
        ensures
            self.key_seq().len() == self.value_seq().len(),
            forall|k: Seq<char>| #[trigger]
                self@.contains_key(k) <==> self.key_seq().contains(k),
            forall|k: Seq<char>| #[trigger]
                self@.contains_key(k) ==> exists|i: int|
                    0 <= i < self.key_seq().len() && self.key_seq()[i] == k
                        && self.value_seq()[i] == self@[k],
    {
        assert forall|k: Seq<char>| #[trigger]
            self@.contains_key(k) <==> self.key_seq().contains(k) by {
            lemma_first_index(self.entries@, k);
            if self.key_seq().contains(k) {
                let i = choose|i: int| 0 <= i < self.key_seq().len() && self.key_seq()[i] == k;
                assert(self.entries@[i].0@ == k);
            }
            if self@.contains_key(k) {
                let i = first_index(self.entries@, k).unwrap();
                assert(self.key_seq()[i] == k);
            }
        }
        assert forall|k: Seq<char>| #[trigger] self@.contains_key(k) implies exists|i: int|
            0 <= i < self.key_seq().len() && self.key_seq()[i] == k && self.value_seq()[i]
                == self@[k] by {
            lemma_first_index(self.entries@, k);
            let i = first_index(self.entries@, k).unwrap();
            assert(self.key_seq()[i] == k && self.value_seq()[i] == self@[k]);
        }
    }

    /// An empty map.
    pub fn new() -> (r: Self)
        ensures
            r@ == Map::<Seq<char>, V>::empty(),
            r.key_seq().len() == 0,
    {
        let r = StringMap { entries: Vec::new() };
        proof {
            assert(r@ =~= Map::<Seq<char>, V>::empty());
        }
        r
    }

    /// The number of entries: each key counts once.
    pub fn len(&self) -> (r: usize)
        ensures
            r == self.key_seq().len(),
            self.key_seq().len() == self.value_seq().len(),
            self.each_key_once(),
    {
        proof {
            use_type_invariant(self);
            assert forall|i: int| 0 <= i < self.key_seq().len() implies self@.contains_key(
                #[trigger] self.key_seq()[i],
            ) && self@[self.key_seq()[i]] == self.value_seq()[i] by {
                lemma_first_index_found(self.entries@, self.entries@[i].0@, i);
            }
        }
        self.entries.len()
    }

    /// The key of the entry at `i`.
    pub fn key_at(&self, i: usize) -> (r: &String)
        requires
            i < self.key_seq().len(),
        ensures
            r@ == self.key_seq()[i as int],
    {
        &self.entries[i].0
    }

    /// The value of the entry at `i`.
    pub fn value_at(&self, i: usize) -> (r: &V)
        requires
            i < self.key_seq().len(),
        ensures
            *r == self.value_seq()[i as int],
    {
        &self.entries[i].1
    }

    fn position(&self, key: &str) -> (r: Option<usize>)
        ensures
            match r {
                Some(i) => first_index(self.entries@, key@) == Some(i as int) && i
                    < self.entries@.len(),
                None => first_index(self.entries@, key@) is None,
            },
    {
        let mut i: usize = 0;
        while i < self.entries.len()
            invariant
                i <= self.entries.len(),
                forall|j: int| 0 <= j < i ==> (#[trigger] self.entries@[j]).0@ != key@,
            decreases self.entries.len() - i,
        {
            let hit = self.entries[i].0.as_str().to_owned() == key.to_owned();
            if hit {
                proof {
                    lemma_first_index_found(self.entries@, key@, i as int);
                }
                return Some(i);
            }
            i = i + 1;
        }
        proof {
            lemma_first_index(self.entries@, key@);
        }
        None
    }

    /// Whether `key` has a value.
    pub fn contains_key(&self, key: &str) -> (r: bool)
        ensures
            r == self@.contains_key(key@),
    {
        self.position(key).is_some()
    }

    /// The value of `key`, if it has one.
    pub fn get(&self, key: &str) -> (r: Option<&V>)
        ensures
            match r {
                Some(v) => self@.contains_key(key@) && self@[key@] == *v,
                None => !self@.contains_key(key@),
            },
    {
        match self.position(key) {
            Some(i) => Some(&self.entries[i].1),
            None => None,
        }
    }

    /// Gives `key` the value `value`, whether or not it had one.
    pub fn set(&mut self, key: String, value: V)
        ensures
            final(self)@ == old(self)@.insert(key@, value),
    {
        let ghost before = self.entries@;
        let ghost k = key@;
        proof {
            use_type_invariant(&*self);
        }
        match self.position(key.as_str()) {
            Some(i) => {
                let mut entries: Vec<(String, V)> = Vec::new();
                std::mem::swap(&mut self.entries, &mut entries);
                entries.set(i, (key, value));
                proof {
                    lemma_first_index(before, k);
                    assert(forall|j: int|
                        0 <= j < before.len() ==> (#[trigger] entries@[j]).0@ == before[j].0@);
                    assert(keys_once(entries@));
                }
                std::mem::swap(&mut self.entries, &mut entries);
                proof {
                    let after = self.entries@;
                    lemma_first_index(before, k);
                    assert(forall|j: int|
                        0 <= j < before.len() ==> (#[trigger] after[j]).0@ == before[j].0@);
                    assert forall|q: Seq<char>| first_index(after, q) == first_index(before, q) by {
                        lemma_first_index(before, q);
                        match first_index(before, q) {
                            Some(f) => {
                                assert(forall|j: int|
                                    0 <= j < f ==> (#[trigger] after[j]).0@ == before[j].0@);
                                lemma_first_index_found(after, q, f);
                            },
                            None => {
                                lemma_first_index(after, q);
                                if first_index(after, q) is Some {
                                    let g = first_index(after, q).unwrap();
                                    assert(before[g].0@ != q);
                                }
                            },
                        }
                    }
                    assert forall|q: Seq<char>| q != k && first_index(before, q) is Some implies after[first_index(
                        before,
                        q,
                    ).unwrap()] == before[first_index(before, q).unwrap()] by {
                        lemma_first_index(before, q);
                    }
                    assert(self@ =~= old(self)@.insert(k, value));
                }
            },
            None => {
                let mut entries: Vec<(String, V)> = Vec::new();
                std::mem::swap(&mut self.entries, &mut entries);
                entries.push((key, value));
                proof {
                    lemma_first_index(before, k);
                    assert(entries@.drop_last() =~= before);
                    assert(keys_once(entries@));
                }
                std::mem::swap(&mut self.entries, &mut entries);
                proof {
                    assert(self.entries@.drop_last() =~= before);
                    lemma_push_absent(before, self.entries@);
                }
            },
        }
    }

    /// Gives `key` the value `value` if it has none yet, and says whether it
    /// did so. A key that has a value keeps it.
    pub fn insert_new(&mut self, key: String, value: V) -> (r: bool)
        ensures
            r == !old(self)@.contains_key(key@),
            r ==> final(self)@ == old(self)@.insert(key@, value),
            !r ==> final(self)@ == old(self)@,
            r ==> final(self).key_seq() == old(self).key_seq().push(key@),
            r ==> final(self).value_seq() == old(self).value_seq().push(value),
            !r ==> final(self).key_seq() == old(self).key_seq(),
            !r ==> final(self).value_seq() == old(self).value_seq(),
    {
        let ghost before = self.entries@;
        let ghost k = key@;
        proof {
            use_type_invariant(&*self);
        }
        match self.position(key.as_str()) {
            Some(_) => false,
            None => {
                let mut entries: Vec<(String, V)> = Vec::new();
                std::mem::swap(&mut self.entries, &mut entries);
                entries.push((key, value));
                proof {
                    lemma_first_index(before, k);
                    assert(entries@.drop_last() =~= before);
                    assert(keys_once(entries@));
                }
                std::mem::swap(&mut self.entries, &mut entries);
                proof {
                    assert(self.entries@.drop_last() =~= before);
                    lemma_push_absent(before, self.entries@);
                    assert(self.key_seq() =~= old(self).key_seq().push(key@));
                    assert(self.value_seq() =~= old(self).value_seq().push(value));
                }
                true
            },
        }
    }
}

/// An entry with a new key, put at the end, adds that key to the map and
/// changes nothing else.
proof fn lemma_push_absent<V>(before: Seq<(String, V)>, after: Seq<(String, V)>)
    requires
        after.len() == before.len() + 1,
        after.drop_last() == before,
        first_index(before, after.last().0@) is None,
    ensures
        entries_map(after) == entries_map(before).insert(after.last().0@, after.last().1),
{
    let k = after.last().0@;
    assert forall|q: Seq<char>| first_index(before, q) is Some implies after[first_index(
        before,
        q,
    ).unwrap()] == before[first_index(before, q).unwrap()] by {
        lemma_first_index(before, q);
    }
    assert(entries_map(after) =~= entries_map(before).insert(k, after.last().1));
}

} // verus!
