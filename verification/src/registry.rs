//! A keyed entity store: the durable registries hold their entries as
//! (identifier, entity) pairs with pairwise distinct identifiers, and are
//! specified through a map from identifier to entity.

use vstd::map::*;
use vstd::prelude::*;

verus! {

pub struct Registry<V> {
    pub pairs: Vec<(String, V)>,
}

impl<V> Registry<V> {
    /// The entries, with keys abstracted to character sequences.
    pub open spec fn entries(self) -> Seq<(Seq<char>, V)> {
        self.pairs@.map_values(|p: (String, V)| (p.0@, p.1))
    }

    /// The stored values, in storage order.
    pub open spec fn values(self) -> Seq<V> {
        self.pairs@.map_values(|p: (String, V)| p.1)
    }

    /// Keys are pairwise distinct.
    pub open spec fn wf(self) -> bool {
        forall|i: int, j: int|
            0 <= i < j < self.entries().len() ==> self.entries()[i].0 != self.entries()[j].0
    }

    /// Whether some entry has key `k`.
    pub open spec fn has_key(self, k: Seq<char>) -> bool {
        exists|i: int| 0 <= i < self.entries().len() && self.entries()[i].0 == k
    }

    /// The index of the entry with key `k`, when one exists.
    pub open spec fn index_for(self, k: Seq<char>) -> int {
        choose|i: int| 0 <= i < self.entries().len() && self.entries()[i].0 == k
    }

    /// The store, read as a map from key to value.
    pub open spec fn as_map(self) -> Map<Seq<char>, V> {
        Map::new(|k: Seq<char>| self.has_key(k), |k: Seq<char>| self.entries()[self.index_for(k)].1)
    }

    /// The entry at a given index is what the map holds for its key.
    pub proof fn lemma_entry_in_map(self, i: int)
        requires
            self.wf(),
            0 <= i < self.entries().len(),
        ensures
            self.as_map().contains_key(self.entries()[i].0),
            self.as_map()[self.entries()[i].0] == self.entries()[i].1,
            self.index_for(self.entries()[i].0) == i,
    {
        let k = self.entries()[i].0;
        assert(self.has_key(k));
        let j = self.index_for(k);
        assert(0 <= j < self.entries().len() && self.entries()[j].0 == k);
        assert(j == i);
    }

    pub fn new() -> (r: Self)
        ensures
            r.wf(),
            r.as_map() == Map::<Seq<char>, V>::empty(),
            r.values() == Seq::<V>::empty(),
    {
        let r = Registry { pairs: Vec::new() };
        proof {
            assert(r.values() =~= Seq::<V>::empty());
            assert_maps_equal!(r.as_map(), Map::<Seq<char>, V>::empty());
        }
        r
    }

    fn index_of(&self, key: &String) -> (r: Option<usize>)
        ensures
            match r {
                Some(i) => i < self.entries().len() && self.entries()[i as int].0 == key@,
                None => !self.has_key(key@),
            },
    {
        let n = self.pairs.len();
        let mut i: usize = 0;
        while i < n
            invariant
                n == self.pairs.len(),
                i <= n,
                forall|j: int| 0 <= j < i ==> self.entries()[j].0 != key@,
            decreases n - i,
        {
            if self.pairs[i].0 == *key {
                return Some(i);
            }
            i += 1;
        }
        None
    }

    /// Whether the store holds an entry for `key`.
    pub fn contains(&self, key: &String) -> (r: bool)
        requires
            self.wf(),
        ensures
            r == self.as_map().contains_key(key@),
    {
        match self.index_of(key) {
            Some(i) => {
                proof {
                    self.lemma_entry_in_map(i as int);
                }
                true
            },
            None => false,
        }
    }

    /// Looks an entry up by key.
    pub fn get(&self, key: &String) -> (r: Option<&V>)
        requires
            self.wf(),
        ensures
            match r {
                Some(v) => self.as_map().contains_key(key@) && *v == self.as_map()[key@],
                None => !self.as_map().contains_key(key@),
            },
    {
        match self.index_of(key) {
            Some(i) => {
                proof {
                    self.lemma_entry_in_map(i as int);
                }
                Some(&self.pairs[i].1)
            },
            None => None,
        }
    }

    /// Removes the entry with the given key, handing its value back.
    pub fn remove(&mut self, key: &String) -> (r: Option<V>)
        requires
            old(self).wf(),
        ensures
            final(self).wf(),
            match r {
                Some(v) => {
                    &&& old(self).as_map().contains_key(key@)
                    &&& v == old(self).as_map()[key@]
                    &&& final(self).as_map() == old(self).as_map().remove(key@)
                },
                None => {
                    &&& !old(self).as_map().contains_key(key@)
                    &&& *final(self) == *old(self)
                },
            },
    {
        match self.index_of(key) {
            Some(i) => {
                let ghost r1 = *self;
                proof {
                    r1.lemma_entry_in_map(i as int);
                }
                let (_, v) = self.pairs.swap_remove(i);
                proof {
                    assert(self.entries() =~= r1.entries().update(
                        i as int,
                        r1.entries().last(),
                    ).drop_last());
                    lemma_swap_remove(r1, *self, i as int);
                }
                Some(v)
            },
            None => None,
        }
    }

    /// Inserts or replaces the entry for `key`.
    pub fn save(&mut self, key: String, value: V)
        requires
            old(self).wf(),
        ensures
            final(self).wf(),
            final(self).as_map() == old(self).as_map().insert(key@, value),
    {
        let _ = self.remove(&key);
        let ghost r1 = *self;
        self.pairs.push((key, value));
        proof {
            assert(!r1.as_map().contains_key(key@));
            assert(!r1.has_key(key@)) by {
                if r1.has_key(key@) {
                    let a = choose|a: int|
                        0 <= a < r1.entries().len() && r1.entries()[a].0 == key@;
                    r1.lemma_entry_in_map(a);
                }
            }
            assert(self.entries() =~= r1.entries().push((key@, value)));
            lemma_push(r1, *self, key@, value);
            assert_maps_equal!(r1.as_map().insert(key@, value),
                old(self).as_map().insert(key@, value));
        }
    }

    /// How many entries the store holds.
    pub fn count(&self) -> (r: usize)
        ensures
            r == self.values().len(),
    {
        self.pairs.len()
    }

    /// The value of the entry at position `i`, in storage order.
    pub fn value_at(&self, i: usize) -> (r: &V)
        requires
            i < self.values().len(),
        ensures
            *r == self.values()[i as int],
    {
        &self.pairs[i].1
    }
}

/// Inserting a key overrides its earlier removal.
pub proof fn lemma_insert_over_remove<K, V>(m: Map<K, V>, k: K, v: V)
    ensures
        m.remove(k).insert(k, v) == m.insert(k, v),
{
    assert_maps_equal!(m.remove(k).insert(k, v), m.insert(k, v));
}

/// Pushing a fresh key appends to the map view.
proof fn lemma_push<V>(r1: Registry<V>, r2: Registry<V>, key: Seq<char>, value: V)
    requires
        r1.wf(),
        !r1.has_key(key),
        r2.entries() == r1.entries().push((key, value)),
    ensures
        r2.wf(),
        r2.as_map() == r1.as_map().insert(key, value),
{
    let len1 = r1.entries().len() as int;
    assert(forall|a: int|
        0 <= a < len1 ==> r2.entries()[a] == r1.entries()[a]);
    assert(r2.entries()[len1] == (key, value));
    assert(forall|a: int| 0 <= a < len1 ==> r1.entries()[a].0 != key);
    assert(r2.wf());
    assert forall|k: Seq<char>|
        r2.as_map().contains_key(k) == r1.as_map().insert(key, value).contains_key(k) by {
        if k == key {
            assert(r2.entries()[len1].0 == k);
            assert(r2.has_key(k));
        } else {
            if r1.has_key(k) {
                let a = choose|a: int| 0 <= a < len1 && r1.entries()[a].0 == k;
                assert(r2.entries()[a].0 == k);
                assert(r2.has_key(k));
            }
            if r2.has_key(k) {
                let a = choose|a: int|
                    0 <= a < r2.entries().len() && r2.entries()[a].0 == k;
                assert(a != len1);
                assert(r1.entries()[a].0 == k);
                assert(r1.has_key(k));
            }
        }
    }
    assert forall|k: Seq<char>| #[trigger]
        r2.as_map().contains_key(k) implies r2.as_map()[k] == r1.as_map().insert(
        key,
        value,
    )[k] by {
        if k == key {
            r2.lemma_entry_in_map(len1);
        } else {
            let a = choose|a: int| 0 <= a < r2.entries().len() && r2.entries()[a].0 == k;
            assert(0 <= a < r2.entries().len() && r2.entries()[a].0 == k);
            assert(a != len1);
            r2.lemma_entry_in_map(a);
            r1.lemma_entry_in_map(a);
        }
    }
    assert_maps_equal!(r2.as_map(), r1.as_map().insert(key, value));
}

/// Removing the entry at `i` by a swap with the last entry deletes exactly
/// its key from the map view.
proof fn lemma_swap_remove<V>(r1: Registry<V>, r2: Registry<V>, i: int)
    requires
        r1.wf(),
        0 <= i < r1.entries().len(),
        r2.entries() == r1.entries().update(i, r1.entries().last()).drop_last(),
    ensures
        r2.wf(),
        r2.as_map() == r1.as_map().remove(r1.entries()[i].0),
{
    let len1 = r1.entries().len() as int;
    let key = r1.entries()[i].0;
    assert(r2.entries().len() == len1 - 1);
    assert(forall|a: int|
        0 <= a < len1 - 1 ==> r2.entries()[a] == (if a == i {
            r1.entries()[len1 - 1]
        } else {
            r1.entries()[a]
        }));
    assert forall|a: int, b: int|
        0 <= a < b < r2.entries().len() implies r2.entries()[a].0 != r2.entries()[b].0 by {
        let a1 = if a == i { len1 - 1 } else { a };
        let b1 = if b == i { len1 - 1 } else { b };
        assert(r2.entries()[a] == r1.entries()[a1]);
        assert(r2.entries()[b] == r1.entries()[b1]);
        assert(a1 != b1);
    }
    assert forall|a: int| 0 <= a < r2.entries().len() implies r2.entries()[a].0 != key by {
        let a1 = if a == i { len1 - 1 } else { a };
        assert(r2.entries()[a] == r1.entries()[a1]);
        if a1 != i {
            assert(r1.entries()[a1].0 != r1.entries()[i].0);
        }
    }
    assert forall|k: Seq<char>|
        r2.as_map().contains_key(k) == r1.as_map().remove(key).contains_key(k) by {
        if k != key {
            if r1.has_key(k) {
                let a = choose|a: int| 0 <= a < len1 && r1.entries()[a].0 == k;
                assert(a != i);
                if a == len1 - 1 {
                    if i < len1 - 1 {
                        assert(r2.entries()[i] == r1.entries()[len1 - 1]);
                        assert(r2.has_key(k));
                    }
                } else {
                    assert(r2.entries()[a] == r1.entries()[a]);
                    assert(r2.has_key(k));
                }
            }
            if r2.has_key(k) {
                let a = choose|a: int|
                    0 <= a < r2.entries().len() && r2.entries()[a].0 == k;
                let a1 = if a == i { len1 - 1 } else { a };
                assert(r2.entries()[a] == r1.entries()[a1]);
                assert(r1.has_key(k));
            }
        } else {
            assert(!r2.has_key(k));
        }
    }
    assert forall|k: Seq<char>| #[trigger]
        r2.as_map().contains_key(k) implies r2.as_map()[k] == r1.as_map().remove(key)[k] by {
        let a = choose|a: int| 0 <= a < r2.entries().len() && r2.entries()[a].0 == k;
        assert(0 <= a < r2.entries().len() && r2.entries()[a].0 == k);
        let a1 = if a == i { len1 - 1 } else { a };
        assert(r2.entries()[a] == r1.entries()[a1]);
        r2.lemma_entry_in_map(a);
        r1.lemma_entry_in_map(a1);
        assert(k != key);
    }
    assert_maps_equal!(r2.as_map(), r1.as_map().remove(key));
}

} // verus!
