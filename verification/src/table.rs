//! A finite map kept as a list of entries whose keys are pairwise different.

use vstd::prelude::*;

verus! {

/// What can serve as a key: a value that stands for an identity, can be
/// compared with another by it, and can be copied.
pub trait TableKey: Sized {
    /// What a key stands for.
    type Id;

    /// The identity that the key stands for.
    spec fn id(&self) -> Self::Id;

    /// Whether two keys stand for the same.
    fn same_as(&self, other: &Self) -> (same: bool)
        ensures
            same == (self.id() == other.id()),
    ;

    /// Another key for the same.
    fn duplicate(&self) -> (copy: Self)
        ensures
            copy.id() == self.id(),
    ;
}

#[derive(Debug)]
struct Entry<K, V> {
    key: K,
    value: V,
}

/// A finite map from what the keys stand for to values.
#[derive(Debug)]
pub struct Table<K: TableKey, V> {
    entries: Vec<Entry<K, V>>,
}

impl<K: TableKey, V> View for Table<K, V> {
    type V = Map<K::Id, V>;

    closed spec fn view(&self) -> Map<K::Id, V> {
        Map::new(
            |k: K::Id| self.ids().contains(k),
            |k: K::Id| self.entries[self.ids().index_of(k)].value,
        )
    }
}

impl<K: TableKey, V> Table<K, V> {
    /// What the keys stand for, in the order of the entries.
    closed spec fn ids(&self) -> Seq<K::Id> {
        Seq::new(self.entries.len() as nat, |i: int| self.entries[i].key.id())
    }

    #[verifier::type_invariant]
    spec fn distinct_ids(&self) -> bool {
        self.ids().no_duplicates()
    }

    /// With pairwise different keys, entry `i` is what the map holds for its key.
    proof fn lemma_entry(&self, i: int)
        requires
            self.ids().no_duplicates(),
            0 <= i < self.entries.len(),
        ensures
            self@.contains_key(self.entries[i].key.id()),
            self@[self.entries[i].key.id()] == self.entries[i].value,
            self.ids().index_of(self.entries[i].key.id()) == i,
    {
        let k = self.entries[i].key.id();
        assert(self.ids()[i] == k);
        let j = self.ids().index_of(k);
        assert(0 <= j < self.ids().len() && self.ids()[j] == k);
    }

    /// The keys of the map are finitely many, as many as there are entries.
    proof fn lemma_size(&self)
        requires
            self.ids().no_duplicates(),
        ensures
            self@.dom().finite(),
            self@.dom().len() == self.entries.len(),
    {
        self.ids().unique_seq_to_set();
        assert(self@.dom() =~= self.ids().to_set());
    }

    /// The empty map.
    pub fn new() -> (m: Self)
        ensures
            m@ == Map::<K::Id, V>::empty(),
    {
        let m = Table { entries: Vec::new() };
        assert(m@ =~= Map::<K::Id, V>::empty());
        m
    }

    /// Position of the entry for `key`, if there is one.
    fn find(&self, key: &K) -> (found: Option<usize>)
        ensures
            match found {
                Some(i) => i < self.entries.len() && self.entries[i as int].key.id() == key.id(),
                None => !self.ids().contains(key.id()),
            },
    {
        let mut i: usize = 0;
        while i < self.entries.len()
            invariant
                i <= self.entries.len(),
                forall|j: int| 0 <= j < i ==> self.entries[j].key.id() != key.id(),
            decreases self.entries.len() - i,
        {
            if self.entries[i].key.same_as(key) {
                return Some(i);
            }
            i += 1;
        }
        None
    }

    /// Whether the map holds a value for `key`.
    pub fn contains_key(&self, key: &K) -> (found: bool)
        ensures
            found == self@.contains_key(key.id()),
    {
        match self.find(key) {
            Some(i) => {
                assert(self.ids()[i as int] == key.id());
                true
            },
            None => false,
        }
    }

    /// The value for `key`, if the map holds one.
    pub fn get(&self, key: &K) -> (found: Option<&V>)
        ensures
            match found {
                Some(v) => self@.contains_key(key.id()) && self@[key.id()] == *v,
                None => !self@.contains_key(key.id()),
            },
    {
        proof {
            use_type_invariant(self);
        }
        match self.find(key) {
            Some(i) => {
                proof {
                    self.lemma_entry(i as int);
                }
                Some(&self.entries[i].value)
            },
            None => None,
        }
    }

    /// Sets the value for `key`, and hands back the value it replaces.
    pub fn insert(&mut self, key: K, value: V) -> (replaced: Option<V>)
        ensures
            final(self)@ == old(self)@.insert(key.id(), value),
            replaced == if old(self)@.contains_key(key.id()) {
                Some(old(self)@[key.id()])
            } else {
                None::<V>
            },
    {
        proof {
            use_type_invariant(&*self);
        }
        let ghost before = *self;
        let found = self.find(&key);
        let mut entries: Vec<Entry<K, V>> = Vec::new();
        core::mem::swap(&mut self.entries, &mut entries);
        let replaced = match found {
            Some(i) => {
                proof {
                    before.lemma_entry(i as int);
                }
                Some(entries.swap_remove(i).value)
            },
            None => None,
        };
        let ghost middle = Table { entries };
        entries.push(Entry { key, value });
        proof {
            assert(entries@.drop_last() =~= middle.entries@);
            Self::lemma_after_insert(before, middle, Table { entries }, found, key.id(), value);
        }
        core::mem::swap(&mut self.entries, &mut entries);
        replaced
    }

    /// Takes the entry for `key` out of the map, if there is one.
    pub fn remove(&mut self, key: &K) -> (removed: Option<V>)
        ensures
            final(self)@ == old(self)@.remove(key.id()),
            removed == if old(self)@.contains_key(key.id()) {
                Some(old(self)@[key.id()])
            } else {
                None::<V>
            },
    {
        proof {
            use_type_invariant(&*self);
        }
        let ghost before = *self;
        match self.find(key) {
            Some(i) => {
                proof {
                    before.lemma_entry(i as int);
                }
                let mut entries: Vec<Entry<K, V>> = Vec::new();
                core::mem::swap(&mut self.entries, &mut entries);
                let entry = entries.swap_remove(i);
                proof {
                    Self::lemma_after_swap_remove(before, Table { entries }, i as int);
                }
                core::mem::swap(&mut self.entries, &mut entries);
                Some(entry.value)
            },
            None => {
                assert(self@ =~= before@.remove(key.id()));
                None
            },
        }
    }

    /// Number of keys.
    pub fn len(&self) -> (n: u64)
        ensures
            self@.dom().finite(),
            n == self@.dom().len(),
    {
        proof {
            use_type_invariant(self);
            self.lemma_size();
        }
        self.entries.len() as u64
    }

    /// Whether the map holds nothing.
    pub fn is_empty(&self) -> (empty: bool)
        ensures
            empty == (self@ == Map::<K::Id, V>::empty()),
    {
        proof {
            use_type_invariant(self);
            self.lemma_size();
            if self.entries.len() == 0 {
                assert(self@ =~= Map::<K::Id, V>::empty());
            } else {
                self.lemma_entry(0);
            }
        }
        self.entries.len() == 0
    }

    /// The keys of the map, each once.
    pub fn keys(&self) -> (list: Vec<K>)
        ensures
            list@.len() == self@.dom().len(),
            forall|i: int| 0 <= i < list@.len() ==> self@.contains_key(#[trigger] list@[i].id()),
            forall|i: int, j: int|
                0 <= i < j < list@.len() ==> list@[i].id() != list@[j].id(),
            forall|k: K::Id|
                self@.contains_key(k) ==> exists|i: int|
                    0 <= i < list@.len() && #[trigger] list@[i].id() == k,
    {
        proof {
            use_type_invariant(self);
            self.lemma_size();
        }
        let mut list: Vec<K> = Vec::new();
        let mut i: usize = 0;
        while i < self.entries.len()
            invariant
                i <= self.entries.len(),
                list@.len() == i,
                forall|j: int| 0 <= j < i ==> #[trigger] list@[j].id() == self.entries[j].key.id(),
            decreases self.entries.len() - i,
        {
            list.push(self.entries[i].key.duplicate());
            i += 1;
        }
        proof {
            assert forall|j: int| 0 <= j < list@.len() implies self@.contains_key(
                #[trigger] list@[j].id(),
            ) by {
                self.lemma_entry(j);
            }
            assert forall|a: int, b: int| 0 <= a < b < list@.len() implies list@[a].id()
                != list@[b].id() by {
                assert(self.ids()[a] != self.ids()[b]);
            }
            assert forall|k: K::Id| self@.contains_key(k) implies exists|j: int|
                0 <= j < list@.len() && #[trigger] list@[j].id() == k by {
                let j = self.ids().index_of(k);
                assert(self.ids()[j] == k);
                assert(list@[j].id() == k);
            }
        }
        list
    }

    /// What taking entry `i` out by a swap with the last entry does to the map.
    proof fn lemma_after_swap_remove(before: Self, after: Self, i: int)
        requires
            before.ids().no_duplicates(),
            0 <= i < before.entries.len(),
            after.entries@ == before.entries@.update(i, before.entries@.last()).drop_last(),
        ensures
            after.ids().no_duplicates(),
            after@ == before@.remove(before.entries[i].key.id()),
    {
        let k = before.entries[i].key.id();
        let n = before.entries.len() as int;
        assert forall|a: int| 0 <= a < n - 1 implies #[trigger] after.ids()[a] == (if a == i {
            before.ids()[n - 1]
        } else {
            before.ids()[a]
        }) by {}
        assert forall|key: K::Id| #[trigger]
            after@.contains_key(key) <==> before@.remove(k).contains_key(key) by {
            if after@.contains_key(key) {
                let a = after.ids().index_of(key);
                assert(after.ids()[a] == key);
                let b = if a == i {
                    n - 1
                } else {
                    a
                };
                assert(before.ids()[b] == key);
                if key == k {
                    assert(before.ids()[i] == k);
                }
            }
            if before@.remove(k).contains_key(key) {
                let b = before.ids().index_of(key);
                assert(before.ids()[b] == key);
                assert(b != i);
                let a = if b == n - 1 {
                    i
                } else {
                    b
                };
                assert(after.ids()[a] == key);
            }
        }
        assert forall|key: K::Id| #[trigger] after@.contains_key(key) implies after@[key]
            == before@.remove(k)[key] by {
            let a = after.ids().index_of(key);
            assert(after.ids()[a] == key);
            let b = if a == i {
                n - 1
            } else {
                a
            };
            before.lemma_entry(b);
        }
        assert(after@ =~= before@.remove(k));
    }

    /// What replacing or adding the entry for `k` does to the map.
    proof fn lemma_after_insert(
        before: Self,
        middle: Self,
        after: Self,
        found: Option<usize>,
        k: K::Id,
        value: V,
    )
        requires
            before.ids().no_duplicates(),
            match found {
                Some(i) => i < before.entries.len() && before.entries[i as int].key.id() == k
                    && middle.entries@ == before.entries@.update(
                    i as int,
                    before.entries@.last(),
                ).drop_last(),
                None => !before.ids().contains(k) && middle.entries@ == before.entries@,
            },
            after.entries@.len() == middle.entries@.len() + 1,
            after.entries@.drop_last() == middle.entries@,
            after.entries@.last().key.id() == k,
            after.entries@.last().value == value,
        ensures
            after.ids().no_duplicates(),
            after@ == before@.insert(k, value),
    {
        match found {
            Some(i) => {
                Self::lemma_after_swap_remove(before, middle, i as int);
            },
            None => {
                assert(middle.ids() =~= before.ids());
                assert(middle@ =~= before@.remove(k));
            },
        }
        assert(middle@ == before@.remove(k));
        assert(!middle.ids().contains(k)) by {
            if middle.ids().contains(k) {
                assert(middle@.contains_key(k));
            }
        }
        let n = middle.entries.len() as int;
        assert forall|a: int| 0 <= a < n implies #[trigger] after.ids()[a] == middle.ids()[a] by {
            assert(after.entries@.drop_last()[a] == middle.entries@[a]);
        }
        assert(after.ids()[n] == k);
        assert forall|a: int, b: int| 0 <= a < b < n + 1 implies after.ids()[a] != after.ids()[b] by {
            if b == n {
                assert(middle.ids()[a] == after.ids()[a]);
            } else {
                assert(middle.ids()[a] != middle.ids()[b]);
            }
        }
        assert forall|key: K::Id| #[trigger]
            after@.contains_key(key) <==> before@.insert(k, value).contains_key(key) by {
            if after@.contains_key(key) {
                let a = after.ids().index_of(key);
                assert(after.ids()[a] == key);
                if a < n {
                    assert(middle.ids()[a] == key);
                    assert(middle@.contains_key(key));
                }
            }
            if before@.insert(k, value).contains_key(key) {
                if key == k {
                    assert(after.ids()[n] == key);
                } else {
                    assert(middle@.contains_key(key));
                    let a = middle.ids().index_of(key);
                    assert(middle.ids()[a] == key);
                    assert(after.ids()[a] == key);
                }
            }
        }
        assert forall|key: K::Id| #[trigger] after@.contains_key(key) implies after@[key]
            == before@.insert(k, value)[key] by {
            let a = after.ids().index_of(key);
            assert(after.ids()[a] == key);
            after.lemma_entry(a);
            if a < n {
                assert(middle.ids()[a] == key);
                middle.lemma_entry(a);
                assert(after.entries@.drop_last()[a] == middle.entries@[a]);
            }
        }
        assert(after@ =~= before@.insert(k, value));
    }
}

impl<K: TableKey, V: Copy> Clone for Table<K, V> {
    fn clone(&self) -> (res: Self)
        ensures
            res@ == self@,
    {
        proof {
            use_type_invariant(self);
        }
        let mut entries: Vec<Entry<K, V>> = Vec::new();
        let mut i: usize = 0;
        while i < self.entries.len()
            invariant
                i <= self.entries.len(),
                entries@.len() == i,
                forall|j: int|
                    0 <= j < i ==> entries@[j].key.id() == self.entries[j].key.id()
                        && entries@[j].value == self.entries[j].value,
            decreases self.entries.len() - i,
        {
            let key = self.entries[i].key.duplicate();
            let value = self.entries[i].value;
            entries.push(Entry { key, value });
            i += 1;
        }
        proof {
            let candidate = Table { entries };
            assert(candidate.ids() =~= self.ids());
        }
        let res = Table { entries };
        proof {
            assert(res.ids() =~= self.ids());
            assert forall|k: K::Id| #[trigger] res@.contains_key(k) implies res@[k] == self@[k] by {
                let a = res.ids().index_of(k);
                assert(res.ids()[a] == k);
            }
            assert(res@ =~= self@);
        }
        res
    }
}

} // verus!
