//! A keyed storage table: the in-memory counterpart of a storage map, kept as a
//! list of entries with distinct keys and viewed as a mathematical `Map`.
use vstd::prelude::*;

verus! {

/// A value that a storage table can hold and hand back: it can produce a
/// copy of itself with the same view.
pub trait StorageItem: View + Sized {
    fn duplicate(&self) -> (r: Self)
        ensures
            r@ == self@,
    ;
}

/// A key of a storage table: two keys are compared by their views.
pub trait StorageKey: StorageItem {
    fn same_key(&self, other: &Self) -> (r: bool)
        ensures
            r == (self@ == other@),
    ;
}

impl StorageItem for u64 {
    fn duplicate(&self) -> (r: Self) {
        *self
    }
}

impl StorageKey for u64 {
    fn same_key(&self, other: &Self) -> (r: bool) {
        *self == *other
    }
}

impl StorageItem for bool {
    fn duplicate(&self) -> (r: Self) {
        *self
    }
}

impl StorageItem for Vec<u8> {
    fn duplicate(&self) -> (r: Self) {
        let mut out: Vec<u8> = Vec::new();
        let mut i: usize = 0;
        while i < self.len()
            invariant
                i <= self@.len(),
                out@ == self@.subrange(0, i as int),
            decreases self@.len() - i,
        {
            out.push(self[i]);
            i = i + 1;
        }
        assert(out@ =~= self@);
        out
    }
}

impl StorageKey for Vec<u8> {
    fn same_key(&self, other: &Self) -> (r: bool) {
        if self.len() != other.len() {
            return false;
        }
        let mut i: usize = 0;
        while i < self.len()
            invariant
                self@.len() == other@.len(),
                i <= self@.len(),
                forall|j: int| 0 <= j < i ==> self@[j] == other@[j],
            decreases self@.len() - i,
        {
            if self[i] != other[i] {
                return false;
            }
            i = i + 1;
        }
        assert(self@ =~= other@);
        true
    }
}

impl StorageItem for (Vec<u8>, u64) {
    fn duplicate(&self) -> (r: Self) {
        (self.0.duplicate(), self.1)
    }
}

impl StorageKey for (Vec<u8>, u64) {
    fn same_key(&self, other: &Self) -> (r: bool) {
        self.0.same_key(&other.0) && self.1 == other.1
    }
}

/// Entries with pairwise distinct keys, together with the map they stand for.
pub struct StorageTable<K: View, V: View> {
    entries: Vec<(K, V)>,
    contents: Ghost<Map<K::V, V::V>>,
}

impl<K: View, V: View> View for StorageTable<K, V> {
    type V = Map<K::V, V::V>;

    closed spec fn view(&self) -> Map<K::V, V::V> {
        self.contents@
    }
}

impl<K: StorageKey, V: StorageItem> StorageTable<K, V> {
    spec fn key_at(&self, i: int) -> K::V {
        self.entries@[i].0@
    }

    spec fn val_at(&self, i: int) -> V::V {
        self.entries@[i].1@
    }

    /// The entries have distinct keys and hold exactly the table's map.
    pub closed spec fn wf(&self) -> bool {
        let n = self.entries@.len();
        &&& forall|i: int, j: int|
            0 <= i < n && 0 <= j < n && i != j ==> #[trigger] self.key_at(i) != #[trigger] self.key_at(
                j,
            )
        &&& forall|i: int|
            0 <= i < n ==> self.contents@.contains_key(#[trigger] self.key_at(i))
                && self.contents@[self.key_at(i)] == self.val_at(i)
        &&& forall|k: K::V|
            #[trigger] self.contents@.contains_key(k) ==> exists|i: int|
                0 <= i < n && #[trigger] self.key_at(i) == k
    }

    /// An empty table.
    pub fn new() -> (t: Self)
        ensures
            t.wf(),
            t@ == Map::<K::V, V::V>::empty(),
    {
        StorageTable { entries: Vec::new(), contents: Ghost(Map::empty()) }
    }

    fn find(&self, k: &K) -> (r: Option<usize>)
        requires
            self.wf(),
        ensures
            match r {
                Some(i) => i < self.entries@.len() && self.key_at(i as int) == k@,
                None => !self@.contains_key(k@),
            },
    {
        let mut i: usize = 0;
        while i < self.entries.len()
            invariant
                self.wf(),
                i <= self.entries@.len(),
                forall|j: int| 0 <= j < i ==> self.key_at(j) != k@,
            decreases self.entries@.len() - i,
        {
            if self.entries[i].0.same_key(k) {
                return Some(i);
            }
            i = i + 1;
        }
        None
    }

    /// Whether the table holds an entry for `k`.
    pub fn contains_key(&self, k: &K) -> (r: bool)
        requires
            self.wf(),
        ensures
            r == self@.contains_key(k@),
    {
        match self.find(k) {
            Some(_) => true,
            None => false,
        }
    }

    /// A copy of the value stored under `k`, if there is one.
    pub fn get(&self, k: &K) -> (r: Option<V>)
        requires
            self.wf(),
        ensures
            r.is_some() == self@.contains_key(k@),
            r.is_some() ==> r.unwrap()@ == self@[k@],
    {
        match self.find(k) {
            Some(i) => Some(self.entries[i].1.duplicate()),
            None => None,
        }
    }

    /// Stores `v` under `k`, replacing any value stored there before.
    pub fn insert(&mut self, k: K, v: V)
        requires
            old(self).wf(),
        ensures
            final(self).wf(),
            final(self)@ == old(self)@.insert(k@, v@),
    {
        let ghost new_contents = self.contents@.insert(k@, v@);
        let ghost key = k@;
        let ghost before = *self;
        let found = self.find(&k);
        let ghost pos: int = match found {
            Some(i) => i as int,
            None => before.entries@.len() as int,
        };
        match found {
            Some(i) => {
                self.entries.set(i, (k, v));
            },
            None => {
                self.entries.push((k, v));
            },
        }
        self.contents = Ghost(new_contents);
        assert(self.key_at(pos) == key && self.val_at(pos) == new_contents[key]);
        assert forall|i: int| 0 <= i < before.entries@.len() && i != pos implies #[trigger] before.key_at(i)
            != key by {
            match found {
                Some(_) => {
                    assert(before.key_at(pos) == key);
                },
                None => {
                    assert(before.contents@.contains_key(before.key_at(i)));
                },
            }
        }
        assert forall|i: int| 0 <= i < self.entries@.len() && i != pos implies #[trigger] self.entries@[i]
            == before.entries@[i] && before.key_at(i) != key by {}
        assert forall|k2: K::V| #[trigger] self.contents@.contains_key(k2) implies exists|i: int|
            0 <= i < self.entries@.len() && #[trigger] self.key_at(i) == k2 by {
            if k2 == key {
                assert(self.key_at(pos) == k2);
            } else {
                assert(before.contents@.contains_key(k2));
                let i = choose|i: int| 0 <= i < before.entries@.len() && before.key_at(i) == k2;
                assert(i != pos);
                assert(self.entries@[i] == before.entries@[i]);
                assert(self.key_at(i) == k2);
            }
        }
        assert forall|i: int| 0 <= i < self.entries@.len() implies self.contents@.contains_key(
            #[trigger] self.key_at(i),
        ) && self.contents@[self.key_at(i)] == self.val_at(i) by {
            if i != pos {
                assert(self.entries@[i] == before.entries@[i]);
                assert(before.contents@.contains_key(before.key_at(i)));
            }
        }
        assert forall|i: int, j: int|
            0 <= i < self.entries@.len() && 0 <= j < self.entries@.len() && i != j implies #[trigger] self.key_at(
            i,
        ) != #[trigger] self.key_at(j) by {
            if i != pos && j != pos {
                assert(before.key_at(i) != before.key_at(j));
                assert(self.key_at(i) == before.key_at(i));
                assert(self.key_at(j) == before.key_at(j));
            } else if i == pos {
                assert(self.entries@[j] == before.entries@[j]);
            } else {
                assert(self.entries@[i] == before.entries@[i]);
            }
        }
    }
}

} // verus!
