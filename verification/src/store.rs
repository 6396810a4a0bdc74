//! The vault's local store: a map from typed data identifier to stored
//! block, held as a vector of entries with pairwise-distinct keys and
//! modeled as a `Map` from identifier model to datum model.

use vstd::prelude::*;

use crate::data::{Data, DataId, DataIdV, DataV};

verus! {

/// The key model of the entry at index `i`.
pub open spec fn key_at(s: Seq<(DataId, Data)>, i: int) -> DataIdV {
    s[i].0@
}

/// The value model of the entry at index `i`.
pub open spec fn val_at(s: Seq<(DataId, Data)>, i: int) -> DataV {
    s[i].1@
}

/// Some entry of `s` carries the key `k`.
pub open spec fn has_key(s: Seq<(DataId, Data)>, k: DataIdV) -> bool {
    exists|i: int| 0 <= i < s.len() && key_at(s, i) == k
}

/// No two entries of `s` carry the same key.
pub open spec fn keys_unique(s: Seq<(DataId, Data)>) -> bool {
    forall|i: int, j: int| 0 <= i < j < s.len() ==> key_at(s, i) != key_at(s, j)
}

/// The map that an entry sequence denotes; later entries win, though under
/// `keys_unique` no key occurs twice.
pub open spec fn store_map(s: Seq<(DataId, Data)>) -> Map<DataIdV, DataV>
    decreases s.len(),
{
    if s.len() == 0 {
        Map::empty()
    } else {
        store_map(s.drop_last()).insert(key_at(s, s.len() - 1), val_at(s, s.len() - 1))
    }
}

/// A key is in the denoted map exactly when some entry carries it.
pub proof fn lemma_store_map_contains(s: Seq<(DataId, Data)>, k: DataIdV)
    ensures
        store_map(s).dom().contains(k) <==> has_key(s, k),
    decreases s.len(),
{
    if s.len() == 0 {
    } else {
        let dl = s.drop_last();
        let last = s.len() - 1;
        lemma_store_map_contains(dl, k);
        if key_at(s, last) == k {
            assert(has_key(s, k));
        } else {
            if has_key(dl, k) {
                let i = choose|i: int| 0 <= i < dl.len() && key_at(dl, i) == k;
                assert(key_at(s, i) == k);
                assert(has_key(s, k));
            }
            if has_key(s, k) {
                let i = choose|i: int| 0 <= i < s.len() && key_at(s, i) == k;
                assert(i != last);
                assert(key_at(dl, i) == k);
                assert(has_key(dl, k));
            }
        }
    }
}

/// Under unique keys, the denoted map sends each entry's key to its value.
pub proof fn lemma_store_map_index(s: Seq<(DataId, Data)>, i: int)
    requires
        keys_unique(s),
        0 <= i < s.len(),
    ensures
        store_map(s).dom().contains(key_at(s, i)),
        store_map(s)[key_at(s, i)] == val_at(s, i),
    decreases s.len(),
{
    let last = s.len() - 1;
    if i == last {
    } else {
        let dl = s.drop_last();
        assert forall|a: int, b: int| 0 <= a < b < dl.len() implies key_at(dl, a) != key_at(
            dl,
            b,
        ) by {
            assert(key_at(dl, a) == key_at(s, a));
            assert(key_at(dl, b) == key_at(s, b));
        }
        assert(key_at(dl, i) == key_at(s, i));
        lemma_store_map_index(dl, i);
        assert(key_at(s, last) != key_at(s, i));
    }
}

/// Appending an entry denotes inserting its key; uniqueness is kept when the
/// key is fresh.
pub proof fn lemma_store_map_push(s: Seq<(DataId, Data)>, e: (DataId, Data))
    requires
        keys_unique(s),
        !has_key(s, e.0@),
    ensures
        keys_unique(s.push(e)),
        store_map(s.push(e)) == store_map(s).insert(e.0@, e.1@),
{
    let t = s.push(e);
    assert(t.drop_last() =~= s);
    assert(key_at(t, t.len() - 1) == e.0@);
    assert(val_at(t, t.len() - 1) == e.1@);
    assert forall|a: int, b: int| 0 <= a < b < t.len() implies key_at(t, a) != key_at(t, b) by {
        if b == t.len() - 1 {
            assert(key_at(t, a) == key_at(s, a));
            if key_at(s, a) == e.0@ {
                assert(has_key(s, e.0@));
            }
        } else {
            assert(key_at(t, a) == key_at(s, a));
            assert(key_at(t, b) == key_at(s, b));
        }
    }
}

/// Swapping the last entry into place `i` and dropping the tail denotes
/// removing the key at `i`.
pub proof fn lemma_swap_remove_map(s: Seq<(DataId, Data)>, i: int)
    requires
        keys_unique(s),
        0 <= i < s.len(),
    ensures
        keys_unique(s.update(i, s.last()).drop_last()),
        store_map(s.update(i, s.last()).drop_last()) == store_map(s).remove(key_at(s, i)),
        !has_key(s.update(i, s.last()).drop_last(), key_at(s, i)),
{
    let t = s.update(i, s.last()).drop_last();
    let k = key_at(s, i);
    let last = s.len() - 1;
    assert(t.len() == last);
    // Each index of `t` reads an index of `s` other than `i`.
    assert forall|j: int| 0 <= j < t.len() implies key_at(t, j) == key_at(
        s,
        (if j == i { last } else { j }),
    ) && val_at(t, j) == val_at(s, (if j == i { last } else { j })) && (if j == i {
        last
    } else {
        j
    }) != i || (j == i && i == last) by {}
    if i == last {
        assert forall|j: int| 0 <= j < t.len() implies key_at(t, j) == key_at(s, j) && val_at(
            t,
            j,
        ) == val_at(s, j) by {}
    }
    assert forall|a: int, b: int| 0 <= a < b < t.len() implies key_at(t, a) != key_at(t, b) by {
        let ja: int = if a == i { last } else { a };
        let jb: int = if b == i { last } else { b };
        assert(key_at(t, a) == key_at(s, ja));
        assert(key_at(t, b) == key_at(s, jb));
        assert(ja != jb);
    }
    assert forall|j: int| 0 <= j < t.len() implies key_at(t, j) != k by {
        let jj: int = if j == i { last } else { j };
        assert(key_at(t, j) == key_at(s, jj));
        if jj == i {
            // Only possible when i == last, but then j < t.len() == last rules j == i out.
            assert(false);
        }
    }
    assert(!has_key(t, k));
    assert forall|k2: DataIdV| #[trigger] store_map(t).dom().contains(k2) implies store_map(
        s,
    ).remove(k).dom().contains(k2) && store_map(t)[k2] == store_map(s).remove(k)[k2] by {
        lemma_store_map_contains(t, k2);
        let j = choose|j: int| 0 <= j < t.len() && key_at(t, j) == k2;
        let js: int = if j == i { last } else { j };
        assert(key_at(s, js) == k2 && val_at(s, js) == val_at(t, j));
        assert(k2 != k);
        lemma_store_map_index(t, j);
        lemma_store_map_index(s, js);
    }
    assert forall|k2: DataIdV| #[trigger] store_map(s).remove(k).dom().contains(k2) implies
        store_map(t).dom().contains(k2) by {
        lemma_store_map_contains(s, k2);
        let j = choose|j: int| 0 <= j < s.len() && key_at(s, j) == k2;
        assert(j != i);
        let jt: int = if j == last { i } else { j };
        if !(i == last && j == last) {
            assert(0 <= jt < t.len() && key_at(t, jt) == k2);
            assert(has_key(t, k2));
            lemma_store_map_contains(t, k2);
        }
    }
    assert(store_map(t) =~= store_map(s).remove(k));
}

/// An addressable map from data identifier to stored block.
#[derive(Clone, Debug)]
pub struct VaultStore {
    entries: Vec<(DataId, Data)>,
}

impl View for VaultStore {
    type V = Map<DataIdV, DataV>;

    closed spec fn view(&self) -> Map<DataIdV, DataV> {
        store_map(self.entries@)
    }
}

impl VaultStore {
    /// Entry keys are pairwise distinct.
    pub closed spec fn wf(&self) -> bool {
        keys_unique(self.entries@)
    }

    /// An empty store.
    pub fn new() -> (r: VaultStore)
        ensures
            r.wf(),
            r@ == Map::<DataIdV, DataV>::empty(),
    {
        VaultStore { entries: Vec::new() }
    }

    /// The index of the entry keyed by `id`, if one exists.
    fn find_index(&self, id: &DataId) -> (r: Option<usize>)
        ensures
            match r {
                Some(i) => i < self.entries.len() && key_at(self.entries@, i as int) == id@,
                None => !has_key(self.entries@, id@),
            },
    {
        let n = self.entries.len();
        let mut i: usize = 0;
        while i < n
            invariant
                n == self.entries.len(),
                0 <= i <= n,
                forall|j: int| 0 <= j < i ==> key_at(self.entries@, j) != id@,
            decreases n - i,
        {
            if self.entries[i].0.equals(id) {
                return Some(i);
            }
            i += 1;
        }
        proof {
            if has_key(self.entries@, id@) {
                let j = choose|j: int|
                    0 <= j < self.entries@.len() && key_at(self.entries@, j) == id@;
                assert(false);
            }
        }
        None
    }

    /// The stored block under `id`, if any.
    pub fn get(&self, id: &DataId) -> (r: Option<&Data>)
        requires
            self.wf(),
        ensures
            match r {
                Some(d) => self@.dom().contains(id@) && d@ == self@[id@],
                None => !self@.dom().contains(id@),
            },
    {
        match self.find_index(id) {
            Some(i) => {
                proof {
                    lemma_store_map_index(self.entries@, i as int);
                }
                Some(&self.entries[i].1)
            },
            None => {
                proof {
                    lemma_store_map_contains(self.entries@, id@);
                }
                None
            },
        }
    }

    /// Stores `data` under `id`, replacing any previous entry for `id`.
    pub fn put(&mut self, id: DataId, data: Data)
        requires
            old(self).wf(),
        ensures
            final(self).wf(),
            final(self)@ == old(self)@.insert(id@, data@),
    {
        let ghost s0 = self.entries@;
        let ghost k = id@;
        match self.find_index(&id) {
            Some(i) => {
                let _ = self.entries.swap_remove(i);
                proof {
                    lemma_swap_remove_map(s0, i as int);
                }
                let ghost s1 = self.entries@;
                proof {
                    lemma_store_map_push(s1, (id, data));
                }
                self.entries.push((id, data));
                proof {
                    assert(store_map(self.entries@) == store_map(s1).insert(k, data@));
                    assert(store_map(s1).insert(k, data@) =~= store_map(s0).insert(k, data@));
                }
            },
            None => {
                proof {
                    lemma_store_map_push(s0, (id, data));
                }
                self.entries.push((id, data));
            },
        }
    }

    /// Removes the entry under `id`, if any.
    pub fn remove(&mut self, id: &DataId)
        requires
            old(self).wf(),
        ensures
            final(self).wf(),
            final(self)@ == old(self)@.remove(id@),
    {
        let ghost s0 = self.entries@;
        match self.find_index(id) {
            Some(i) => {
                let _ = self.entries.swap_remove(i);
                proof {
                    lemma_swap_remove_map(s0, i as int);
                }
            },
            None => {
                proof {
                    lemma_store_map_contains(s0, id@);
                    assert(store_map(s0) =~= store_map(s0).remove(id@));
                }
            },
        }
    }
}

} // verus!
