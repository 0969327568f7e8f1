//! An insertion-ordered collection of entries found by a numeric key.
//!
//! The entries stand in a vector, in the order in which their keys first
//! came; an `IndexMap` from key to position finds one without a scan.

use vstd::prelude::*;
use indexmap::IndexMap;

verus! {

/// `indexmap::IndexMap`, whose inside stays hidden.
#[verifier::external_type_specification]
#[verifier::external_body]
#[verifier::reject_recursive_types(K)]
#[verifier::reject_recursive_types(V)]
#[verifier::reject_recursive_types(S)]
pub struct ExIndexMap<K, V, S>(IndexMap<K, V, S>);

/// The key-value pairs that an `IndexMap` from keys to positions holds.
pub uninterp spec fn index_entries(m: IndexMap<i64, usize>) -> Map<i64, usize>;

/// `IndexMap::new`: the map it returns holds no pair.
#[verifier::external_body]
fn index_new() -> (fresh: IndexMap<i64, usize>)
    ensures
        index_entries(fresh) == (Map::<i64, usize>::empty()),
{
    IndexMap::new()
}

/// `IndexMap::get`: the value stored under `key`, if the map holds the key.
#[verifier::external_body]
fn index_get(m: &IndexMap<i64, usize>, key: i64) -> (found: Option<usize>)
    ensures
        found == (if index_entries(*m).dom().contains(key) {
            Some(index_entries(*m)[key])
        } else {
            None
        }),
{
    m.get(&key).copied()
}

/// `IndexMap::insert`: afterwards the map holds `value` under `key`, and
/// every other key as before.
#[verifier::external_body]
fn index_insert(m: &mut IndexMap<i64, usize>, key: i64, value: usize)
    ensures
        index_entries(*final(m)) == index_entries(*old(m)).insert(key, value),
{
    m.insert(key, value);
}

/// A value that has a key.
pub trait Key {
    /// The key of the value.
    spec fn key(&self) -> i64;
}

/// A value that carries the key under which a registry files it.
pub trait Keyed: Key {
    /// The key of the value.
    fn id(&self) -> (k: i64)
        ensures
            k == self.key(),
    ;
}

/// No two entries of `s` have the same key.
pub open spec fn distinct_keys<T: Key>(s: Seq<T>) -> bool {
    forall|i: int, j: int| 0 <= i < j < s.len() ==> s[i].key() != s[j].key()
}

/// Whether some entry of `s` has the key `id`.
pub open spec fn has_key<T: Key>(s: Seq<T>, id: i64) -> bool {
    exists|i: int| 0 <= i < s.len() && #[trigger] s[i].key() == id
}

/// The position in `s` of the entry with the key `id`, if there is one.
pub open spec fn position_of<T: Key>(s: Seq<T>, id: i64) -> Option<int> {
    if has_key(s, id) {
        Some(choose|i: int| 0 <= i < s.len() && #[trigger] s[i].key() == id)
    } else {
        None
    }
}

/// `s` with `value` filed under its key: in the place of the entry that had
/// the key, or last where none had it.
pub open spec fn put<T: Key>(s: Seq<T>, value: T) -> Seq<T> {
    match position_of(s, value.key()) {
        Some(p) => s.update(p, value),
        None => s.push(value),
    }
}

/// Where keys are distinct, the entry with a given key stands at one
/// position only.
pub proof fn lemma_position_unique<T: Key>(s: Seq<T>, id: i64, p: int)
    requires
        distinct_keys(s),
        0 <= p < s.len(),
        s[p].key() == id,
    ensures
        position_of(s, id) == Some(p),
{
    let c = choose|i: int| 0 <= i < s.len() && #[trigger] s[i].key() == id;
    assert(has_key(s, id));
    if c < p {
        assert(s[c].key() != s[p].key());
    } else if p < c {
        assert(s[p].key() != s[c].key());
    }
}

/// Two sequences with the same keys at the same positions find a key at
/// the same position.
pub proof fn lemma_position_same_keys<A: Key, B: Key>(a: Seq<A>, b: Seq<B>, id: i64)
    requires
        a.len() == b.len(),
        forall|i: int| 0 <= i < a.len() ==> (#[trigger] a[i]).key() == b[i].key(),
        distinct_keys(a),
    ensures
        distinct_keys(b),
        position_of(a, id) == position_of(b, id),
        has_key(a, id) == has_key(b, id),
{
    assert forall|i: int, j: int| 0 <= i < j < b.len() implies b[i].key() != b[j].key() by {
        assert(a[i].key() == b[i].key());
        assert(a[j].key() == b[j].key());
    }
    if has_key(a, id) {
        let p = choose|i: int| 0 <= i < a.len() && #[trigger] a[i].key() == id;
        assert(a[p].key() == b[p].key());
        lemma_position_unique(a, id, p);
        lemma_position_unique(b, id, p);
    } else if has_key(b, id) {
        let p = choose|i: int| 0 <= i < b.len() && #[trigger] b[i].key() == id;
        assert(a[p].key() == b[p].key());
    }
}

/// A value whose key no entry has is filed last.
pub proof fn lemma_put_new<T: Key>(s: Seq<T>, value: T)
    requires
        forall|i: int| 0 <= i < s.len() ==> (#[trigger] s[i]).key() != value.key(),
    ensures
        put(s, value) == s.push(value),
{
}

/// An insertion-ordered collection of keyed entries.
pub struct Registry<T> {
    index: IndexMap<i64, usize>,
    slots: Vec<T>,
}

impl<T: Keyed> View for Registry<T> {
    type V = Seq<T>;

    /// The entries, in the order in which their keys first came.
    closed spec fn view(&self) -> Seq<T> {
        self.slots@
    }
}

impl<T: Keyed> Registry<T> {
    /// The index holds exactly the keys of the entries, each with the
    /// position of its entry.
    pub closed spec fn wf(&self) -> bool {
        &&& forall|i: int|
            0 <= i < self.slots@.len() ==> {
                &&& index_entries(self.index).dom().contains(#[trigger] self.slots@[i].key())
                &&& index_entries(self.index)[self.slots@[i].key()] == i
            }
        &&& forall|k: i64| #[trigger]
            index_entries(self.index).dom().contains(k) ==> {
                &&& index_entries(self.index)[k] < self.slots@.len()
                &&& self.slots@[index_entries(self.index)[k] as int].key() == k
            }
    }

    /// The keys of a well-formed registry are distinct.
    pub proof fn lemma_distinct(&self)
        requires
            self.wf(),
        ensures
            distinct_keys(self@),
    {
    }

    /// A registry without entries.
    pub fn new() -> (r: Self)
        ensures
            r.wf(),
            r@ == Seq::<T>::empty(),
    {
        Registry { index: index_new(), slots: Vec::new() }
    }

    /// The number of entries.
    pub fn len(&self) -> (n: usize)
        ensures
            n == self@.len(),
    {
        self.slots.len()
    }

    /// The entry at position `p`.
    pub fn get(&self, p: usize) -> (entry: &T)
        requires
            p < self@.len(),
        ensures
            *entry == self@[p as int],
    {
        &self.slots[p]
    }

    /// The position of the entry with the key `id`, if there is one.
    pub fn position(&self, id: i64) -> (found: Option<usize>)
        requires
            self.wf(),
        ensures
            match found {
                Some(p) => position_of(self@, id) == Some(p as int) && p < self@.len()
                    && self@[p as int].key() == id,
                None => position_of(self@, id) is None && !has_key(self@, id),
            },
    {
        let found = index_get(&self.index, id);
        proof {
            match found {
                Some(p) => {
                    lemma_position_unique(self@, id, p as int);
                },
                None => {
                    if has_key(self@, id) {
                        let i = choose|i: int| 0 <= i < self@.len() && #[trigger] self@[i].key() == id;
                        assert(index_entries(self.index).dom().contains(self.slots@[i].key()));
                    }
                },
            }
        }
        found
    }

    /// Files `value` under its key: in the place of the entry that had the
    /// key, or last where none had it.
    pub fn insert(&mut self, value: T)
        requires
            old(self).wf(),
        ensures
            final(self).wf(),
            final(self)@ == put(old(self)@, value),
    {
        let id = value.id();
        match self.position(id) {
            Some(p) => {
                self.slots.set(p, value);
                proof {
                    assert forall|i: int| 0 <= i < self.slots@.len() implies {
                        &&& index_entries(self.index).dom().contains(#[trigger] self.slots@[i].key())
                        &&& index_entries(self.index)[self.slots@[i].key()] == i
                    } by {
                        if i != p {
                            assert(self.slots@[i] == old(self).slots@[i]);
                        }
                    }
                    assert forall|k: i64| #[trigger]
                        index_entries(self.index).dom().contains(k) implies {
                        &&& index_entries(self.index)[k] < self.slots@.len()
                        &&& self.slots@[index_entries(self.index)[k] as int].key() == k
                    } by {
                        let q = index_entries(self.index)[k] as int;
                        if q != p {
                            assert(self.slots@[q] == old(self).slots@[q]);
                        }
                    }
                }
            },
            None => {
                let p = self.slots.len();
                index_insert(&mut self.index, id, p);
                self.slots.push(value);
                proof {
                    assert forall|i: int| 0 <= i < self.slots@.len() implies {
                        &&& index_entries(self.index).dom().contains(#[trigger] self.slots@[i].key())
                        &&& index_entries(self.index)[self.slots@[i].key()] == i
                    } by {
                        if i < p {
                            assert(self.slots@[i] == old(self).slots@[i]);
                            assert(old(self).slots@[i].key() != id);
                        }
                    }
                    assert forall|k: i64| #[trigger]
                        index_entries(self.index).dom().contains(k) implies {
                        &&& index_entries(self.index)[k] < self.slots@.len()
                        &&& self.slots@[index_entries(self.index)[k] as int].key() == k
                    } by {
                        if k != id {
                            let q = index_entries(old(self).index)[k] as int;
                            assert(self.slots@[q] == old(self).slots@[q]);
                        }
                    }
                }
            },
        }
    }

    /// The entry at position `p`, to be changed in place. The registry stays
    /// well formed where the entry keeps its key.
    pub fn get_mut(&mut self, p: usize) -> (entry: &mut T)
        requires
            old(self).wf(),
            p < old(self)@.len(),
        ensures
            *entry == old(self)@[p as int],
            final(self)@ == old(self)@.update(p as int, *final(entry)),
            final(entry).key() == old(self)@[p as int].key() ==> final(self).wf(),
    {
        &mut self.slots[p]
    }
}

} // verus!
