//! A small map keyed by text, with a mathematical view.

use crate::text::str_eq;
use vstd::prelude::*;

verus! {

/// The mapping that a list of distinct keys and a list of values of the same
/// length stand for: each key maps to the value at its position.
pub open spec fn pairing<V>(ids: Seq<Seq<char>>, values: Seq<V>) -> Map<Seq<char>, V> {
    Map::new(|k: Seq<char>| ids.contains(k), |k: Seq<char>| values[ids.index_of(k)])
}

/// In a list without duplicates, every element is found at its own position.
pub proof fn lemma_position_of(ids: Seq<Seq<char>>, i: int)
    requires
        ids.no_duplicates(),
        0 <= i < ids.len(),
    ensures
        ids.contains(ids[i]),
        ids.index_of(ids[i]) == i,
{
}

/// Replacing the value at a position changes the mapping at that key only.
pub proof fn lemma_pairing_update<V>(ids: Seq<Seq<char>>, values: Seq<V>, i: int, value: V)
    requires
        ids.no_duplicates(),
        ids.len() == values.len(),
        0 <= i < ids.len(),
    ensures
        pairing(ids, values.update(i, value)) == pairing(ids, values).insert(ids[i], value),
{
    lemma_position_of(ids, i);
    assert(pairing(ids, values.update(i, value)) =~= pairing(ids, values).insert(ids[i], value));
}

/// Appending a new key with its value adds that key to the mapping.
pub proof fn lemma_pairing_push<V>(ids: Seq<Seq<char>>, values: Seq<V>, key: Seq<char>, value: V)
    requires
        ids.no_duplicates(),
        ids.len() == values.len(),
        !ids.contains(key),
    ensures
        ids.push(key).no_duplicates(),
        ids.push(key).index_of(key) == ids.len(),
        pairing(ids.push(key), values.push(value)) == pairing(ids, values).insert(key, value),
{
    let ids2 = ids.push(key);
    let values2 = values.push(value);
    assert(ids2.no_duplicates()) by {
        assert forall|a: int, b: int|
            0 <= a < ids2.len() && 0 <= b < ids2.len() && a != b implies ids2[a] != ids2[b] by {
            if a == ids.len() {
                assert(ids[b] == ids2[b]);
            } else if b == ids.len() {
                assert(ids[a] == ids2[a]);
            }
        }
    }
    assert(ids2[ids.len() as int] == key);
    assert forall|k: Seq<char>| ids2.contains(k) <==> (ids.contains(k) || k == key) by {
        if ids.contains(k) {
            let a = ids.index_of(k);
            assert(ids2[a] == k);
        }
        if ids2.contains(k) {
            let a = ids2.index_of(k);
            if a < ids.len() {
                assert(ids[a] == k);
            }
        }
    }
    assert forall|k: Seq<char>| ids2.contains(k) implies values2[ids2.index_of(k)] == pairing(
        ids,
        values,
    ).insert(key, value)[k] by {
        let a = ids2.index_of(k);
        lemma_position_of(ids2, a);
        if a < ids.len() {
            assert(ids[a] == k);
            lemma_position_of(ids, a);
        }
    }
    assert(pairing(ids2, values2) =~= pairing(ids, values).insert(key, value));
}

/// Taking out the key at a position removes that key from the mapping.
pub proof fn lemma_pairing_remove<V>(ids: Seq<Seq<char>>, values: Seq<V>, i: int)
    requires
        ids.no_duplicates(),
        ids.len() == values.len(),
        0 <= i < ids.len(),
    ensures
        ids.remove(i).no_duplicates(),
        pairing(ids.remove(i), values.remove(i)) == pairing(ids, values).remove(ids[i]),
{
    let ids2 = ids.remove(i);
    let values2 = values.remove(i);
    assert forall|a: int| 0 <= a < ids2.len() implies #[trigger] ids2[a] == ids[if a < i {
        a
    } else {
        a + 1
    }] by {}
    assert(ids2.no_duplicates());
    assert forall|k: Seq<char>| ids2.contains(k) <==> (ids.contains(k) && k != ids[i]) by {
        if ids2.contains(k) {
            let a = ids2.index_of(k);
            let b = if a < i {
                a
            } else {
                a + 1
            };
            assert(ids[b] == k);
        }
        if ids.contains(k) && k != ids[i] {
            let b = ids.index_of(k);
            let a = if b < i {
                b
            } else {
                b - 1
            };
            assert(ids2[a] == k);
        }
    }
    assert forall|k: Seq<char>| ids2.contains(k) implies values2[ids2.index_of(k)]
        == values[ids.index_of(k)] by {
        let a = ids2.index_of(k);
        let b = if a < i {
            a
        } else {
            a + 1
        };
        assert(ids[b] == k);
        lemma_position_of(ids, b);
    }
    assert(pairing(ids2, values2) =~= pairing(ids, values).remove(ids[i]));
}

/// A map from text to `V`. Keys are compared by their characters; the order
/// in which keys were first added is kept.
pub struct TextMap<V> {
    keys: Vec<String>,
    values: Vec<V>,
}

impl<V> View for TextMap<V> {
    type V = Map<Seq<char>, V>;

    open spec fn view(&self) -> Map<Seq<char>, V> {
        pairing(self.ids(), self.vals())
    }
}

impl<V> TextMap<V> {
    /// The keys, in the order in which they were first added.
    pub closed spec fn ids(&self) -> Seq<Seq<char>> {
        self.keys@.map_values(|k: String| k@)
    }

    /// The values, each at the position of its key in [`TextMap::ids`].
    pub closed spec fn vals(&self) -> Seq<V> {
        self.values@
    }

    /// Every key has one value, and no key occurs twice.
    pub open spec fn wf(&self) -> bool {
        &&& self.ids().len() == self.vals().len()
        &&& self.ids().no_duplicates()
    }

    /// An empty map.
    pub fn new() -> (r: Self)
        ensures
            r.wf(),
            r.ids() == Seq::<Seq<char>>::empty(),
            r.vals() == Seq::<V>::empty(),
            r@ == Map::<Seq<char>, V>::empty(),
    {
        let r = TextMap { keys: Vec::new(), values: Vec::new() };
        assert(r.ids() == Seq::<Seq<char>>::empty());
        assert(r@ =~= Map::<Seq<char>, V>::empty());
        r
    }

    /// Number of keys.
    pub fn len(&self) -> (n: usize)
        ensures
            n == self.vals().len(),
    {
        self.values.len()
    }

    /// Number of keys; the same as [`TextMap::len`] in a well-formed map.
    pub fn key_count(&self) -> (n: usize)
        ensures
            n == self.ids().len(),
    {
        self.keys.len()
    }

    /// The key at position `i`.
    pub fn key_at(&self, i: usize) -> (r: &String)
        requires
            i < self.ids().len(),
        ensures
            r@ == self.ids()[i as int],
    {
        &self.keys[i]
    }

    /// The value at position `i`.
    pub fn value_at(&self, i: usize) -> (r: &V)
        requires
            i < self.vals().len(),
        ensures
            *r == self.vals()[i as int],
    {
        &self.values[i]
    }

    /// The value at position `i`, to change it.
    pub fn value_at_mut(&mut self, i: usize) -> (r: &mut V)
        requires
            i < old(self).vals().len(),
        ensures
            *r == old(self).vals()[i as int],
            final(self).ids() == old(self).ids(),
            final(self).vals() == old(self).vals().update(i as int, *final(r)),
            old(self).wf() ==> final(self).wf() && final(self)@ == old(self)@.insert(
                old(self).ids()[i as int],
                *final(r),
            ),
    {
        proof {
            if self.wf() {
                Self::lemma_value_update(*self, i as int);
            }
        }
        &mut self.values[i]
    }

    /// Position of `key` among the keys.
    pub fn position(&self, key: &str) -> (r: Option<usize>)
        requires
            self.wf(),
        ensures
            match r {
                Some(i) => i < self.ids().len() && self.ids()[i as int] == key@
                    && self.ids().index_of(key@) == i && self.ids().contains(key@),
                None => !self.ids().contains(key@),
            },
    {
        let mut i: usize = 0;
        while i < self.keys.len()
            invariant
                self.wf(),
                i <= self.keys@.len(),
                forall|k: int| 0 <= k < i ==> self.ids()[k] != key@,
            decreases self.keys@.len() - i,
        {
            if str_eq(self.keys[i].as_str(), key) {
                return Some(i);
            }
            i += 1;
        }
        None
    }

    /// Whether `key` has a value.
    pub fn contains_key(&self, key: &str) -> (r: bool)
        requires
            self.wf(),
        ensures
            r == self@.contains_key(key@),
    {
        self.position(key).is_some()
    }

    /// The value of `key`.
    pub fn get(&self, key: &str) -> (r: Option<&V>)
        requires
            self.wf(),
        ensures
            r == if self@.contains_key(key@) {
                Some(&self@[key@])
            } else {
                None
            },
    {
        match self.position(key) {
            Some(i) => Some(&self.values[i]),
            None => None,
        }
    }

    /// The value of `key`, to change it.
    pub fn get_mut(&mut self, key: &str) -> (r: Option<&mut V>)
        requires
            old(self).wf(),
        ensures
            final(self).wf(),
            match r {
                Some(value) => old(self)@.contains_key(key@) && *value == old(self)@[key@]
                    && final(self)@ == old(self)@.insert(key@, *final(value)) && final(self).ids()
                    == old(self).ids() && final(self).vals() == old(self).vals().update(
                    old(self).ids().index_of(key@),
                    *final(value),
                ),
                None => !old(self)@.contains_key(key@) && *final(self) == *old(self),
            },
    {
        match self.position(key) {
            Some(i) => {
                proof {
                    Self::lemma_value_update(*self, i as int);
                }
                Some(&mut self.values[i])
            },
            None => None,
        }
    }

    /// Whatever is written to one value, the map stays well formed and
    /// changes at that value's key only.
    proof fn lemma_value_update(pre: TextMap<V>, i: int)
        requires
            pre.wf(),
            0 <= i < pre.ids().len(),
        ensures
            forall|post: TextMap<V>| #[trigger]
                post.keys == pre.keys && post.values@ == pre.values@.update(i, post.values@[i])
                    ==> post.wf() && post.ids() == pre.ids() && post.vals() == pre.vals().update(
                    i,
                    post.values@[i],
                ) && post@ == pre@.insert(pre.ids()[i], post.values@[i]),
    {
        assert forall|post: TextMap<V>| #[trigger]
            post.keys == pre.keys && post.values@ == pre.values@.update(
                i,
                post.values@[i],
            ) implies post.wf() && post.ids() == pre.ids() && post.vals() == pre.vals().update(
            i,
            post.values@[i],
        ) && post@ == pre@.insert(pre.ids()[i], post.values@[i]) by {
            lemma_pairing_update(pre.ids(), pre.vals(), i, post.values@[i]);
        }
    }

    /// Puts `value` under `key` and hands back the value that was there.
    pub fn insert(&mut self, key: String, value: V) -> (r: Option<V>)
        requires
            old(self).wf(),
        ensures
            final(self).wf(),
            final(self)@ == old(self)@.insert(key@, value),
            r == if old(self)@.contains_key(key@) {
                Some(old(self)@[key@])
            } else {
                None
            },
            old(self)@.contains_key(key@) ==> final(self).ids() == old(self).ids(),
            !old(self)@.contains_key(key@) ==> final(self).ids() == old(self).ids().push(key@)
                && final(self).vals() == old(self).vals().push(value),
    {
        match self.position(key.as_str()) {
            Some(i) => {
                proof {
                    lemma_pairing_update(self.ids(), self.vals(), i as int, value);
                }
                let mut previous = value;
                std::mem::swap(&mut previous, &mut self.values[i]);
                Some(previous)
            },
            None => {
                proof {
                    lemma_pairing_push(self.ids(), self.vals(), key@, value);
                }
                self.keys.push(key);
                self.values.push(value);
                assert(self.ids() == old(self).ids().push(key@));
                None
            },
        }
    }

    /// Takes `key` out of the map and hands back its value.
    pub fn remove(&mut self, key: &str) -> (r: Option<V>)
        requires
            old(self).wf(),
        ensures
            final(self).wf(),
            final(self)@ == old(self)@.remove(key@),
            r == if old(self)@.contains_key(key@) {
                Some(old(self)@[key@])
            } else {
                None
            },
            !old(self)@.contains_key(key@) ==> *final(self) == *old(self),
    {
        match self.position(key) {
            Some(i) => {
                proof {
                    lemma_pairing_remove(self.ids(), self.vals(), i as int);
                }
                self.keys.remove(i);
                let value = self.values.remove(i);
                assert(self.ids() == old(self).ids().remove(i as int));
                Some(value)
            },
            None => {
                assert(self@ =~= old(self)@.remove(key@));
                None
            },
        }
    }
}

} // verus!
