//! A map from generational keys to values that keeps its values densely
//! packed: removing a value moves the last value into its place.
use crate::utility::unordered_tracker::{swap_remove, Key, UnorderedTracker};
use vstd::prelude::*;

verus! {

/// Why a key was refused.
#[derive(Clone, Copy, Debug, PartialEq, Eq, Structural)]
pub enum KeyError {
    /// The key names no value: its value was removed, or the map was cleared.
    Stale,
}

/// One step in the life of a map.
pub enum MapOp<T> {
    /// `add` stored the value and issued the key.
    Add(Key<T>, T),
    /// `remove` was called with the key.
    Remove(Key<T>),
    /// The value of the key was replaced by way of `get_mut`.
    Replace(Key<T>, T),
    /// `clear` was called.
    Clear,
}

/// The map as a mathematical value.
#[verifier::reject_recursive_types(T)]
pub struct MapState<T> {
    /// The values, in the order in which they are stored.
    pub values: Seq<T>,
    /// The key of each value, in the same order.
    pub keys: Seq<Key<T>>,
    /// The keys that were removed.
    pub retired: Set<Key<T>>,
}

impl<T> MapState<T> {
    /// Each value has one key, no key names two values, and no key that
    /// names a value was removed before.
    pub open spec fn wf(self) -> bool {
        &&& self.keys.len() == self.values.len()
        &&& self.keys.no_duplicates()
        &&& forall|i: int| 0 <= i < self.keys.len() ==> !self.retired.contains(#[trigger] self.keys[i])
    }

    /// Whether `key` names a value.
    pub open spec fn contains(self, key: Key<T>) -> bool {
        self.keys.contains(key)
    }

    /// The position of the value that `key` names.
    pub open spec fn index_of(self, key: Key<T>) -> int {
        self.keys.index_of(key)
    }

    /// The value that `key` names.
    pub open spec fn value_of(self, key: Key<T>) -> T {
        self.values[self.index_of(key)]
    }

    /// The map from each key that names a value to that value.
    pub open spec fn as_map(self) -> Map<Key<T>, T> {
        Map::new(|key: Key<T>| self.contains(key), |key: Key<T>| self.value_of(key))
    }

    /// Whether `key` was never issued.
    pub open spec fn is_fresh(self, key: Key<T>) -> bool {
        !self.keys.contains(key) && !self.retired.contains(key)
    }

    /// The state after `value` was added under `key`.
    pub open spec fn add(self, key: Key<T>, value: T) -> Self {
        MapState { values: self.values.push(value), keys: self.keys.push(key), ..self }
    }

    /// The state after the value of `key` was removed.
    pub open spec fn remove(self, key: Key<T>) -> Self {
        MapState {
            values: swap_remove(self.values, self.index_of(key)),
            keys: swap_remove(self.keys, self.index_of(key)),
            retired: self.retired.insert(key),
        }
    }

    /// The state after the value of `key` was replaced by `value`.
    pub open spec fn set(self, key: Key<T>, value: T) -> Self {
        MapState { values: self.values.update(self.index_of(key), value), ..self }
    }

    /// The state after every value was removed.
    pub open spec fn clear(self) -> Self {
        MapState {
            values: Seq::empty(),
            keys: Seq::empty(),
            retired: self.retired.union(self.keys.to_set()),
        }
    }

    /// Whether `op` can happen in this state: `add` only issues keys that
    /// were never issued before.
    pub open spec fn admits(self, op: MapOp<T>) -> bool {
        match op {
            MapOp::Add(key, _) => self.is_fresh(key),
            _ => true,
        }
    }

    /// The state after `op`. A key that names no value is refused, which
    /// changes nothing.
    pub open spec fn step(self, op: MapOp<T>) -> Self {
        match op {
            MapOp::Add(key, value) => self.add(key, value),
            MapOp::Remove(key) => if self.contains(key) {
                self.remove(key)
            } else {
                self
            },
            MapOp::Replace(key, value) => if self.contains(key) {
                self.set(key, value)
            } else {
                self
            },
            MapOp::Clear => self.clear(),
        }
    }

    /// Whether `ops` can happen one after the other, starting in this state.
    pub open spec fn admits_all(self, ops: Seq<MapOp<T>>) -> bool
        decreases ops.len(),
    {
        ops.len() > 0 ==> self.admits(ops[0]) && self.step(ops[0]).admits_all(ops.drop_first())
    }

    /// The state after `ops` happened one after the other.
    pub open spec fn run(self, ops: Seq<MapOp<T>>) -> Self
        decreases ops.len(),
    {
        if ops.len() == 0 {
            self
        } else {
            self.step(ops[0]).run(ops.drop_first())
        }
    }

    /// The key at a position is found at that position.
    pub proof fn lemma_index_of(self, i: int)
        requires
            self.wf(),
            0 <= i < self.keys.len(),
        ensures
            self.contains(self.keys[i]),
            self.index_of(self.keys[i]) == i,
    {
        let found = self.keys.index_of(self.keys[i]);
        assert(0 <= found < self.keys.len() && self.keys[found] == self.keys[i]);
    }

    /// A key that names a value has a position, and is found there.
    pub proof fn lemma_position(self, key: Key<T>)
        requires
            self.wf(),
            self.contains(key),
        ensures
            0 <= self.index_of(key) < self.values.len(),
            self.keys[self.index_of(key)] == key,
    {
    }

    /// There are as many keys that name a value as there are values.
    pub proof fn lemma_size(self)
        requires
            self.wf(),
        ensures
            self.as_map().dom().finite(),
            self.as_map().dom().len() == self.values.len(),
    {
        self.keys.unique_seq_to_set();
        vstd::seq_lib::seq_to_set_is_finite(self.keys);
        assert(self.as_map().dom() =~= self.keys.to_set());
    }

    /// Adding stores the value at the end, under the new key, and leaves
    /// every other key with its position and its value.
    pub proof fn lemma_add(self, key: Key<T>, value: T)
        requires
            self.wf(),
            self.is_fresh(key),
        ensures
            self.add(key, value).wf(),
            self.add(key, value).contains(key),
            self.add(key, value).index_of(key) == self.values.len(),
            self.add(key, value).value_of(key) == value,
            self.add(key, value).as_map() == self.as_map().insert(key, value),
            forall|other: Key<T>| #[trigger]
                self.contains(other) ==> {
                    &&& self.add(key, value).contains(other)
                    &&& self.add(key, value).index_of(other) == self.index_of(other)
                    &&& self.add(key, value).value_of(other) == self.value_of(other)
                },
    {
        let after = self.add(key, value);
        assert(after.keys[self.keys.len() as int] == key);
        assert(after.wf());
        after.lemma_index_of(self.keys.len() as int);
        assert forall|other: Key<T>| #[trigger] self.contains(other) implies {
            &&& after.contains(other)
            &&& after.index_of(other) == self.index_of(other)
            &&& after.value_of(other) == self.value_of(other)
        } by {
            let i = self.index_of(other);
            assert(after.keys[i] == other);
            after.lemma_index_of(i);
        }
        assert forall|other: Key<T>| after.contains(other) implies (other == key || self.contains(
            other,
        )) by {
            let i = after.index_of(other);
            if i < self.keys.len() {
                assert(self.keys[i] == other);
            }
        }
        assert(after.as_map() =~= self.as_map().insert(key, value));
    }

    /// Removing takes the key and its value out of the map and retires the
    /// key. Every other key keeps its value; the key of the last value takes
    /// over the position that became free, every other key keeps its own.
    pub proof fn lemma_remove(self, key: Key<T>)
        requires
            self.wf(),
            self.contains(key),
        ensures
            self.remove(key).wf(),
            !self.remove(key).contains(key),
            self.remove(key).retired.contains(key),
            self.remove(key).values.len() == self.values.len() - 1,
            self.remove(key).as_map() == self.as_map().remove(key),
            forall|other: Key<T>| #[trigger]
                self.contains(other) && other != key ==> {
                    &&& self.remove(key).contains(other)
                    &&& self.remove(key).value_of(other) == self.value_of(other)
                    &&& self.remove(key).index_of(other) == if self.index_of(other)
                        == self.values.len() - 1 {
                        self.index_of(key)
                    } else {
                        self.index_of(other)
                    }
                },
    {
        let after = self.remove(key);
        let at = self.index_of(key);
        let last = self.keys.len() - 1;
        assert forall|i: int, j: int|
            0 <= i < after.keys.len() && 0 <= j < after.keys.len() && i != j implies after.keys[i]
            != after.keys[j] by {
            let from_i = if i == at {
                last
            } else {
                i
            };
            let from_j = if j == at {
                last
            } else {
                j
            };
            assert(after.keys[i] == self.keys[from_i]);
            assert(after.keys[j] == self.keys[from_j]);
        }
        assert forall|i: int| 0 <= i < after.keys.len() implies !after.retired.contains(
            #[trigger] after.keys[i],
        ) && after.keys[i] != key by {
            let from = if i == at {
                last
            } else {
                i
            };
            assert(after.keys[i] == self.keys[from]);
        }
        assert(after.wf());
        assert forall|other: Key<T>| #[trigger] self.contains(other) && other != key implies {
            &&& after.contains(other)
            &&& after.value_of(other) == self.value_of(other)
            &&& after.index_of(other) == if self.index_of(other) == last {
                at
            } else {
                self.index_of(other)
            }
        } by {
            let i = self.index_of(other);
            let to = if i == last {
                at
            } else {
                i
            };
            assert(after.keys[to] == other);
            after.lemma_index_of(to);
        }
        assert forall|other: Key<T>| after.contains(other) implies self.contains(other) && other
            != key by {
            let i = after.index_of(other);
            let from = if i == at {
                last
            } else {
                i
            };
            assert(self.keys[from] == other);
        }
        assert(after.as_map() =~= self.as_map().remove(key));
    }

    /// Replacing the value of a key changes that value and nothing else.
    pub proof fn lemma_set(self, key: Key<T>, value: T)
        requires
            self.wf(),
            self.contains(key),
        ensures
            self.set(key, value).wf(),
            self.set(key, value).keys == self.keys,
            self.set(key, value).retired == self.retired,
            self.set(key, value).value_of(key) == value,
            self.set(key, value).as_map() == self.as_map().insert(key, value),
            forall|other: Key<T>| #[trigger]
                self.contains(other) && other != key ==> self.set(key, value).value_of(other)
                    == self.value_of(other),
    {
        assert(self.set(key, value).as_map() =~= self.as_map().insert(key, value));
    }

    /// Clearing takes every key out of the map and retires it.
    pub proof fn lemma_clear(self)
        requires
            self.wf(),
        ensures
            self.clear().wf(),
            self.clear().as_map() == Map::<Key<T>, T>::empty(),
            forall|key: Key<T>| #[trigger]
                self.contains(key) ==> self.clear().retired.contains(key) && !self.clear().contains(
                    key,
                ),
            forall|key: Key<T>| #[trigger]
                self.retired.contains(key) ==> self.clear().retired.contains(key),
    {
        assert(self.clear().as_map() =~= Map::<Key<T>, T>::empty());
    }

    /// Every step keeps the state well-formed and every retired key retired.
    pub proof fn lemma_step(self, op: MapOp<T>)
        requires
            self.wf(),
            self.admits(op),
        ensures
            self.step(op).wf(),
            forall|key: Key<T>| #[trigger]
                self.retired.contains(key) ==> self.step(op).retired.contains(key),
    {
        match op {
            MapOp::Add(key, value) => {
                self.lemma_add(key, value);
            },
            MapOp::Remove(key) => {
                if self.contains(key) {
                    self.lemma_remove(key);
                }
            },
            MapOp::Replace(key, value) => {
                if self.contains(key) {
                    self.lemma_set(key, value);
                }
            },
            MapOp::Clear => {
                self.lemma_clear();
            },
        }
    }

    /// A key that was removed is refused ever after: whatever is added,
    /// removed or cleared later, it names no value again.
    pub proof fn lemma_removed_key_stays_stale(self, ops: Seq<MapOp<T>>, key: Key<T>)
        requires
            self.wf(),
            self.retired.contains(key),
            self.admits_all(ops),
        ensures
            self.run(ops).wf(),
            self.run(ops).retired.contains(key),
            !self.run(ops).contains(key),
        decreases ops.len(),
    {
        if ops.len() == 0 {
            if self.contains(key) {
                self.lemma_position(key);
            }
        } else {
            self.lemma_step(ops[0]);
            self.step(ops[0]).lemma_removed_key_stays_stale(ops.drop_first(), key);
        }
    }

    /// Whether `op` leaves the value of `key` alone.
    pub open spec fn spares(op: MapOp<T>, key: Key<T>) -> bool {
        match op {
            MapOp::Add(_, _) => true,
            MapOp::Remove(removed) => removed != key,
            MapOp::Replace(changed, _) => changed != key,
            MapOp::Clear => false,
        }
    }

    /// A key resolves to the value that was added under it for as long as
    /// it is not removed, its value is not replaced and the map is not
    /// cleared, whatever else is added, removed or replaced in between.
    pub proof fn lemma_live_key_keeps_value(self, ops: Seq<MapOp<T>>, key: Key<T>)
        requires
            self.wf(),
            self.contains(key),
            self.admits_all(ops),
            forall|i: int| 0 <= i < ops.len() ==> Self::spares(#[trigger] ops[i], key),
        ensures
            self.run(ops).wf(),
            self.run(ops).contains(key),
            self.run(ops).value_of(key) == self.value_of(key),
        decreases ops.len(),
    {
        if ops.len() > 0 {
            let op = ops[0];
            let next = self.step(op);
            self.lemma_step(op);
            match op {
                MapOp::Add(added, value) => {
                    self.lemma_add(added, value);
                },
                MapOp::Remove(removed) => {
                    if self.contains(removed) {
                        self.lemma_remove(removed);
                    }
                },
                MapOp::Replace(changed, value) => {
                    if self.contains(changed) {
                        self.lemma_set(changed, value);
                    }
                },
                MapOp::Clear => {},
            }
            assert(Self::spares(ops[0], key));
            assert forall|i: int| 0 <= i < ops.drop_first().len() implies Self::spares(
                #[trigger] ops.drop_first()[i],
                key,
            ) by {
                assert(ops.drop_first()[i] == ops[i + 1]);
            }
            next.lemma_live_key_keeps_value(ops.drop_first(), key);
        }
    }
}

/// Values of `T` in a dense array, each named by the key that `add` issued
/// for it.
pub struct UnorderedMap<T> {
    map: UnorderedTracker<T>,
    values: Vec<T>,
}

impl<T> View for UnorderedMap<T> {
    type V = MapState<T>;

    closed spec fn view(&self) -> MapState<T> {
        MapState { values: self.values@, keys: self.map.keys(), retired: self.map.retired() }
    }
}

impl<T> UnorderedMap<T> {
    /// The tracker is sound and has one key for each value.
    pub closed spec fn wf(&self) -> bool {
        &&& self.map.wf()
        &&& self.values.len() == self.map.keys().len()
    }

    /// The state of a well-formed map is well-formed.
    pub proof fn lemma_view_wf(&self)
        requires
            self.wf(),
        ensures
            self@.wf(),
    {
        self.map.lemma_keys_distinct();
    }

    /// A map without values, in which no key was issued yet.
    pub fn new() -> (map: UnorderedMap<T>)
        ensures
            map.wf(),
            map@ == (MapState {
                values: Seq::<T>::empty(),
                keys: Seq::<Key<T>>::empty(),
                retired: Set::<Key<T>>::empty(),
            }),
    {
        UnorderedMap { map: UnorderedTracker::new(), values: Vec::with_capacity(64) }
    }

    /// The number of values in the map.
    pub fn len(&self) -> (len: usize)
        requires
            self.wf(),
        ensures
            len == self@.values.len(),
            len == self@.keys.len(),
    {
        self.map.len()
    }

    /// The values, in the order in which they are stored. Every removal may
    /// change that order.
    pub fn values(&self) -> (values: &Vec<T>)
        ensures
            values@ == self@.values,
    {
        &self.values
    }

    /// Whether `key` names a value.
    pub fn contains(&self, key: Key<T>) -> (live: bool)
        requires
            self.wf(),
        ensures
            live == self@.contains(key),
    {
        self.map.contains(key)
    }

    /// Removes every value. Every key that was issued so far is stale.
    pub fn clear(&mut self)
        requires
            old(self).wf(),
        ensures
            final(self).wf(),
            final(self)@ == old(self)@.clear(),
    {
        self.map.clear();
        self.values.clear();
    }

    /// Stores `value` behind the values that the map holds, and issues the
    /// key that names it from now on. The key was never issued before.
    pub fn add(&mut self, value: T) -> (key: Key<T>)
        requires
            old(self).wf(),
        ensures
            final(self).wf(),
            old(self)@.is_fresh(key),
            final(self)@ == old(self)@.add(key, value),
    {
        self.values.push(value);
        self.map.add()
    }

    /// Removes the value that `key` names and returns it with the position
    /// that it had. The last value of the map now has that position, and
    /// `key` is stale. A stale key is refused and changes nothing.
    pub fn remove(&mut self, key: Key<T>) -> (r: Result<(usize, T), KeyError>)
        requires
            old(self).wf(),
        ensures
            final(self).wf(),
            r is Ok <==> old(self)@.contains(key),
            r matches Ok((index, value)) ==> {
                &&& index == old(self)@.index_of(key)
                &&& value == old(self)@.value_of(key)
                &&& final(self)@ == old(self)@.remove(key)
            },
            r is Err ==> *final(self) == *old(self),
    {
        proof {
            self.lemma_view_wf();
        }
        match self.map.remove(key) {
            Some(index) => {
                proof {
                    old(self)@.lemma_index_of(index as int);
                }
                let value = self.values.swap_remove(index);
                Ok((index, value))
            },
            None => Err(KeyError::Stale),
        }
    }

    /// The value that `key` names, and its position. A stale key is refused.
    pub fn get(&self, key: Key<T>) -> (r: Result<(usize, &T), KeyError>)
        requires
            self.wf(),
        ensures
            r is Ok <==> self@.contains(key),
            r matches Ok((index, value)) ==> index == self@.index_of(key) && *value
                == self@.value_of(key),
    {
        proof {
            self.lemma_view_wf();
        }
        match self.map.get(key) {
            Some(index) => {
                proof {
                    self@.lemma_index_of(index as int);
                }
                Ok((index, &self.values[index]))
            },
            None => Err(KeyError::Stale),
        }
    }

    /// The value that `key` names, to be changed in place, and its position.
    /// A stale key is refused.
    pub fn get_mut(&mut self, key: Key<T>) -> (r: Result<(usize, &mut T), KeyError>)
        requires
            old(self).wf(),
        ensures
            r is Ok <==> old(self)@.contains(key),
            r matches Ok((index, value)) ==> {
                &&& index == old(self)@.index_of(key)
                &&& *value == old(self)@.value_of(key)
                &&& final(self)@ == old(self)@.set(key, *final(value))
                &&& final(self).wf()
            },
            r is Err ==> *final(self) == *old(self),
    {
        proof {
            self.lemma_view_wf();
        }
        match self.map.get(key) {
            Some(index) => {
                proof {
                    self@.lemma_index_of(index as int);
                }
                Ok((index, &mut self.values[index]))
            },
            None => Err(KeyError::Stale),
        }
    }
}

} // verus!
