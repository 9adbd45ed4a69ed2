//! Hands out generational keys for the positions of a densely packed array
//! that is compacted by swap-removal.
//!
//! A key names one element from the moment it is added to the moment it is
//! removed, wherever compaction moves the element in between. The identifier
//! of a removed key may be issued again, with the next generation: a key that
//! was removed never becomes valid again.
use core::marker::PhantomData;
use vstd::prelude::*;

verus! {

/// A handle to one element of a collection of `T`.
#[derive(Debug)]
pub struct Key<T> {
    index: usize,
    generation: u64,
    marker: PhantomData<T>,
}

impl<T> Clone for Key<T> {
    fn clone(&self) -> (copy: Self)
        ensures
            copy == *self,
    {
        Key { index: self.index, generation: self.generation, marker: PhantomData }
    }
}

impl<T> Copy for Key<T> {

}

impl<T> PartialEq for Key<T> {
    fn eq(&self, other: &Self) -> (equal: bool) {
        self.index == other.index && self.generation == other.generation
    }
}

impl<T> vstd::std_specs::cmp::PartialEqSpecImpl for Key<T> {
    open spec fn obeys_eq_spec() -> bool {
        true
    }

    open spec fn eq_spec(&self, other: &Self) -> bool {
        *self == *other
    }
}

impl<T> Eq for Key<T> {

}

/// What is left of `s` once element `i` was removed by moving the last
/// element into its place.
pub open spec fn swap_remove<A>(s: Seq<A>, i: int) -> Seq<A> {
    s.update(i, s.last()).drop_last()
}

#[derive(Clone, Copy)]
enum SlotState {
    /// The identifier names an element.
    Live,
    /// The identifier waits in the free list, with the generation that it
    /// will next be issued with.
    Free,
    /// The identifier has used up its generations and is never issued again.
    Retired,
}

#[derive(Clone, Copy)]
struct Slot {
    generation: u64,
    index: usize,
    state: SlotState,
}

/// The keys of a densely packed array of `T`, and where each of them points.
pub struct UnorderedTracker<T> {
    /// One slot for each identifier that was ever issued.
    slots: Vec<Slot>,
    /// For each position of the dense array, the identifier of its element.
    owners: Vec<usize>,
    /// The identifiers that can be issued again.
    free: Vec<usize>,
    marker: PhantomData<T>,
}

impl<T> UnorderedTracker<T> {
    spec fn key_at(&self, i: int) -> Key<T> {
        Key {
            index: self.owners[i],
            generation: self.slots[self.owners[i] as int].generation,
            marker: PhantomData,
        }
    }

    spec fn is_live(&self, key: Key<T>) -> bool {
        &&& key.index < self.slots.len()
        &&& self.slots[key.index as int].state is Live
        &&& self.slots[key.index as int].generation == key.generation
    }

    spec fn is_retired(&self, key: Key<T>) -> bool {
        &&& key.index < self.slots.len()
        &&& (key.generation < self.slots[key.index as int].generation || (key.generation
            == self.slots[key.index as int].generation
            && self.slots[key.index as int].state is Retired))
    }

    /// The key of each element, by the element's position.
    pub closed spec fn keys(&self) -> Seq<Key<T>> {
        Seq::new(self.owners.len() as nat, |i: int| self.key_at(i))
    }

    /// The keys that were removed.
    pub closed spec fn retired(&self) -> Set<Key<T>> {
        Set::new(|key: Key<T>| self.is_retired(key))
    }

    /// Slots and positions point at each other, and the free list holds each
    /// identifier that waits to be issued again once.
    pub closed spec fn wf(&self) -> bool {
        &&& forall|i: int|
            #![trigger self.owners[i]]
            0 <= i < self.owners.len() ==> (self.owners[i] as int) < self.slots.len()
                && self.slots[self.owners[i] as int].state is Live
                && self.slots[self.owners[i] as int].index == i
        &&& forall|id: int|
            #![trigger self.slots[id]]
            0 <= id < self.slots.len() && self.slots[id].state is Live ==> (
            self.slots[id].index as int) < self.owners.len()
                && self.owners[self.slots[id].index as int] == id
        &&& forall|j: int|
            #![trigger self.free[j]]
            0 <= j < self.free.len() ==> (self.free[j] as int) < self.slots.len()
                && self.slots[self.free[j] as int].state is Free
        &&& forall|j: int, k: int|
            #![trigger self.free[j], self.free[k]]
            0 <= j < k < self.free.len() ==> self.free[j] != self.free[k]
    }

    /// No key names two positions, and no key that names a position was
    /// removed before.
    pub proof fn lemma_keys_distinct(&self)
        requires
            self.wf(),
        ensures
            self.keys().no_duplicates(),
            forall|i: int|
                0 <= i < self.keys().len() ==> !self.retired().contains(#[trigger] self.keys()[i]),
    {
        assert forall|i: int, j: int|
            0 <= i < self.keys().len() && 0 <= j < self.keys().len() && i != j implies self.keys()[i]
            != self.keys()[j] by {
            let a = self.owners[i];
            let b = self.owners[j];
            assert(self.slots[a as int].index == i);
            assert(self.slots[b as int].index == j);
        }
        assert forall|i: int| 0 <= i < self.keys().len() implies !self.retired().contains(
            #[trigger] self.keys()[i],
        ) by {
            let a = self.owners[i];
            assert(self.slots[a as int].state is Live);
        }
    }

    /// A key is in `keys` exactly if its slot is live in its generation, and
    /// then the slot knows the key's position.
    proof fn lemma_live_is_listed(&self, key: Key<T>)
        requires
            self.wf(),
        ensures
            self.is_live(key) <==> self.keys().contains(key),
            self.is_live(key) ==> {
                &&& 0 <= self.slots[key.index as int].index < self.keys().len()
                &&& self.keys()[self.slots[key.index as int].index as int] == key
            },
    {
        if self.is_live(key) {
            let i = self.slots[key.index as int].index as int;
            assert(self.owners[i] == key.index);
            assert(self.keys()[i] == key);
        }
        if self.keys().contains(key) {
            let i = choose|i: int| 0 <= i < self.keys().len() && self.keys()[i] == key;
            assert(self.owners[i] == key.index);
        }
    }

    /// A tracker without keys.
    pub fn new() -> (tracker: UnorderedTracker<T>)
        ensures
            tracker.wf(),
            tracker.keys() == Seq::<Key<T>>::empty(),
            tracker.retired() == Set::<Key<T>>::empty(),
    {
        let tracker = UnorderedTracker {
            slots: Vec::new(),
            owners: Vec::new(),
            free: Vec::new(),
            marker: PhantomData,
        };
        assert(tracker.keys() =~= Seq::<Key<T>>::empty());
        assert(tracker.retired() =~= Set::<Key<T>>::empty());
        tracker
    }

    /// The number of keys that name an element.
    pub fn len(&self) -> (len: usize)
        ensures
            len == self.keys().len(),
    {
        self.owners.len()
    }

    /// Whether `key` names an element.
    pub fn contains(&self, key: Key<T>) -> (live: bool)
        requires
            self.wf(),
        ensures
            live == self.keys().contains(key),
    {
        proof {
            self.lemma_live_is_listed(key);
        }
        if key.index < self.slots.len() {
            let slot = self.slots[key.index];
            match slot.state {
                SlotState::Live => slot.generation == key.generation,
                _ => false,
            }
        } else {
            false
        }
    }

    /// The position of the element that `key` names.
    pub fn get(&self, key: Key<T>) -> (position: Option<usize>)
        requires
            self.wf(),
        ensures
            position is Some <==> self.keys().contains(key),
            position matches Some(i) ==> i < self.keys().len() && self.keys()[i as int] == key,
    {
        proof {
            self.lemma_live_is_listed(key);
        }
        if self.contains(key) {
            Some(self.slots[key.index].index)
        } else {
            None
        }
    }

    /// Issues the key for an element that is appended to the dense array.
    /// The key was never issued before.
    pub fn add(&mut self) -> (key: Key<T>)
        requires
            old(self).wf(),
        ensures
            final(self).wf(),
            !old(self).keys().contains(key),
            !old(self).retired().contains(key),
            final(self).keys() == old(self).keys().push(key),
            final(self).retired() == old(self).retired(),
    {
        let position = self.owners.len();
        let ghost before = *self;
        let key = match self.free.pop() {
            Some(id) => {
                assert(before.free[before.free.len() - 1] == id);
                let slot = self.slots[id];
                self.slots.set(id, Slot { generation: slot.generation, index: position, state: SlotState::Live });
                Key { index: id, generation: slot.generation, marker: PhantomData }
            },
            None => {
                let id = self.slots.len();
                self.slots.push(Slot { generation: 0, index: position, state: SlotState::Live });
                Key { index: id, generation: 0, marker: PhantomData }
            },
        };
        self.owners.push(key.index);
        proof {
            let id = key.index as int;
            assert forall|i: int| 0 <= i < before.owners.len() implies before.owners[i] != id
                && self.slots[before.owners[i] as int] == before.slots[before.owners[i] as int] by {
                assert(before.slots[before.owners[i] as int].state is Live);
            }
            assert forall|i: int|
                #![trigger self.owners[i]]
                0 <= i < self.owners.len() implies ((self.owners[i] as int) < self.slots.len()
                && self.slots[self.owners[i] as int].state is Live
                && self.slots[self.owners[i] as int].index == i) by {
                if i < before.owners.len() {
                    assert(self.owners[i] == before.owners[i]);
                }
            }
            assert forall|other: int|
                #![trigger self.slots[other]]
                0 <= other < self.slots.len() && self.slots[other].state is Live implies ((
                self.slots[other].index as int) < self.owners.len()
                && self.owners[self.slots[other].index as int] == other) by {
                if other != id {
                    assert(self.slots[other] == before.slots[other]);
                }
            }
            assert forall|j: int|
                #![trigger self.free[j]]
                0 <= j < self.free.len() implies ((self.free[j] as int) < self.slots.len()
                && self.slots[self.free[j] as int].state is Free) by {
                assert(self.free[j] == before.free[j]);
                if before.free.len() > self.free.len() {
                    assert(before.free[j] != before.free[before.free.len() - 1]);
                }
            }
            assert forall|j: int, k: int|
                #![trigger self.free[j], self.free[k]]
                0 <= j < k < self.free.len() implies self.free[j] != self.free[k] by {
                assert(self.free[j] == before.free[j]);
                assert(self.free[k] == before.free[k]);
            }
            assert(self.wf());
            assert forall|i: int| 0 <= i < before.owners.len() implies self.key_at(i)
                == before.key_at(i) by {
                assert(self.owners[i] == before.owners[i]);
            }
            assert(self.key_at(before.owners.len() as int) == key);
            assert(self.keys() =~= before.keys().push(key));
            assert forall|k: Key<T>| self.is_retired(k) == before.is_retired(k) by {
                if k.index != id && k.index < before.slots.len() {
                    assert(self.slots[k.index as int] == before.slots[k.index as int]);
                }
            }
            assert(self.retired() =~= before.retired());
            assert(!before.is_retired(key));
            if before.keys().contains(key) {
                let i = choose|i: int| 0 <= i < before.keys().len() && before.keys()[i] == key;
                assert(before.owners[i] == id);
            }
        }
        key
    }

    /// The key of the element at `position`.
    pub fn key_at_position(&self, position: usize) -> (key: Key<T>)
        requires
            self.wf(),
            position < self.keys().len(),
        ensures
            key == self.keys()[position as int],
    {
        let id = self.owners[position];
        Key { index: id, generation: self.slots[id].generation, marker: PhantomData }
    }

    /// Takes back `key` and says which position its element had: the caller
    /// moves the last element of the dense array there. A removed key never
    /// names an element again. A key that names no element changes nothing.
    pub fn remove(&mut self, key: Key<T>) -> (position: Option<usize>)
        requires
            old(self).wf(),
        ensures
            final(self).wf(),
            position is Some <==> old(self).keys().contains(key),
            position matches Some(i) ==> {
                &&& i < old(self).keys().len()
                &&& old(self).keys()[i as int] == key
                &&& final(self).keys() == swap_remove(old(self).keys(), i as int)
                &&& final(self).retired() == old(self).retired().insert(key)
            },
            position is None ==> *final(self) == *old(self),
    {
        if !self.contains(key) {
            return None;
        }
        let ghost before = *self;
        proof {
            before.lemma_live_is_listed(key);
        }
        let id = key.index;
        let slot = self.slots[id];
        let position = slot.index;
        let last = self.owners.len() - 1;
        let moved = self.owners[last];
        let moved_slot = self.slots[moved];
        assert(moved_slot.index == last && moved_slot.state is Live);
        assert(before.owners[position as int] == id);
        assert(moved == id <==> position == last);
        self.owners.swap_remove(position);
        self.slots.set(
            moved,
            Slot { generation: moved_slot.generation, index: position, state: SlotState::Live },
        );
        if slot.generation < u64::MAX {
            self.slots.set(
                id,
                Slot { generation: slot.generation + 1, index: 0, state: SlotState::Free },
            );
            self.free.push(id);
        } else {
            self.slots.set(
                id,
                Slot { generation: slot.generation, index: 0, state: SlotState::Retired },
            );
        }
        proof {
            assert forall|j: int| 0 <= j < self.owners.len() && j != position implies self.owners[j]
                == before.owners[j] && before.owners[j] != id && before.owners[j] != moved
                && self.slots[before.owners[j] as int] == before.slots[before.owners[j] as int] by {
                assert(before.slots[before.owners[j] as int].index == j);
            }
            assert forall|i: int|
                #![trigger self.owners[i]]
                0 <= i < self.owners.len() implies ((self.owners[i] as int) < self.slots.len()
                && self.slots[self.owners[i] as int].state is Live
                && self.slots[self.owners[i] as int].index == i) by {
                if i == position {
                    assert(self.owners[i] == moved);
                } else {
                    assert(self.owners[i] == before.owners[i]);
                }
            }
            assert forall|other: int|
                #![trigger self.slots[other]]
                0 <= other < self.slots.len() && self.slots[other].state is Live implies ((
                self.slots[other].index as int) < self.owners.len()
                && self.owners[self.slots[other].index as int] == other) by {
                if other != moved {
                    assert(self.slots[other] == before.slots[other]);
                    let at = before.slots[other].index as int;
                    assert(before.owners[at] == other);
                    assert(self.owners[at] == before.owners[at]);
                }
            }
            assert forall|j: int|
                #![trigger self.free[j]]
                0 <= j < self.free.len() implies ((self.free[j] as int) < self.slots.len()
                && self.slots[self.free[j] as int].state is Free) by {
                if j < before.free.len() {
                    assert(self.free[j] == before.free[j]);
                    assert(before.slots[before.free[j] as int].state is Free);
                }
            }
            assert forall|j: int, k: int|
                #![trigger self.free[j], self.free[k]]
                0 <= j < k < self.free.len() implies self.free[j] != self.free[k] by {
                assert(self.free[j] == before.free[j]);
                assert(before.slots[before.free[j] as int].state is Free);
                if k < before.free.len() {
                    assert(self.free[k] == before.free[k]);
                }
            }
            assert(self.wf());
            assert forall|i: int| 0 <= i < self.owners.len() implies self.key_at(i) == swap_remove(
                before.keys(),
                position as int,
            )[i] by {
                if i == position {
                    assert(self.owners[i] == moved);
                    assert(before.keys().last() == before.key_at(last as int));
                } else {
                    assert(self.owners[i] == before.owners[i]);
                }
            }
            assert(self.keys() =~= swap_remove(before.keys(), position as int));
            assert forall|k: Key<T>| self.is_retired(k) == (before.is_retired(k) || k == key) by {
                if k.index != id && k.index < before.slots.len() {
                    assert(self.slots[k.index as int].generation
                        == before.slots[k.index as int].generation);
                    assert(self.slots[k.index as int].state == before.slots[k.index as int].state);
                }
            }
            assert(self.retired() =~= before.retired().insert(key));
        }
        Some(position)
    }

    /// Takes back every key at once.
    pub fn clear(&mut self)
        requires
            old(self).wf(),
        ensures
            final(self).wf(),
            final(self).keys() == Seq::<Key<T>>::empty(),
            final(self).retired() == old(self).retired().union(old(self).keys().to_set()),
    {
        assert(old(self).keys().take(old(self).keys().len() as int) =~= old(self).keys());
        assert(old(self).keys().skip(old(self).keys().len() as int).to_set() =~= Set::<
            Key<T>,
        >::empty());
        assert(old(self).retired().union(Set::<Key<T>>::empty()) =~= old(self).retired());
        while self.owners.len() > 0
            invariant
                self.wf(),
                self.keys().len() == self.owners.len(),
                self.keys().len() <= old(self).keys().len(),
                self.keys() == old(self).keys().take(self.keys().len() as int),
                self.retired() == old(self).retired().union(
                    old(self).keys().skip(self.keys().len() as int).to_set(),
                ),
            decreases self.owners.len(),
        {
            let ghost all = old(self).keys();
            let ghost n = self.keys().len() as int;
            let ghost retired = self.retired();
            let last = self.owners.len() - 1;
            let key = self.key_at_position(last);
            let removed = self.remove(key);
            proof {
                self.lemma_keys_len();
                assert(self.keys() =~= all.take(n - 1));
                let longer = all.skip(n - 1);
                let shorter = all.skip(n);
                assert(longer.to_set() =~= shorter.to_set().insert(key)) by {
                    assert forall|k: Key<T>| longer.to_set().contains(k) implies shorter.to_set().insert(
                        key,
                    ).contains(k) by {
                        let i = choose|i: int| 0 <= i < longer.len() && longer[i] == k;
                        if i > 0 {
                            assert(shorter[i - 1] == k);
                        }
                    }
                    assert forall|k: Key<T>| shorter.to_set().insert(key).contains(
                        k,
                    ) implies longer.to_set().contains(k) by {
                        if k == key {
                            assert(longer[0] == k);
                        } else {
                            let i = choose|i: int| 0 <= i < shorter.len() && shorter[i] == k;
                            assert(longer[i + 1] == k);
                        }
                    }
                }
                assert(self.retired() =~= old(self).retired().union(all.skip(n - 1).to_set()));
            }
        }
        proof {
            self.lemma_keys_len();
            assert(self.keys() =~= Seq::<Key<T>>::empty());
            assert(old(self).keys().skip(0) =~= old(self).keys());
        }
    }

    /// There are as many keys as positions.
    proof fn lemma_keys_len(&self)
        ensures
            self.keys().len() == self.owners.len(),
    {
    }
}

} // verus!
