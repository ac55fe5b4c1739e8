use vstd::pervasive::VecAdditionalExecFns;
use vstd::prelude::*;

verus! {

/// Values stored in numbered slots. A value is found again by the number
/// its slot was given; a freed slot is given out again before the storage
/// grows, so the numbers stay small.
pub struct SlotArena<V> {
    slots: Vec<Option<V>>,
    vacant: Vec<usize>,
}

impl<V> View for SlotArena<V> {
    type V = Map<usize, V>;

    /// The occupied slots, by number, with their values.
    closed spec fn view(&self) -> Map<usize, V> {
        Self::parts_view(self.slots@)
    }
}

impl<V> SlotArena<V> {
    /// Every number on the list of vacant slots names a distinct empty
    /// slot.
    #[verifier::type_invariant]
    closed spec fn vacant_slots_are_empty(&self) -> bool {
        &&& self.vacant@.no_duplicates()
        &&& forall|j: int|
            0 <= j < self.vacant@.len() ==> #[trigger] self.vacant@[j] < self.slots@.len()
                && self.slots@[self.vacant@[j] as int] is None
    }

    /// An arena with no values.
    pub fn new() -> (r: Self)
        ensures
            r@ == Map::<usize, V>::empty(),
    {
        let r = SlotArena { slots: Vec::new(), vacant: Vec::new() };
        assert(r@ =~= Map::<usize, V>::empty());
        r
    }

    /// Whether slot `key` holds a value.
    pub fn contains(&self, key: usize) -> (r: bool)
        ensures
            r == self@.contains_key(key),
    {
        key < self.slots.len() && self.slots[key].is_some()
    }

    /// The value in slot `key`, if it holds one.
    pub fn get(&self, key: usize) -> (r: Option<&V>)
        ensures
            match r {
                Some(v) => self@.contains_key(key) && *v == self@[key],
                None => !self@.contains_key(key),
            },
    {
        if key < self.slots.len() {
            match &self.slots[key] {
                Some(v) => Some(v),
                None => None,
            }
        } else {
            None
        }
    }

    /// Stores `value` in a free slot and gives back that slot's number.
    pub fn insert(&mut self, value: V) -> (key: usize)
        ensures
            !old(self)@.contains_key(key),
            final(self)@ == old(self)@.insert(key, value),
    {
        let (mut slots, mut vacant) = self.take_parts();
        let ghost before_slots = slots@;
        let ghost before_vacant = vacant@;
        let key = match vacant.pop() {
            Some(key) => {
                proof {
                    assert(before_vacant[before_vacant.len() - 1] == key);
                    assert forall|j: int| 0 <= j < vacant@.len() implies #[trigger] vacant@[j]
                        != key by {
                        assert(before_vacant[j] == vacant@[j]);
                    }
                }
                let mut slot = Some(value);
                slots.set_and_swap(key, &mut slot);
                key
            },
            None => {
                let key = slots.len();
                slots.push(Some(value));
                key
            },
        };
        proof {
            assert(Self::parts_view(slots@) =~= Self::parts_view(before_slots).insert(key, value));
        }
        *self = SlotArena { slots, vacant };
        key
    }

    /// Takes the value out of slot `key`, freeing the slot, if it holds one;
    /// otherwise leaves the arena as it is.
    pub fn try_remove(&mut self, key: usize) -> (r: Option<V>)
        ensures
            match r {
                Some(v) => old(self)@.contains_key(key) && v == old(self)@[key] && final(self)@
                    == old(self)@.remove(key),
                None => !old(self)@.contains_key(key) && final(self)@ == old(self)@,
            },
    {
        let (mut slots, mut vacant) = self.take_parts();
        let ghost before_slots = slots@;
        let r = if key < slots.len() && slots[key].is_some() {
            let mut slot: Option<V> = None;
            slots.set_and_swap(key, &mut slot);
            proof {
                assert forall|j: int| 0 <= j < vacant@.len() implies #[trigger] vacant@[j]
                    != key by {
                    assert(before_slots[vacant@[j] as int] is None);
                }
                assert(Self::parts_view(slots@) =~= Self::parts_view(before_slots).remove(key));
            }
            vacant.push(key);
            slot
        } else {
            None
        };
        *self = SlotArena { slots, vacant };
        r
    }

    /// The occupied slots of `slots`, by number, with their values.
    closed spec fn parts_view(slots: Seq<Option<V>>) -> Map<usize, V> {
        Map::new(
            |k: usize| (k as int) < slots.len() && slots[k as int] is Some,
            |k: usize| slots[k as int]->Some_0,
        )
    }

    /// Moves the arena's storage out, leaving an empty arena behind.
    fn take_parts(&mut self) -> (r: (Vec<Option<V>>, Vec<usize>))
        ensures
            final(self)@ == Map::<usize, V>::empty(),
            Self::parts_view(r.0@) == old(self)@,
            r.1@.no_duplicates(),
            forall|j: int|
                0 <= j < r.1@.len() ==> #[trigger] r.1@[j] < r.0@.len() && r.0@[r.1@[j] as int] is None,
    {
        proof {
            use_type_invariant(&*self);
        }
        let mut this = SlotArena::new();
        std::mem::swap(self, &mut this);
        proof {
            use_type_invariant(&this);
        }
        let SlotArena { slots, vacant } = this;
        (slots, vacant)
    }
}

} // verus!
