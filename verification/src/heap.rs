use crate::foreign::Foreign;
use crate::mono::Mono;
use core::cmp::Ordering;
use vstd::multiset::Multiset;
use vstd::prelude::*;
use vstd::std_specs::cmp::PartialOrdSpec;

verus! {

broadcast use vstd::seq_lib::group_to_multiset_ensures, vstd::multiset::group_multiset_axioms;

/// `a` is at most `b` in the order of `T`.
pub open spec fn le_spec<T: PartialOrd>(a: T, b: T) -> bool {
    a.partial_cmp_spec(&b) matches Some(Ordering::Less | Ordering::Equal)
}

/// The comparison operators of `T` follow its specified order, and that
/// order is total: any two values are comparable, and it is transitive.
pub open spec fn total_order<T: PartialOrd>() -> bool {
    &&& T::obeys_partial_cmp_spec()
    &&& forall|a: T, b: T| #[trigger] le_spec(a, b) || le_spec(b, a)
    &&& forall|a: T, b: T, c: T| #[trigger] le_spec(a, b) && #[trigger] le_spec(b, c) ==> le_spec(a, c)
}

/// `s` is in ascending order.
pub open spec fn sorted_asc<T: PartialOrd>(s: Seq<T>) -> bool {
    forall|i: int, j: int| 0 <= i < j < s.len() ==> le_spec(#[trigger] s[i], #[trigger] s[j])
}

/// A priority queue that hands out its greatest element first. It keeps its
/// elements in ascending order, so its greatest element is the last one.
pub struct BinaryHeap<T: Ord> {
    data: Vec<T>,
}

impl<T: Ord> BinaryHeap<T> {
    #[verifier::type_invariant]
    spec fn ordered(self) -> bool {
        total_order::<T>() ==> sorted_asc(self.data@)
    }

    /// The elements, counted with multiplicity.
    pub closed spec fn contents(self) -> Multiset<T> {
        self.data@.to_multiset()
    }

    /// An empty heap.
    pub fn new() -> (r: Self)
        ensures
            r.contents() == Multiset::<T>::empty(),
    {
        BinaryHeap { data: Vec::new() }
    }

    /// An empty heap with room for `capacity` elements.
    pub fn with_capacity(capacity: usize) -> (r: Self)
        ensures
            r.contents() == Multiset::<T>::empty(),
    {
        BinaryHeap { data: Vec::with_capacity(capacity) }
    }

    /// Number of elements.
    pub fn len(&self) -> (r: usize)
        ensures
            r == self.contents().len(),
    {
        self.data.len()
    }

    /// Whether the heap has no element.
    pub fn is_empty(&self) -> (r: bool)
        ensures
            r == (self.contents().len() == 0),
    {
        self.data.len() == 0
    }

    /// A greatest element, or `None` when empty.
    pub fn peek(&self) -> (r: Option<&T>)
        ensures
            self.contents().len() == 0 ==> r is None,
            self.contents().len() > 0 ==> {
                &&& r is Some
                &&& self.contents().contains(*r->Some_0)
                &&& total_order::<T>() ==> forall|y: T|
                    #[trigger] self.contents().contains(y) ==> le_spec(y, *r->Some_0)
            },
    {
        proof {
            use_type_invariant(self);
        }
        let n = self.data.len();
        if n == 0 {
            None
        } else {
            proof {
                let d = self.data@;
                assert(d.contains(d[n - 1]));
                if total_order::<T>() {
                    assert forall|y: T| #[trigger] d.to_multiset().contains(y) implies le_spec(
                        y,
                        d[n - 1],
                    ) by {
                        assert(d.contains(y));
                        let k = choose|k: int| 0 <= k < d.len() && d[k] == y;
                        if k < n - 1 {
                            assert(le_spec(d[k], d[n - 1]));
                        } else {
                            // Totality taken at (y, y) gives le_spec(y, y).
                            assert(le_spec(y, y) || le_spec(y, y));
                        }
                    }
                }
            }
            Some(&self.data[n - 1])
        }
    }

    /// Removes every element.
    pub fn clear(&mut self)
        ensures
            final(self).contents() == Multiset::<T>::empty(),
    {
        self.data = Vec::new();
    }

    /// Adds `item`.
    pub fn push(&mut self, item: T)
        ensures
            final(self).contents() == old(self).contents().insert(item),
    {
        proof {
            use_type_invariant(&*self);
        }
        let mut data = Vec::new();
        std::mem::swap(&mut data, &mut self.data);
        let ghost old_data = data@;
        let mut i: usize = 0;
        while i < data.len() && data[i] <= item
            invariant
                data@ == old_data,
                i <= data@.len(),
                total_order::<T>() ==> sorted_asc(data@),
                total_order::<T>() ==> forall|k: int| 0 <= k < i ==> le_spec(#[trigger] data@[k], item),
            decreases data@.len() - i,
        {
            i = i + 1;
        }
        proof {
            if total_order::<T>() {
                if i < data@.len() {
                    assert(!le_spec(data@[i as int], item));
                    assert(le_spec(item, data@[i as int]));
                    assert forall|k: int| i <= k < data@.len() implies le_spec(
                        item,
                        #[trigger] data@[k],
                    ) by {
                        if k > i {
                            assert(le_spec(data@[i as int], data@[k]));
                        }
                    }
                }
            }
        }
        data.insert(i, item);
        proof {
            assert(data@ == old_data.insert(i as int, item));
            if total_order::<T>() {
                assert forall|a: int, b: int| 0 <= a < b < data@.len() implies le_spec(
                    #[trigger] data@[a],
                    #[trigger] data@[b],
                ) by {
                    if b < i {
                    } else if a < i && b == i {
                    } else if a < i && b > i {
                        assert(le_spec(old_data[a], item));
                        assert(le_spec(item, old_data[b - 1]));
                    } else if a == i {
                    } else {
                        assert(le_spec(old_data[a - 1], old_data[b - 1]));
                    }
                }
            }
        }
        self.data = data;
    }

    /// Removes and returns a greatest element, or `None` when empty.
    pub fn pop(&mut self) -> (r: Option<T>)
        ensures
            old(self).contents().len() == 0 ==> r is None && final(self).contents() == old(
                self,
            ).contents(),
            old(self).contents().len() > 0 ==> {
                &&& r is Some
                &&& old(self).contents().contains(r->Some_0)
                &&& final(self).contents() == old(self).contents().remove(r->Some_0)
                &&& total_order::<T>() ==> forall|y: T|
                    #[trigger] old(self).contents().contains(y) ==> le_spec(y, r->Some_0)
            },
    {
        proof {
            use_type_invariant(&*self);
        }
        let mut data = Vec::new();
        std::mem::swap(&mut data, &mut self.data);
        let ghost old_data = data@;
        let r = data.pop();
        proof {
            if old_data.len() > 0 {
                let last = old_data.len() - 1;
                assert(data@ == old_data.remove(last));
                assert(old_data.contains(old_data[last]));
                if total_order::<T>() {
                    assert forall|y: T| #[trigger] old_data.to_multiset().contains(y) implies le_spec(
                        y,
                        old_data[last],
                    ) by {
                        assert(old_data.contains(y));
                        let k = choose|k: int| 0 <= k < old_data.len() && old_data[k] == y;
                        if k < last {
                            assert(le_spec(old_data[k], old_data[last]));
                        } else {
                            // Totality taken at (y, y) gives le_spec(y, y).
                            assert(le_spec(y, y) || le_spec(y, y));
                        }
                    }
                    assert forall|a: int, b: int| 0 <= a < b < data@.len() implies le_spec(
                        #[trigger] data@[a],
                        #[trigger] data@[b],
                    ) by {
                        assert(le_spec(old_data[a], old_data[b]));
                    }
                }
            } else {
                assert(old_data.to_multiset().len() == 0);
            }
        }
        self.data = data;
        r
    }

    /// The elements in no particular order.
    pub fn into_vec(self) -> (r: Vec<T>)
        ensures
            r@.to_multiset() == self.contents(),
    {
        self.data
    }

    /// The elements in ascending order.
    pub fn into_sorted_vec(self) -> (r: Vec<T>)
        ensures
            r@.to_multiset() == self.contents(),
            total_order::<T>() ==> sorted_asc(r@),
    {
        proof {
            use_type_invariant(&self);
        }
        self.data
    }
}

/// A thread-bound priority queue.
pub type MonoBinaryHeap<T> = Mono<BinaryHeap<T>>;

impl<T: Ord> MonoBinaryHeap<T> {
    /// An empty heap.
    pub fn new() -> (r: MonoBinaryHeap<T>)
        ensures
            r.value().contents() == Multiset::<T>::empty(),
    {
        Mono::from_const(BinaryHeap::new())
    }

    /// An empty heap with room for `capacity` elements.
    pub fn with_capacity(capacity: usize) -> (r: Self)
        ensures
            r.value().contents() == Multiset::<T>::empty(),
    {
        Mono::from_const(BinaryHeap::with_capacity(capacity))
    }

    /// The elements in ascending order.
    pub fn into_sorted_vec(self) -> (r: Mono<Vec<T>>)
        ensures
            r.value()@.to_multiset() == self.value().contents(),
            total_order::<T>() ==> sorted_asc(r.value()@),
    {
        Mono::from_const(self.into_inner().into_sorted_vec())
    }

    /// The elements in no particular order.
    pub fn into_vec(self) -> (r: Mono<Vec<T>>)
        ensures
            r.value()@.to_multiset() == self.value().contents(),
    {
        Mono::from_const(self.into_inner().into_vec())
    }
}

impl<T: Ord> Foreign<BinaryHeap<T>> {
    /// The elements in ascending order, with the same origin.
    pub fn into_sorted_vec(self) -> (r: Foreign<Vec<T>>)
        ensures
            r.origin() == self.origin(),
            r.value()@.to_multiset() == self.value().contents(),
            total_order::<T>() ==> sorted_asc(r.value()@),
    {
        let origin = self.origin_shard();
        Foreign::new(self.into_value().into_sorted_vec(), origin)
    }

    /// The elements in no particular order, with the same origin.
    pub fn into_vec(self) -> (r: Foreign<Vec<T>>)
        ensures
            r.origin() == self.origin(),
            r.value()@.to_multiset() == self.value().contents(),
    {
        let origin = self.origin_shard();
        Foreign::new(self.into_value().into_vec(), origin)
    }
}


/// Unsigned 64-bit integers are totally ordered by their comparison
/// operators, so a heap of them hands out its elements in order.
pub proof fn lemma_u64_total_order()
    ensures
        total_order::<u64>(),
{
}

} // verus!
