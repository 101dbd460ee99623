//! Arrays of foreign records in which only some slots hold a record.
//!
//! The game keeps many of its records in arrays of a fixed capacity. Which
//! slots are in use is told in one of two ways. A [`CountArray`] comes with a
//! count: the first `count` slots are in use and the rest must never be read.
//! A [`SlotPool`] has no count: each slot says of itself whether it is empty,
//! and empty slots lie scattered among the others. The game fills and empties
//! slots whenever it likes, so a pool asks each slot at the moment it comes to
//! it and remembers no answer.

use core::marker::PhantomData;
use vstd::prelude::*;

use crate::shared::memory::Region;

verus! {

/// A kind of record that can tell from the bytes of a slot whether the slot
/// is empty.
pub trait IsEmpty {
    /// The number of bytes from the start of one slot to the start of the
    /// next.
    spec fn spec_stride() -> u64;

    /// Whether a slot that holds `slot` is empty.
    spec fn spec_is_empty(slot: Seq<u8>) -> bool;

    /// Returns the number of bytes from the start of one slot to the start
    /// of the next.
    fn stride() -> (s: u64)
        ensures
            s == Self::spec_stride(),
            0 < s <= u32::MAX,
    ;

    /// Returns whether a slot that holds `slot` is empty.
    fn is_empty(slot: &[u8]) -> (b: bool)
        requires
            slot@.len() == Self::spec_stride(),
        ensures
            b == Self::spec_is_empty(slot@),
    ;
}

/// The first `index` slots of an array take `index` strides, which is no more
/// than `capacity` strides.
pub proof fn lemma_slot_offset(index: int, capacity: int, stride: int)
    requires
        0 <= index <= capacity,
        0 <= stride,
    ensures
        0 <= index * stride <= capacity * stride,
        index < capacity ==> index * stride + stride <= capacity * stride,
{
    assert(0 <= index * stride <= capacity * stride) by (nonlinear_arith)
        requires
            0 <= index <= capacity,
            0 <= stride,
    ;
    if index < capacity {
        assert(index * stride + stride <= capacity * stride) by (nonlinear_arith)
            requires
                0 <= index < capacity,
                0 <= stride,
        ;
    }
}

/// A fixed-capacity array of records of which the first `count` are in use.
#[derive(Debug, Copy, Clone, PartialEq, Eq, Structural)]
pub struct CountArray {
    head: u64,
    count: u32,
    capacity: u32,
    stride: u32,
}

impl CountArray {
    #[verifier::type_invariant]
    spec fn well_formed(self) -> bool {
        &&& self.count <= self.capacity
        &&& self.head + self.capacity * self.stride <= u64::MAX
    }

    /// The address of the first slot.
    pub closed spec fn spec_head(&self) -> u64 {
        self.head
    }

    /// The number of slots in use.
    pub closed spec fn spec_count(&self) -> u32 {
        self.count
    }

    /// The number of slots.
    pub closed spec fn spec_capacity(&self) -> u32 {
        self.capacity
    }

    /// The number of bytes from the start of one slot to the start of the
    /// next.
    pub closed spec fn spec_stride(&self) -> u32 {
        self.stride
    }

    /// The address of slot `index`.
    pub open spec fn slot_address(&self, index: int) -> int {
        self.spec_head() + index * self.spec_stride()
    }

    /// The addresses of the slots in use, first to last.
    pub open spec fn spec_addresses(&self) -> Seq<u64> {
        Seq::new(self.spec_count() as nat, |i: int| self.slot_address(i) as u64)
    }

    /// Describes an array. A count above the capacity is refused, and so is
    /// an array that would end past the last address.
    pub fn new(head: u64, count: u32, capacity: u32, stride: u32) -> (r: Option<CountArray>)
        ensures
            r is Some <==> count <= capacity && head + capacity * stride <= u64::MAX,
            r is Some ==> {
                &&& r->Some_0.spec_head() == head
                &&& r->Some_0.spec_count() == count
                &&& r->Some_0.spec_capacity() == capacity
                &&& r->Some_0.spec_stride() == stride
            },
    {
        if count > capacity {
            return None;
        }
        assert(capacity * stride <= u64::MAX) by (nonlinear_arith)
            requires
                capacity <= u32::MAX,
                stride <= u32::MAX,
        ;
        let bytes: u64 = capacity as u64 * stride as u64;
        if bytes <= u64::MAX - head {
            Some(CountArray { head, count, capacity, stride })
        } else {
            None
        }
    }

    /// Returns the number of slots in use.
    #[verifier::when_used_as_spec(spec_count)]
    pub fn count(&self) -> (n: u32)
        ensures
            n == self.spec_count(),
            n <= self.spec_capacity(),
    {
        proof {
            use_type_invariant(self);
        }
        self.count
    }

    /// Returns the number of slots.
    #[verifier::when_used_as_spec(spec_capacity)]
    pub fn capacity(&self) -> (n: u32)
        ensures
            n == self.spec_capacity(),
    {
        self.capacity
    }

    /// Returns the address of the slot at `index`, or `None` where that slot
    /// is not in use.
    pub fn get(&self, index: u32) -> (r: Option<u64>)
        ensures
            r is Some <==> index < self.spec_count(),
            r is Some ==> r->Some_0 == self.slot_address(index as int),
    {
        proof {
            use_type_invariant(self);
        }
        if index < self.count {
            proof {
                lemma_slot_offset(index as int, self.capacity as int, self.stride as int);
            }
            Some(self.head + index as u64 * self.stride as u64)
        } else {
            None
        }
    }

    /// Returns the addresses of the slots in use, first to last. No slot past
    /// the count is touched, however large the capacity.
    pub fn addresses(&self) -> (r: Vec<u64>)
        ensures
            r@ == self.spec_addresses(),
            r@.len() == self.spec_count(),
            forall|i: int| 0 <= i < r@.len() ==> r@[i] == self.slot_address(i),
    {
        let mut out: Vec<u64> = Vec::new();
        let mut i: u32 = 0;
        while i < self.count
            invariant
                i <= self.count,
                out@.len() == i,
                forall|j: int| 0 <= j < i ==> out@[j] == self.slot_address(j),
            decreases self.count - i,
        {
            if let Some(address) = self.get(i) {
                out.push(address);
            }
            i += 1;
        }
        assert(out@ =~= self.spec_addresses());
        out
    }
}

/// A fixed-capacity array of records in which each slot says of itself
/// whether it is empty.
#[derive(Debug)]
pub struct SlotPool<T: IsEmpty> {
    head: u64,
    capacity: u32,
    kind: PhantomData<T>,
}

impl<T: IsEmpty> SlotPool<T> {
    #[verifier::type_invariant]
    spec fn well_formed(self) -> bool {
        self.head + self.capacity * T::spec_stride() <= u64::MAX
    }

    /// The address of the first slot.
    pub closed spec fn spec_head(&self) -> u64 {
        self.head
    }

    /// The number of slots.
    pub closed spec fn spec_capacity(&self) -> u32 {
        self.capacity
    }

    /// The address of slot `index`.
    pub open spec fn slot_address(&self, index: int) -> int {
        self.spec_head() + index * T::spec_stride()
    }

    /// Whether `region` holds every slot of the pool.
    pub open spec fn mapped(&self, region: &Region) -> bool {
        region.covers(self.spec_head(), self.spec_capacity() * T::spec_stride())
    }

    /// Whether slot `index` holds a record, going by the bytes that `region`
    /// holds for it.
    pub open spec fn occupied(&self, region: &Region, index: int) -> bool {
        !T::spec_is_empty(region.span(self.slot_address(index) as u64, T::spec_stride() as int))
    }

    /// The slots from `from` on that hold a record, in ascending order.
    pub open spec fn occupied_from(&self, region: &Region, from: int) -> Seq<int>
        decreases self.spec_capacity() - from,
    {
        if from < 0 || from >= self.spec_capacity() {
            Seq::empty()
        } else if self.occupied(region, from) {
            seq![from] + self.occupied_from(region, from + 1)
        } else {
            self.occupied_from(region, from + 1)
        }
    }

    /// Describes a pool. A pool that would end past the last address is
    /// refused.
    pub fn new(head: u64, capacity: u32) -> (r: Option<SlotPool<T>>)
        ensures
            r is Some <==> head + capacity * T::spec_stride() <= u64::MAX,
            r is Some ==> r->Some_0.spec_head() == head && r->Some_0.spec_capacity() == capacity,
    {
        let stride = T::stride();
        assert(capacity * stride <= u64::MAX) by (nonlinear_arith)
            requires
                capacity <= u32::MAX,
                stride <= u32::MAX,
        ;
        let bytes: u64 = capacity as u64 * stride;
        if bytes <= u64::MAX - head {
            Some(SlotPool { head, capacity, kind: PhantomData })
        } else {
            None
        }
    }

    /// Returns the address of the first slot.
    #[verifier::when_used_as_spec(spec_head)]
    pub fn head(&self) -> (a: u64)
        ensures
            a == self.spec_head(),
    {
        self.head
    }

    /// Returns the number of slots.
    #[verifier::when_used_as_spec(spec_capacity)]
    pub fn capacity(&self) -> (n: u32)
        ensures
            n == self.spec_capacity(),
            self.spec_head() + n * T::spec_stride() <= u64::MAX,
    {
        proof {
            use_type_invariant(self);
        }
        self.capacity
    }

    /// Returns whether `region` holds every slot of the pool.
    pub fn is_mapped(&self, region: &Region) -> (b: bool)
        ensures
            b == self.mapped(region),
    {
        proof {
            use_type_invariant(self);
        }
        let stride = T::stride();
        assert(self.capacity * stride <= u64::MAX) by (nonlinear_arith)
            requires
                self.capacity <= u32::MAX,
                stride <= u32::MAX,
        ;
        region.contains(self.head, self.capacity as u64 * stride)
    }

    /// Returns the address of the slot at `index`.
    pub fn address_of(&self, index: u32) -> (a: u64)
        requires
            index < self.spec_capacity(),
        ensures
            a == self.slot_address(index as int),
            a + T::spec_stride() <= self.spec_head() + self.spec_capacity() * T::spec_stride(),
    {
        proof {
            use_type_invariant(self);
            lemma_slot_offset(index as int, self.capacity as int, T::spec_stride() as int);
        }
        let stride = T::stride();
        self.head + index as u64 * stride
    }

    /// Returns whether the slot at `index` holds a record right now.
    pub fn is_occupied(&self, region: &Region, index: u32) -> (b: bool)
        requires
            index < self.spec_capacity(),
            self.mapped(region),
        ensures
            b == self.occupied(region, index as int),
    {
        let address = self.address_of(index);
        let stride = T::stride();
        match region.read_bytes(address, stride as usize) {
            Some(slot) => !T::is_empty(slot.as_slice()),
            None => vstd::pervasive::unreached(),
        }
    }

    /// Finds the first slot at or after `from` that holds a record right
    /// now. Every slot between `from` and the one found is empty; `None`
    /// means that every slot from `from` on is.
    pub fn next_occupied(&self, region: &Region, from: u32) -> (r: Option<u32>)
        requires
            self.mapped(region),
        ensures
            r is None <==> self.occupied_from(region, from as int).len() == 0,
            r is Some ==> {
                let found = r->Some_0;
                &&& from <= found < self.spec_capacity()
                &&& self.occupied(region, found as int)
                &&& forall|i: int| from <= i < found ==> !self.occupied(region, i)
                &&& self.occupied_from(region, from as int) == seq![found as int]
                    + self.occupied_from(region, found + 1)
            },
            r is None ==> forall|i: int|
                from <= i < self.spec_capacity() ==> !self.occupied(region, i),
    {
        let mut i: u32 = from;
        while i < self.capacity
            invariant
                from <= i,
                self.mapped(region),
                forall|j: int| from <= j < i && j < self.spec_capacity() ==> !self.occupied(region, j),
                self.occupied_from(region, from as int) == self.occupied_from(region, i as int),
            decreases self.capacity - i,
        {
            if self.is_occupied(region, i) {
                return Some(i);
            }
            i += 1;
        }
        None
    }

    /// Returns the slots that hold a record right now, in ascending order.
    pub fn occupied_slots(&self, region: &Region) -> (r: Vec<u32>)
        requires
            self.mapped(region),
        ensures
            r@.map_values(|i: u32| i as int) == self.occupied_from(region, 0),
    {
        let mut out: Vec<u32> = Vec::new();
        let mut from: u32 = 0;
        loop
            invariant
                self.mapped(region),
                from <= self.spec_capacity(),
                out@.map_values(|i: u32| i as int) + self.occupied_from(region, from as int)
                    == self.occupied_from(region, 0),
            decreases self.spec_capacity() - from,
        {
            match self.next_occupied(region, from) {
                Some(found) => {
                    proof {
                        let before = out@.map_values(|i: u32| i as int);
                        assert(out@.push(found).map_values(|i: u32| i as int) =~= before + seq![
                            found as int,
                        ]);
                        assert(before + (seq![found as int] + self.occupied_from(
                            region,
                            found + 1,
                        )) =~= (before + seq![found as int]) + self.occupied_from(
                            region,
                            found + 1,
                        ));
                    }
                    out.push(found);
                    from = found + 1;
                },
                None => {
                    assert(out@.map_values(|i: u32| i as int) + Seq::<int>::empty()
                        =~= out@.map_values(|i: u32| i as int));
                    return out;
                },
            }
        }
    }

    /// The slots that are reported as holding a record are exactly the slots
    /// that do, each once and in ascending order.
    pub proof fn lemma_occupied_from(&self, region: &Region, from: int)
        requires
            0 <= from,
        ensures
            forall|k: int|
                0 <= k < self.occupied_from(region, from).len() ==> {
                    let slot = #[trigger] self.occupied_from(region, from)[k];
                    from <= slot < self.spec_capacity() && self.occupied(region, slot)
                },
            forall|j: int, k: int|
                0 <= j < k < self.occupied_from(region, from).len() ==> self.occupied_from(
                    region,
                    from,
                )[j] < self.occupied_from(region, from)[k],
            forall|i: int|
                from <= i < self.spec_capacity() && self.occupied(region, i)
                    ==> self.occupied_from(region, from).contains(i),
        decreases self.spec_capacity() - from,
    {
        if from < self.spec_capacity() {
            self.lemma_occupied_from(region, from + 1);
            let rest = self.occupied_from(region, from + 1);
            let all = self.occupied_from(region, from);
            if self.occupied(region, from) {
                assert(all == seq![from] + rest);
                assert(all[0] == from);
                assert forall|i: int|
                    from <= i < self.spec_capacity() && self.occupied(region, i) implies all.contains(
                    i,
                ) by {
                    if i > from {
                        let k = choose|k: int| 0 <= k < rest.len() && rest[k] == i;
                        assert(all[k + 1] == i);
                    }
                }
                assert forall|k: int| 0 <= k < all.len() implies {
                    let slot = #[trigger] all[k];
                    from <= slot < self.spec_capacity() && self.occupied(region, slot)
                } by {
                    if k > 0 {
                        assert(all[k] == rest[k - 1]);
                    }
                }
                assert forall|j: int, k: int| 0 <= j < k < all.len() implies all[j] < all[k] by {
                    assert(all[k] == rest[k - 1]);
                    if j > 0 {
                        assert(all[j] == rest[j - 1]);
                    }
                }
            } else {
                assert(all == rest);
            }
        }
    }
}

/// A walk over the slots of a pool that hold a record, in ascending order.
///
/// The walk looks at each slot when it comes to it, in the region as it is
/// then, and never before.
#[derive(Debug)]
pub struct NonEmptyIter<'a, T: IsEmpty> {
    pool: SlotPool<T>,
    region: &'a Region,
    position: u32,
}

impl<'a, T: IsEmpty> NonEmptyIter<'a, T> {
    #[verifier::type_invariant]
    spec fn well_formed(self) -> bool {
        self.pool.mapped(self.region) && self.position <= self.pool.spec_capacity()
    }

    /// The pool that is walked over.
    pub closed spec fn spec_pool(&self) -> SlotPool<T> {
        self.pool
    }

    /// The region that the slots are read from.
    pub closed spec fn spec_region(&self) -> &'a Region {
        self.region
    }

    /// The first slot that the walk has not looked at yet.
    pub closed spec fn spec_position(&self) -> u32 {
        self.position
    }

    /// The slots that the walk has still to give, in the order in which it
    /// gives them.
    pub open spec fn remaining(&self) -> Seq<int> {
        self.spec_pool().occupied_from(self.spec_region(), self.spec_position() as int)
    }

    /// Starts a walk at the pool's first slot. The region has to hold the
    /// whole pool; `None` means that it doesn't.
    pub fn new(pool: SlotPool<T>, region: &'a Region) -> (r: Option<NonEmptyIter<'a, T>>)
        ensures
            r is Some <==> pool.mapped(region),
            r is Some ==> {
                &&& r->Some_0.spec_pool() == pool
                &&& r->Some_0.spec_region() == region
                &&& r->Some_0.spec_position() == 0
            },
    {
        if pool.is_mapped(region) {
            Some(NonEmptyIter { pool, region, position: 0 })
        } else {
            None
        }
    }

    /// Returns the pool that is walked over.
    pub fn pool(&self) -> (p: &SlotPool<T>)
        ensures
            *p == self.spec_pool(),
            p.mapped(self.spec_region()),
    {
        proof {
            use_type_invariant(self);
        }
        &self.pool
    }

    /// Returns the region that the slots are read from.
    pub fn region(&self) -> (r: &'a Region)
        ensures
            r == self.spec_region(),
            self.spec_pool().mapped(r),
    {
        proof {
            use_type_invariant(self);
        }
        self.region
    }

    /// Moves to the next slot that holds a record and returns its index, or
    /// returns `None` once no such slot is left.
    pub fn next(&mut self) -> (r: Option<u32>)
        ensures
            final(self).spec_pool() == old(self).spec_pool(),
            final(self).spec_region() == old(self).spec_region(),
            r is None <==> old(self).remaining().len() == 0,
            r is None ==> final(self).remaining().len() == 0 && final(self).spec_position()
                == old(self).spec_pool().spec_capacity(),
            r is Some ==> {
                &&& r->Some_0 == old(self).remaining()[0]
                &&& r->Some_0 < old(self).spec_pool().spec_capacity()
                &&& old(self).spec_pool().occupied(old(self).spec_region(), r->Some_0 as int)
                &&& old(self).spec_pool().mapped(old(self).spec_region())
                &&& final(self).remaining() == old(self).remaining().drop_first()
                &&& final(self).spec_position() == r->Some_0 + 1
            },
    {
        proof {
            use_type_invariant(&*self);
        }
        match self.pool.next_occupied(self.region, self.position) {
            Some(found) => {
                proof {
                    let rest = self.pool.occupied_from(self.region, found + 1);
                    assert((seq![found as int] + rest).drop_first() =~= rest);
                }
                self.position = found + 1;
                Some(found)
            },
            None => {
                self.position = self.pool.capacity();
                None
            },
        }
    }
}

/// A walk over the slots of a pool that hold a record, for a caller that
/// changes the records as it goes.
///
/// The walk keeps no hold on the game's memory. Each step is handed the
/// region as it is then, so whatever the caller or the game wrote since the
/// step before is seen.
#[derive(Debug)]
pub struct NonEmptyIterMut<T: IsEmpty> {
    pool: SlotPool<T>,
    position: u32,
}

impl<T: IsEmpty> NonEmptyIterMut<T> {
    #[verifier::type_invariant]
    spec fn well_formed(self) -> bool {
        self.position <= self.pool.spec_capacity()
    }

    /// The pool that is walked over.
    pub closed spec fn spec_pool(&self) -> SlotPool<T> {
        self.pool
    }

    /// The first slot that the walk has not looked at yet.
    pub closed spec fn spec_position(&self) -> u32 {
        self.position
    }

    /// The slots that the walk has still to give if it reads them from
    /// `region`, in the order in which it gives them.
    pub open spec fn remaining(&self, region: &Region) -> Seq<int> {
        self.spec_pool().occupied_from(region, self.spec_position() as int)
    }

    /// Starts a walk at the pool's first slot.
    pub fn new(pool: SlotPool<T>) -> (r: NonEmptyIterMut<T>)
        ensures
            r.spec_pool() == pool,
            r.spec_position() == 0,
    {
        NonEmptyIterMut { pool, position: 0 }
    }

    /// Returns the pool that is walked over.
    pub fn pool(&self) -> (p: &SlotPool<T>)
        ensures
            *p == self.spec_pool(),
    {
        &self.pool
    }

    /// Moves to the next slot that holds a record in `region` and returns
    /// its index, or returns `None` once no such slot is left.
    pub fn next(&mut self, region: &Region) -> (r: Option<u32>)
        requires
            old(self).spec_pool().mapped(region),
        ensures
            final(self).spec_pool() == old(self).spec_pool(),
            r is None <==> old(self).remaining(region).len() == 0,
            r is None ==> final(self).remaining(region).len() == 0 && final(self).spec_position()
                == old(self).spec_pool().spec_capacity(),
            r is Some ==> {
                &&& r->Some_0 == old(self).remaining(region)[0]
                &&& r->Some_0 < old(self).spec_pool().spec_capacity()
                &&& old(self).spec_pool().occupied(region, r->Some_0 as int)
                &&& final(self).remaining(region) == old(self).remaining(region).drop_first()
                &&& final(self).spec_position() == r->Some_0 + 1
            },
    {
        proof {
            use_type_invariant(&*self);
        }
        match self.pool.next_occupied(region, self.position) {
            Some(found) => {
                proof {
                    let rest = self.pool.occupied_from(region, found + 1);
                    assert((seq![found as int] + rest).drop_first() =~= rest);
                }
                self.position = found + 1;
                Some(found)
            },
            None => {
                self.position = self.pool.capacity();
                None
            },
        }
    }
}

} // verus!
