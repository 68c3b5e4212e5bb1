//! The concurrent ring buffer protocol, run over a segment's header and slots.
//!
//! Producers reserve a slot in two atomic steps: the occupancy count (to refuse a
//! push into a full buffer) and the write cursor (to pick the slot). Any number of
//! producers may push at once; no two are given the same slot.
//!
//! The read position is not shared: it lives in the consuming `Array` value alone.
//! Exactly one consuming handle may pop over the lifetime of the buffer's contents;
//! two handles that both pop each start from the same slot and each decrement the
//! shared count, so elements may be read twice or skipped.
//!
//! The header fields are independent atomics, so between a producer's count
//! reservation and its slot write another handle may observe a count that runs ahead
//! of the slots. The presence tag of each slot (`Some` / `None`) is what a consumer
//! trusts: a slot found empty ends the pop without advancing. The occupancy signal is
//! a relaxed, advisory hint.
use vstd::prelude::*;
use core::cell::Cell;
use core::sync::atomic::{AtomicIsize, AtomicU8, Ordering};
use crate::error::Error;
use crate::layout::{block_len, capacity_of_len, RingLayout};
use crate::segment::Segment;
use crate::protocol::{
    admits, claim_slot, free_slots, kept, initial_read, next_read, read_after, remaining,
    snapshot_bound, start_read,
    FIRST_CURSOR,
};

verus! {

/// A slot of the ring buffer; its value is shared with other processes.
#[verifier::external_type_specification]
#[verifier::external_body]
#[verifier::reject_recursive_types(T)]
pub struct ExCell<T: ?Sized>(Cell<T>);

/// Relies on `Cell::set`: stores a value in the cell.
pub assume_specification<T>[ Cell::<T>::set ](cell: &Cell<T>, val: T);

/// Relies on `Cell::take`: returns the cell's value and leaves the default in its place.
pub assume_specification<T: Default>[ Cell::<T>::take ](cell: &Cell<T>) -> T
    where
        T: Default,
;

/// Relies on `Cell::get`: returns a copy of the cell's value.
pub assume_specification<T: Copy>[ Cell::<T>::get ](cell: &Cell<T>) -> T;

/// A handle on a ring buffer of `T` laid out in shared memory.
///
/// It borrows the header fields and the slots; what other processes do to them is
/// unknown here, so the contracts speak of what this handle keeps itself (its read
/// position) and of the index arithmetic, which stays in bounds whatever the shared
/// header holds.
#[verifier::reject_recursive_types(T)]
pub struct Array<'m, T> {
    signal: &'m AtomicU8,
    cursor: &'m AtomicIsize,
    count: &'m AtomicIsize,
    slots: &'m [Cell<Option<T>>],
    first: usize,
}

impl<'m, T> Array<'m, T> {
    /// The number of slots.
    pub closed spec fn capacity_spec(&self) -> nat {
        self.slots@.len()
    }

    /// The slot this handle pops next.
    pub closed spec fn read_position(&self) -> nat {
        self.first as nat
    }

    pub closed spec fn wf(&self) -> bool {
        &&& self.slots@.len() <= isize::MAX
        &&& self.slots@.len() == 0 ==> self.first == 0
        &&& self.slots@.len() > 0 ==> self.first < self.slots@.len()
    }

    /// A handle over the header fields and slots of a buffer, reading from the first
    /// data slot; `None` where there are more slots than a signed word can count.
    pub fn new(
        signal: &'m AtomicU8,
        cursor: &'m AtomicIsize,
        count: &'m AtomicIsize,
        slots: &'m [Cell<Option<T>>],
    ) -> (r: Option<Self>)
        ensures
            r is Some <==> slots@.len() <= isize::MAX,
            r matches Some(a) ==> a.wf() && a.capacity_spec() == slots@.len()
                && a.read_position() == start_read(slots@.len()),
    {
        let capacity = slots.len();
        if capacity > isize::MAX as usize {
            return None;
        }
        let first = if capacity == 0 {
            0
        } else {
            initial_read(capacity)
        };
        Some(Array { signal, cursor, count, slots, first })
    }

    /// A handle over a buffer whose consumer had read up to slot `first`; `None` where
    /// there are more slots than a signed word can count, or `first` is not a slot.
    pub fn resume(
        signal: &'m AtomicU8,
        cursor: &'m AtomicIsize,
        count: &'m AtomicIsize,
        slots: &'m [Cell<Option<T>>],
        first: usize,
    ) -> (r: Option<Self>)
        ensures
            r is Some <==> slots@.len() <= isize::MAX && (first < slots@.len() || (
            slots@.len() == 0 && first == 0)),
            r matches Some(a) ==> a.wf() && a.capacity_spec() == slots@.len() && a.read_position()
                == first,
    {
        let capacity = slots.len();
        if capacity > isize::MAX as usize || !(first < capacity || (capacity == 0 && first == 0)) {
            return None;
        }
        Some(Array { signal, cursor, count, slots, first })
    }

    /// Makes the buffer empty: count zero, write cursor on the first data slot, every
    /// slot absent, signal down. Only the creating process does this, before sharing.
    pub fn reset(&mut self)
        requires
            old(self).wf(),
        ensures
            final(self).wf(),
            final(self).capacity_spec() == old(self).capacity_spec(),
            final(self).read_position() == start_read(old(self).capacity_spec()),
    {
        self.count.store(0, Ordering::SeqCst);
        self.cursor.store(FIRST_CURSOR, Ordering::SeqCst);
        let mut i: usize = 0;
        while i < self.slots.len()
            invariant
                i <= self.slots@.len(),
            decreases self.slots@.len() - i,
        {
            self.slots[i].set(None);
            i = i + 1;
        }
        self.signal.store(0, Ordering::SeqCst);
        self.first = if self.slots.len() == 0 {
            0
        } else {
            initial_read(self.slots.len())
        };
    }

    /// The number of slots.
    pub fn capacity(&self) -> (r: usize)
        ensures
            r == self.capacity_spec(),
    {
        self.slots.len()
    }

    /// The slot this handle pops next.
    pub fn first(&self) -> (r: usize)
        ensures
            r == self.read_position(),
    {
        self.first
    }

    /// Whether the occupancy signal is down: an advisory reading, not a count.
    pub fn is_empty(&self) -> bool {
        self.signal.load(Ordering::Relaxed) == 0
    }

    /// Lowers a raised signal; returns whether it was raised.
    pub fn take_signal(&self) -> bool {
        match self.signal.compare_exchange(1, 0, Ordering::Relaxed, Ordering::Relaxed) {
            Ok(previous) => previous == 1,
            Err(previous) => previous == 1,
        }
    }

    /// Free slots by the occupancy count: the capacity minus the count, and none
    /// once the count has reached the capacity.
    pub fn slots_remaining(&self) -> (r: usize)
        requires
            self.wf(),
        ensures
            r <= self.capacity_spec(),
            exists|count: isize| r == free_slots(self.capacity_spec() as int, count as int),
    {
        let count = self.count.load(Ordering::SeqCst);
        remaining(self.slots.len(), count)
    }

    /// Pushes `element` unless the buffer is full; returns whether it was stored.
    ///
    /// Reserves a place in the occupancy count first; a producer that finds the count
    /// at the capacity gives its reservation back and stores nothing.
    pub fn push(&mut self, element: T) -> (r: bool)
        requires
            old(self).wf(),
        ensures
            final(self).wf(),
            final(self).capacity_spec() == old(self).capacity_spec(),
            final(self).read_position() == old(self).read_position(),
            old(self).capacity_spec() == 0 ==> !r,
    {
        let count = self.count.fetch_add(1, Ordering::SeqCst);
        if self.slots.len() == 0 || !admits(count, self.slots.len()) {
            self.count.fetch_sub(1, Ordering::SeqCst);
            return false;
        }
        self.push_unchecked(element);
        self.signal.store(1, Ordering::Relaxed);
        true
    }

    /// Writes `element` into the next slot of the write cursor, without looking at
    /// the count or raising the signal. For callers that reserved room themselves.
    pub fn push_unchecked(&mut self, element: T)
        requires
            old(self).wf(),
            old(self).capacity_spec() > 0,
        ensures
            final(self).wf(),
            final(self).capacity_spec() == old(self).capacity_spec(),
            final(self).read_position() == old(self).read_position(),
    {
        let capacity = self.slots.len();
        let cursor = self.cursor.fetch_add(1, Ordering::SeqCst);
        let (index, wrap) = claim_slot(cursor, capacity);
        if wrap {
            self.cursor.fetch_sub(capacity as isize, Ordering::SeqCst);
        }
        self.slots[index].set(Some(element));
    }

    /// Pushes the elements of `elements` in order, as many as the free slots read
    /// once at the start allow (`batch_of(elements, slots_remaining())`); the rest are
    /// dropped without error.
    pub fn push_many(&mut self, elements: Vec<T>)
        requires
            old(self).wf(),
        ensures
            final(self).wf(),
            final(self).capacity_spec() == old(self).capacity_spec(),
            final(self).read_position() == old(self).read_position(),
    {
        let quota = self.slots_remaining();
        let batch = batch_of(elements, quota);
        let mut rest = batch;
        while rest.len() > 0
            invariant
                self.wf(),
                self.capacity_spec() > 0 || rest@.len() == 0,
                self.capacity_spec() == old(self).capacity_spec(),
                self.read_position() == old(self).read_position(),
            decreases rest@.len(),
        {
            let element = rest.remove(0);
            self.count.fetch_add(1, Ordering::SeqCst);
            self.push_unchecked(element);
        }
        self.signal.store(1, Ordering::Relaxed);
    }

    /// Writes every element of `elements` in order, without looking at the count or
    /// raising the signal.
    pub fn push_many_unchecked(&mut self, elements: Vec<T>)
        requires
            old(self).wf(),
            old(self).capacity_spec() > 0,
        ensures
            final(self).wf(),
            final(self).capacity_spec() == old(self).capacity_spec(),
            final(self).read_position() == old(self).read_position(),
    {
        let mut rest = elements;
        while rest.len() > 0
            invariant
                self.wf(),
                self.capacity_spec() > 0,
                self.capacity_spec() == old(self).capacity_spec(),
                self.read_position() == old(self).read_position(),
            decreases rest@.len(),
        {
            let element = rest.remove(0);
            self.push_unchecked(element);
        }
    }

    /// Takes the element at the read position. On an element, moves the read position
    /// on by one (wrapping) and gives back one place of the count; on an absent slot,
    /// stays and returns `None`.
    fn take_front(&mut self) -> (r: (Option<T>, bool))
        requires
            old(self).wf(),
            old(self).capacity_spec() > 0,
        ensures
            final(self).wf(),
            final(self).capacity_spec() == old(self).capacity_spec(),
            r.0 is Some <==> r.1,
            r.1 ==> final(self).read_position() == read_after(
                old(self).read_position() as int,
                old(self).capacity_spec() as int,
            ),
            !r.1 ==> final(self).read_position() == old(self).read_position(),
    {
        let result = self.slots[self.first].take();
        if result.is_some() {
            self.first = next_read(self.first, self.slots.len());
            self.count.fetch_sub(1, Ordering::SeqCst);
            (result, true)
        } else {
            (result, false)
        }
    }

    /// Pops the oldest element, or `None` where the signal is down or the slot at the
    /// read position is absent (which also lowers the signal). Single consumer only.
    pub fn pop(&mut self) -> (r: Option<T>)
        requires
            old(self).wf(),
        ensures
            final(self).wf(),
            final(self).capacity_spec() == old(self).capacity_spec(),
            r is Some ==> final(self).read_position() == read_after(
                old(self).read_position() as int,
                old(self).capacity_spec() as int,
            ),
            r is None ==> final(self).read_position() == old(self).read_position(),
            old(self).capacity_spec() == 0 ==> r is None,
    {
        if self.slots.len() == 0 || self.is_empty() {
            return None;
        }
        let (result, taken) = self.take_front();
        if !taken {
            self.signal.store(0, Ordering::Relaxed);
        }
        result
    }

    /// Pops the element at the read position without reading or lowering the signal.
    /// Single consumer only.
    pub fn pop_unchecked(&mut self) -> (r: Option<T>)
        requires
            old(self).wf(),
        ensures
            final(self).wf(),
            final(self).capacity_spec() == old(self).capacity_spec(),
            r is Some ==> final(self).read_position() == read_after(
                old(self).read_position() as int,
                old(self).capacity_spec() as int,
            ),
            r is None ==> final(self).read_position() == old(self).read_position(),
            old(self).capacity_spec() == 0 ==> r is None,
    {
        if self.slots.len() == 0 {
            return None;
        }
        let (result, _) = self.take_front();
        result
    }
}

impl<'m, T> Array<'m, T> {
    /// Replaces each occupied element from the read position onward by `f` of it: at
    /// most as many as the occupancy count read at the start (within the capacity),
    /// ending early at the first absent slot; returns how many were updated. Not stable
    /// under concurrent pushes or pops.
    pub fn update_each<F: Fn(T) -> T>(&mut self, f: F) -> (r: usize)
        requires
            old(self).wf(),
            forall|x: T| f.requires((x,)),
        ensures
            final(self).wf(),
            final(self).capacity_spec() == old(self).capacity_spec(),
            final(self).read_position() == old(self).read_position(),
            r <= old(self).capacity_spec(),
    {
        let count = self.count.load(Ordering::Relaxed);
        let bound = snapshot_bound(count, self.slots.len());
        self.update_first(bound, f)
    }

    /// Replaces by `f` of it each of the first `bound` occupied elements from the read
    /// position onward, ending early at the first absent slot; returns how many were
    /// updated.
    pub fn update_first<F: Fn(T) -> T>(&mut self, bound: usize, f: F) -> (r: usize)
        requires
            old(self).wf(),
            bound <= old(self).capacity_spec(),
            forall|x: T| f.requires((x,)),
        ensures
            final(self).wf(),
            final(self).capacity_spec() == old(self).capacity_spec(),
            final(self).read_position() == old(self).read_position(),
            r <= bound,
    {
        let capacity = self.slots.len();
        let mut done: usize = 0;
        let mut index = self.first;
        while done < bound
            invariant
                self.wf(),
                bound <= capacity,
                capacity == self.capacity_spec(),
                self.capacity_spec() == old(self).capacity_spec(),
                self.read_position() == old(self).read_position(),
                done <= bound,
                capacity > 0 ==> index < capacity,
                forall|x: T| f.requires((x,)),
            decreases bound - done,
        {
            match self.slots[index].take() {
                Some(element) => {
                    self.slots[index].set(Some(f(element)));
                    done = done + 1;
                    index = next_read(index, capacity);
                },
                None => {
                    break;
                },
            }
        }
        done
    }
}

impl<'m, T: Copy> Array<'m, T> {
    /// A snapshot of the occupied slots from the read position onward: at most as many
    /// as the occupancy count read at the start (within the capacity), ending early at
    /// the first absent slot. Not stable under concurrent pushes or pops.
    pub fn iter(&self) -> (r: Vec<T>)
        requires
            self.wf(),
        ensures
            r@.len() <= self.capacity_spec(),
    {
        let count = self.count.load(Ordering::Relaxed);
        let bound = snapshot_bound(count, self.slots.len());
        self.iter_first(bound)
    }

    /// The first `bound` occupied elements from the read position onward, ending early
    /// at the first absent slot.
    pub fn iter_first(&self, bound: usize) -> (r: Vec<T>)
        requires
            self.wf(),
            bound <= self.capacity_spec(),
        ensures
            r@.len() <= bound,
    {
        let capacity = self.slots.len();
        let mut out: Vec<T> = Vec::new();
        let mut index = self.first;
        while out.len() < bound
            invariant
                self.wf(),
                bound <= capacity,
                capacity == self.capacity_spec(),
                out@.len() <= bound,
                capacity > 0 ==> index < capacity,
            decreases bound - out@.len(),
        {
            match self.slots[index].get() {
                Some(element) => {
                    out.push(element);
                    index = next_read(index, capacity);
                },
                None => {
                    break;
                },
            }
        }
        out
    }
}

/// The first `quota` elements of `elements` (all of them where there are fewer),
/// in order.
pub fn batch_of<T>(elements: Vec<T>, quota: usize) -> (r: Vec<T>)
    ensures
        r@ == kept(elements@, quota as int),
{
    let mut batch = elements;
    if quota < batch.len() {
        batch.truncate(quota);
    }
    proof {
        assert(batch@ =~= kept(elements@, quota as int));
    }
    batch
}

/// Creates the segment `name` for a ring buffer of `capacity` slots of `Option<T>`,
/// owned by the returned handle, with its layout.
///
/// Fails with `InvalidBlockSize` where the block would not fit in a `usize`, and
/// otherwise as [`Segment::create`] does.
pub fn create_segment<T>(name: &str, capacity: usize) -> (r: Result<(Segment, RingLayout), Error>)
    ensures
        r matches Ok((s, l)) ==> {
            &&& s.owned()
            &&& l.wf()
            &&& l.capacity == capacity
            &&& l.slot_size == vstd::layout::size_of::<Option<T>>()
            &&& s.size() == l.block_len()
        },
        (vstd::layout::size_of::<Option<T>>() == 0 || block_len(
            capacity as int,
            vstd::layout::size_of::<Option<T>>() as int,
        ) > usize::MAX) <==> r matches Err(Error::InvalidBlockSize),
        r is Err ==> r matches Err(Error::InvalidBlockSize) || r matches Err(
            Error::BlockAlreadyAllocated,
        ) || r matches Err(Error::Shm(_)),
{
    let slot_size = core::mem::size_of::<Option<T>>();
    if slot_size == 0 {
        return Err(Error::InvalidBlockSize);
    }
    let layout = match RingLayout::for_capacity(capacity, slot_size) {
        Some(layout) => layout,
        None => return Err(Error::InvalidBlockSize),
    };
    match Segment::create(name, layout.len()) {
        Ok(segment) => Ok((segment, layout)),
        Err(e) => Err(e),
    }
}

/// Attaches to the ring buffer segment `name` and discovers its capacity from the
/// segment's length: the slots of `Option<T>` that fit after the header.
///
/// Fails with `InvalidBlockSize` where the segment is too short for a header, and
/// otherwise as [`Segment::attach`] does.
pub fn attach_segment<T>(name: &str) -> (r: Result<(Segment, RingLayout), Error>)
    ensures
        r matches Ok((s, l)) ==> {
            &&& !s.owned()
            &&& l.wf()
            &&& l.slot_size == vstd::layout::size_of::<Option<T>>()
            &&& capacity_of_len(s.size() as int, l.slot_size as int) == Some(l.capacity as int)
            &&& l.block_len() <= s.size()
        },
        vstd::layout::size_of::<Option<T>>() == 0 ==> r matches Err(Error::InvalidBlockSize),
        r is Err ==> r matches Err(Error::InvalidBlockSize) || r matches Err(Error::NotFound)
            || r matches Err(Error::Shm(_)),
{
    let slot_size = core::mem::size_of::<Option<T>>();
    if slot_size == 0 {
        return Err(Error::InvalidBlockSize);
    }
    let segment = match Segment::attach(name) {
        Ok(segment) => segment,
        Err(e) => return Err(e),
    };
    match RingLayout::for_len(segment.len(), slot_size) {
        Some(layout) => Ok((segment, layout)),
        None => Err(Error::InvalidBlockSize),
    }
}

} // verus!
