//! A one-way channel: the ring buffer protocol with the signal used as a doorbell.
//!
//! `send` is a checked push; `recv` is an unchecked pop, which leaves the signal to
//! the receiver: it polls `check`, or claims the doorbell with `exchange`.
use vstd::prelude::*;
use core::cell::Cell;
use core::sync::atomic::{AtomicIsize, AtomicU8};
use crate::array::Array;
use crate::protocol::{read_after, start_read};

verus! {

/// A channel of `T` over a ring buffer laid out in shared memory.
#[verifier::reject_recursive_types(T)]
pub struct Channel<'m, T> {
    ring: Array<'m, T>,
}

impl<'m, T> Channel<'m, T> {
    pub closed spec fn capacity_spec(&self) -> nat {
        self.ring.capacity_spec()
    }

    /// The slot this end receives from next.
    pub closed spec fn read_position(&self) -> nat {
        self.ring.read_position()
    }

    pub closed spec fn wf(&self) -> bool {
        self.ring.wf()
    }

    /// A channel end over the header fields and slots of a buffer; `None` where there
    /// are more slots than a signed word can count.
    pub fn new(
        signal: &'m AtomicU8,
        cursor: &'m AtomicIsize,
        count: &'m AtomicIsize,
        slots: &'m [Cell<Option<T>>],
    ) -> (r: Option<Self>)
        ensures
            r is Some <==> slots@.len() <= isize::MAX,
            r matches Some(c) ==> c.wf() && c.capacity_spec() == slots@.len()
                && c.read_position() == start_read(slots@.len()),
    {
        match Array::new(signal, cursor, count, slots) {
            Some(ring) => Some(Channel { ring }),
            None => None,
        }
    }

    /// Makes the channel empty. Only the creating process does this, before sharing.
    pub fn reset(&mut self)
        requires
            old(self).wf(),
        ensures
            final(self).wf(),
            final(self).capacity_spec() == old(self).capacity_spec(),
            final(self).read_position() == start_read(old(self).capacity_spec()),
    {
        self.ring.reset();
    }

    /// Whether the doorbell is raised.
    pub fn check(&self) -> bool {
        !self.ring.is_empty()
    }

    /// Lowers the doorbell; returns whether it was raised.
    pub fn exchange(&self) -> bool {
        self.ring.take_signal()
    }

    /// Sends `item` unless the channel is full; returns whether it was stored.
    pub fn send(&mut self, item: T) -> (r: bool)
        requires
            old(self).wf(),
        ensures
            final(self).wf(),
            final(self).capacity_spec() == old(self).capacity_spec(),
            final(self).read_position() == old(self).read_position(),
            old(self).capacity_spec() == 0 ==> !r,
    {
        self.ring.push(item)
    }

    /// Receives the oldest item, or `None` where its slot is absent. Neither reads nor
    /// lowers the doorbell. One receiving end only.
    pub fn recv(&mut self) -> (r: Option<T>)
        requires
            old(self).wf(),
        ensures
            final(self).wf(),
            final(self).capacity_spec() == old(self).capacity_spec(),
            r is Some ==> final(self).read_position() == read_after(
                old(self).read_position() as int,
                old(self).capacity_spec() as int,
            ),
            r is None ==> final(self).read_position() == old(self).read_position(),
            old(self).capacity_spec() == 0 ==> r is None,
    {
        self.ring.pop_unchecked()
    }
}

} // verus!
