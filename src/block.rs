//! A typed cell: one value of `T` at the start of a segment, with no header.
//!
//! The cell has no synchronization of its own: concurrent writers must coordinate
//! outside it (for instance a single writer that hands over to a single reader).
use vstd::prelude::*;
use core::marker::PhantomData;
use crate::error::Error;
use crate::segment::Segment;

verus! {

/// A segment sized to hold exactly one `T`.
pub struct Block<T> {
    segment: Segment,
    marker: PhantomData<T>,
}

impl<T> Block<T> {
    /// Whether this handle created the cell's segment.
    pub closed spec fn owned(&self) -> bool {
        self.segment.owned()
    }

    /// The length in bytes of the cell's segment.
    pub closed spec fn size(&self) -> nat {
        self.segment.size()
    }

    /// Creates the cell `name`, sized for one `T`, owned by the returned handle.
    ///
    /// Fails with `SizeZero` for a zero-sized `T`, with `BlockAlreadyAllocated` where a
    /// segment under `name` is live, and with `Shm` on any other failure.
    pub fn create(name: &str) -> (r: Result<Block<T>, Error>)
        ensures
            vstd::layout::size_of::<T>() == 0 <==> r matches Err(Error::SizeZero),
            r matches Ok(b) ==> b.owned() && b.size() == vstd::layout::size_of::<T>(),
    {
        let size = core::mem::size_of::<T>();
        match Segment::create(name, size) {
            Ok(segment) => Ok(Block { segment, marker: PhantomData }),
            Err(e) => Err(e),
        }
    }

    /// Attaches to the cell `name`; the handle does not own it.
    ///
    /// Fails with `InvalidBlockSize` where the segment's length is not the size of
    /// `T` (see [`Block::from_segment`]), and otherwise as [`Segment::attach`] does.
    pub fn open(name: &str) -> (r: Result<Block<T>, Error>)
        ensures
            r matches Ok(b) ==> !b.owned() && b.size() == vstd::layout::size_of::<T>(),
            r is Err ==> r matches Err(Error::InvalidBlockSize) || r matches Err(Error::NotFound)
                || r matches Err(Error::Shm(_)),
    {
        match Segment::attach(name) {
            Ok(segment) => Block::from_segment(segment),
            Err(e) => Err(e),
        }
    }

    /// The cell held by `segment`, which must be exactly the size of `T`; fails with
    /// `InvalidBlockSize` otherwise.
    pub fn from_segment(segment: Segment) -> (r: Result<Block<T>, Error>)
        ensures
            (segment.size() == vstd::layout::size_of::<T>()) <==> r is Ok,
            r matches Ok(b) ==> b.owned() == segment.owned() && b.size() == segment.size(),
            r is Err ==> r matches Err(Error::InvalidBlockSize),
    {
        if segment.len() != core::mem::size_of::<T>() {
            return Err(Error::InvalidBlockSize);
        }
        Ok(Block { segment, marker: PhantomData })
    }

    /// Whether this handle created the cell's segment.
    pub fn is_owner(&self) -> (r: bool)
        ensures
            r == self.owned(),
    {
        self.segment.is_owner()
    }

    /// The segment holding the value.
    pub fn segment(&self) -> (r: &Segment)
        ensures
            r.owned() == self.owned() && r.size() == self.size(),
    {
        &self.segment
    }
}

} // verus!
