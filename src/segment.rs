//! Named shared memory segments: exclusive creation, attachment, ownership.
//!
//! A segment is created by exactly one owning handle, under a name that no live
//! segment holds, and attached by any number of others. Dropping a handle always
//! unmaps it; only the owner's drop removes the name, after which `create` under
//! that name succeeds again. Both are done by `shared_memory::Shmem`'s drop.
use vstd::prelude::*;
use shared_memory::{Shmem, ShmemConf, ShmemError};
use crate::error::Error;

verus! {

/// A live mapping of `shared_memory`, opaque here.
#[verifier::external_type_specification]
#[verifier::external_body]
pub struct ExShmem(Shmem);

/// Relies on `Shmem::len`: the length in bytes of the mapping.
pub assume_specification[ Shmem::len ](s: &Shmem) -> usize;

/// How an exclusive creation failed.
enum CreateFailure {
    Exists,
    Other(ShmemError),
}

/// How an attachment failed.
enum OpenFailure {
    Missing,
    Other(ShmemError),
}

/// Relies on `ShmemConf::create` with a file link at `path`: makes a mapping of
/// `size` bytes that the returned handle owns, and fails with `LinkExists` where a
/// link already stands at `path`.
#[verifier::external_body]
fn create_linked(path: &str, size: usize) -> (r: core::result::Result<Shmem, CreateFailure>) {
    match ShmemConf::new().flink(path).size(size).create() {
        Ok(map) => Ok(map),
        Err(ShmemError::LinkExists) => Err(CreateFailure::Exists),
        Err(e) => Err(CreateFailure::Other(e)),
    }
}

/// Relies on `ShmemConf::open` with a file link at `path`: attaches, without
/// ownership, to the mapping the link names; a link that cannot be found is told
/// apart from other failures.
#[verifier::external_body]
fn open_linked(path: &str) -> (r: core::result::Result<Shmem, OpenFailure>) {
    match ShmemConf::new().flink(path).open() {
        Ok(map) => Ok(map),
        Err(ShmemError::LinkDoesNotExist) => Err(OpenFailure::Missing),
        Err(ShmemError::LinkOpenFailed(e)) if e.kind() == std::io::ErrorKind::NotFound => {
            Err(OpenFailure::Missing)
        },
        Err(e) => Err(OpenFailure::Other(e)),
    }
}

/// A handle on a named shared segment.
///
/// `owner` and `len` are recorded when the handle is made, as `shared_memory` records
/// its own: a created mapping is owned and keeps the requested size, an attached one is
/// not owned and has the length the system reports. Nothing changes them afterwards.
pub struct Segment {
    map: Shmem,
    owner: bool,
    len: usize,
}

impl Segment {
    /// Whether this handle created the segment.
    pub closed spec fn owned(&self) -> bool {
        self.owner
    }

    /// The segment's length in bytes.
    pub closed spec fn size(&self) -> nat {
        self.len as nat
    }

    /// Creates the segment `name` of `size` bytes, owned by the returned handle.
    ///
    /// Fails with `SizeZero` for a zero size, with `BlockAlreadyAllocated` where a
    /// segment under `name` is live, and with `Shm` on any other failure.
    pub fn create(name: &str, size: usize) -> (r: Result<Segment, Error>)
        ensures
            size == 0 <==> r matches Err(Error::SizeZero),
            r matches Ok(s) ==> s.owned() && s.size() == size,
            r is Err ==> r matches Err(Error::SizeZero) || r matches Err(Error::BlockAlreadyAllocated)
                || r matches Err(Error::Shm(_)),
    {
        if size == 0 {
            return Err(Error::SizeZero);
        }
        match create_linked(name, size) {
            Ok(map) => Ok(Segment { map, owner: true, len: size }),
            Err(CreateFailure::Exists) => Err(Error::BlockAlreadyAllocated),
            Err(CreateFailure::Other(e)) => Err(Error::Shm(e)),
        }
    }

    /// Attaches to the live segment `name`, discovering its length; the handle does
    /// not own it.
    ///
    /// Fails with `NotFound` where no segment holds `name` or the mapping reports no
    /// bytes, and with `Shm` on any other failure (the mapping layer itself refuses to
    /// map an empty segment, which arrives here as `Shm`).
    pub fn attach(name: &str) -> (r: Result<Segment, Error>)
        ensures
            r matches Ok(s) ==> !s.owned() && s.size() > 0,
            r is Err ==> r matches Err(Error::NotFound) || r matches Err(Error::Shm(_)),
    {
        match open_linked(name) {
            Ok(map) => {
                let len = map.len();
                Segment::attached(map, len)
            },
            Err(OpenFailure::Missing) => Err(Error::NotFound),
            Err(OpenFailure::Other(e)) => Err(Error::Shm(e)),
        }
    }

    /// A non-owning handle on `map`, whose length the system reported as `len`; an
    /// empty segment counts as not found.
    fn attached(map: Shmem, len: usize) -> (r: Result<Segment, Error>)
        ensures
            len == 0 <==> r matches Err(Error::NotFound),
            r matches Ok(s) ==> !s.owned() && s.size() == len,
            r is Err ==> r matches Err(Error::NotFound),
    {
        if len == 0 {
            Err(Error::NotFound)
        } else {
            Ok(Segment { map, owner: false, len })
        }
    }

    /// Whether this handle created the segment, and so removes its name when dropped.
    pub fn is_owner(&self) -> (r: bool)
        ensures
            r == self.owned(),
    {
        self.owner
    }

    /// The segment's length in bytes.
    pub fn len(&self) -> (r: usize)
        ensures
            r == self.size(),
    {
        self.len
    }

    /// The underlying mapping, for placing data in it.
    pub fn mapping(&self) -> &Shmem {
        &self.map
    }
}

} // verus!
