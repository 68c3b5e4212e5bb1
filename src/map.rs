//! A builder front end to the segment manager.
use vstd::prelude::*;
use crate::error::Error;
use crate::segment::Segment;

verus! {

/// The settings of a segment to create: its name and its size in bytes.
pub struct MapCfg {
    path: String,
    size: usize,
}

/// A segment made from a [`MapCfg`].
pub struct MemoryMap {
    raw: Segment,
}

impl MapCfg {
    pub closed spec fn path_spec(&self) -> Seq<char> {
        self.path@
    }

    pub closed spec fn size_spec(&self) -> nat {
        self.size as nat
    }

    /// Settings with an empty name and a size of zero.
    pub fn new() -> (r: Self)
        ensures
            r.path_spec() == Seq::<char>::empty(),
            r.size_spec() == 0,
    {
        MapCfg { path: String::new(), size: 0 }
    }

    /// The same settings under the name `path`.
    pub fn path(self, path: &str) -> (r: Self)
        ensures
            r.path_spec() == path@,
            r.size_spec() == self.size_spec(),
    {
        MapCfg { path: path.to_owned(), size: self.size }
    }

    /// The same settings with a size of `size` bytes.
    pub fn size(self, size: usize) -> (r: Self)
        ensures
            r.path_spec() == self.path_spec(),
            r.size_spec() == size,
    {
        MapCfg { path: self.path, size }
    }

    /// Creates the segment these settings describe, owned by the returned map.
    ///
    /// Fails as [`Segment::create`] does: `SizeZero` exactly when the size is zero.
    pub fn create(self) -> (r: Result<MemoryMap, Error>)
        ensures
            self.size_spec() == 0 <==> r matches Err(Error::SizeZero),
            r matches Ok(m) ==> m.owned() && m.size() == self.size_spec(),
    {
        match Segment::create(self.path.as_str(), self.size) {
            Ok(raw) => Ok(MemoryMap { raw }),
            Err(e) => Err(e),
        }
    }
}

impl MemoryMap {
    pub closed spec fn owned(&self) -> bool {
        self.raw.owned()
    }

    pub closed spec fn size(&self) -> nat {
        self.raw.size()
    }

    /// Whether this map created its segment.
    pub fn is_owner(&self) -> (r: bool)
        ensures
            r == self.owned(),
    {
        self.raw.is_owner()
    }

    /// The segment's length in bytes.
    pub fn len(&self) -> (r: usize)
        ensures
            r == self.size(),
    {
        self.raw.len()
    }

    /// The segment itself.
    pub fn segment(&self) -> (r: &Segment)
        ensures
            r.owned() == self.owned() && r.size() == self.size(),
    {
        &self.raw
    }
}

} // verus!
