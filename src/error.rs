//! Errors of segment creation and attachment.
use vstd::prelude::*;
use shared_memory::ShmemError;

verus! {

/// `shared_memory`'s error, carried through opaque.
#[verifier::external_type_specification]
#[verifier::external_body]
pub struct ExShmemError(ShmemError);

/// What went wrong when creating or attaching a shared segment.
///
/// A full buffer or an empty one is no error: `push` returns `false` and `pop`
/// returns `None`.
#[derive(Debug)]
pub enum Error {
    /// Any other failure of the mapping layer, with the platform's error preserved.
    Shm(ShmemError),
    /// The attached segment's length does not fit the expected type.
    InvalidBlockSize,
    /// A segment under this name already exists.
    BlockAlreadyAllocated,
    /// A segment of zero bytes was requested.
    SizeZero,
    /// No segment exists under this name.
    NotFound,
}

pub type Result<T> = core::result::Result<T, Error>;

} // verus!
