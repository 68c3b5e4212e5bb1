//! Ration: inter-process communication over named shared memory segments.
//!
//! The crate is layered leaves-first:
//! - [`segment`] creates or attaches a named mapping and tracks who owns it;
//! - [`map`] builds a segment from its settings;
//! - [`layout`] fixes the byte layout of a ring buffer inside a segment;
//! - [`protocol`] holds the index arithmetic of the ring buffer protocol;
//! - [`array`] runs that protocol over the header atomics and the slots;
//! - [`channel`] uses the same protocol as a one-way channel with a doorbell;
//! - [`block`] holds a single value of a fixed type in a segment;
//! - [`laws`] proves what a sequential run of the protocol yields.
pub mod array;
pub mod block;
pub mod channel;
pub mod error;
pub mod laws;
pub mod layout;
pub mod map;
pub mod protocol;
pub mod segment;

pub use array::Array;
pub use block::Block;
pub use channel::Channel;
pub use error::{Error, Result};
pub use map::{MapCfg, MemoryMap};
pub use segment::Segment;
