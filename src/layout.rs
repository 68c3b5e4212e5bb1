//! Byte layout of a ring buffer segment.
//!
//! `[signal: 1 byte][write cursor: word][occupancy count: word][slot 0]...[slot capacity-1]`,
//! where a word is a signed platform word (`isize`).
//!
//! The capacity is never stored: a process that attaches recomputes it from the
//! segment's length and the slot size.
use vstd::prelude::*;

verus! {

/// Offset of the one-byte occupancy signal.
pub const SIGNAL_OFFSET: usize = 0;

/// Offset of the write cursor, a signed platform word right after the signal.
pub const CURSOR_OFFSET: usize = 1;

/// Length in bytes of a signed platform word.
pub open spec fn word_len() -> int {
    vstd::layout::size_of::<isize>() as int
}

/// Offset of the occupancy count, the word after the write cursor.
pub open spec fn count_offset_spec() -> int {
    CURSOR_OFFSET + word_len()
}

/// Length of the header that precedes the first slot: the signal and two words.
pub open spec fn header_len_spec() -> int {
    count_offset_spec() + word_len()
}

/// Offset of the occupancy count.
pub fn count_offset() -> (r: usize)
    ensures
        r == count_offset_spec(),
{
    vstd::layout::layout_for_type_is_valid::<isize>();
    CURSOR_OFFSET + core::mem::size_of::<isize>()
}

/// Length of the header that precedes the first slot.
pub fn header_len() -> (r: usize)
    ensures
        r == header_len_spec(),
{
    vstd::layout::layout_for_type_is_valid::<isize>();
    CURSOR_OFFSET + 2 * core::mem::size_of::<isize>()
}

/// Length in bytes of a segment holding `capacity` slots of `slot_size` bytes.
pub open spec fn block_len(capacity: int, slot_size: int) -> int {
    header_len_spec() + capacity * slot_size
}

/// The capacity that a segment of `len` bytes holds, or `None` where it cannot hold
/// a header.
pub open spec fn capacity_of_len(len: int, slot_size: int) -> Option<int> {
    if len < header_len_spec() || slot_size <= 0 {
        None
    } else {
        Some((len - header_len_spec()) / slot_size)
    }
}

/// Where slot and header sit in a ring buffer segment.
#[derive(Clone, Copy, Debug, PartialEq, Eq, Structural)]
pub struct RingLayout {
    pub capacity: usize,
    pub slot_size: usize,
}

impl RingLayout {
    /// Slots are non-empty and the whole block fits in the address space.
    pub open spec fn wf(self) -> bool {
        &&& self.slot_size > 0
        &&& block_len(self.capacity as int, self.slot_size as int) <= usize::MAX
    }

    /// The layout of a new segment with `capacity` slots; `None` where the block
    /// would not fit in a `usize`.
    pub fn for_capacity(capacity: usize, slot_size: usize) -> (r: Option<RingLayout>)
        requires
            slot_size > 0,
        ensures
            r is Some <==> block_len(capacity as int, slot_size as int) <= usize::MAX,
            r matches Some(l) ==> l.wf() && l.capacity == capacity && l.slot_size == slot_size,
    {
        match capacity.checked_mul(slot_size) {
            None => {
                proof {
                    assert(capacity * slot_size > usize::MAX);
                }
                None
            },
            Some(bytes) => match bytes.checked_add(header_len()) {
                None => None,
                Some(_) => Some(RingLayout { capacity, slot_size }),
            },
        }
    }

    /// The layout that an attaching process discovers from the segment's length;
    /// `None` where the segment is too short to hold a header.
    pub fn for_len(len: usize, slot_size: usize) -> (r: Option<RingLayout>)
        requires
            slot_size > 0,
        ensures
            r is Some <==> capacity_of_len(len as int, slot_size as int) is Some,
            r matches Some(l) ==> l.wf() && l.slot_size == slot_size && Some(l.capacity as int)
                == capacity_of_len(len as int, slot_size as int) && l.block_len() <= len,
    {
        let header = header_len();
        if len < header {
            None
        } else {
            let capacity = (len - header) / slot_size;
            proof {
                lemma_fits(len as int - header, slot_size as int);
            }
            Some(RingLayout { capacity, slot_size })
        }
    }

    pub open spec fn block_len(self) -> int {
        block_len(self.capacity as int, self.slot_size as int)
    }

    /// Total length in bytes of the segment.
    pub fn len(&self) -> (r: usize)
        requires
            self.wf(),
        ensures
            r == self.block_len(),
    {
        proof {
            vstd::arithmetic::mul::lemma_mul_nonnegative(self.capacity as int, self.slot_size as int);
        }
        header_len() + self.capacity * self.slot_size
    }

    /// Byte offset of slot `index`.
    pub fn slot_offset(&self, index: usize) -> (r: usize)
        requires
            self.wf(),
            index < self.capacity,
        ensures
            r == header_len_spec() + index * self.slot_size,
            r + self.slot_size <= self.block_len(),
    {
        proof {
            vstd::arithmetic::mul::lemma_mul_inequality(index as int + 1, self.capacity as int, self.slot_size as int);
            vstd::arithmetic::mul::lemma_mul_is_distributive_add_other_way(self.slot_size as int, index as int, 1);
            vstd::arithmetic::mul::lemma_mul_nonnegative(index as int, self.slot_size as int);
        }
        header_len() + index * self.slot_size
    }
}

proof fn lemma_fits(rest: int, slot_size: int)
    requires
        rest >= 0,
        slot_size > 0,
    ensures
        (rest / slot_size) * slot_size <= rest,
        rest / slot_size >= 0,
{
    vstd::arithmetic::div_mod::lemma_fundamental_div_mod(rest, slot_size);
    vstd::arithmetic::div_mod::lemma_mod_pos_bound(rest, slot_size);
    vstd::arithmetic::div_mod::lemma_div_pos_is_pos(rest, slot_size);
    vstd::arithmetic::mul::lemma_mul_is_commutative(slot_size, rest / slot_size);
}

/// A process that attaches to a segment made for `capacity` slots discovers the same
/// capacity from the segment's length alone.
pub proof fn lemma_capacity_round_trip(capacity: nat, slot_size: nat)
    requires
        slot_size > 0,
    ensures
        capacity_of_len(block_len(capacity as int, slot_size as int), slot_size as int)
            == Some(capacity as int),
{
    vstd::arithmetic::div_mod::lemma_div_multiples_vanish(capacity as int, slot_size as int);
    vstd::arithmetic::mul::lemma_mul_is_commutative(capacity as int, slot_size as int);
    vstd::arithmetic::mul::lemma_mul_nonnegative(capacity as int, slot_size as int);
}

/// Layout round trip at the level of the executable functions: the layout an attaching
/// process computes from `for_capacity`'s block length is the one it was made with.
pub proof fn lemma_layout_round_trip(l: RingLayout)
    requires
        l.wf(),
    ensures
        capacity_of_len(l.block_len(), l.slot_size as int) == Some(l.capacity as int),
{
    lemma_capacity_round_trip(l.capacity as nat, l.slot_size as nat);
}

} // verus!
