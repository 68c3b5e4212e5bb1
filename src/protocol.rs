//! Index and counter arithmetic of the ring buffer protocol.
//!
//! Each function here takes a value just read from the shared header (by an atomic
//! read-modify-write in [`crate::array`]) and decides what happens next. They are
//! total: a header that another process corrupted yields an index in bounds all
//! the same.
use vstd::prelude::*;

verus! {

/// The write cursor of a freshly made buffer: the first data slot.
pub const FIRST_CURSOR: isize = 1;

/// The slot that a producer holding write cursor `cursor` writes.
pub open spec fn slot_of(cursor: int, capacity: int) -> int {
    cursor % capacity
}

/// The write cursor after one reservation at `cursor`: one step forward, pulled back
/// by `capacity` when the reserved slot was slot 0.
pub open spec fn cursor_after(cursor: int, capacity: int) -> int {
    if slot_of(cursor, capacity) == 0 {
        cursor + 1 - capacity
    } else {
        cursor + 1
    }
}

/// The first slot that a new consumer reads.
pub open spec fn first_read(capacity: int) -> int {
    (FIRST_CURSOR as int) % capacity
}

/// Where a new consuming handle starts reading; slot 0 of a buffer without slots.
pub open spec fn start_read(capacity: nat) -> nat {
    if capacity == 0 {
        0
    } else {
        first_read(capacity as int) as nat
    }
}

/// The consumer's read position after taking one element at `first`.
pub open spec fn read_after(first: int, capacity: int) -> int {
    (first + 1) % capacity
}

/// Whether a producer that saw `count` occupied slots may store its element.
pub open spec fn admitted(count: int, capacity: int) -> bool {
    count < capacity
}

/// Free slots given the occupancy count: the capacity minus the count, none once the
/// count has reached the capacity, and never more than the capacity (a count below
/// zero only arises from a corrupted header).
pub open spec fn free_slots(capacity: int, count: int) -> int {
    if count >= capacity {
        0
    } else if count <= 0 {
        capacity
    } else {
        capacity - count
    }
}

/// The items a bulk push keeps when `free` slots are free: the first `free` of them,
/// or all where there are fewer, in order.
pub open spec fn kept<T>(items: Seq<T>, free: int) -> Seq<T> {
    if items.len() <= free {
        items
    } else {
        items.take(free)
    }
}

/// The slot reserved by a producer whose reservation returned `cursor`, and whether it
/// must pull the shared cursor back by the capacity.
pub fn claim_slot(cursor: isize, capacity: usize) -> (r: (usize, bool))
    requires
        0 < capacity <= isize::MAX,
    ensures
        r.0 == slot_of(cursor as int, capacity as int),
        r.0 < capacity,
        r.1 == (r.0 == 0),
{
    let index: usize = if cursor >= 0 {
        (cursor as usize) % capacity
    } else {
        let below: usize = (-(cursor + 1)) as usize;
        let m: usize = below % capacity;
        proof {
            lemma_negative_mod(cursor as int, capacity as int);
        }
        capacity - 1 - m
    };
    (index, index == 0)
}

proof fn lemma_negative_mod(c: int, n: int)
    requires
        c < 0,
        n > 0,
    ensures
        c % n == n - 1 - ((-(c + 1)) % n),
{
    let q = -(c + 1);
    vstd::arithmetic::div_mod::lemma_fundamental_div_mod(q, n);
    vstd::arithmetic::div_mod::lemma_mod_pos_bound(q, n);
    // c = -(q + 1) = -(n * (q / n)) - (q % n) - 1 = n * (-(q / n) - 1) + (n - 1 - q % n)
    let k = -(q / n) - 1;
    let r = n - 1 - q % n;
    assert(c == n * k + r) by (nonlinear_arith)
        requires
            q == n * (q / n) + q % n,
            c == -(q + 1),
            k == -(q / n) - 1,
            r == n - 1 - q % n,
    ;
    vstd::arithmetic::div_mod::lemma_mod_multiples_vanish(k, r, n);
    vstd::arithmetic::div_mod::lemma_small_mod(r as nat, n as nat);
}

/// Whether a producer whose count reservation returned `count` may go on.
pub fn admits(count: isize, capacity: usize) -> (r: bool)
    requires
        capacity <= isize::MAX,
    ensures
        r == admitted(count as int, capacity as int),
{
    count < capacity as isize
}

/// Free slots of a buffer of `capacity` slots whose occupancy count reads `count`.
pub fn remaining(capacity: usize, count: isize) -> (r: usize)
    requires
        capacity <= isize::MAX,
    ensures
        r == free_slots(capacity as int, count as int),
{
    if count >= capacity as isize {
        0
    } else if count <= 0 {
        capacity
    } else {
        capacity - count as usize
    }
}

/// How many slots a snapshot walks when the occupancy count reads `count`: the count,
/// within `0..=capacity`.
pub open spec fn snapshot_limit(count: int, capacity: int) -> int {
    if count <= 0 {
        0
    } else if count >= capacity {
        capacity
    } else {
        count
    }
}

/// The number of slots a snapshot walks when the occupancy count reads `count`.
pub fn snapshot_bound(count: isize, capacity: usize) -> (r: usize)
    requires
        capacity <= isize::MAX,
    ensures
        r == snapshot_limit(count as int, capacity as int),
{
    if count <= 0 {
        0
    } else if count >= capacity as isize {
        capacity
    } else {
        count as usize
    }
}

/// The first slot a new consumer reads.
pub fn initial_read(capacity: usize) -> (r: usize)
    requires
        capacity > 0,
    ensures
        r == first_read(capacity as int),
        r < capacity,
{
    (FIRST_CURSOR as usize) % capacity
}

/// The read position after taking the element at `first`.
pub fn next_read(first: usize, capacity: usize) -> (r: usize)
    requires
        first < capacity,
    ensures
        r == read_after(first as int, capacity as int),
        r < capacity,
{
    if first + 1 == capacity {
        proof {
            vstd::arithmetic::div_mod::lemma_mod_self_0(capacity as int);
        }
        0
    } else {
        proof {
            vstd::arithmetic::div_mod::lemma_small_mod((first + 1) as nat, capacity as nat);
        }
        first + 1
    }
}

} // verus!
