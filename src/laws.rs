//! What a run of the protocol yields when its steps happen one after another.
//!
//! The atomic reservations of the count and the write cursor order concurrent pushes:
//! the k-th reservation of the write cursor is the k-th push below, whichever process
//! made it. The functions here replay the step functions of [`crate::protocol`] that
//! [`crate::array::Array`] applies to the shared header, starting from a fresh buffer.
use vstd::prelude::*;
use crate::protocol::{
    admitted, cursor_after, first_read, free_slots, kept, read_after, slot_of, start_read,
    FIRST_CURSOR,
};

verus! {

/// The slot of push `k`, and of pop `k`, in a fresh buffer: one past the `k`-th slot,
/// modulo the capacity.
pub open spec fn ring_pos(capacity: int, k: int) -> int {
    (1 + k) % capacity
}

/// The write cursor after `k` pushes into a fresh buffer.
pub open spec fn cursor_after_pushes(capacity: int, k: nat) -> int
    decreases k,
{
    if k == 0 {
        FIRST_CURSOR as int
    } else {
        cursor_after(cursor_after_pushes(capacity, (k - 1) as nat), capacity)
    }
}

/// The slot written by push number `k` (counting from zero) into a fresh buffer.
pub open spec fn push_slot(capacity: int, k: nat) -> int {
    slot_of(cursor_after_pushes(capacity, k), capacity)
}

/// The read position of a fresh consumer after `k` successful pops.
pub open spec fn read_after_pops(capacity: int, k: nat) -> int
    decreases k,
{
    if k == 0 {
        first_read(capacity)
    } else {
        read_after(read_after_pops(capacity, (k - 1) as nat), capacity)
    }
}

/// The slots of a fresh buffer of `capacity` slots after `values` were pushed in order.
pub open spec fn filled<V>(capacity: nat, values: Seq<V>) -> Seq<Option<V>>
    decreases values.len(),
{
    if values.len() == 0 {
        Seq::new(capacity, |i: int| None)
    } else {
        filled(capacity, values.drop_last()).update(
            push_slot(capacity as int, (values.len() - 1) as nat),
            Some(values.last()),
        )
    }
}

/// One pop from read position `first`: takes a present slot and moves on, or yields
/// nothing and stays.
pub open spec fn pop_step<V>(capacity: int, first: int, slots: Seq<Option<V>>) -> (
    Option<V>,
    int,
    Seq<Option<V>>,
) {
    match slots[first] {
        Some(v) => (Some(v), read_after(first, capacity), slots.update(first, None)),
        None => (None, first, slots),
    }
}

/// What `k` pops in a row from read position `first` yield.
pub open spec fn pop_run<V>(capacity: int, first: int, slots: Seq<Option<V>>, k: nat) -> Seq<
    Option<V>,
>
    decreases k,
{
    if k == 0 {
        Seq::empty()
    } else {
        let (out, next, rest) = pop_step(capacity, first, slots);
        seq![out] + pop_run(capacity, next, rest, (k - 1) as nat)
    }
}

/// The occupancy count after `k` push attempts by one producer into a fresh buffer;
/// a refused attempt gives its reservation back.
pub open spec fn count_after_attempts(capacity: int, k: nat) -> int
    decreases k,
{
    if k == 0 {
        0
    } else {
        let c = count_after_attempts(capacity, (k - 1) as nat);
        if admitted(c, capacity) {
            c + 1
        } else {
            c
        }
    }
}

/// Push `k` writes slot `(1 + k) % capacity`, the write cursor stays in `1..=capacity`,
/// and pop `k` reads the slot push `k` wrote.
pub proof fn lemma_positions(capacity: int, k: nat)
    requires
        capacity > 0,
    ensures
        cursor_after_pushes(capacity, k) == 1 + (k as int) % capacity,
        push_slot(capacity, k) == ring_pos(capacity, k as int),
        read_after_pops(capacity, k) == ring_pos(capacity, k as int),
        0 <= ring_pos(capacity, k as int) < capacity,
    decreases k,
{
    vstd::arithmetic::div_mod::lemma_mod_pos_bound(1 + k as int, capacity);
    vstd::arithmetic::div_mod::lemma_mod_pos_bound(k as int, capacity);
    vstd::arithmetic::div_mod::lemma_add_mod_noop_right(1, k as int, capacity);
    if k == 0 {
        vstd::arithmetic::div_mod::lemma_small_mod(0, capacity as nat);
    } else {
        let j = (k - 1) as nat;
        lemma_positions(capacity, j);
        vstd::arithmetic::div_mod::lemma_mod_pos_bound(j as int, capacity);
        vstd::arithmetic::div_mod::lemma_add_mod_noop_right(1, j as int, capacity);
        let a = (j as int) % capacity;
        if 1 + a == capacity {
            vstd::arithmetic::div_mod::lemma_mod_self_0(capacity);
        } else {
            vstd::arithmetic::div_mod::lemma_small_mod((1 + a) as nat, capacity as nat);
        }
    }
}

/// The first `capacity` pushes write pairwise distinct slots.
pub proof fn lemma_slots_distinct(capacity: int, i: nat, j: nat)
    requires
        i < j < capacity,
    ensures
        ring_pos(capacity, i as int) != ring_pos(capacity, j as int),
{
    vstd::arithmetic::div_mod::lemma_small_mod((1 + i) as nat, capacity as nat);
    if 1 + j < capacity {
        vstd::arithmetic::div_mod::lemma_small_mod((1 + j) as nat, capacity as nat);
    } else {
        vstd::arithmetic::div_mod::lemma_mod_self_0(capacity);
    }
}

/// After pushing `values` (no more than the capacity) into a fresh buffer, the slot of
/// push `j` holds `values[j]`, and the slots of later pushes are still absent.
pub proof fn lemma_filled<V>(capacity: nat, values: Seq<V>)
    requires
        0 < capacity,
        values.len() <= capacity,
    ensures
        filled(capacity, values).len() == capacity,
        forall|j: nat| j < values.len() ==> #[trigger] filled(capacity, values)[ring_pos(capacity as int, j as int)]
            == Some(values[j as int]),
        forall|k: nat| values.len() <= k < capacity ==> (#[trigger] filled(capacity, values)[ring_pos(capacity as int, k as int)]) is None,
    decreases values.len(),
{
    let c = capacity as int;
    if values.len() > 0 {
        let n = (values.len() - 1) as nat;
        let prev = values.drop_last();
        lemma_filled(capacity, prev);
        lemma_positions(c, n);
        assert forall|j: nat| j < values.len() implies #[trigger] filled(capacity, values)[ring_pos(c, j as int)]
            == Some(values[j as int]) by {
            lemma_positions(c, j);
            if j < n {
                lemma_slots_distinct(c, j, n);
            }
        }
        assert forall|k: nat| values.len() <= k < capacity implies (#[trigger] filled(capacity, values)[ring_pos(c, k as int)]) is None by {
            lemma_positions(c, k);
            lemma_slots_distinct(c, n, k);
        }
    }
}

/// Pops from read position `ring_pos(i)` over slots holding `values[i..]` at their
/// push slots, with the slots of earlier pops taken, yield `values[i..]` and then
/// nothing.
proof fn lemma_drain<V>(capacity: nat, values: Seq<V>, i: nat, slots: Seq<Option<V>>)
    requires
        0 < capacity,
        values.len() <= capacity,
        i <= values.len(),
        slots.len() == capacity,
        forall|j: nat| i <= j < values.len() ==> #[trigger] slots[ring_pos(capacity as int, j as int)]
            == Some(values[j as int]),
        forall|j: nat| j < i ==> (#[trigger] slots[ring_pos(capacity as int, j as int)]) is None,
        values.len() < capacity ==> slots[ring_pos(capacity as int, values.len() as int)] is None,
    ensures
        pop_run(capacity as int, ring_pos(capacity as int, i as int), slots, (values.len() - i + 1) as nat)
            == values.subrange(i as int, values.len() as int).map_values(|v: V| Some(v)).push(None),
    decreases values.len() - i,
{
    let c = capacity as int;
    let n = values.len();
    lemma_positions(c, i);
    if i == n {
        if n == capacity {
            vstd::arithmetic::div_mod::lemma_mod_add_multiples_vanish(1, c);
            assert(slots[ring_pos(c, 0)] is None);
        }
        assert(pop_run(c, ring_pos(c, i as int), slots, 0) =~= Seq::empty());
        assert(values.subrange(i as int, n as int).map_values(|v: V| Some(v)).push(None) =~= seq![
            None,
        ]);
    } else {
        let pos = ring_pos(c, i as int);
        let rest = slots.update(pos, None);
        lemma_positions(c, i + 1);
        assert(read_after_pops(c, i + 1) == read_after(read_after_pops(c, i), c));
        assert forall|j: nat| i + 1 <= j < n implies #[trigger] rest[ring_pos(c, j as int)] == Some(
            values[j as int],
        ) by {
            lemma_positions(c, j);
            lemma_slots_distinct(c, i, j);
        }
        assert forall|j: nat| j < i + 1 implies (#[trigger] rest[ring_pos(c, j as int)]) is None by {
            lemma_positions(c, j);
        }
        if n < capacity {
            lemma_slots_distinct(c, i, n);
        }
        lemma_drain(capacity, values, i + 1, rest);
        assert(values.subrange(i as int, n as int).map_values(|v: V| Some(v)).push(None) =~= seq![
            Some(values[i as int]),
        ] + values.subrange(i + 1 as int, n as int).map_values(|v: V| Some(v)).push(None));
    }
}

/// First in, first out: pushing `values` (no more than the capacity) into a fresh buffer
/// and then popping once more than there are values yields exactly the values in push
/// order, and then nothing.
pub proof fn lemma_fifo<V>(capacity: nat, values: Seq<V>)
    requires
        0 < capacity,
        values.len() <= capacity,
    ensures
        pop_run(capacity as int, first_read(capacity as int), filled(capacity, values), values.len() + 1)
            == values.map_values(|v: V| Some(v)).push(None),
{
    let c = capacity as int;
    lemma_filled(capacity, values);
    lemma_positions(c, 0);
    lemma_drain(capacity, values, 0, filled(capacity, values));
    assert(values.subrange(0, values.len() as int) =~= values);
}

proof fn lemma_count_before_full(capacity: nat, k: nat)
    requires
        k <= capacity,
    ensures
        count_after_attempts(capacity as int, k) == k,
    decreases k,
{
    if k > 0 {
        lemma_count_before_full(capacity, (k - 1) as nat);
    }
}

/// One producer pushing into a fresh buffer: each of the first `capacity` pushes is
/// admitted, the next one is refused and leaves the count at the capacity, and right
/// before it no slot is free.
pub proof fn lemma_overflow_rejected(capacity: nat)
    ensures
        forall|k: nat| k < capacity ==> admitted(#[trigger] count_after_attempts(capacity as int, k), capacity as int),
        !admitted(count_after_attempts(capacity as int, capacity), capacity as int),
        free_slots(capacity as int, count_after_attempts(capacity as int, capacity)) == 0,
        count_after_attempts(capacity as int, capacity + 1) == capacity,
{
    assert forall|k: nat| k < capacity implies admitted(#[trigger] count_after_attempts(capacity as int, k), capacity as int) by {
        lemma_count_before_full(capacity, k);
    }
    lemma_count_before_full(capacity, capacity);
}

/// A bulk push into a fresh buffer keeps exactly as many items as there are free slots
/// (all of them where there are fewer), the first ones in order, and pops give them back
/// in that order.
pub proof fn lemma_truncating_bulk<V>(capacity: nat, items: Seq<V>)
    requires
        0 < capacity,
    ensures
        ({
            let stored = kept(items, free_slots(capacity as int, 0));
            &&& stored.len() == if items.len() <= capacity { items.len() } else { capacity }
            &&& stored == items.take(stored.len() as int)
            &&& pop_run(capacity as int, first_read(capacity as int), filled(capacity, stored), stored.len() + 1)
                == stored.map_values(|v: V| Some(v)).push(None)
        }),
{
    let stored = kept(items, free_slots(capacity as int, 0));
    assert(items.take(items.len() as int) =~= items);
    lemma_fifo(capacity, stored);
}

/// The read positions that `Array`'s contracts give a fresh consuming handle (its start
/// position, then one `read_after` per successful pop) are the slots the pushes wrote:
/// pop `k` reads where push `k` wrote.
pub proof fn lemma_pops_follow_pushes(capacity: nat, k: nat)
    requires
        capacity > 0,
    ensures
        read_after_pops(capacity as int, 0) == start_read(capacity),
        read_after_pops(capacity as int, k) == push_slot(capacity as int, k),
{
    lemma_positions(capacity as int, 0);
    lemma_positions(capacity as int, k);
}

} // verus!
