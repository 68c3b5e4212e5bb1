use std::cell::Cell;
use std::sync::atomic::{AtomicIsize, AtomicU8};

use ration::array::{attach_segment, batch_of, create_segment};
use ration::Array;

/// Header fields and slots of a ring buffer, held in local memory.
struct Parts<T> {
    signal: AtomicU8,
    cursor: AtomicIsize,
    count: AtomicIsize,
    slots: Vec<Cell<Option<T>>>,
}

fn parts<T>(capacity: usize) -> Parts<T> {
    Parts {
        signal: AtomicU8::new(0),
        cursor: AtomicIsize::new(0),
        count: AtomicIsize::new(0),
        slots: (0..capacity).map(|_| Cell::new(None)).collect(),
    }
}

/// A handle over `p`, made empty first.
fn fresh<T>(p: &Parts<T>) -> Array<'_, T> {
    let mut array = Array::new(&p.signal, &p.cursor, &p.count, &p.slots).unwrap();
    array.reset();
    array
}

/// A second handle over `p`, without touching its contents.
fn attach<T>(p: &Parts<T>) -> Array<'_, T> {
    Array::new(&p.signal, &p.cursor, &p.count, &p.slots).unwrap()
}

#[test]
fn array_test_1() {
    let (segment, layout) = create_segment::<char>("/tmp/TEST_ARRAY_1", 16).unwrap();
    assert!(segment.is_owner());
    let (ref_segment, ref_layout) = attach_segment::<char>("/tmp/TEST_ARRAY_1").unwrap();
    assert!(!ref_segment.is_owner());
    assert_eq!(layout.capacity, ref_layout.capacity);

    let p = parts::<char>(16);
    let mut array_1 = fresh(&p);
    assert!(array_1.is_empty());

    let s = "Something...";
    array_1.push_many(s.chars().collect());

    assert!(!array_1.is_empty());
    assert_eq!(array_1.slots_remaining(), 4);

    {
        let mut ref_array_1 = attach(&p);
        assert!(!ref_array_1.is_empty());
        assert_eq!(array_1.capacity(), ref_array_1.capacity());

        let mut ref_s = String::new();
        while let Some(c) = ref_array_1.pop() {
            ref_s.push(c);
        }

        assert_eq!(ref_array_1.slots_remaining(), 16);
        assert_eq!(s.to_string(), ref_s);
    }

    assert!(array_1.is_empty());
}

#[test]
fn array_push_overflow() {
    let p = parts::<u8>(8);
    let mut array = fresh(&p);

    let mut stopped_at = 0;
    for i in 0..16 {
        if !array.push(i) {
            stopped_at = i;
            break;
        }
    }

    assert_eq!(stopped_at, 8);
    assert_eq!(array.slots_remaining(), 0);
}

#[test]
fn array_slots_update_correctly() {
    let p = parts::<u8>(8);
    let mut array = fresh(&p);

    for i in 0..9 {
        if !array.push(i) {
            assert_eq!(array.slots_remaining(), 0);

            for j in 0..4_u8 {
                let Some(last_i) = array.pop() else {
                    panic!("array should have filled slots")
                };
                assert_eq!(last_i, j);
                assert_eq!(array.slots_remaining(), (j + 1) as usize);
            }
            for k in (0..4_u8).rev() {
                assert!(array.push(k));
                assert_eq!(array.slots_remaining(), k as usize);
            }
        }
    }
}

#[test]
fn array_traverse_full() {
    let p = parts::<char>(16);
    let mut array = fresh(&p);
    // 16th item is 'j'.
    array.push_many("This is a test just to see if the array iterates correctly.".chars().collect());

    let snapshot = array.iter();

    assert_eq!(snapshot.len(), 16);

    let s: String = snapshot.into_iter().collect();
    assert_eq!(&s, "This is a test j");
}

#[test]
fn array_traverse_partial() {
    let p = parts::<char>(16);
    let mut array = fresh(&p);
    array.push_many("Testing...".chars().collect());

    let snapshot = array.iter();

    assert_eq!(snapshot.len(), 10);
    assert_eq!(array.slots_remaining(), 6);

    let s: String = snapshot.into_iter().collect();
    assert_eq!(&s, "Testing...");
}

#[test]
fn capacity_four_scenario() {
    let p = parts::<char>(4);
    let mut array = fresh(&p);
    for c in ['a', 'b', 'c', 'd'] {
        assert!(array.push(c));
    }
    assert_eq!(array.slots_remaining(), 0);
    assert!(!array.push('e'));
    assert_eq!(array.slots_remaining(), 0);
    for (k, c) in ['a', 'b', 'c', 'd'].into_iter().enumerate() {
        assert_eq!(array.pop(), Some(c));
        assert_eq!(array.slots_remaining(), k + 1);
    }
    assert_eq!(array.pop(), None);
}

#[test]
fn interleaved_producers_single_consumer() {
    let p = parts::<u32>(6);
    let mut consumer = fresh(&p);
    let mut left = attach(&p);
    let mut right = attach(&p);
    let pushed = [10, 20, 30, 40, 50, 60];
    for (k, v) in pushed.into_iter().enumerate() {
        if k % 2 == 0 {
            assert!(left.push(v));
        } else {
            assert!(right.push(v));
        }
    }
    let mut popped = Vec::new();
    while let Some(v) = consumer.pop() {
        popped.push(v);
    }
    assert_eq!(popped, pushed.to_vec());
}

#[test]
fn wraparound_keeps_order() {
    let p = parts::<u32>(3);
    let mut array = fresh(&p);
    let mut expected = Vec::new();
    let mut got = Vec::new();
    for round in 0..5_u32 {
        assert!(array.push(round * 2));
        assert!(array.push(round * 2 + 1));
        expected.push(round * 2);
        expected.push(round * 2 + 1);
        got.push(array.pop().unwrap());
        got.push(array.pop().unwrap());
    }
    assert_eq!(got, expected);
    assert_eq!(array.pop(), None);
}

#[test]
fn push_many_truncates_to_free_slots() {
    let p = parts::<u8>(5);
    let mut array = fresh(&p);
    assert!(array.push(1));
    assert!(array.push(2));
    assert_eq!(array.slots_remaining(), 3);
    array.push_many(vec![3, 4, 5, 6, 7]);
    assert_eq!(array.slots_remaining(), 0);
    let mut popped = Vec::new();
    while let Some(v) = array.pop() {
        popped.push(v);
    }
    assert_eq!(popped, vec![1, 2, 3, 4, 5]);
}

#[test]
fn batch_keeps_prefix() {
    assert_eq!(batch_of(vec![1, 2, 3, 4], 2), vec![1, 2]);
    assert_eq!(batch_of(vec![1, 2], 5), vec![1, 2]);
    assert_eq!(batch_of(Vec::<u8>::new(), 3), Vec::<u8>::new());
}

#[test]
fn capacity_one_buffer() {
    let p = parts::<u8>(1);
    let mut array = fresh(&p);
    assert_eq!(array.first(), 0);
    assert!(array.push(7));
    assert!(!array.push(8));
    assert_eq!(array.pop(), Some(7));
    assert_eq!(array.pop(), None);
    assert!(array.push(9));
    assert_eq!(array.pop(), Some(9));
}

#[test]
fn capacity_zero_buffer() {
    let p = parts::<u8>(0);
    let mut array = fresh(&p);
    assert!(!array.push(1));
    assert_eq!(array.slots_remaining(), 0);
    assert_eq!(array.pop(), None);
    assert_eq!(array.pop_unchecked(), None);
}

#[test]
fn unchecked_variants() {
    let p = parts::<u8>(4);
    let mut array = fresh(&p);
    array.push_many_unchecked(vec![1, 2]);
    array.push_unchecked(3);
    // The unchecked pushes leave count and signal alone.
    assert!(array.is_empty());
    assert_eq!(array.slots_remaining(), 4);
    assert_eq!(array.pop(), None);
    assert_eq!(array.pop_unchecked(), Some(1));
    assert_eq!(array.pop_unchecked(), Some(2));
    assert_eq!(array.pop_unchecked(), Some(3));
    assert_eq!(array.pop_unchecked(), None);
}

#[test]
fn pop_on_absent_slot_lowers_signal() {
    let p = parts::<u8>(4);
    let mut array = fresh(&p);
    array.push_many(Vec::new());
    assert!(!array.is_empty());
    assert_eq!(array.pop(), None);
    assert!(array.is_empty());
}

#[test]
fn second_consumer_starts_at_first_slot() {
    let p = parts::<u8>(4);
    let mut first = fresh(&p);
    assert!(first.push(1));
    assert!(first.push(2));
    assert_eq!(first.pop(), Some(1));
    let mut second = attach(&p);
    assert_eq!(second.first(), 1);
    // The second handle reads from the first data slot, which was already taken.
    assert_eq!(second.pop(), None);
}

#[test]
fn array_traverse_mutable() {
    let p = parts::<i32>(16);
    let mut array = fresh(&p);
    array.push_many([1, 2, 3, 4, 5].into_iter().collect());

    assert_eq!(array.update_each(|n| n + 1), 5);

    let result = array.iter();
    assert_eq!(result, vec![2, 3, 4, 5, 6]);
}

#[test]
fn update_each_stops_at_count_snapshot() {
    let p = parts::<u8>(4);
    let mut array = fresh(&p);
    assert_eq!(array.update_each(|n| n + 1), 0);
    array.push_many(vec![1, 2, 3]);
    assert_eq!(array.pop(), Some(1));
    assert_eq!(array.update_each(|n| n * 10), 2);
    assert_eq!(array.iter(), vec![20, 30]);
}

#[test]
fn bounded_snapshot_and_update() {
    let p = parts::<u8>(6);
    let mut array = fresh(&p);
    array.push_many(vec![1, 2, 3, 4]);
    assert_eq!(array.iter_first(2), vec![1, 2]);
    assert_eq!(array.iter_first(6), vec![1, 2, 3, 4]);
    assert_eq!(array.update_first(3, |n| n + 10), 3);
    assert_eq!(array.iter(), vec![11, 12, 13, 4]);
}
