use std::cell::Cell;
use std::sync::atomic::{AtomicIsize, AtomicU8};

use ration::{Array, Channel};

#[test]
fn channel_send_recv_and_doorbell() {
    let signal = AtomicU8::new(0);
    let cursor = AtomicIsize::new(0);
    let count = AtomicIsize::new(0);
    let slots: Vec<Cell<Option<u16>>> = (0..3).map(|_| Cell::new(None)).collect();
    let mut sender = Channel::new(&signal, &cursor, &count, &slots).unwrap();
    sender.reset();
    let mut receiver = Channel::new(&signal, &cursor, &count, &slots).unwrap();
    assert!(!receiver.check());
    assert!(!receiver.exchange());
    assert!(sender.send(5));
    assert!(sender.send(6));
    assert!(sender.send(7));
    assert!(!sender.send(8));
    assert!(receiver.check());
    assert!(receiver.exchange());
    assert!(!receiver.check());
    assert_eq!(receiver.recv(), Some(5));
    assert_eq!(receiver.recv(), Some(6));
    assert!(sender.send(9));
    assert_eq!(receiver.recv(), Some(7));
    assert_eq!(receiver.recv(), Some(9));
    assert_eq!(receiver.recv(), None);
}

#[test]
fn resume_keeps_read_position() {
    let signal = AtomicU8::new(0);
    let cursor = AtomicIsize::new(0);
    let count = AtomicIsize::new(0);
    let slots: Vec<Cell<Option<u8>>> = (0..4).map(|_| Cell::new(None)).collect();
    let mut array = Array::new(&signal, &cursor, &count, &slots).unwrap();
    array.reset();
    array.push_many(vec![1, 2, 3]);
    assert_eq!(array.pop(), Some(1));
    let first = array.first();
    assert_eq!(first, 2);
    let mut resumed = Array::resume(&signal, &cursor, &count, &slots, first).unwrap();
    assert_eq!(resumed.pop(), Some(2));
    assert_eq!(resumed.pop(), Some(3));
    assert!(Array::resume(&signal, &cursor, &count, &slots, 4).is_none());
}
