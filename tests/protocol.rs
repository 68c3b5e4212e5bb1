use ration::protocol::{admits, claim_slot, initial_read, next_read, remaining, snapshot_bound};

#[test]
fn claim_slot_wraps_at_capacity() {
    assert_eq!(claim_slot(1, 4), (1, false));
    assert_eq!(claim_slot(3, 4), (3, false));
    assert_eq!(claim_slot(4, 4), (0, true));
    assert_eq!(claim_slot(9, 4), (1, false));
    assert_eq!(claim_slot(-1, 4), (3, false));
    assert_eq!(claim_slot(-4, 4), (0, true));
    assert_eq!(claim_slot(isize::MIN, 3), (isize::MIN.rem_euclid(3) as usize, isize::MIN.rem_euclid(3) == 0));
    assert_eq!(claim_slot(1, 1), (0, true));
}

#[test]
fn admission_and_remaining() {
    assert!(admits(3, 4));
    assert!(!admits(4, 4));
    assert!(!admits(9, 4));
    assert_eq!(remaining(4, 0), 4);
    assert_eq!(remaining(4, 3), 1);
    assert_eq!(remaining(4, 4), 0);
    assert_eq!(remaining(4, 7), 0);
    assert_eq!(remaining(4, -2), 4);
}

#[test]
fn read_positions() {
    assert_eq!(initial_read(1), 0);
    assert_eq!(initial_read(5), 1);
    assert_eq!(next_read(3, 4), 0);
    assert_eq!(next_read(1, 4), 2);
}

#[test]
fn snapshot_bound_clamps_count() {
    assert_eq!(snapshot_bound(-3, 8), 0);
    assert_eq!(snapshot_bound(0, 8), 0);
    assert_eq!(snapshot_bound(5, 8), 5);
    assert_eq!(snapshot_bound(8, 8), 8);
    assert_eq!(snapshot_bound(20, 8), 8);
}
