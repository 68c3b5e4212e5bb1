use ration::array::{attach_segment, create_segment};
use ration::layout::{count_offset, header_len, RingLayout};
use ration::{Block, Error, MapCfg, Segment};

#[test]
fn second_create_is_refused_until_owner_drops() {
    let name = "/tmp/RATION_TEST_DOUBLE_CREATE";
    let first = Segment::create(name, 64).unwrap();
    assert!(first.is_owner());
    assert_eq!(first.len(), 64);
    assert!(matches!(Segment::create(name, 64), Err(Error::BlockAlreadyAllocated)));
    drop(first);
    let again = Segment::create(name, 32).unwrap();
    assert!(again.is_owner());
    assert_eq!(again.len(), 32);
}

#[test]
fn dropping_an_attached_handle_keeps_the_name() {
    let name = "/tmp/RATION_TEST_OWNERSHIP";
    let owner = Segment::create(name, 128).unwrap();
    let attached = Segment::attach(name).unwrap();
    assert!(!attached.is_owner());
    assert_eq!(attached.len(), 128);
    drop(attached);
    let attached_again = Segment::attach(name).unwrap();
    assert_eq!(attached_again.len(), 128);
    drop(attached_again);
    drop(owner);
    assert!(matches!(Segment::attach(name), Err(Error::NotFound)));
    let fresh = Segment::create(name, 16).unwrap();
    assert!(fresh.is_owner());
}

#[test]
fn zero_size_is_refused() {
    assert!(matches!(Segment::create("/tmp/RATION_TEST_ZERO", 0), Err(Error::SizeZero)));
}

#[test]
fn attaching_a_missing_name_fails() {
    assert!(matches!(Segment::attach("/tmp/RATION_TEST_MISSING"), Err(Error::NotFound)));
}

#[test]
fn ring_capacity_is_discovered_on_attach() {
    for (capacity, name) in [(1_usize, "/tmp/RATION_TEST_DISCOVER_1"), (7, "/tmp/RATION_TEST_DISCOVER_7"), (64, "/tmp/RATION_TEST_DISCOVER_64")] {
        let (owner, layout) = create_segment::<u64>(name, capacity).unwrap();
        assert!(owner.is_owner());
        assert_eq!(layout.capacity, capacity);
        assert_eq!(owner.len(), header_len() + capacity * std::mem::size_of::<Option<u64>>());
        let (other, found) = attach_segment::<u64>(name).unwrap();
        assert!(!other.is_owner());
        assert_eq!(found.capacity, capacity);
    }
}

#[test]
fn layout_offsets_and_lengths() {
    let word = std::mem::size_of::<isize>();
    assert_eq!(count_offset(), 1 + word);
    assert_eq!(header_len(), 1 + 2 * word);
    let layout = RingLayout::for_capacity(16, 8).unwrap();
    assert_eq!(layout.len(), header_len() + 128);
    assert_eq!(layout.slot_offset(0), header_len());
    assert_eq!(layout.slot_offset(15), header_len() + 120);
    assert_eq!(RingLayout::for_len(header_len() + 128, 8), Some(layout));
    assert_eq!(RingLayout::for_len(header_len() + 133, 8).unwrap().capacity, 16);
    assert_eq!(RingLayout::for_len(header_len(), 4).unwrap().capacity, 0);
    assert_eq!(RingLayout::for_len(header_len() - 1, 4), None);
    assert_eq!(RingLayout::for_capacity(usize::MAX, 2), None);
    assert_eq!(RingLayout::for_capacity(usize::MAX - header_len() + 1, 1), None);
    assert_eq!(RingLayout::for_capacity(usize::MAX - header_len(), 1).unwrap().len(), usize::MAX);
}

#[test]
fn block_create_and_open() {
    let name = "/tmp/RATION_TEST_BLOCK";
    let block: Block<u64> = Block::create(name).unwrap();
    assert!(block.is_owner());
    assert_eq!(block.segment().len(), 8);
    assert!(matches!(Block::<u64>::create(name), Err(Error::BlockAlreadyAllocated)));
    let other: Block<u64> = Block::open(name).unwrap();
    assert!(!other.is_owner());
    assert!(matches!(Block::<u32>::open(name), Err(Error::InvalidBlockSize)));
    assert!(matches!(Block::<()>::create("/tmp/RATION_TEST_BLOCK_UNIT"), Err(Error::SizeZero)));
}

#[test]
fn map_cfg_builds_segments() {
    assert!(matches!(MapCfg::new().create(), Err(Error::SizeZero)));
    let map = MapCfg::new().path("/tmp/RATION_TEST_MAPCFG").size(40).create().unwrap();
    assert!(map.is_owner());
    assert_eq!(map.len(), 40);
    assert_eq!(map.segment().len(), 40);
}

struct TestDatatype {
    _field_a: u32,
    _field_b: [char; 16],
}

#[test]
fn block_test_1() {
    let block: Block<TestDatatype> = Block::create("/tmp/TEST_BLOCK_1").unwrap();
    assert!(block.is_owner());
    assert_eq!(block.segment().len(), std::mem::size_of::<TestDatatype>());

    {
        let ref_block: Block<TestDatatype> = Block::open("/tmp/TEST_BLOCK_1").unwrap();
        assert!(!ref_block.is_owner());
        assert_eq!(ref_block.segment().len(), std::mem::size_of::<TestDatatype>());
    }

    assert!(block.is_owner());
}

#[test]
fn block_responsive_afterward() {
    let block: Block<u8> = Block::create("/tmp/TEST_BLOCK_RESPAFTER").unwrap();
    let ref_block: Block<u8> = Block::open("/tmp/TEST_BLOCK_RESPAFTER").unwrap();
    assert!(block.is_owner());
    assert!(!ref_block.is_owner());
    assert_eq!(ref_block.segment().len(), 1);
}

#[test]
fn block_from_segment_checks_size() {
    let segment = Segment::create("/tmp/RATION_TEST_FROM_SEGMENT", 4).unwrap();
    assert!(matches!(Block::<u64>::from_segment(segment), Err(Error::InvalidBlockSize)));
    let segment = Segment::create("/tmp/RATION_TEST_FROM_SEGMENT_2", 4).unwrap();
    let block = Block::<u32>::from_segment(segment).unwrap();
    assert!(block.is_owner());
}

#[test]
fn ring_segment_too_large_is_refused() {
    assert!(matches!(create_segment::<u8>("/tmp/RATION_TEST_HUGE", usize::MAX), Err(Error::InvalidBlockSize)));
}
