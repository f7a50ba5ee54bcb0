use ohyper::memory::{BootInfoFrameAllocator, MemoryRegion, PhysFrame, PHYS_ADDR_LIMIT};

fn region(start_addr: u64, end_addr: u64, usable: bool) -> MemoryRegion {
    MemoryRegion { start_addr, end_addr, usable }
}

fn frame(start_address: u64) -> Option<PhysFrame> {
    Some(PhysFrame { start_address })
}

#[test]
fn frames_come_from_usable_regions_in_order() {
    let mut a = BootInfoFrameAllocator::init(vec![
        region(0x1000, 0x3000, true),
        region(0x3000, 0x5000, false),
        region(0x5000, 0x6800, true),
    ]);
    let mut got = vec![];
    for _ in 0..6 {
        assert!(a.can_allocate_frame());
        got.push(a.allocate_frame());
    }
    assert_eq!(got, vec![frame(0x1000), frame(0x2000), frame(0x5000), frame(0x6000), None, None]);
    assert_eq!(a.next, 6);
}

#[test]
fn empty_map_gives_nothing() {
    let mut a = BootInfoFrameAllocator::init(vec![]);
    assert_eq!(a.allocate_frame(), None);
    assert_eq!(a.next, 1);
    let mut b = BootInfoFrameAllocator::init(vec![region(0x4000, 0x4000, true), region(0x9000, 0x8000, true)]);
    assert_eq!(b.allocate_frame(), None);
}

#[test]
fn unaligned_region_gives_containing_frames() {
    let mut a = BootInfoFrameAllocator::init(vec![region(0x1800, 0x2900, true)]);
    assert_eq!(a.allocate_frame(), frame(0x1000));
    assert_eq!(a.allocate_frame(), frame(0x2000));
    assert_eq!(a.allocate_frame(), None);
}

#[test]
fn frames_never_repeat_for_disjoint_aligned_regions() {
    let mut a = BootInfoFrameAllocator::init(vec![
        region(0x0, 0x4000, true),
        region(0x8000, 0xa000, true),
        region(0x4000, 0x8000, false),
    ]);
    let mut seen = vec![];
    while let Some(f) = a.allocate_frame() {
        assert_eq!(f.start_address % 4096, 0);
        assert!(!seen.contains(&f.start_address));
        seen.push(f.start_address);
    }
    assert_eq!(seen, vec![0x0, 0x1000, 0x2000, 0x3000, 0x8000, 0x9000]);
}

#[test]
fn frames_beyond_the_physical_limit_cannot_be_reached() {
    let a = BootInfoFrameAllocator::init(vec![region(PHYS_ADDR_LIMIT - 0x1000, PHYS_ADDR_LIMIT + 0x1000, true)]);
    assert!(a.can_allocate_frame());
    let mut a = a;
    assert_eq!(a.allocate_frame(), frame(PHYS_ADDR_LIMIT - 0x1000));
    assert!(!a.can_allocate_frame());
    let b = BootInfoFrameAllocator { memory_map: vec![], next: usize::MAX };
    assert!(!b.can_allocate_frame());
}

#[test]
fn containing_frame() {
    assert_eq!(PhysFrame::containing_address(0x1234).start_address, 0x1000);
    assert_eq!(PhysFrame::containing_address(0x2000).start_address, 0x2000);
    assert_eq!(PhysFrame::containing_address(0xfff).start_address, 0);
}
