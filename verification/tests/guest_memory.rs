use virtio_mmio::guest_memory::GuestMemory;
use virtio_mmio::guest_memory::MemoryRegion;

#[test]
fn a_region_holds_the_spans_inside_it() {
    let r = MemoryRegion { guest_base: 0x1000, size: 0x1000 };
    assert!(r.contains_span(0x1000, 0x1000));
    assert!(r.contains_span(0x1000, 0));
    assert!(r.contains_span(0x1fff, 1));
    assert!(r.contains_span(0x2000, 0));
    assert!(!r.contains_span(0x0fff, 1));
    assert!(!r.contains_span(0x1fff, 2));
    assert!(!r.contains_span(0x1000, 0x1001));
    assert!(!r.contains_span(0x2001, 0));
    assert!(!r.contains_span(u64::MAX, u64::MAX));
    assert!(!r.contains_span(0x1800, u64::MAX));
}

#[test]
fn a_region_at_the_top_of_the_address_space() {
    let r = MemoryRegion { guest_base: u64::MAX - 0xfff, size: 0x1000 };
    assert!(r.contains_span(u64::MAX, 1));
    assert!(r.contains_span(u64::MAX - 0xfff, 0x1000));
    assert!(!r.contains_span(u64::MAX, 2));
    let all = MemoryRegion { guest_base: 0, size: u64::MAX };
    assert!(all.contains_span(0, u64::MAX));
    assert!(!all.contains_span(1, u64::MAX));
}

#[test]
fn a_span_is_backed_by_one_region() {
    let mem = GuestMemory::new(vec![
        MemoryRegion { guest_base: 0, size: 0x1000 },
        MemoryRegion { guest_base: 0x1000, size: 0x1000 },
        MemoryRegion { guest_base: 0x8000, size: 0x100 },
    ]);
    assert_eq!(mem.num_regions(), 3);
    assert!(mem.is_valid_range(0, 0x1000));
    assert!(mem.is_valid_range(0x1000, 0x1000));
    assert!(mem.is_valid_range(0x80ff, 1));
    assert!(!mem.is_valid_range(0x0800, 0x1000));
    assert!(!mem.is_valid_range(0x2000, 1));
    assert!(!mem.is_valid_range(0x8100, 1));
}

#[test]
fn nothing_is_backed_without_regions() {
    let mem = GuestMemory::new(vec![]);
    assert_eq!(mem.num_regions(), 0);
    assert!(!mem.is_valid_range(0, 0));
    assert!(!mem.is_valid_range(0, 1));
}
