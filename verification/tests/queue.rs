use virtio_mmio::guest_memory::GuestMemory;
use virtio_mmio::guest_memory::MemoryRegion;
use virtio_mmio::mmio::hi;
use virtio_mmio::mmio::lo;
use virtio_mmio::mmio::write_queue_register;
use virtio_mmio::queue::Queue;

fn memory() -> GuestMemory {
    GuestMemory::new(vec![MemoryRegion { guest_base: 0, size: 0x1_0000 }])
}

fn placed(size: u16) -> Queue {
    Queue {
        max_size: 256,
        size,
        ready: true,
        desc_table: 0x1000,
        avail_ring: 0x2000,
        used_ring: 0x3000,
    }
}

#[test]
fn a_new_queue_has_the_largest_size_and_no_ring() {
    let q = Queue::new(16);
    assert_eq!(
        q,
        Queue { max_size: 16, size: 16, ready: false, desc_table: 0, avail_ring: 0, used_ring: 0 }
    );
    assert!(!q.is_valid(&memory()));
}

#[test]
fn a_placed_queue_is_valid() {
    assert!(placed(16).is_valid(&memory()));
    assert!(placed(1).is_valid(&memory()));
    assert!(placed(256).is_valid(&memory()));
}

#[test]
fn validity_does_not_ask_for_the_ready_flag() {
    let q = Queue { ready: false, ..placed(16) };
    assert!(q.is_valid(&memory()));
}

#[test]
fn the_size_must_be_a_power_of_two() {
    for size in [0u16, 3, 5, 6, 7, 12, 15, 17, 24, 100, 255] {
        assert!(!placed(size).is_valid(&memory()), "size {}", size);
    }
    for size in [1u16, 2, 4, 8, 16, 32, 64, 128, 256] {
        assert!(placed(size).is_valid(&memory()), "size {}", size);
    }
}

#[test]
fn the_size_must_not_exceed_the_largest() {
    let q = Queue { max_size: 16, ..placed(32) };
    assert!(!q.is_valid(&memory()));
    let q = Queue { max_size: 32, ..placed(32) };
    assert!(q.is_valid(&memory()));
    let q = Queue { max_size: 0x8000, size: 0x8000, ..placed(1) };
    assert!(!q.is_valid(&memory()));
    let big = GuestMemory::new(vec![MemoryRegion { guest_base: 0, size: 0x10_0000 }]);
    let q = Queue {
        max_size: 0x8000,
        size: 0x8000,
        ready: true,
        desc_table: 0x1000,
        avail_ring: 0x8_1000,
        used_ring: 0xa_0000,
    };
    assert!(q.is_valid(&big));
}

#[test]
fn each_ring_address_must_not_be_zero() {
    assert!(!Queue { desc_table: 0, ..placed(16) }.is_valid(&memory()));
    assert!(!Queue { avail_ring: 0, ..placed(16) }.is_valid(&memory()));
    assert!(!Queue { used_ring: 0, ..placed(16) }.is_valid(&memory()));
}

#[test]
fn each_ring_must_be_aligned() {
    assert!(!Queue { desc_table: 0x1008, ..placed(16) }.is_valid(&memory()));
    assert!(Queue { desc_table: 0x1010, ..placed(16) }.is_valid(&memory()));
    assert!(!Queue { avail_ring: 0x2001, ..placed(16) }.is_valid(&memory()));
    assert!(Queue { avail_ring: 0x2002, ..placed(16) }.is_valid(&memory()));
    assert!(!Queue { used_ring: 0x3002, ..placed(16) }.is_valid(&memory()));
    assert!(Queue { used_ring: 0x3004, ..placed(16) }.is_valid(&memory()));
}

#[test]
fn each_ring_must_lie_in_guest_memory() {
    // 16 entries: 256 bytes of descriptors, 38 of available ring, 134 of used ring.
    assert!(Queue { desc_table: 0xff00, ..placed(16) }.is_valid(&memory()));
    assert!(!Queue { desc_table: 0xff10, ..placed(16) }.is_valid(&memory()));
    assert!(Queue { avail_ring: 0xffda, ..placed(16) }.is_valid(&memory()));
    assert!(!Queue { avail_ring: 0xffdc, ..placed(16) }.is_valid(&memory()));
    assert!(Queue { used_ring: 0xff78, ..placed(16) }.is_valid(&memory()));
    assert!(!Queue { used_ring: 0xff7c, ..placed(16) }.is_valid(&memory()));
    assert!(!Queue { desc_table: 0x1_0000, ..placed(16) }.is_valid(&memory()));
    assert!(!Queue { used_ring: 0xffff_ffff_ffff_fffc, ..placed(16) }.is_valid(&memory()));
    assert!(!placed(16).is_valid(&GuestMemory::new(vec![])));
}

#[test]
fn halves_of_an_address() {
    assert_eq!(lo(0x1122_3344_5566_7788, 0xaabb_ccdd), 0x1122_3344_aabb_ccdd);
    assert_eq!(hi(0x1122_3344_5566_7788, 0xaabb_ccdd), 0xaabb_ccdd_5566_7788);
    assert_eq!(lo(0, 0), 0);
    assert_eq!(hi(0, 0), 0);
    assert_eq!(lo(u64::MAX, 0), 0xffff_ffff_0000_0000);
    assert_eq!(hi(u64::MAX, 0), 0x0000_0000_ffff_ffff);
    assert_eq!(hi(lo(0, 0x1000), 0), 0x1000);
}

#[test]
fn queue_registers() {
    let q = Queue::new(64);
    assert_eq!(write_queue_register(q, 0x38, 16).size, 16);
    assert_eq!(write_queue_register(q, 0x38, 0x1_0010).size, 16);
    assert_eq!(write_queue_register(q, 0x38, 0xffff_ffff).size, 0xffff);
    assert!(write_queue_register(q, 0x44, 1).ready);
    assert!(!write_queue_register(q, 0x44, 0).ready);
    assert!(!write_queue_register(q, 0x44, 3).ready);
    assert!(!write_queue_register(Queue { ready: true, ..q }, 0x44, 0x1_0001).ready);
    assert_eq!(write_queue_register(q, 0x80, 7).desc_table, 7);
    assert_eq!(write_queue_register(q, 0x84, 7).desc_table, 7 << 32);
    assert_eq!(write_queue_register(q, 0x90, 7).avail_ring, 7);
    assert_eq!(write_queue_register(q, 0x94, 7).avail_ring, 7 << 32);
    assert_eq!(write_queue_register(q, 0xa0, 7).used_ring, 7);
    assert_eq!(write_queue_register(q, 0xa4, 7).used_ring, 7 << 32);
    assert_eq!(write_queue_register(q, 0x34, 7), q);
    assert_eq!(write_queue_register(q, 0x38, 16).max_size, 64);
}
