use virtio_mmio::interrupt::ack_mask_for;
use virtio_mmio::interrupt::status_register;
use virtio_mmio::virtio_device::INTERRUPT_STATUS_CONFIG_CHANGED;
use virtio_mmio::virtio_device::INTERRUPT_STATUS_USED_RING;

#[test]
fn the_register_shows_the_low_32_bits() {
    assert_eq!(status_register(0), 0);
    assert_eq!(status_register(0b11), 0b11);
    assert_eq!(status_register(0xffff_ffff), 0xffff_ffff);
    assert_eq!(status_register(usize::MAX), 0xffff_ffff);
    assert_eq!(status_register((0x1_0000_0002u64 & usize::MAX as u64) as usize), 2);
}

#[test]
fn the_mask_keeps_every_bit_but_the_acknowledged() {
    assert_eq!(ack_mask_for(0), usize::MAX);
    assert_eq!(ack_mask_for(1), usize::MAX - 1);
    assert_eq!(ack_mask_for(0b11), usize::MAX - 3);
    assert_eq!(ack_mask_for(0xffff_ffff) & 0xffff_ffff, 0);
}

#[test]
fn acknowledging_clears_the_acknowledged_bits_only() {
    for word in [0usize, 1, 2, 3, 0xf0, 0xffff_ffff] {
        for ack in [0u32, 1, 2, 3, 0x30, 0xffff_ffff] {
            let after = word & ack_mask_for(ack);
            assert_eq!(status_register(after), status_register(word) & !ack);
        }
    }
}

#[test]
fn the_two_interrupt_causes_are_the_two_low_bits() {
    assert_eq!(INTERRUPT_STATUS_USED_RING, 0b01);
    assert_eq!(INTERRUPT_STATUS_CONFIG_CHANGED, 0b10);
    let word = (INTERRUPT_STATUS_USED_RING | INTERRUPT_STATUS_CONFIG_CHANGED) as usize;
    let after = word & ack_mask_for(INTERRUPT_STATUS_USED_RING);
    assert_eq!(status_register(after), INTERRUPT_STATUS_CONFIG_CHANGED);
}
