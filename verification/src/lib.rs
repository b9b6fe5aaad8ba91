//! A virtio MMIO transport: the register file that a guest driver reads and
//! writes, the negotiation state it keeps, and the one-shot hand-over of guest
//! memory, notification endpoints and virtqueues to the device backend.

pub mod bit_field;
pub mod endian;
pub mod guest_memory;
pub mod queue;
pub mod eventfd;
pub mod virtio_device;
pub mod interrupt;
pub mod registers;
pub mod mmio;
pub mod lemmas;
