//! What the transport's registers mean: the state behind them as a
//! mathematical value, what a read returns and what a write changes.

use crate::endian::le_bytes;
use crate::endian::le_value;
use crate::eventfd::EventFd;
use crate::guest_memory::GuestMemory;
use crate::interrupt::status_bits;
use crate::queue::Queue;
use crate::virtio_device::VirtioDevice;
use std::sync::atomic::AtomicUsize;
use std::sync::Arc;
use vstd::prelude::*;

verus! {

/// The vendor that the transport reports.
pub const VENDOR_ID: u32 = 0;

/// The magic number at the start of the register file: "virt".
pub const MMIO_MAGIC_VALUE: u32 = 0x74726976;

/// The version of the register layout.
pub const MMIO_VERSION: u32 = 2;

/// The driver status at which the device is activated: acknowledged, driver
/// known, features accepted, driver ready.
pub const READY_STATUS: u32 = 0x0f;

/// The address `addr` with its low 32 bits replaced by `x`.
pub open spec fn with_low(addr: u64, x: u32) -> u64 {
    (addr / 0x1_0000_0000 * 0x1_0000_0000 + x) as u64
}

/// The address `addr` with its high 32 bits replaced by `x`.
pub open spec fn with_high(addr: u64, x: u32) -> u64 {
    (addr % 0x1_0000_0000 + x * 0x1_0000_0000) as u64
}

/// True for the registers through which the driver configures the selected
/// queue.
pub open spec fn is_queue_register(offset: u64) -> bool {
    offset == 0x38 || offset == 0x44 || offset == 0x80 || offset == 0x84 || offset == 0x90
        || offset == 0x94 || offset == 0xa0 || offset == 0xa4
}

/// True for the registers that a four-byte write changes or forwards.
pub open spec fn is_writable_register(offset: u64) -> bool {
    offset == 0x14 || offset == 0x20 || offset == 0x24 || offset == 0x30 || offset == 0x64
        || offset == 0x70 || is_queue_register(offset)
}

/// True for the registers that a four-byte read returns a value for.
pub open spec fn is_readable_register(offset: u64) -> bool {
    offset == 0x00 || offset == 0x04 || offset == 0x08 || offset == 0x0c || offset == 0x10
        || offset == 0x34 || offset == 0x44 || offset == 0x60 || offset == 0x70 || offset == 0xfc
}

/// The feature bits `bits` of window `page` as the feature register shows
/// them: in window one, with the bit that stands for this version of the
/// transport.
pub open spec fn with_version_bit(page: u32, bits: u32) -> u32 {
    bits | if page == 1 {
        1u32
    } else {
        0u32
    }
}

/// The queue `q` after `v` is written to the queue register at `offset`.
pub open spec fn queue_written(q: Queue, offset: u64, v: u32) -> Queue {
    if offset == 0x38 {
        Queue { size: (v % 0x1_0000) as u16, ..q }
    } else if offset == 0x44 {
        Queue { ready: v == 1, ..q }
    } else if offset == 0x80 {
        Queue { desc_table: with_low(q.desc_table, v), ..q }
    } else if offset == 0x84 {
        Queue { desc_table: with_high(q.desc_table, v), ..q }
    } else if offset == 0x90 {
        Queue { avail_ring: with_low(q.avail_ring, v), ..q }
    } else if offset == 0x94 {
        Queue { avail_ring: with_high(q.avail_ring, v), ..q }
    } else if offset == 0xa0 {
        Queue { used_ring: with_low(q.used_ring, v), ..q }
    } else if offset == 0xa4 {
        Queue { used_ring: with_high(q.used_ring, v), ..q }
    } else {
        q
    }
}

/// The state of a transport.
pub struct MmioView<D> {
    /// The device backend.
    pub device: D,
    /// Whether the device has been activated.
    pub device_activated: bool,
    /// The window of the device's features that the feature register shows.
    pub features_select: u32,
    /// The window of the device's features that the next acknowledgement
    /// is for.
    pub acked_features_select: u32,
    /// The index of the queue that the queue registers stand for.
    pub queue_select: u32,
    /// The interrupt status word, shared with the device once it is active.
    pub interrupt_status: Arc<AtomicUsize>,
    /// The endpoint on which interrupts are raised, until it is handed over.
    pub interrupt_evt: Option<EventFd>,
    /// The status bits that the driver wrote.
    pub driver_status: u32,
    /// Counts the changes of the device's configuration.
    pub config_generation: u32,
    /// The queues, in the order of the device's queue sizes.
    pub queues: Seq<Queue>,
    /// The endpoint of each queue, until they are handed over.
    pub queue_evts: Seq<EventFd>,
    /// The guest memory, until it is handed over.
    pub mem: Option<GuestMemory>,
}

impl<D: VirtioDevice> MmioView<D> {
    /// The state of a transport that was just made for `device`, which
    /// reported the queue sizes `sizes`: nothing selected, no status bit
    /// written, and one queue of the largest size for each queue of the
    /// device.
    pub open spec fn initial(
        device: D,
        sizes: Seq<u16>,
        interrupt_status: Arc<AtomicUsize>,
        interrupt_evt: EventFd,
        queue_evts: Seq<EventFd>,
        mem: GuestMemory,
    ) -> MmioView<D> {
        MmioView {
            device,
            device_activated: false,
            features_select: 0,
            acked_features_select: 0,
            queue_select: 0,
            interrupt_status,
            interrupt_evt: Some(interrupt_evt),
            driver_status: 0,
            config_generation: 0,
            queues: Seq::new(sizes.len(), |i: int| Queue::fresh(sizes[i])),
            queue_evts,
            mem: Some(mem),
        }
    }

    /// True when the queue registers stand for a queue.
    pub open spec fn queue_selected(self) -> bool {
        self.queue_select < self.queues.len()
    }

    /// True when the driver status is exactly the one at which the device is
    /// activated.
    pub open spec fn driver_ready(self) -> bool {
        self.driver_status == READY_STATUS
    }

    /// True when the guest memory is still held and every queue is valid in
    /// it.
    pub open spec fn queues_valid(self) -> bool {
        &&& self.mem is Some
        &&& forall|i: int|
            0 <= i < self.queues.len() ==> (#[trigger] self.queues[i]).valid(self.mem->0@)
    }

    /// True when the device is to be activated: it has not been yet, the
    /// driver is ready, every queue is valid, and the resources to hand over
    /// are still held.
    pub open spec fn activation_due(self) -> bool {
        &&& !self.device_activated
        &&& self.driver_ready()
        &&& self.queues_valid()
        &&& self.interrupt_evt is Some
        &&& self.mem is Some
    }

    /// The invariant of a transport. Before activation it holds the guest
    /// memory, the interrupt endpoint and one endpoint for each queue, and
    /// activation is not due, since every write that made it due performed
    /// it. After activation it holds none of them.
    pub open spec fn wf(self) -> bool {
        if self.device_activated {
            &&& self.mem is None
            &&& self.interrupt_evt is None
            &&& self.queue_evts.len() == 0
        } else {
            &&& self.mem is Some
            &&& self.interrupt_evt is Some
            &&& self.queue_evts.len() == self.queues.len()
            &&& !self.activation_due()
        }
    }

    /// True when a four-byte read of the register at `offset` may return
    /// `v`. The registers that the device answers show what the device
    /// reports, and the interrupt status register shows the low 32 bits of
    /// whatever the status word holds, which the device changes on its own.
    /// False for an offset that is no readable register.
    pub open spec fn shows(self, offset: u64, v: u32) -> bool {
        if offset == 0x00 {
            v == MMIO_MAGIC_VALUE
        } else if offset == 0x04 {
            v == MMIO_VERSION
        } else if offset == 0x08 {
            self.device.reports_type(v)
        } else if offset == 0x0c {
            v == VENDOR_ID
        } else if offset == 0x10 {
            exists|bits: u32| #[trigger]
                self.device.reports_features(self.features_select, bits) && v == with_version_bit(
                    self.features_select,
                    bits,
                )
        } else if offset == 0x34 {
            v == if self.queue_selected() {
                self.queues[self.queue_select as int].max_size as u32
            } else {
                0
            }
        } else if offset == 0x44 {
            v == if self.queue_selected() && self.queues[self.queue_select as int].ready {
                1u32
            } else {
                0u32
            }
        } else if offset == 0x60 {
            exists|word: usize| v == #[trigger] status_bits(word)
        } else if offset == 0x70 {
            v == self.driver_status
        } else if offset == 0xfc {
            v == self.config_generation
        } else {
            false
        }
    }

    /// The state after `v` is written to the register at `offset`, before the
    /// device is activated if that is then due. The acknowledgement of
    /// features, which changes the device, is not covered here.
    pub open spec fn staged(self, offset: u64, v: u32) -> MmioView<D> {
        if offset == 0x14 {
            MmioView { features_select: v, ..self }
        } else if offset == 0x24 {
            MmioView { acked_features_select: v, ..self }
        } else if offset == 0x30 {
            MmioView { queue_select: v, ..self }
        } else if offset == 0x70 {
            MmioView { driver_status: v, ..self }
        } else if is_queue_register(offset) && self.queue_selected() {
            MmioView {
                queues: self.queues.update(
                    self.queue_select as int,
                    queue_written(self.queues[self.queue_select as int], offset, v),
                ),
                ..self
            }
        } else {
            self
        }
    }

    /// The state after the resources are handed over to the device, which
    /// became `device` by it.
    pub open spec fn handed_over(self, device: D) -> MmioView<D> {
        MmioView {
            device,
            device_activated: true,
            interrupt_evt: None,
            mem: None,
            queue_evts: Seq::empty(),
            ..self
        }
    }

    /// Relates the state to the state `post` after it is activated: the
    /// device got the guest memory, the interrupt endpoint, the shared
    /// status word, a copy of the queues and every queue endpoint.
    pub open spec fn activates_to(self, post: MmioView<D>) -> bool {
        &&& self.device.activated(
            self.mem->0,
            self.interrupt_evt->0,
            self.interrupt_status,
            self.queues,
            self.queue_evts,
            &post.device,
        )
        &&& post == self.handed_over(post.device)
    }

    /// Relates the state, as a register write left it, to the state `post`
    /// after the activation that follows if it is due.
    pub open spec fn settles_to(self, post: MmioView<D>) -> bool {
        if self.activation_due() {
            self.activates_to(post)
        } else {
            post == self
        }
    }

    /// Relates the state to the state `mid` after the driver's acceptance of
    /// the feature bits `v` is passed on to the device.
    pub open spec fn acks_to(self, v: u32, mid: MmioView<D>) -> bool {
        &&& self.device.acked(self.acked_features_select, v, &mid.device)
        &&& mid == MmioView { device: mid.device, ..self }
    }

    /// Relates the state to the state `post` after the four-byte value `v`
    /// is written to the register at `offset`: the register takes the
    /// value, and the device is activated if that is then due. A write to
    /// an offset that is no writable register changes nothing.
    pub open spec fn register_written(self, offset: u64, v: u32, post: MmioView<D>) -> bool {
        if !is_writable_register(offset) {
            post == self
        } else if offset == 0x20 {
            exists|mid: MmioView<D>| self.acks_to(v, mid) && #[trigger] mid.settles_to(post)
        } else {
            self.staged(offset, v).settles_to(post)
        }
    }

    /// Relates the state to the state `post` after the guest writes `data`
    /// at `offset`. Four bytes in the register window are a register write,
    /// anything in the configuration window goes to the device, and
    /// everything else is ignored.
    pub open spec fn written(self, offset: u64, data: Seq<u8>, post: MmioView<D>) -> bool {
        if offset <= 0xff && data.len() == 4 {
            self.register_written(offset, le_value(data), post)
        } else if 0x100 <= offset <= 0xfff {
            &&& self.device.config_written((offset - 0x100) as u64, data, &post.device)
            &&& post == MmioView { device: post.device, ..self }
        } else {
            post == self
        }
    }

    /// Relates the buffer `before` that the guest reads into at `offset` to
    /// the buffer `after` the read. Four bytes in the register window get a
    /// value that the register shows, little-endian. Anything in the
    /// configuration window is read from the device, and everything else
    /// leaves the buffer as it was.
    pub open spec fn reads(self, offset: u64, before: Seq<u8>, after: Seq<u8>) -> bool {
        if offset <= 0xff && before.len() == 4 && is_readable_register(offset) {
            after.len() == 4 && self.shows(offset, le_value(after))
        } else if 0x100 <= offset <= 0xfff {
            self.device.config_read((offset - 0x100) as u64, before, after)
        } else {
            after == before
        }
    }
}

} // verus!
