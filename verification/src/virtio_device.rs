//! What the transport asks of a device backend.

use crate::eventfd::EventFd;
use crate::guest_memory::GuestMemory;
use crate::queue::Queue;
use std::sync::atomic::AtomicUsize;
use std::sync::Arc;
use vstd::prelude::*;

verus! {

/// Status bit: the driver has noticed the device.
pub const DEVICE_ACKNOWLEDGE: u32 = 0x01;

/// Status bit: the driver knows how to drive the device.
pub const DEVICE_DRIVER: u32 = 0x02;

/// Status bit: the driver is set up and ready to drive the device.
pub const DEVICE_DRIVER_OK: u32 = 0x04;

/// Status bit: the driver has accepted the features it understands.
pub const DEVICE_FEATURES_OK: u32 = 0x08;

/// Status bit: the driver has given up on the device.
pub const DEVICE_FAILED: u32 = 0x80;

/// Interrupt status bit: the device has used a buffer of some queue.
pub const INTERRUPT_STATUS_USED_RING: u32 = 0x1;

/// Interrupt status bit: the configuration of the device has changed.
pub const INTERRUPT_STATUS_CONFIG_CHANGED: u32 = 0x2;

/// A device backend behind the transport.
///
/// Each method comes with a relation that says which outcomes the device
/// allows: which value it may report, or which device it may become. The
/// transport's contracts are stated over these relations. A device that states
/// nothing of a method leaves its relation as it is here: every outcome is
/// allowed.
pub trait VirtioDevice {
    /// True when `device_type` may report `t`.
    open spec fn reports_type(&self, t: u32) -> bool {
        true
    }

    /// The virtio device type.
    fn device_type(&self) -> (t: u32)
        ensures
            self.reports_type(t),
    ;

    /// True when `queue_max_sizes` may report `sizes`.
    open spec fn reports_max_sizes(&self, sizes: Seq<u16>) -> bool {
        true
    }

    /// The largest size of each queue of the device, in queue order.
    fn queue_max_sizes(&self) -> (sizes: &[u16])
        ensures
            self.reports_max_sizes(sizes@),
    ;

    /// True when `features` may report `bits` for `page`.
    open spec fn reports_features(&self, page: u32, bits: u32) -> bool {
        true
    }

    /// The 32 feature bits of the device in window `page` of its feature set.
    fn features(&self, page: u32) -> (bits: u32)
        ensures
            self.reports_features(page, bits),
    ;

    /// True when the device may become `next` as the driver accepts the
    /// feature bits `value` in window `page`.
    open spec fn acked(&self, page: u32, value: u32, next: &Self) -> bool {
        true
    }

    /// Tells the device which feature bits of window `page` the driver
    /// accepts.
    fn ack_features(&mut self, page: u32, value: u32)
        ensures
            old(self).acked(page, value, final(self)),
    ;

    /// True when `read_config` at `offset` may turn a buffer that holds
    /// `before` into one that holds `after`.
    open spec fn config_read(&self, offset: u64, before: Seq<u8>, after: Seq<u8>) -> bool {
        true
    }

    /// Reads from the device's configuration space at `offset` into `data`.
    fn read_config(&self, offset: u64, data: &mut [u8])
        ensures
            self.config_read(offset, old(data)@, final(data)@),
    ;

    /// True when the device may become `next` as `data` is written to its
    /// configuration space at `offset`.
    open spec fn config_written(&self, offset: u64, data: Seq<u8>, next: &Self) -> bool {
        true
    }

    /// Writes `data` to the device's configuration space at `offset`.
    fn write_config(&mut self, offset: u64, data: &[u8])
        ensures
            old(self).config_written(offset, data@, final(self)),
    ;

    /// True when the device may become `next` as it is activated with the
    /// given resources.
    open spec fn activated(
        &self,
        mem: GuestMemory,
        interrupt_evt: EventFd,
        status: Arc<AtomicUsize>,
        queues: Seq<Queue>,
        queue_evts: Seq<EventFd>,
        next: &Self,
    ) -> bool {
        true
    }

    /// Hands the device the guest memory, the endpoint on which it raises
    /// interrupts, the interrupt status word it shares with the transport, its
    /// queues and the endpoint of each queue. Called at most once.
    fn activate(
        &mut self,
        mem: GuestMemory,
        interrupt_evt: EventFd,
        status: Arc<AtomicUsize>,
        queues: Vec<Queue>,
        queue_evts: Vec<EventFd>,
    )
        ensures
            old(self).activated(mem, interrupt_evt, status, queues@, queue_evts@, final(self)),
    ;
}

} // verus!
