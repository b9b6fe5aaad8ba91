//! The transport itself: the register file in front of a device backend.

use crate::endian::le_bytes;
use crate::endian::lemma_le_value_of_bytes;
use crate::endian::read_le_u32;
use crate::endian::write_le_u32;
use crate::eventfd::Error;
use crate::eventfd::EventFd;
use crate::eventfd::EINVAL;
use crate::guest_memory::GuestMemory;
use crate::interrupt::ack_mask_for;
use crate::interrupt::load_status;
use crate::interrupt::mask_status;
use crate::interrupt::new_status;
use crate::interrupt::status_register;
use crate::queue::Queue;
use crate::registers::is_queue_register;
use crate::registers::is_writable_register;
use crate::registers::queue_written;
use crate::registers::with_high;
use crate::registers::with_low;
use crate::registers::MmioView;
use crate::registers::MMIO_MAGIC_VALUE;
use crate::registers::MMIO_VERSION;
use crate::registers::VENDOR_ID;
use crate::virtio_device::VirtioDevice;
use crate::virtio_device::DEVICE_ACKNOWLEDGE;
use crate::virtio_device::DEVICE_DRIVER;
use crate::virtio_device::DEVICE_DRIVER_OK;
use crate::virtio_device::DEVICE_FAILED;
use crate::virtio_device::DEVICE_FEATURES_OK;
use std::sync::atomic::AtomicUsize;
use std::sync::Arc;
use vstd::prelude::*;

verus! {

/// Replaces the high 32 bits of `addr` by `x`.
pub fn hi(addr: u64, x: u32) -> (r: u64)
    ensures
        r == with_high(addr, x),
{
    assert((addr & 0xffff_ffff) | ((x as u64) << 32) == addr % 0x1_0000_0000 + x
        * 0x1_0000_0000) by (bit_vector);
    (addr & 0xffff_ffff) | ((x as u64) << 32)
}

/// Replaces the low 32 bits of `addr` by `x`.
pub fn lo(addr: u64, x: u32) -> (r: u64)
    ensures
        r == with_low(addr, x),
{
    assert((addr & !0xffff_ffffu64) | (x as u64) == addr / 0x1_0000_0000 * 0x1_0000_0000 + x)
        by (bit_vector);
    (addr & !0xffff_ffffu64) | (x as u64)
}

/// The queue `q` after `v` is written to its register at `offset`: the size
/// keeps the low 16 bits of `v`, the ready flag is set by the value one alone,
/// and an address register replaces one half of a ring's address.
pub fn write_queue_register(q: Queue, offset: u64, v: u32) -> (r: Queue)
    ensures
        r == queue_written(q, offset, v),
{
    if offset == 0x38 {
        assert(v & 0xffff == v % 0x1_0000) by (bit_vector);
        assert(v & 0xffff <= 0xffff) by (bit_vector);
        Queue { size: (v & 0xffff) as u16, ..q }
    } else if offset == 0x44 {
        Queue { ready: v == 1, ..q }
    } else if offset == 0x80 {
        Queue { desc_table: lo(q.desc_table, v), ..q }
    } else if offset == 0x84 {
        Queue { desc_table: hi(q.desc_table, v), ..q }
    } else if offset == 0x90 {
        Queue { avail_ring: lo(q.avail_ring, v), ..q }
    } else if offset == 0x94 {
        Queue { avail_ring: hi(q.avail_ring, v), ..q }
    } else if offset == 0xa0 {
        Queue { used_ring: lo(q.used_ring, v), ..q }
    } else if offset == 0xa4 {
        Queue { used_ring: hi(q.used_ring, v), ..q }
    } else {
        q
    }
}

/// What the register of a queue's largest size shows.
fn queue_max_size(q: &Queue) -> (r: u32)
    ensures
        r == q.max_size,
{
    q.max_size as u32
}

/// What the register of a queue's ready flag shows.
fn queue_ready(q: &Queue) -> (r: u32)
    ensures
        r == if q.ready { 1u32 } else { 0u32 },
{
    if q.ready {
        1
    } else {
        0
    }
}

/// Relates what a transport is constructed from, and the queue sizes `sizes`
/// that the device reported, to the outcome `r`: a failure with `EINVAL`
/// unless there is one endpoint for each queue, and else a transport in its
/// initial state, with a status word of its own.
pub open spec fn constructed<D: VirtioDevice>(
    mem: GuestMemory,
    device: D,
    sizes: Seq<u16>,
    queue_evts: Seq<EventFd>,
    interrupt_evt: EventFd,
    r: Result<MmioDevice<D>, Error>,
) -> bool {
    if queue_evts.len() != sizes.len() {
        r is Err && r->Err_0.code() == EINVAL
    } else {
        &&& r is Ok
        &&& r->Ok_0@ == MmioView::initial(
            device,
            sizes,
            r->Ok_0@.interrupt_status,
            interrupt_evt,
            queue_evts,
            mem,
        )
        &&& r->Ok_0@.wf()
    }
}

/// The virtio MMIO transport in front of the device backend `D`.
///
/// To work with a virtual machine, reads and writes of the guest at the
/// transport's addresses are sent to `read` and `write`, each endpoint of
/// `queue_evts` is signalled when the guest notifies the queue of its index,
/// and `interrupt_evt` raises the interrupt that the guest driver listens to.
pub struct MmioDevice<D: VirtioDevice> {
    device: D,
    device_activated: bool,
    features_select: u32,
    acked_features_select: u32,
    queue_select: u32,
    interrupt_status: Arc<AtomicUsize>,
    interrupt_evt: Option<EventFd>,
    driver_status: u32,
    config_generation: u32,
    queues: Vec<Queue>,
    queue_evts: Vec<EventFd>,
    mem: Option<GuestMemory>,
}

impl<D: VirtioDevice> View for MmioDevice<D> {
    type V = MmioView<D>;

    closed spec fn view(&self) -> MmioView<D> {
        MmioView {
            device: self.device,
            device_activated: self.device_activated,
            features_select: self.features_select,
            acked_features_select: self.acked_features_select,
            queue_select: self.queue_select,
            interrupt_status: self.interrupt_status,
            interrupt_evt: self.interrupt_evt,
            driver_status: self.driver_status,
            config_generation: self.config_generation,
            queues: self.queues@,
            queue_evts: self.queue_evts@,
            mem: self.mem,
        }
    }
}

impl<D: VirtioDevice> MmioDevice<D> {
    /// Constructs the transport for `device`, which starts with nothing
    /// selected, no status bit set and one queue of the largest size for each
    /// queue that the device reports. `queue_evts` holds the endpoint of each
    /// queue, in queue order, and `interrupt_evt` the endpoint for
    /// interrupts. Fails with `EINVAL` when there is not exactly one endpoint
    /// for each queue.
    pub fn new(
        mem: GuestMemory,
        device: D,
        queue_evts: Vec<EventFd>,
        interrupt_evt: EventFd,
    ) -> (r: Result<MmioDevice<D>, Error>)
        ensures
            exists|sizes: Seq<u16>| #[trigger]
                device.reports_max_sizes(sizes) && constructed(
                    mem,
                    device,
                    sizes,
                    queue_evts@,
                    interrupt_evt,
                    r,
                ),
    {
        let sizes = device.queue_max_sizes();
        let ghost reported = sizes@;
        if queue_evts.len() != sizes.len() {
            let r = Err(Error::new(EINVAL));
            assert(constructed(mem, device, reported, queue_evts@, interrupt_evt, r));
            return r;
        }
        let mut queues: Vec<Queue> = Vec::new();
        let mut i: usize = 0;
        while i < sizes.len()
            invariant
                i <= sizes.len(),
                queues@.len() == i,
                forall|j: int| 0 <= j < i ==> queues@[j] == Queue::fresh(sizes@[j]),
            decreases sizes.len() - i,
        {
            queues.push(Queue::new(sizes[i]));
            i += 1;
        }
        let transport = MmioDevice {
            device,
            device_activated: false,
            features_select: 0,
            acked_features_select: 0,
            queue_select: 0,
            interrupt_status: new_status(),
            interrupt_evt: Some(interrupt_evt),
            driver_status: 0,
            config_generation: 0,
            queues,
            queue_evts,
            mem: Some(mem),
        };
        assert(transport@.queues =~= MmioView::initial(
            device,
            reported,
            transport@.interrupt_status,
            interrupt_evt,
            queue_evts@,
            mem,
        ).queues);
        let r = Ok(transport);
        assert(constructed(mem, device, reported, queue_evts@, interrupt_evt, r));
        r
    }

    /// The endpoints that must be signalled when the guest notifies a queue:
    /// the one at the index that the guest wrote. Empty once the device is
    /// active.
    pub fn queue_evts(&self) -> (evts: &[EventFd])
        ensures
            evts@ == self@.queue_evts,
    {
        self.queue_evts.as_slice()
    }

    /// The endpoint through which the device interrupts the guest, until the
    /// device is active.
    pub fn interrupt_evt(&self) -> (evt: Option<&EventFd>)
        ensures
            evt == match self@.interrupt_evt {
                Some(e) => Some(&e),
                None => None,
            },
    {
        self.interrupt_evt.as_ref()
    }

    /// Whether the device has been activated.
    pub fn is_activated(&self) -> (b: bool)
        ensures
            b == self@.device_activated,
    {
        self.device_activated
    }

    /// True when the driver status is the one at which the device is
    /// activated: the four bits of a finished negotiation, and not the bit
    /// of a failure.
    fn is_driver_ready(&self) -> (b: bool)
        ensures
            b == self@.driver_ready(),
    {
        let ready_bits: u32 = DEVICE_ACKNOWLEDGE | DEVICE_DRIVER | DEVICE_DRIVER_OK | DEVICE_FEATURES_OK;
        assert(0x01u32 | 0x02u32 | 0x04u32 | 0x08u32 == 0x0f) by (bit_vector);
        assert(0x0fu32 & 0x80u32 == 0) by (bit_vector);
        self.driver_status == ready_bits && self.driver_status & DEVICE_FAILED == 0
    }

    /// True when the guest memory is still held and every queue is valid in
    /// it.
    fn are_queues_valid(&self) -> (b: bool)
        ensures
            b == self@.queues_valid(),
    {
        if let Some(mem) = self.mem.as_ref() {
            let mut i: usize = 0;
            while i < self.queues.len()
                invariant
                    i <= self.queues.len(),
                    self.mem == Some(*mem),
                    forall|j: int| 0 <= j < i ==> (#[trigger] self.queues@[j]).valid(mem@),
                decreases self.queues.len() - i,
            {
                if !self.queues[i].is_valid(mem) {
                    assert(!self@.queues[i as int].valid(self@.mem->0@));
                    return false;
                }
                i += 1;
            }
            true
        } else {
            false
        }
    }

    /// What `f` makes of the selected queue, or `d` when no queue is
    /// selected.
    fn with_queue<U, F: FnOnce(&Queue) -> U>(&self, d: U, f: F) -> (r: U)
        requires
            self@.queue_selected() ==> f.requires((&self@.queues[self@.queue_select as int],)),
        ensures
            self@.queue_selected() ==> f.ensures((&self@.queues[self@.queue_select as int],), r),
            !self@.queue_selected() ==> r == d,
    {
        let index: usize = self.queue_select as usize;
        if index < self.queues.len() {
            f(&self.queues[index])
        } else {
            d
        }
    }

    /// Writes `v` to the queue register at `offset` of the selected queue.
    /// Returns false, and does nothing, when no queue is selected.
    fn with_queue_mut(&mut self, offset: u64, v: u32) -> (changed: bool)
        requires
            is_queue_register(offset),
        ensures
            changed == old(self)@.queue_selected(),
            final(self)@ == old(self)@.staged(offset, v),
    {
        let index: usize = self.queue_select as usize;
        if index < self.queues.len() {
            let q = write_queue_register(self.queues[index], offset, v);
            self.queues[index] = q;
            true
        } else {
            false
        }
    }

    /// Hands the guest memory, the endpoints and a copy of the queues to the
    /// device if that is due, and latches the activation.
    fn activate_if_due(&mut self)
        ensures
            old(self)@.settles_to(final(self)@),
    {
        if !self.device_activated && self.is_driver_ready() && self.are_queues_valid() {
            if self.interrupt_evt.is_some() && self.mem.is_some() {
                let interrupt_evt = self.interrupt_evt.take().unwrap();
                let mem = self.mem.take().unwrap();
                let status = self.interrupt_status.clone();
                let queues = self.queues.clone();
                let queue_evts = self.queue_evts.split_off(0);
                assert(queues@ =~= self.queues@);
                assert(queue_evts@ =~= old(self)@.queue_evts);
                assert(self.queue_evts@ =~= Seq::empty());
                self.device.activate(mem, interrupt_evt, status, queues, queue_evts);
                self.device_activated = true;
            }
        }
    }

    /// Writes `v` to the register at `offset`, without the activation that
    /// may follow. Returns false for an offset that is no writable register.
    fn write_register(&mut self, offset: u64, v: u32) -> (known: bool)
        ensures
            known == is_writable_register(offset),
            offset == 0x20 ==> old(self)@.acks_to(v, final(self)@),
            offset != 0x20 ==> final(self)@ == old(self)@.staged(offset, v),
    {
        if offset == 0x14 {
            self.features_select = v;
        } else if offset == 0x20 {
            self.device.ack_features(self.acked_features_select, v);
        } else if offset == 0x24 {
            self.acked_features_select = v;
        } else if offset == 0x30 {
            self.queue_select = v;
        } else if offset == 0x64 {
            mask_status(&self.interrupt_status, ack_mask_for(v));
        } else if offset == 0x70 {
            self.driver_status = v;
        } else if offset == 0x38 || offset == 0x44 || offset == 0x80 || offset == 0x84 || offset
            == 0x90 || offset == 0x94 || offset == 0xa0 || offset == 0xa4 {
            self.with_queue_mut(offset, v);
        } else {
            return false;
        }
        true
    }

    /// Serves a write of the guest at `offset`, relative to the transport's
    /// base. Four bytes in the register window are decoded little-endian and
    /// written to the register; if the device is then to be activated, it
    /// is. A write in the configuration window is forwarded to the device.
    /// Every other write is ignored.
    pub fn write(&mut self, offset: u64, data: &[u8])
        ensures
            old(self)@.written(offset, data@, final(self)@),
            old(self)@.wf() ==> final(self)@.wf(),
    {
        if offset <= 0xff && data.len() == 4 {
            let v: u32 = read_le_u32(data);
            if self.write_register(offset, v) {
                let ghost mid = self@;
                self.activate_if_due();
                assert(mid.settles_to(self@));
            }
        } else if 0x100 <= offset && offset <= 0xfff {
            self.device.write_config(offset - 0x100, data);
        }
    }

    /// Serves a read of the guest at `offset`, relative to the transport's
    /// base. Four bytes in the register window get the register's value,
    /// little-endian. A read in the configuration window is forwarded to the
    /// device. Every other read leaves `data` as it was.
    pub fn read(&mut self, offset: u64, data: &mut [u8])
        ensures
            final(self)@ == old(self)@,
            old(self)@.reads(offset, old(data)@, final(data)@),
    {
        if offset <= 0xff && data.len() == 4 {
            let ghost mut bits: u32 = 0;
            let v: u32 = if offset == 0x00 {
                MMIO_MAGIC_VALUE
            } else if offset == 0x04 {
                MMIO_VERSION
            } else if offset == 0x08 {
                self.device.device_type()
            } else if offset == 0x0c {
                VENDOR_ID
            } else if offset == 0x10 {
                let reported: u32 = self.device.features(self.features_select);
                proof {
                    bits = reported;
                }
                reported | if self.features_select == 1 {
                    0x1
                } else {
                    0x0
                }
            } else if offset == 0x34 {
                self.with_queue(0, queue_max_size)
            } else if offset == 0x44 {
                self.with_queue(0, queue_ready)
            } else if offset == 0x60 {
                status_register(load_status(&self.interrupt_status))
            } else if offset == 0x70 {
                self.driver_status
            } else if offset == 0xfc {
                self.config_generation
            } else {
                return;
            };
            write_le_u32(data, v);
            proof {
                assert(data@ =~= le_bytes(v));
                lemma_le_value_of_bytes(v);
                if offset == 0x10 {
                    assert(self@.device.reports_features(self@.features_select, bits));
                }
            }
        } else if 0x100 <= offset && offset <= 0xfff {
            self.device.read_config(offset - 0x100, data);
        }
    }
}

} // verus!
