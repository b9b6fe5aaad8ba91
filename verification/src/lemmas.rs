//! What holds of every transport, whatever the guest writes.

use crate::endian::lemma_le_bytes_of_value;
use crate::registers::is_queue_register;
use crate::registers::MmioView;
use crate::virtio_device::VirtioDevice;
use vstd::prelude::*;

verus! {

/// No register access needs a queue to be selected. While the selected index
/// names no queue, a write to a queue register changes nothing, and the
/// registers that show the selected queue read as zero.
pub proof fn lemma_unselected_queue_is_inert<D: VirtioDevice>(s: MmioView<D>, offset: u64, v: u32)
    requires
        !s.queue_selected(),
        is_queue_register(offset),
    ensures
        s.staged(offset, v) == s,
        forall|r: u32| s.shows(0x34, r) <==> r == 0,
        forall|r: u32| s.shows(0x44, r) <==> r == 0,
{
}

/// Until the device is activated there is one endpoint for each queue, and
/// the guest memory and the interrupt endpoint are held. Afterwards no
/// endpoint is left, and neither the guest memory nor the interrupt endpoint.
pub proof fn lemma_resources_follow_activation<D: VirtioDevice>(s: MmioView<D>)
    requires
        s.wf(),
    ensures
        !s.device_activated ==> s.queue_evts.len() == s.queues.len() && s.mem is Some
            && s.interrupt_evt is Some,
        s.device_activated ==> s.queue_evts.len() == 0 && s.mem is None && s.interrupt_evt is None,
{
}

/// Every write keeps the invariant, the number of queues and the largest
/// size of each queue.
pub proof fn lemma_write_keeps_invariant<D: VirtioDevice>(
    pre: MmioView<D>,
    offset: u64,
    data: Seq<u8>,
    post: MmioView<D>,
)
    requires
        pre.wf(),
        pre.written(offset, data, post),
    ensures
        post.wf(),
        post.queues.len() == pre.queues.len(),
        forall|i: int|
            0 <= i < pre.queues.len() ==> (#[trigger] post.queues[i]).max_size
                == pre.queues[i].max_size,
        post.interrupt_status == pre.interrupt_status,
        post.config_generation == pre.config_generation,
{
}

/// Activation is a latch: no write takes it back, and once the device is
/// active a register write leaves it alone, but for the acknowledgement of
/// features. The write that activates the device is one that leaves the
/// driver ready, and it hands over everything at once.
pub proof fn lemma_activation_latches<D: VirtioDevice>(
    pre: MmioView<D>,
    offset: u64,
    data: Seq<u8>,
    post: MmioView<D>,
)
    requires
        pre.written(offset, data, post),
    ensures
        pre.device_activated ==> post.device_activated,
        pre.device_activated && offset <= 0xff && offset != 0x20 ==> post.device == pre.device,
        !pre.device_activated && post.device_activated ==> post.mem is None && post.interrupt_evt
            is None && post.queue_evts.len() == 0 && post.driver_ready(),
{
}

/// The acknowledgement of features never activates the device: it only
/// passes the accepted bits on.
pub proof fn lemma_ack_never_activates<D: VirtioDevice>(pre: MmioView<D>, v: u32, post: MmioView<D>)
    requires
        pre.wf(),
        pre.register_written(0x20, v, post),
    ensures
        pre.acks_to(v, post),
{
}

/// The driver status reads back as it was written.
pub proof fn lemma_status_reads_back<D: VirtioDevice>(pre: MmioView<D>, v: u32, post: MmioView<D>)
    requires
        pre.register_written(0x70, v, post),
    ensures
        forall|r: u32| post.shows(0x70, r) <==> r == v,
{
}

/// The four bytes written as the driver status are the four bytes that a
/// read of the driver status returns afterwards.
pub proof fn lemma_status_bytes_read_back<D: VirtioDevice>(
    pre: MmioView<D>,
    data: Seq<u8>,
    post: MmioView<D>,
    before: Seq<u8>,
    after: Seq<u8>,
)
    requires
        data.len() == 4,
        before.len() == 4,
        pre.written(0x70, data, post),
        post.reads(0x70, before, after),
    ensures
        after == data,
{
    lemma_le_bytes_of_value(data);
    lemma_le_bytes_of_value(after);
}

/// The ready flag of the selected queue reads back as one when one was
/// written, and as zero when anything else was.
pub proof fn lemma_ready_reads_back<D: VirtioDevice>(pre: MmioView<D>, v: u32, post: MmioView<D>)
    requires
        pre.queue_selected(),
        pre.register_written(0x44, v, post),
    ensures
        forall|r: u32| post.shows(0x44, r) <==> r == if v == 1 { 1u32 } else { 0u32 },
{
}

/// After a queue is selected, the register of the largest queue size shows
/// that of the selected queue, or zero when the index names no queue.
pub proof fn lemma_selected_queue_shows<D: VirtioDevice>(pre: MmioView<D>, v: u32, post: MmioView<D>)
    requires
        pre.wf(),
        pre.register_written(0x30, v, post),
    ensures
        forall|r: u32|
            post.shows(0x34, r) <==> r == if v < pre.queues.len() {
                pre.queues[v as int].max_size as u32
            } else {
                0u32
            },
{
}

/// Writing zero as the driver status is accepted, and leaves the activation
/// as it was.
pub proof fn lemma_zero_status_keeps_activation<D: VirtioDevice>(pre: MmioView<D>, post: MmioView<D>)
    requires
        pre.register_written(0x70, 0, post),
    ensures
        post.driver_status == 0,
        post.device_activated == pre.device_activated,
        post == (MmioView { driver_status: 0, ..pre }),
{
}

/// After the feature window `page` is selected, the feature register shows
/// the device's features in that window, and in window one also the bit that
/// stands for this version of the transport.
pub proof fn lemma_feature_window_shows<D: VirtioDevice>(
    pre: MmioView<D>,
    page: u32,
    post: MmioView<D>,
)
    requires
        pre.wf(),
        pre.register_written(0x14, page, post),
    ensures
        forall|r: u32|
            post.shows(0x10, r) <==> exists|bits: u32| #[trigger]
                pre.device.reports_features(page, bits) && r == bits | if page == 1 {
                    1u32
                } else {
                    0u32
                },
{
}

} // verus!
