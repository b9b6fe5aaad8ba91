//! The control block of one virtqueue: where its three rings lie in guest
//! memory, how many entries it has, and whether the driver marked it ready.

use crate::guest_memory::span_backed;
use crate::guest_memory::GuestMemory;
use crate::guest_memory::MemoryRegion;
use vstd::arithmetic::power2::is_pow2;
use vstd::prelude::*;

verus! {

/// Bytes taken by a descriptor table of `size` entries.
pub open spec fn desc_table_len(size: u16) -> u64 {
    (16 * size) as u64
}

/// Bytes taken by an available ring of `size` entries.
pub open spec fn avail_ring_len(size: u16) -> u64 {
    (6 + 2 * size) as u64
}

/// Bytes taken by a used ring of `size` entries.
pub open spec fn used_ring_len(size: u16) -> u64 {
    (6 + 8 * size) as u64
}

/// True when a ring may start at `addr`: the address is not zero, it is a
/// multiple of `align`, and the `len` bytes from it are backed.
pub open spec fn ring_placed(regions: Seq<MemoryRegion>, addr: u64, align: u64, len: u64) -> bool {
    &&& addr != 0
    &&& addr % align == 0
    &&& span_backed(regions, addr, len)
}

/// A virtqueue as the driver configured it.
#[derive(Clone, Copy, Debug, PartialEq, Eq, Structural)]
pub struct Queue {
    /// The largest size the device accepts for this queue.
    pub max_size: u16,
    /// The size the driver chose.
    pub size: u16,
    /// Whether the driver marked the queue ready.
    pub ready: bool,
    /// Guest address of the descriptor table.
    pub desc_table: u64,
    /// Guest address of the available ring.
    pub avail_ring: u64,
    /// Guest address of the used ring.
    pub used_ring: u64,
}

impl Queue {
    /// The queue before the driver touched it.
    pub open spec fn fresh(max_size: u16) -> Queue {
        Queue { max_size, size: max_size, ready: false, desc_table: 0, avail_ring: 0, used_ring: 0 }
    }

    /// True when the device can use the queue: its size is a power of two no
    /// larger than `max_size`, and each ring starts at a nonzero, naturally
    /// aligned address and lies in backed memory.
    pub open spec fn valid(self, regions: Seq<MemoryRegion>) -> bool {
        &&& is_pow2(self.size as int)
        &&& self.size <= self.max_size
        &&& ring_placed(regions, self.desc_table, 16, desc_table_len(self.size))
        &&& ring_placed(regions, self.avail_ring, 2, avail_ring_len(self.size))
        &&& ring_placed(regions, self.used_ring, 4, used_ring_len(self.size))
    }

    /// Constructs a queue that is not ready, of size `max_size`, with no ring
    /// placed.
    pub fn new(max_size: u16) -> (q: Queue)
        ensures
            q == Queue::fresh(max_size),
    {
        Queue { max_size, size: max_size, ready: false, desc_table: 0, avail_ring: 0, used_ring: 0 }
    }

    /// Decides whether the queue is valid in the guest memory `mem`.
    pub fn is_valid(&self, mem: &GuestMemory) -> (b: bool)
        ensures
            b == self.valid(mem@),
    {
        let size: u16 = self.size;
        proof {
            lemma_pow2_by_bits(size);
        }
        if size == 0 || size > self.max_size || (size & (size - 1)) != 0 {
            return false;
        }
        let entries: u64 = size as u64;
        ring_is_placed(mem, self.desc_table, 16, 16 * entries)
            && ring_is_placed(mem, self.avail_ring, 2, 6 + 2 * entries)
            && ring_is_placed(mem, self.used_ring, 4, 6 + 8 * entries)
    }
}

/// Decides `ring_placed` for a ring in `mem`.
fn ring_is_placed(mem: &GuestMemory, addr: u64, align: u64, len: u64) -> (b: bool)
    requires
        align > 0,
    ensures
        b == ring_placed(mem@, addr, align, len),
{
    addr != 0 && addr % align == 0 && mem.is_valid_range(addr, len)
}

/// A nonzero 16-bit number is a power of two exactly when it shares no bit
/// with its predecessor.
pub proof fn lemma_pow2_by_bits(size: u16)
    ensures
        is_pow2(size as int) <==> size != 0 && size & ((size - 1) as u16) == 0,
{
    reveal_with_fuel(is_pow2, 18);
    if size != 0 {
        assert(size & ((size - 1) as u16) == 0 <==> (size == 1 || size == 2 || size == 4 || size == 8
            || size == 16 || size == 32 || size == 64 || size == 128 || size == 256 || size == 512
            || size == 1024 || size == 2048 || size == 4096 || size == 8192 || size == 16384 || size
            == 32768)) by (bit_vector)
            requires
                size != 0,
        ;
    }
}

} // verus!
