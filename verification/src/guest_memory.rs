//! The layout of the guest's physical address space: which spans of guest
//! addresses are backed by memory.

use vstd::prelude::*;

verus! {

/// One contiguous stretch of backed guest addresses.
#[derive(Clone, Copy, Debug, PartialEq, Eq, Structural)]
pub struct MemoryRegion {
    /// The first guest address of the region.
    pub guest_base: u64,
    /// The number of bytes in the region.
    pub size: u64,
}

impl MemoryRegion {
    /// True when the `len` bytes that start at `addr` all lie in the region.
    pub open spec fn holds(self, addr: u64, len: u64) -> bool {
        self.guest_base <= addr && addr + len <= self.guest_base + self.size
    }

    /// Decides `holds` without leaving the 64-bit range.
    pub fn contains_span(&self, addr: u64, len: u64) -> (b: bool)
        ensures
            b == self.holds(addr, len),
    {
        addr >= self.guest_base && len <= self.size && addr - self.guest_base <= self.size - len
    }
}

/// True when one of `regions` holds the whole span.
pub open spec fn span_backed(regions: Seq<MemoryRegion>, addr: u64, len: u64) -> bool {
    exists|i: int| 0 <= i < regions.len() && (#[trigger] regions[i]).holds(addr, len)
}

/// A handle on the guest's memory, as far as the transport looks into it: the
/// regions that are backed.
pub struct GuestMemory {
    regions: Vec<MemoryRegion>,
}

impl View for GuestMemory {
    type V = Seq<MemoryRegion>;

    closed spec fn view(&self) -> Seq<MemoryRegion> {
        self.regions@
    }
}

impl GuestMemory {
    /// A guest memory made of the given regions.
    pub fn new(regions: Vec<MemoryRegion>) -> (mem: GuestMemory)
        ensures
            mem@ == regions@,
    {
        GuestMemory { regions }
    }

    /// The number of regions.
    pub fn num_regions(&self) -> (n: usize)
        ensures
            n == self@.len(),
    {
        self.regions.len()
    }

    /// True when the `len` bytes that start at `addr` are backed by one
    /// region.
    pub fn is_valid_range(&self, addr: u64, len: u64) -> (b: bool)
        ensures
            b == span_backed(self@, addr, len),
    {
        let mut i: usize = 0;
        while i < self.regions.len()
            invariant
                i <= self.regions.len(),
                forall|j: int| 0 <= j < i ==> !(#[trigger] self.regions@[j]).holds(addr, len),
            decreases self.regions.len() - i,
        {
            if self.regions[i].contains_span(addr, len) {
                return true;
            }
            i += 1;
        }
        false
    }
}

} // verus!
