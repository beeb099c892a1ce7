//! DMA address bookkeeping for bootloader offset-mapped memory.
//!
//! Kernel heap addresses are turned into physical addresses by removing
//! the kernel offset; the CPU then reaches the memory through the
//! bootloader's physical-memory mapping (physical address plus the
//! physical offset), so CPU reads are coherent with device writes.
use vstd::prelude::*;
use crate::dma::DmaRegion;

verus! {

/// DMA allocator for x86_64 with bootloader offset-mapped memory.
#[derive(Debug, Clone, Copy, PartialEq, Eq, Structural)]
pub struct BootDmaAllocator {
    /// Offset to convert kernel virtual addresses to physical:
    ///   paddr = kernel_vaddr - kernel_offset
    pub kernel_offset: u64,
    /// Bootloader's physical memory offset:
    ///   phys_mem_vaddr = paddr + phys_offset
    pub phys_offset: u64,
}

impl BootDmaAllocator {
    /// The region for `size` bytes the heap handed out at `heap_vaddr`.
    pub fn region_for(&self, heap_vaddr: usize, size: usize) -> (r: DmaRegion)
        requires
            heap_vaddr >= self.kernel_offset,
            heap_vaddr - self.kernel_offset + self.phys_offset <= usize::MAX,
        ensures
            r.paddr == heap_vaddr - self.kernel_offset,
            r.vaddr == r.paddr + self.phys_offset,
            r.size == size,
    {
        let paddr = heap_vaddr - self.kernel_offset as usize;
        let vaddr = paddr + self.phys_offset as usize;
        DmaRegion { vaddr, paddr, size }
    }

    /// Heap address of a region handed out by `region_for`, for freeing it.
    pub fn heap_addr(&self, region: &DmaRegion) -> (a: usize)
        requires
            region.vaddr >= self.phys_offset,
            region.vaddr - self.phys_offset + self.kernel_offset <= usize::MAX,
        ensures
            a == region.vaddr - self.phys_offset + self.kernel_offset,
    {
        let paddr = region.vaddr - self.phys_offset as usize;
        paddr + self.kernel_offset as usize
    }
}

/// Freeing a region gives back exactly the heap address it came from.
pub proof fn lemma_region_heap_roundtrip(kernel_offset: u64, phys_offset: u64, heap_vaddr: int)
    requires
        heap_vaddr >= kernel_offset,
    ensures
        ({
            let paddr = heap_vaddr - kernel_offset;
            let vaddr = paddr + phys_offset;
            vaddr - phys_offset + kernel_offset == heap_vaddr
        }),
{
}

/// Driver-side DMA memory provider for the `e1000_driver` crate, with the
/// same address translation as [`BootDmaAllocator`].
#[derive(Debug, Clone, Copy, PartialEq, Eq, Structural)]
pub struct Kernfn {
    pub kernel_offset: u64,
    pub phys_offset: u64,
}

/// Page size the driver allocates in.
pub const KERNFN_PAGE_SIZE: usize = 4096;

impl Kernfn {
    /// Bytes of `pages` pages.
    pub fn dma_bytes(&self, pages: usize) -> (n: usize)
        requires
            pages * 4096 <= usize::MAX,
        ensures
            n == pages * 4096,
    {
        pages * KERNFN_PAGE_SIZE
    }

    /// (virtual, physical) address pair of the memory the heap handed out
    /// at `heap_vaddr`.
    pub fn dma_alloc_coherent(&self, heap_vaddr: usize) -> (r: (usize, usize))
        requires
            heap_vaddr >= self.kernel_offset,
            heap_vaddr - self.kernel_offset + self.phys_offset <= usize::MAX,
        ensures
            r.1 == heap_vaddr - self.kernel_offset,
            r.0 == r.1 + self.phys_offset,
    {
        let paddr = heap_vaddr - self.kernel_offset as usize;
        (paddr + self.phys_offset as usize, paddr)
    }

    /// Heap address of memory handed out at virtual address `vaddr`.
    pub fn dma_free_coherent(&self, vaddr: usize) -> (a: usize)
        requires
            vaddr >= self.phys_offset,
            vaddr - self.phys_offset + self.kernel_offset <= usize::MAX,
        ensures
            a == vaddr - self.phys_offset + self.kernel_offset,
    {
        let paddr = vaddr - self.phys_offset as usize;
        paddr + self.kernel_offset as usize
    }
}

/// One entry of the firmware's memory map, by its plain values.
#[derive(Debug, Clone, Copy, PartialEq, Eq, Structural)]
pub struct MemoryRegion {
    pub base: u64,
    pub length: u64,
    pub usable: bool,
}

/// Highest physical address a 32-bit DMA device can reach.
pub const DMA_LIMIT: u64 = 0xFFFF_FFFF;

/// A region the DMA pool may use: usable memory that ends at or below 4 GiB.
pub open spec fn dma_candidate(r: MemoryRegion) -> bool {
    r.usable && r.base + r.length <= DMA_LIMIT
}

/// Region picked among the first `n` entries: the longest candidate, the
/// first one of that length winning; `None` when no candidate has any length.
pub open spec fn best_upto(rs: Seq<MemoryRegion>, n: int) -> Option<int>
    decreases n,
{
    if n <= 0 {
        None
    } else {
        let prev = best_upto(rs, n - 1);
        let best_len = match prev {
            Some(i) => rs[i].length as int,
            None => 0,
        };
        if dma_candidate(rs[n - 1]) && rs[n - 1].length > best_len {
            Some(n - 1)
        } else {
            prev
        }
    }
}

/// The region of the memory map the DMA pool is carved from.
pub fn pick_dma_region(rs: &[MemoryRegion]) -> (r: Option<MemoryRegion>)
    ensures
        r == match best_upto(rs@, rs@.len() as int) {
            Some(i) => Some(rs@[i]),
            None => None,
        },
{
    let mut best: Option<usize> = None;
    let mut best_len: u64 = 0;
    let mut k: usize = 0;
    while k < rs.len()
        invariant
            k <= rs@.len(),
            best == match best_upto(rs@, k as int) {
                Some(i) => Some(i as usize),
                None => None::<usize>,
            },
            best_upto(rs@, k as int) matches Some(i) ==> 0 <= i < k && best_len == rs@[i].length,
            best_upto(rs@, k as int) is None ==> best_len == 0,
        decreases rs@.len() - k,
    {
        let r = rs[k];
        if r.usable && r.base <= DMA_LIMIT && r.length <= DMA_LIMIT - r.base && r.length > best_len {
            best = Some(k);
            best_len = r.length;
        }
        k = k + 1;
    }
    match best {
        Some(i) => Some(rs[i]),
        None => None,
    }
}

/// The picked region is a candidate with some length, and no candidate
/// of the map is longer.
pub proof fn lemma_pick_is_longest(rs: Seq<MemoryRegion>, n: int)
    requires
        0 <= n <= rs.len(),
    ensures
        best_upto(rs, n) matches Some(i) ==> 0 <= i < n && dma_candidate(rs[i]) && rs[i].length > 0,
        forall|j: int|
            0 <= j < n && dma_candidate(#[trigger] rs[j]) && rs[j].length > 0 ==> (best_upto(rs, n) matches Some(i)
                && rs[j].length <= rs[i].length),
    decreases n,
{
    if n > 0 {
        lemma_pick_is_longest(rs, n - 1);
    }
}

} // verus!
