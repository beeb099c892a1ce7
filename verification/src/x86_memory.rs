//! Virtual address allocation for MMIO mappings (single-purpose mapper).
//!
//! Hands out virtual ranges above `MMIO_VIRT_BASE`, one guard page apart;
//! the caller enters the uncached page-table entries.
use vstd::prelude::*;
use crate::memory::{next_after, page_base, pages_for, PageFrame, MMIO_VIRT_BASE};

verus! {

/// Physical memory mapper for MMIO.
pub struct MemoryMapper {
    pub phys_offset: u64,
    pub kernel_offset: u64,
    pub next_vaddr: u64,
}

impl MemoryMapper {
    /// Create a new memory mapper with bootloader-provided offsets.
    pub fn new(phys_offset: u64, kernel_offset: u64) -> (m: Self)
        ensures
            m.phys_offset == phys_offset,
            m.kernel_offset == kernel_offset,
            m.next_vaddr == MMIO_VIRT_BASE,
    {
        MemoryMapper { phys_offset, kernel_offset, next_vaddr: MMIO_VIRT_BASE }
    }

    /// Bootloader's physical memory mapping offset.
    pub fn phys_offset(&self) -> (o: u64)
        ensures
            o == self.phys_offset,
    {
        self.phys_offset
    }

    /// Kernel virtual-to-physical address offset.
    pub fn kernel_offset(&self) -> (o: u64)
        ensures
            o == self.kernel_offset,
    {
        self.kernel_offset
    }

    /// Plan the uncached mapping of `size` bytes at `phys_base`: returns
    /// the virtual address and the page/frame pairs, one per 4 KiB page;
    /// the cursor moves past the mapping and one guard page.
    pub fn map_mmio(&mut self, phys_base: u64, size: u64) -> (r: (usize, Vec<PageFrame>))
        requires
            next_after(old(self).next_vaddr as int, size as int) <= u64::MAX,
            old(self).next_vaddr <= usize::MAX,
            phys_base + pages_for(size as int) * 4096 <= u64::MAX,
        ensures
            r.0 == old(self).next_vaddr,
            final(self).next_vaddr == next_after(old(self).next_vaddr as int, size as int),
            final(self).phys_offset == old(self).phys_offset,
            final(self).kernel_offset == old(self).kernel_offset,
            r.1@.len() == pages_for(size as int),
            forall|i: int|
                0 <= i < r.1@.len() ==> #[trigger] r.1@[i] == (PageFrame {
                    page: page_base(old(self).next_vaddr + i * 4096) as u64,
                    frame: page_base(phys_base + i * 4096) as u64,
                }),
    {
        let mut m = crate::memory::MemoryMapper {
            phys_offset: self.phys_offset,
            kernel_offset: self.kernel_offset,
            next_vaddr: self.next_vaddr,
        };
        let (mapping, pages) = m.map_mmio(phys_base, size);
        self.next_vaddr = m.next_vaddr;
        (mapping.vaddr, pages)
    }
}

} // verus!
