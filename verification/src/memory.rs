//! Virtual address allocation for MMIO and code mappings.
//!
//! The mapper hands out virtual ranges above `MMIO_VIRT_BASE`, one guard
//! page apart, and lists the page/frame pairs that the caller enters into
//! the page tables (uncached for MMIO, cached and executable for code).
use vstd::prelude::*;

verus! {

/// Start of the virtual range used for MMIO and code mappings.
pub const MMIO_VIRT_BASE: u64 = 0x4000_0000_0000;

/// Size of one page.
pub const PAGE_SIZE: u64 = 0x1000;

/// Page-table entry flags of device-register pages: present, writable,
/// caching disabled (bits 0, 1 and 4).
pub const MMIO_PAGE_FLAGS: u64 = 0x13;

/// Page-table entry flags of code pages: present and writable, cached and
/// executable.
pub const CODE_PAGE_FLAGS: u64 = 0x3;

/// Handle for a mapped MMIO region.
///
/// Plain data handle (vaddr, size) — not an owner. Mirrors `DmaRegion`.
/// The caller is responsible for unmapping the region when it is no
/// longer needed.
#[derive(Debug, Clone, Copy, PartialEq, Eq, Structural)]
pub struct MmioMapping {
    pub vaddr: usize,
    pub size: u64,
}

impl MmioMapping {
    /// Virtual address of the mapped region.
    pub fn vaddr(&self) -> (v: usize)
        ensures
            v == self.vaddr,
    {
        self.vaddr
    }

    /// Size of the mapped region in bytes.
    pub fn size(&self) -> (s: u64)
        ensures
            s == self.size,
    {
        self.size
    }

    /// Number of 4 KiB pages the mapping spans.
    pub fn page_count(&self) -> (n: u64)
        ensures
            n == pages_for(self.size as int),
    {
        page_count(self.size)
    }
}

/// Number of 4 KiB pages needed for `size` bytes.
pub open spec fn pages_for(size: int) -> int {
    (size + 4095) / 4096
}

/// Number of 4 KiB pages needed for `size` bytes.
pub fn page_count(size: u64) -> (n: u64)
    ensures
        n == pages_for(size as int),
{
    size / PAGE_SIZE + if size % PAGE_SIZE == 0 {
        0
    } else {
        1
    }
}

/// Where the mapper's cursor stands after a mapping of `size` bytes that
/// started at `next`: past its pages and one guard page.
pub open spec fn next_after(next: int, size: int) -> int {
    next + (pages_for(size) + 1) * 4096
}

/// Start of the 4 KiB page holding address `a`.
pub open spec fn page_base(a: int) -> int {
    a / 4096 * 4096
}

/// Physical memory mapper for MMIO and virtual/physical address translation.
///
/// `next_vaddr` is where the next mapping starts; each mapping is
/// followed by one unmapped guard page.
pub struct MemoryMapper {
    pub phys_offset: u64,
    pub kernel_offset: u64,
    pub next_vaddr: u64,
}

/// One page-table entry to create: virtual page, physical frame.
#[derive(Debug, Clone, Copy, PartialEq, Eq, Structural)]
pub struct PageFrame {
    pub page: u64,
    pub frame: u64,
}

impl MemoryMapper {
    /// Create a new memory mapper with bootloader-provided offsets.
    pub fn new(phys_offset: u64, kernel_offset: u64) -> (m: Self)
        ensures
            m.phys_offset == phys_offset,
            m.kernel_offset == kernel_offset,
            m.next_vaddr == MMIO_VIRT_BASE,
    {
        MemoryMapper { phys_offset, kernel_offset, next_vaddr: MMIO_VIRT_BASE }
    }

    /// Bootloader's physical memory mapping offset.
    pub fn phys_offset(&self) -> (o: u64)
        ensures
            o == self.phys_offset,
    {
        self.phys_offset
    }

    /// Kernel virtual-to-physical address offset.
    pub fn kernel_offset(&self) -> (o: u64)
        ensures
            o == self.kernel_offset,
    {
        self.kernel_offset
    }

    /// The virtual range of the next mapping of `size` bytes fits.
    pub open spec fn can_reserve(&self, size: u64) -> bool {
        next_after(self.next_vaddr as int, size as int) <= u64::MAX && self.next_vaddr <= usize::MAX
    }

    /// Reserve the virtual range of a mapping of `size` bytes: it starts at
    /// the cursor, which moves past its pages and one guard page.
    pub fn reserve(&mut self, size: u64) -> (m: MmioMapping)
        requires
            old(self).can_reserve(size),
        ensures
            m.vaddr == old(self).next_vaddr,
            m.size == size,
            final(self).next_vaddr == next_after(old(self).next_vaddr as int, size as int),
            final(self).phys_offset == old(self).phys_offset,
            final(self).kernel_offset == old(self).kernel_offset,
    {
        let virt_base = self.next_vaddr;
        let num_pages = page_count(size);
        self.next_vaddr = virt_base + (num_pages + 1) * PAGE_SIZE;
        MmioMapping { vaddr: virt_base as usize, size }
    }

    /// Plan the mapping of the physical region at `phys_base` of `size`
    /// bytes: its virtual range, and the page/frame pairs to enter, one
    /// per 4 KiB page, in order, each address taken down to the start of
    /// its page.
    pub fn map_mmio(&mut self, phys_base: u64, size: u64) -> (r: (MmioMapping, Vec<PageFrame>))
        requires
            old(self).can_reserve(size),
            phys_base + pages_for(size as int) * 4096 <= u64::MAX,
        ensures
            r.0.vaddr == old(self).next_vaddr,
            r.0.size == size,
            final(self).next_vaddr == next_after(old(self).next_vaddr as int, size as int),
            final(self).phys_offset == old(self).phys_offset,
            final(self).kernel_offset == old(self).kernel_offset,
            r.1@.len() == pages_for(size as int),
            forall|i: int|
                0 <= i < r.1@.len() ==> #[trigger] r.1@[i] == (PageFrame {
                    page: page_base(old(self).next_vaddr + i * 4096) as u64,
                    frame: page_base(phys_base + i * 4096) as u64,
                }),
    {
        let virt_base = self.next_vaddr;
        let m = self.reserve(size);
        let num_pages = page_count(size);
        let mut pages: Vec<PageFrame> = Vec::new();
        let mut i: u64 = 0;
        while i < num_pages
            invariant
                i <= num_pages,
                num_pages == pages_for(size as int),
                virt_base + (num_pages + 1) * 4096 <= u64::MAX,
                phys_base + num_pages * 4096 <= u64::MAX,
                pages@.len() == i,
                forall|k: int|
                    0 <= k < i ==> #[trigger] pages@[k] == (PageFrame {
                        page: page_base(virt_base + k * 4096) as u64,
                        frame: page_base(phys_base + k * 4096) as u64,
                    }),
            decreases num_pages - i,
        {
            proof {
                assert(i * 4096 <= num_pages * 4096) by (nonlinear_arith)
                    requires
                        i <= num_pages,
                ;
            }
            pages.push(
                PageFrame {
                    page: (virt_base + i * PAGE_SIZE) / PAGE_SIZE * PAGE_SIZE,
                    frame: (phys_base + i * PAGE_SIZE) / PAGE_SIZE * PAGE_SIZE,
                },
            );
            i = i + 1;
        }
        (m, pages)
    }

    /// Plan the mapping of a physical region as executable code pages
    /// (cached, executable): same address allocation as `map_mmio`.
    pub fn map_code(&mut self, phys_base: u64, size: u64) -> (r: (MmioMapping, Vec<PageFrame>))
        requires
            old(self).can_reserve(size),
            phys_base + pages_for(size as int) * 4096 <= u64::MAX,
        ensures
            r.0.vaddr == old(self).next_vaddr,
            r.0.size == size,
            final(self).next_vaddr == next_after(old(self).next_vaddr as int, size as int),
            final(self).phys_offset == old(self).phys_offset,
            final(self).kernel_offset == old(self).kernel_offset,
            r.1@.len() == pages_for(size as int),
            forall|i: int|
                0 <= i < r.1@.len() ==> #[trigger] r.1@[i] == (PageFrame {
                    page: page_base(old(self).next_vaddr + i * 4096) as u64,
                    frame: page_base(phys_base + i * 4096) as u64,
                }),
    {
        self.map_mmio(phys_base, size)
    }

    /// Plan the unmapping of a previously mapped region: the virtual
    /// pages whose entries are removed (and flushed), one per 4 KiB page
    /// of its size, in order from its start.
    pub fn unmap_mmio(&self, mapping: &MmioMapping) -> (pages: Vec<u64>)
        requires
            mapping.vaddr + pages_for(mapping.size as int) * 4096 <= u64::MAX,
        ensures
            pages@.len() == pages_for(mapping.size as int),
            forall|i: int| 0 <= i < pages@.len() ==> #[trigger] pages@[i] == page_base(mapping.vaddr + i * 4096),
    {
        let num_pages = page_count(mapping.size);
        let base = mapping.vaddr as u64;
        let mut pages: Vec<u64> = Vec::new();
        let mut i: u64 = 0;
        while i < num_pages
            invariant
                i <= num_pages,
                num_pages == pages_for(mapping.size as int),
                base == mapping.vaddr,
                base + num_pages * 4096 <= u64::MAX,
                pages@.len() == i,
                forall|k: int| 0 <= k < i ==> #[trigger] pages@[k] == page_base(base + k * 4096),
            decreases num_pages - i,
        {
            proof {
                assert(i * 4096 <= num_pages * 4096) by (nonlinear_arith)
                    requires
                        i <= num_pages,
                ;
            }
            pages.push((base + i * PAGE_SIZE) / PAGE_SIZE * PAGE_SIZE);
            i = i + 1;
        }
        pages
    }

    /// Physical address of a page the kernel heap handed out at virtual
    /// address `ptr` (for page-table frames).
    pub fn frame_paddr(&self, ptr: u64) -> (p: u64)
        requires
            ptr >= self.kernel_offset,
        ensures
            p == ptr - self.kernel_offset,
    {
        ptr - self.kernel_offset
    }
}

/// Mappings handed out one after another by a mapper never overlap: the
/// first of a fresh mapper starts at [`MMIO_VIRT_BASE`], each starts on a
/// page boundary, and the next one starts right after the pages of the one
/// before and one unmapped guard page (as long as the virtual range does
/// not run past the top of the address space).
pub proof fn lemma_mappings_disjoint(start: u64, size1: u64, size2: u64)
    requires
        start % 4096 == 0,
        next_after(next_after(start as int, size1 as int), size2 as int) <= u64::MAX,
    ensures
        MMIO_VIRT_BASE % 4096 == 0,
        ({
            let second = next_after(start as int, size1 as int);
            &&& second % 4096 == 0
            &&& second == start + (pages_for(size1 as int) + 1) * 4096
            &&& start + size1 <= start + pages_for(size1 as int) * 4096
            &&& start + pages_for(size1 as int) * 4096 + 4096 == second
            &&& second + size2 < next_after(second, size2 as int)
        }),
{
    assert(pages_for(size1 as int) * 4096 >= size1) by (nonlinear_arith)
        requires
            size1 >= 0,
    {
        assert((size1 + 4095) / 4096 * 4096 > size1 + 4095 - 4096);
    }
    assert(pages_for(size2 as int) * 4096 >= size2) by (nonlinear_arith)
        requires
            size2 >= 0,
    {
        assert((size2 + 4095) / 4096 * 4096 > size2 + 4095 - 4096);
    }
    assert((start + (pages_for(size1 as int) + 1) * 4096) % 4096 == 0) by (nonlinear_arith)
        requires
            start % 4096 == 0,
            pages_for(size1 as int) >= 0,
    ;
}

} // verus!
