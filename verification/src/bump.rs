//! Bump allocation over a fixed heap area.
use vstd::prelude::*;

verus! {

/// Heap size of the bump allocator: 4 MiB.
pub const BUMP_HEAP_SIZE: usize = 4 * 1024 * 1024;

/// Bump allocator state: the heap area and how much of it is used.
pub struct BumpAlloc {
    pub heap_base: usize,
    pub heap_size: usize,
    pub offset: usize,
}

/// `align` is a power of two.
pub open spec fn is_pow2(align: usize) -> bool {
    align > 0 && align & ((align - 1) as usize) == 0
}

/// Address `addr` rounded up to a multiple of `align`.
pub open spec fn align_up(addr: usize, align: usize) -> usize {
    ((addr + align - 1) as usize) & !((align - 1) as usize)
}

impl BumpAlloc {
    /// Allocator over `heap_size` bytes at `heap_base`, nothing used.
    pub fn new(heap_base: usize, heap_size: usize) -> (b: Self)
        ensures
            b.heap_base == heap_base,
            b.heap_size == heap_size,
            b.offset == 0,
    {
        BumpAlloc { heap_base, heap_size, offset: 0 }
    }

    /// Allocate `size` bytes aligned to `align`: the next free address
    /// rounded up to the alignment, if the block fits in the heap (the
    /// used part then ends after the block); `None` when it does not fit.
    pub fn allocate(&mut self, size: usize, align: usize) -> (r: Option<usize>)
        requires
            align > 0,
            old(self).heap_base + old(self).offset + align - 1 <= usize::MAX,
            old(self).offset <= old(self).heap_size,
        ensures
            final(self).heap_base == old(self).heap_base,
            final(self).heap_size == old(self).heap_size,
            ({
                let aligned = align_up((old(self).heap_base + old(self).offset) as usize, align);
                let aligned_off = aligned - old(self).heap_base;
                if aligned_off + size > old(self).heap_size {
                    r is None && final(self).offset == old(self).offset
                } else {
                    r == Some(aligned) && final(self).offset == aligned_off + size
                }
            }),
    {
        let addr = self.heap_base + self.offset;
        let m = align - 1;
        let s = addr + m;
        let aligned_addr = s & !m;
        proof {
            assert(s & !m <= s) by (bit_vector);
            assert((s & !m) + m >= s) by (bit_vector);
        }
        let aligned_off = aligned_addr - self.heap_base;
        if aligned_off > self.heap_size || size > self.heap_size - aligned_off {
            return None;
        }
        self.offset = aligned_off + size;
        Some(aligned_addr)
    }
}

/// Every block handed out is aligned when the alignment is a power of two.
pub proof fn lemma_align_up_aligned(addr: usize, align: usize)
    requires
        is_pow2(align),
        addr + align - 1 <= usize::MAX,
    ensures
        align_up(addr, align) & ((align - 1) as usize) == 0,
        align_up(addr, align) >= addr,
{
    let m = (align - 1) as usize;
    let s = (addr + m) as usize;
    assert((s & !m) & m == 0) by (bit_vector);
    assert((s & !m) + m >= s) by (bit_vector);
}

/// Blocks handed out one after the other never overlap: the next block
/// starts at or after the end of the previous one, whatever the two
/// alignments asked for.
pub proof fn lemma_allocations_disjoint(heap_base: usize, offset: usize, size1: usize, align1: usize, align2: usize)
    requires
        align1 > 0,
        align2 > 0,
        heap_base + offset + align1 - 1 <= usize::MAX,
        align_up((heap_base + offset) as usize, align1) + size1 + align2 - 1 <= usize::MAX,
    ensures
        ({
            let first = align_up((heap_base + offset) as usize, align1);
            let second = align_up((first + size1) as usize, align2);
            &&& first >= heap_base + offset
            &&& second >= first + size1
        }),
{
    let m1 = (align1 - 1) as usize;
    let s1 = (heap_base + offset + m1) as usize;
    assert((s1 & !m1) + m1 >= s1) by (bit_vector);
    let first = align_up((heap_base + offset) as usize, align1);
    let m2 = (align2 - 1) as usize;
    let s2 = (first + size1 + m2) as usize;
    assert((s2 & !m2) + m2 >= s2) by (bit_vector);
}

} // verus!
