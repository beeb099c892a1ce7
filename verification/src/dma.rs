//! DMA-coherent memory regions and their allocator interface.
use vstd::prelude::*;

verus! {

/// A region of DMA-coherent memory.
///
/// This is a plain data handle (vaddr, paddr, size) — not an owner.
/// Ownership is managed by whoever called `DmaAllocator::alloc_coherent`.
#[derive(Debug, Clone, Copy, PartialEq, Eq, Structural)]
pub struct DmaRegion {
    pub vaddr: usize,
    pub paddr: usize,
    pub size: usize,
}

/// Allocator for DMA-coherent memory regions.
///
/// Uses `&self` — implementations use interior mutability if needed.
/// `alloc_coherent` panics on failure (boot-time, fixed system).
///
/// The caller of `alloc_coherent` is responsible for calling
/// `free_coherent` when the region is no longer needed, and must ensure
/// that no references to the region's memory exist at that point.
pub trait DmaAllocator {
    /// Allocate DMA-coherent memory with the given size and alignment.
    fn alloc_coherent(&self, size: usize, align: usize) -> DmaRegion;

    /// Free a previously allocated DMA region.
    fn free_coherent(&self, region: &DmaRegion);
}

} // verus!
