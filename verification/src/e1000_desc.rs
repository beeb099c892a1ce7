//! e1000 descriptor layouts and ring bookkeeping.
//!
//! Descriptor rings live in DMA memory as arrays of 16-byte descriptors;
//! they are handled here as byte slices with explicit little-endian
//! encodings of the two descriptor formats.
use vstd::prelude::*;
use vstd::bytes::*;
use crate::wire::{push_u16_le, push_u64_le, read_u16_le, read_u64_le, u16_at, u64_at};

verus! {

pub const TX_RING_SIZE: usize = 256;
pub const RX_RING_SIZE: usize = 256;
pub const MBUF_SIZE: usize = 2048;
pub const PAGE_SIZE: usize = 4096;

/// Size of one descriptor.
pub const DESC_SIZE: usize = 16;

/// Allocation page counts for DMA regions.
pub const TX_RING_PAGES: usize = 1;
pub const RX_RING_PAGES: usize = 1;
pub const TX_BUF_PAGES: usize = 128;
pub const RX_BUF_PAGES: usize = 128;

/// Transmit descriptor [Intel 82540 SDM 3.3.3]
#[derive(Debug, Clone, Copy, PartialEq, Eq, Structural)]
pub struct TxDesc {
    pub addr: u64,
    pub length: u16,
    pub cso: u8,
    pub cmd: u8,
    pub status: u8,
    pub css: u8,
    pub special: u16,
}

/// Receive descriptor [Intel 82540 SDM 3.2.3]
#[derive(Debug, Clone, Copy, PartialEq, Eq, Structural)]
pub struct RxDesc {
    pub addr: u64,
    pub length: u16,
    pub csum: u16,
    pub status: u8,
    pub errors: u8,
    pub special: u16,
}

/// Memory image of a transmit descriptor.
pub open spec fn tx_desc_bytes(d: TxDesc) -> Seq<u8> {
    spec_u64_to_le_bytes(d.addr) + spec_u16_to_le_bytes(d.length) + seq![d.cso, d.cmd, d.status, d.css]
        + spec_u16_to_le_bytes(d.special)
}

/// Transmit descriptor held in the first 16 bytes of `b`.
pub open spec fn tx_desc_from(b: Seq<u8>) -> TxDesc {
    TxDesc {
        addr: u64_at(b, 0),
        length: u16_at(b, 8),
        cso: b[10],
        cmd: b[11],
        status: b[12],
        css: b[13],
        special: u16_at(b, 14),
    }
}

/// Memory image of a receive descriptor.
pub open spec fn rx_desc_bytes(d: RxDesc) -> Seq<u8> {
    spec_u64_to_le_bytes(d.addr) + spec_u16_to_le_bytes(d.length) + spec_u16_to_le_bytes(d.csum) + seq![
        d.status,
        d.errors,
    ] + spec_u16_to_le_bytes(d.special)
}

/// Receive descriptor held in the first 16 bytes of `b`.
pub open spec fn rx_desc_from(b: Seq<u8>) -> RxDesc {
    RxDesc {
        addr: u64_at(b, 0),
        length: u16_at(b, 8),
        csum: u16_at(b, 10),
        status: b[12],
        errors: b[13],
        special: u16_at(b, 14),
    }
}

/// Bytes of descriptor `i` of a ring.
pub open spec fn desc_slot(ring: Seq<u8>, i: int) -> Seq<u8> {
    ring.subrange(i * 16, i * 16 + 16)
}

/// Transmit descriptor `i` of a ring.
pub open spec fn tx_desc_at(ring: Seq<u8>, i: int) -> TxDesc {
    tx_desc_from(desc_slot(ring, i))
}

/// Receive descriptor `i` of a ring.
pub open spec fn rx_desc_at(ring: Seq<u8>, i: int) -> RxDesc {
    rx_desc_from(desc_slot(ring, i))
}

/// Decoding a written descriptor gives it back.
pub proof fn lemma_tx_desc_roundtrip(d: TxDesc)
    ensures
        tx_desc_bytes(d).len() == 16,
        tx_desc_from(tx_desc_bytes(d)) == d,
{
    lemma_auto_spec_u16_to_from_le_bytes();
    lemma_auto_spec_u64_to_from_le_bytes();
    let b = tx_desc_bytes(d);
    assert(b.subrange(0, 8) =~= spec_u64_to_le_bytes(d.addr));
    assert(b.subrange(8, 10) =~= spec_u16_to_le_bytes(d.length));
    assert(b.subrange(14, 16) =~= spec_u16_to_le_bytes(d.special));
}

/// Decoding a written descriptor gives it back.
pub proof fn lemma_rx_desc_roundtrip(d: RxDesc)
    ensures
        rx_desc_bytes(d).len() == 16,
        rx_desc_from(rx_desc_bytes(d)) == d,
{
    lemma_auto_spec_u16_to_from_le_bytes();
    lemma_auto_spec_u64_to_from_le_bytes();
    let b = rx_desc_bytes(d);
    assert(b.subrange(0, 8) =~= spec_u64_to_le_bytes(d.addr));
    assert(b.subrange(8, 10) =~= spec_u16_to_le_bytes(d.length));
    assert(b.subrange(10, 12) =~= spec_u16_to_le_bytes(d.csum));
    assert(b.subrange(14, 16) =~= spec_u16_to_le_bytes(d.special));
}

impl TxDesc {
    /// Encodes the descriptor into its 16 memory bytes.
    pub fn to_bytes(&self) -> (b: Vec<u8>)
        ensures
            b@ == tx_desc_bytes(*self),
            b@.len() == 16,
    {
        let mut b: Vec<u8> = Vec::new();
        push_u64_le(&mut b, self.addr);
        push_u16_le(&mut b, self.length);
        b.push(self.cso);
        b.push(self.cmd);
        b.push(self.status);
        b.push(self.css);
        push_u16_le(&mut b, self.special);
        proof {
            lemma_tx_desc_roundtrip(*self);
            assert(b@ =~= tx_desc_bytes(*self));
        }
        b
    }

    /// Decodes the descriptor at byte offset `off` of `ring`.
    pub fn read_at(ring: &[u8], off: usize) -> (d: TxDesc)
        requires
            off + 16 <= ring@.len(),
        ensures
            d == tx_desc_from(ring@.subrange(off as int, off + 16)),
    {
        assert(ring@.len() == ring.len());
        let ghost b = ring@.subrange(off as int, off + 16);
        assert(b.subrange(0, 8) =~= ring@.subrange(off as int, off + 8));
        assert(b.subrange(8, 10) =~= ring@.subrange(off + 8, off + 10));
        assert(b.subrange(14, 16) =~= ring@.subrange(off + 14, off + 16));
        TxDesc {
            addr: read_u64_le(ring, off),
            length: read_u16_le(ring, off + 8),
            cso: ring[off + 10],
            cmd: ring[off + 11],
            status: ring[off + 12],
            css: ring[off + 13],
            special: read_u16_le(ring, off + 14),
        }
    }
}

impl RxDesc {
    /// Encodes the descriptor into its 16 memory bytes.
    pub fn to_bytes(&self) -> (b: Vec<u8>)
        ensures
            b@ == rx_desc_bytes(*self),
            b@.len() == 16,
    {
        let mut b: Vec<u8> = Vec::new();
        push_u64_le(&mut b, self.addr);
        push_u16_le(&mut b, self.length);
        push_u16_le(&mut b, self.csum);
        b.push(self.status);
        b.push(self.errors);
        push_u16_le(&mut b, self.special);
        proof {
            lemma_rx_desc_roundtrip(*self);
            assert(b@ =~= rx_desc_bytes(*self));
        }
        b
    }

    /// Decodes the descriptor at byte offset `off` of `ring`.
    pub fn read_at(ring: &[u8], off: usize) -> (d: RxDesc)
        requires
            off + 16 <= ring@.len(),
        ensures
            d == rx_desc_from(ring@.subrange(off as int, off + 16)),
    {
        assert(ring@.len() == ring.len());
        let ghost b = ring@.subrange(off as int, off + 16);
        assert(b.subrange(0, 8) =~= ring@.subrange(off as int, off + 8));
        assert(b.subrange(8, 10) =~= ring@.subrange(off + 8, off + 10));
        assert(b.subrange(10, 12) =~= ring@.subrange(off + 10, off + 12));
        assert(b.subrange(14, 16) =~= ring@.subrange(off + 14, off + 16));
        RxDesc {
            addr: read_u64_le(ring, off),
            length: read_u16_le(ring, off + 8),
            csum: read_u16_le(ring, off + 10),
            status: ring[off + 12],
            errors: ring[off + 13],
            special: read_u16_le(ring, off + 14),
        }
    }
}

/// Mutable state for the RX descriptor ring.
#[derive(Debug, Clone, Copy, PartialEq, Eq, Structural)]
pub struct RxRingState {
    pub ring_vaddr: usize,
    pub ring_paddr: usize,
    pub bufs_vaddr: usize,
    pub bufs_paddr: usize,
}

/// Mutable state for the TX descriptor ring.
#[derive(Debug, Clone, Copy, PartialEq, Eq, Structural)]
pub struct TxRingState {
    pub ring_vaddr: usize,
    pub ring_paddr: usize,
    pub bufs_vaddr: usize,
    pub bufs_paddr: usize,
}

impl RxRingState {
    /// Get the virtual address of the RX buffer at `index`.
    pub fn buf_vaddr(&self, index: usize) -> (a: usize)
        requires
            self.bufs_vaddr + index * MBUF_SIZE <= usize::MAX,
        ensures
            a == self.bufs_vaddr + index * MBUF_SIZE,
    {
        self.bufs_vaddr + index * MBUF_SIZE
    }

    /// Get the physical address of the RX buffer at `index`.
    pub fn buf_paddr(&self, index: usize) -> (a: usize)
        requires
            self.bufs_paddr + index * MBUF_SIZE <= usize::MAX,
        ensures
            a == self.bufs_paddr + index * MBUF_SIZE,
    {
        self.bufs_paddr + index * MBUF_SIZE
    }
}

impl TxRingState {
    /// Get the virtual address of the TX buffer at `index`.
    pub fn buf_vaddr(&self, index: usize) -> (a: usize)
        requires
            self.bufs_vaddr + index * MBUF_SIZE <= usize::MAX,
        ensures
            a == self.bufs_vaddr + index * MBUF_SIZE,
    {
        self.bufs_vaddr + index * MBUF_SIZE
    }
}

} // verus!
