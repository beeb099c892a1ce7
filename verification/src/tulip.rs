//! DEC 21140/21143 "Tulip" Ethernet driver.
//!
//! Supports the DEC 21140 (PCI 0x1011:0x0009) and DEC 21143 (PCI
//! 0x1011:0x0019). CSRs sit at 8-byte intervals from BAR0 and are reached
//! through [`RegisterAccess`] (word index = byte offset / 4). Descriptor
//! rings and packet buffers live in DMA memory handed in as byte slices.
use vstd::prelude::*;
use vstd::bytes::*;
use crate::wire::{copied_back, append_zeros, copy_at, push_u32_le, read_u32_le, splice, sub_vec, u32_at};
use crate::dma::{DmaAllocator, DmaRegion};
use crate::regs::{RegWrite, RegisterAccess, write_all};

verus! {

// CSR offsets (byte offsets from BAR0)
pub const CSR0: usize = 0x00;
pub const CSR1: usize = 0x08;
pub const CSR2: usize = 0x10;
pub const CSR3: usize = 0x18;
pub const CSR4: usize = 0x20;
pub const CSR5: usize = 0x28;
pub const CSR6: usize = 0x30;
pub const CSR7: usize = 0x38;
pub const CSR8: usize = 0x40;
pub const CSR9: usize = 0x48;
pub const CSR11: usize = 0x58;
pub const CSR12: usize = 0x60;

// CSR0 bits
pub const CSR0_SWR: u32 = 0x1;

// CSR5 (Status) bits
pub const CSR5_TI: u32 = 0x1;
pub const CSR5_RI: u32 = 0x40;
pub const CSR5_NIS: u32 = 0x1_0000;
pub const CSR5_AIS: u32 = 0x8000;

// CSR6 (Operation Mode) bits
pub const CSR6_SR: u32 = 0x2;
pub const CSR6_ST: u32 = 0x2000;

// CSR7 (Interrupt Enable) bits
pub const CSR7_TIE: u32 = 0x1;
pub const CSR7_RIE: u32 = 0x40;
pub const CSR7_NIE: u32 = 0x1_0000;
pub const CSR7_AIE: u32 = 0x8000;

// CSR9 (Serial ROM) bits
pub const CSR9_SR: u32 = 0x800;
pub const CSR9_RD: u32 = 0x4000;
pub const CSR9_DO: u32 = 0x8;
pub const CSR9_DI: u32 = 0x4;
pub const CSR9_SK: u32 = 0x1;

/// Interrupts enabled by `enable_interrupts`.
pub const CSR7_ENABLE: u32 = CSR7_TIE | CSR7_RIE | CSR7_NIE | CSR7_AIE;

/// Bus mode after reset: transmit auto-poll 200 µs, burst length 8 longwords.
pub const CSR0_BUS_MODE: u32 = 0x2_0800;

/// Operation mode: receive and transmit started, promiscuous, store and forward.
pub const CSR6_RUN: u32 = CSR6_SR | CSR6_ST | 0x40 | 0x20_0000;

/// Word index of a CSR for [`RegisterAccess`].
pub open spec fn csr_index(offset: usize) -> usize {
    (offset / 4) as usize
}

/// Access mode for CSR registers — either MMIO or I/O ports.
#[derive(Debug, Clone, Copy, PartialEq, Eq, Structural)]
pub enum CsrAccess {
    /// Memory-mapped I/O at a virtual address.
    Mmio(usize),
    /// I/O port space at a base port.
    Io(u16),
}

impl CsrAccess {
    /// Where a CSR lives: its virtual address (MMIO) or I/O port.
    pub fn location(&self, offset: usize) -> (l: usize)
        requires
            match *self {
                CsrAccess::Mmio(base) => base + offset <= usize::MAX,
                CsrAccess::Io(base) => base + offset <= u16::MAX,
            },
        ensures
            match *self {
                CsrAccess::Mmio(base) => l == base + offset,
                CsrAccess::Io(base) => l == base + offset,
            },
    {
        match *self {
            CsrAccess::Mmio(base) => base + offset,
            CsrAccess::Io(base) => (base as usize) + offset,
        }
    }
}

/// Number of TX descriptors in the ring.
pub const TX_RING_SIZE: usize = 16;
/// Number of RX descriptors in the ring.
pub const RX_RING_SIZE: usize = 16;
/// Size of each packet buffer.
pub const MBUF_SIZE: usize = 2048;
/// Buffer size value for descriptors (11-bit field, bits [10:0]).
/// Buffers are 2048 bytes but the NIC is told 2047.
pub const DESC_BUF_SIZE: u32 = 2047;
/// Page size for DMA allocations.
pub const PAGE_SIZE: usize = 4096;

/// DMA allocation page counts.
pub const TX_RING_PAGES: usize = 1;
pub const RX_RING_PAGES: usize = 1;
pub const TX_BUF_PAGES: usize = 8;
pub const RX_BUF_PAGES: usize = 8;

/// Byte size of a descriptor ring in use.
pub const RING_BYTES: usize = 256;

/// Byte size of the packet buffers of a ring.
pub const BUFS_BYTES: usize = 16 * 2048;

// Descriptor status bits
pub const DESC_OWN: u32 = 0x8000_0000;

// TX control bits
pub const TDES1_FS: u32 = 0x2000_0000;
pub const TDES1_LS: u32 = 0x4000_0000;
pub const TDES1_TER: u32 = 0x0200_0000;
pub const TDES1_TCH: u32 = 0x0100_0000;
pub const TDES1_IC: u32 = 0x8000_0000;

// RX control bits
pub const RDES1_RER: u32 = 0x0200_0000;

/// Tulip TX/RX descriptor (16 bytes).
///
/// Both TX and RX use the same layout. The OWN bit in `status`
/// determines who owns the descriptor (NIC vs driver).
#[derive(Debug, Clone, Copy, PartialEq, Eq, Structural)]
pub struct TulipDesc {
    /// Status word. Bit 31 (OWN): 1 = NIC owns. RX: bits [29:16] = frame length.
    pub status: u32,
    /// Control word: buffer 1 size in bits [10:0], ring end bit 25, TX
    /// first/last segment bits 29/30.
    pub control: u32,
    /// Physical address of buffer 1 (below 4 GiB).
    pub buf1_addr: u32,
    /// Physical address of buffer 2, or of the next descriptor when chained.
    pub buf2_addr: u32,
}

/// Memory image of a descriptor.
pub open spec fn tulip_desc_bytes(d: TulipDesc) -> Seq<u8> {
    spec_u32_to_le_bytes(d.status) + spec_u32_to_le_bytes(d.control) + spec_u32_to_le_bytes(d.buf1_addr)
        + spec_u32_to_le_bytes(d.buf2_addr)
}

/// Descriptor `i` of a ring.
pub open spec fn tulip_desc_at(ring: Seq<u8>, i: int) -> TulipDesc {
    TulipDesc {
        status: u32_at(ring, i * 16),
        control: u32_at(ring, i * 16 + 4),
        buf1_addr: u32_at(ring, i * 16 + 8),
        buf2_addr: u32_at(ring, i * 16 + 12),
    }
}

/// The ring with descriptor `i` replaced by `d`.
pub open spec fn with_desc(ring: Seq<u8>, i: int, d: TulipDesc) -> Seq<u8> {
    splice(ring, i * 16, tulip_desc_bytes(d))
}

/// Extract received frame length from RX descriptor status.
/// Frame length is in bits [29:16] (14 bits).
pub fn rx_frame_length(status: u32) -> (len: usize)
    ensures
        len == (status >> 16u32) & 0x3FFFu32,
{
    ((status >> 16) & 0x3FFF) as usize
}

impl TulipDesc {
    /// Encodes the descriptor into its 16 memory bytes.
    pub fn to_bytes(&self) -> (b: Vec<u8>)
        ensures
            b@ == tulip_desc_bytes(*self),
            b@.len() == 16,
    {
        let mut b: Vec<u8> = Vec::new();
        push_u32_le(&mut b, self.status);
        push_u32_le(&mut b, self.control);
        push_u32_le(&mut b, self.buf1_addr);
        push_u32_le(&mut b, self.buf2_addr);
        proof {
            lemma_auto_spec_u32_to_from_le_bytes();
        }
        b
    }

    /// Decodes descriptor `i` of `ring`.
    pub fn read(ring: &[u8], i: usize) -> (d: TulipDesc)
        requires
            i * 16 + 16 <= ring@.len(),
        ensures
            d == tulip_desc_at(ring@, i as int),
    {
        assert(ring@.len() == ring.len());
        TulipDesc {
            status: read_u32_le(ring, i * 16),
            control: read_u32_le(ring, i * 16 + 4),
            buf1_addr: read_u32_le(ring, i * 16 + 8),
            buf2_addr: read_u32_le(ring, i * 16 + 12),
        }
    }
}

/// Writing a descriptor and reading it back gives it unchanged.
pub proof fn lemma_desc_roundtrip(ring: Seq<u8>, i: int, d: TulipDesc)
    requires
        0 <= i,
        i * 16 + 16 <= ring.len(),
    ensures
        tulip_desc_at(with_desc(ring, i, d), i) == d,
        with_desc(ring, i, d).len() == ring.len(),
{
    lemma_auto_spec_u32_to_from_le_bytes();
    let r = with_desc(ring, i, d);
    assert(r.subrange(i * 16, i * 16 + 4) =~= spec_u32_to_le_bytes(d.status));
    assert(r.subrange(i * 16 + 4, i * 16 + 8) =~= spec_u32_to_le_bytes(d.control));
    assert(r.subrange(i * 16 + 8, i * 16 + 12) =~= spec_u32_to_le_bytes(d.buf1_addr));
    assert(r.subrange(i * 16 + 12, i * 16 + 16) =~= spec_u32_to_le_bytes(d.buf2_addr));
}

/// Writes descriptor `i`.
fn write_desc(ring: &mut [u8], i: usize, d: TulipDesc)
    requires
        i * 16 + 16 <= old(ring)@.len(),
    ensures
        final(ring)@ == with_desc(old(ring)@, i as int, d),
        final(ring)@.len() == old(ring)@.len(),
{
    assert(ring@.len() == ring.len());
    let b = d.to_bytes();
    copy_at(ring, i * 16, b.as_slice());
}

/// TX descriptor `i` after ring setup: driver-owned, buffer `i`, end of
/// ring on the last one.
pub open spec fn initial_tx_desc(bufs_paddr: usize, i: int) -> TulipDesc {
    TulipDesc {
        status: 0,
        control: if i == TX_RING_SIZE - 1 {
            TDES1_TER
        } else {
            0
        },
        buf1_addr: (bufs_paddr + i * 2048) as u32,
        buf2_addr: 0,
    }
}

/// Control word of RX descriptor `i` when it is handed to the NIC.
pub open spec fn rx_control(i: int) -> u32 {
    if i == RX_RING_SIZE - 1 {
        DESC_BUF_SIZE | RDES1_RER
    } else {
        DESC_BUF_SIZE
    }
}

/// RX descriptor `i` after ring setup: NIC-owned, buffer `i`.
pub open spec fn initial_rx_desc(bufs_paddr: usize, i: int) -> TulipDesc {
    TulipDesc { status: DESC_OWN, control: rx_control(i), buf1_addr: (bufs_paddr + i * 2048) as u32, buf2_addr: 0 }
}

/// Control word of TX descriptor `i` for a packet of `len` bytes: single
/// segment, end of ring on the last one.
pub open spec fn tx_control(i: int, len: usize) -> u32 {
    let c = ((len as u32) & 0x7FFu32) | TDES1_FS | TDES1_LS;
    if i == TX_RING_SIZE - 1 {
        c | TDES1_TER
    } else {
        c
    }
}

/// The TX ring is closed: its last descriptor carries the end-of-ring bit,
/// so the NIC wraps back to descriptor 0 after it.
pub open spec fn tx_ring_closed(ring: Seq<u8>) -> bool {
    tulip_desc_at(ring, TX_RING_SIZE - 1).control & TDES1_TER != 0
}

/// The control word of a queued frame marks a single segment (first and
/// last segment bits), carries a length below 2048 in its low 11 bits,
/// and has the end-of-ring bit exactly on the last descriptor of the ring.
pub proof fn lemma_tx_control_bits(i: int, len: usize)
    requires
        0 <= i < TX_RING_SIZE,
    ensures
        tx_control(i, len) & TDES1_FS != 0,
        tx_control(i, len) & TDES1_LS != 0,
        len < 2048 ==> tx_control(i, len) & 0x7FFu32 == len,
        (tx_control(i, len) & TDES1_TER != 0) == (i == TX_RING_SIZE - 1),
{
    let l = len as u32;
    let c = tx_control(i, len);
    assert(c == (if i == TX_RING_SIZE - 1 { ((l & 0x7FFu32) | 0x2000_0000u32 | 0x4000_0000u32) | 0x0200_0000u32 } else { (l & 0x7FFu32) | 0x2000_0000u32 | 0x4000_0000u32 }));
    let last = i == TX_RING_SIZE - 1;
    assert((c == (if last { ((l & 0x7FFu32) | 0x2000_0000u32 | 0x4000_0000u32) | 0x0200_0000u32 } else { (l & 0x7FFu32) | 0x2000_0000u32 | 0x4000_0000u32 })) ==> {
        &&& c & 0x2000_0000u32 != 0
        &&& c & 0x4000_0000u32 != 0
        &&& (l < 2048 ==> c & 0x7FFu32 == l)
        &&& (c & 0x0200_0000u32 != 0) == last
    }) by (bit_vector);
}

/// Queuing a frame on any TX descriptor keeps the ring closed: the last
/// descriptor still carries the end-of-ring bit afterwards.
pub proof fn lemma_tx_queue_keeps_ring_closed(ring: Seq<u8>, i: int, len: usize, d: TulipDesc)
    requires
        0 <= i < TX_RING_SIZE,
        ring.len() >= RING_BYTES,
        tx_ring_closed(ring),
        d.control == tx_control(i, len),
    ensures
        tx_ring_closed(with_desc(ring, i, d)),
{
    lemma_tx_control_bits(i, len);
    lemma_desc_roundtrip(ring, i, d);
    if i != TX_RING_SIZE - 1 {
        let r = with_desc(ring, i, d);
        let k = (TX_RING_SIZE - 1) as int;
        lemma_auto_spec_u32_to_from_le_bytes();
        assert(tulip_desc_bytes(d).len() == 16);
        assert forall|j: int| k * 16 + 4 <= j < k * 16 + 8 implies r[j] == ring[j] by {
            assert(j >= i * 16 + 16);
        }
        assert(r.subrange(k * 16 + 4, k * 16 + 8) =~= ring.subrange(k * 16 + 4, k * 16 + 8));
    }
}

/// The RX ring is closed: its last descriptor carries the end-of-ring bit,
/// so the NIC wraps back to descriptor 0 after it.
pub open spec fn rx_ring_closed(ring: Seq<u8>) -> bool {
    tulip_desc_at(ring, RX_RING_SIZE - 1).control & RDES1_RER != 0
}

/// The control word of a descriptor handed back to the NIC announces a
/// buffer of 2047 bytes and has the end-of-ring bit exactly on the last
/// descriptor of the ring.
pub proof fn lemma_rx_control_bits(i: int)
    requires
        0 <= i < RX_RING_SIZE,
    ensures
        rx_control(i) & 0x7FFu32 == 2047,
        (rx_control(i) & RDES1_RER != 0) == (i == RX_RING_SIZE - 1),
{
    assert((2047u32 | 0x0200_0000u32) & 0x7FFu32 == 2047) by (bit_vector);
    assert((2047u32 | 0x0200_0000u32) & 0x0200_0000u32 != 0) by (bit_vector);
    assert(2047u32 & 0x7FFu32 == 2047) by (bit_vector);
    assert(2047u32 & 0x0200_0000u32 == 0) by (bit_vector);
}

/// Handing any RX descriptor back to the NIC keeps the ring closed.
pub proof fn lemma_rx_rearm_keeps_ring_closed(ring: Seq<u8>, i: int, d: TulipDesc)
    requires
        0 <= i < RX_RING_SIZE,
        ring.len() >= RING_BYTES,
        rx_ring_closed(ring),
        d.control == rx_control(i),
    ensures
        rx_ring_closed(with_desc(ring, i, d)),
{
    lemma_rx_control_bits(i);
    lemma_desc_roundtrip(ring, i, d);
    if i != RX_RING_SIZE - 1 {
        let r = with_desc(ring, i, d);
        let k = (RX_RING_SIZE - 1) as int;
        lemma_auto_spec_u32_to_from_le_bytes();
        assert(tulip_desc_bytes(d).len() == 16);
        assert forall|j: int| k * 16 + 4 <= j < k * 16 + 8 implies r[j] == ring[j] by {
            assert(j >= i * 16 + 16);
        }
        assert(r.subrange(k * 16 + 4, k * 16 + 8) =~= ring.subrange(k * 16 + 4, k * 16 + 8));
    }
}

/// Main Tulip device structure.
pub struct TulipDevice<R: RegisterAccess, D: DmaAllocator> {
    pub csr: R,
    pub dma: D,
    pub tx_ring_dma: DmaRegion,
    pub rx_ring_dma: DmaRegion,
    pub tx_bufs_dma: DmaRegion,
    pub rx_bufs_dma: DmaRegion,
    pub tx_next: usize,
    pub rx_next: usize,
    pub mac: [u8; 6],
}

/// A physical address the 32-bit device can reach.
pub open spec fn addr32(paddr: int) -> bool {
    0 <= paddr <= 0xFFFF_FFFF
}

/// Whether the region lies below 4 GiB, as the 32-bit device needs.
pub fn region_addr32(r: &DmaRegion) -> (ok: bool)
    ensures
        ok == (addr32(r.paddr as int) && r.size >= 1 && addr32(r.paddr + r.size - 1)),
{
    if r.paddr > 0xFFFF_FFFF || r.size == 0 {
        return false;
    }
    (r.size as u64) - 1 <= 0xFFFF_FFFF - (r.paddr as u64)
}

/// Write that enables the transmit, receive and summary interrupts.
pub fn interrupt_enable_write() -> (w: RegWrite)
    ensures
        w == (RegWrite { offset: CSR7 / 4, value: CSR7_ENABLE }),
{
    RegWrite { offset: CSR7 / 4, value: CSR7_ENABLE }
}

/// Writes that acknowledge the interrupt status `status` read from CSR5:
/// the same bits written back to clear them, then interrupts unmasked.
pub fn interrupt_ack_writes(status: u32) -> (w: Vec<RegWrite>)
    ensures
        w@ == seq![RegWrite { offset: CSR5 / 4, value: status }, RegWrite { offset: CSR7 / 4, value: CSR7_ENABLE }],
{
    let mut w: Vec<RegWrite> = Vec::new();
    w.push(RegWrite { offset: CSR5 / 4, value: status });
    w.push(RegWrite { offset: CSR7 / 4, value: CSR7_ENABLE });
    assert(w@ =~= seq![RegWrite { offset: CSR5 / 4, value: status }, RegWrite { offset: CSR7 / 4, value: CSR7_ENABLE }]);
    w
}

/// Write that sets the bus mode after the software reset: burst length 8
/// longwords, transmit auto-poll every 200 µs.
pub fn bus_mode_write() -> (w: RegWrite)
    ensures
        w == (RegWrite { offset: CSR0 / 4, value: CSR0_BUS_MODE }),
{
    RegWrite { offset: CSR0 / 4, value: CSR0_BUS_MODE }
}

/// Sizes and alignments of the DMA areas a device allocates, in order: TX
/// ring, RX ring, TX buffers, RX buffers.
pub open spec fn dma_plan_spec() -> Seq<(usize, usize)> {
    seq![
        ((TX_RING_PAGES * PAGE_SIZE) as usize, PAGE_SIZE),
        ((RX_RING_PAGES * PAGE_SIZE) as usize, PAGE_SIZE),
        ((TX_BUF_PAGES * PAGE_SIZE) as usize, PAGE_SIZE),
        ((RX_BUF_PAGES * PAGE_SIZE) as usize, PAGE_SIZE),
    ]
}

/// The DMA areas to allocate, as (size, alignment), in order.
pub fn dma_plan() -> (v: Vec<(usize, usize)>)
    ensures
        v@ == dma_plan_spec(),
{
    let v = vec![
        (TX_RING_PAGES * PAGE_SIZE, PAGE_SIZE),
        (RX_RING_PAGES * PAGE_SIZE, PAGE_SIZE),
        (TX_BUF_PAGES * PAGE_SIZE, PAGE_SIZE),
        (RX_BUF_PAGES * PAGE_SIZE, PAGE_SIZE),
    ];
    assert(v@ =~= dma_plan_spec());
    v
}

/// The region's physical range, start and end, lies below 4 GiB.
pub open spec fn area_addr32(r: DmaRegion) -> bool {
    r.size >= 1 && addr32(r.paddr as int) && addr32(r.paddr + r.size - 1)
}

/// The 32-bit device reaches its DMA memory: both ring bases and both
/// buffer areas, start to end, lie below 4 GiB.
pub open spec fn regions_reachable(tx_ring: DmaRegion, rx_ring: DmaRegion, tx_bufs: DmaRegion, rx_bufs: DmaRegion) -> bool {
    &&& addr32(tx_ring.paddr as int)
    &&& addr32(rx_ring.paddr as int)
    &&& area_addr32(tx_bufs)
    &&& area_addr32(rx_bufs)
}

/// Bytes of the frame in RX buffer `i` handed to the receive closure: the
/// frame length of the status word, cut at the end of the buffer area.
pub open spec fn rx_handed_len(status: u32, i: int) -> int {
    let fl = ((status >> 16u32) & 0x3FFFu32) as int;
    if fl <= BUFS_BYTES - i * 2048 {
        fl
    } else {
        BUFS_BYTES - i * 2048
    }
}

impl<R: RegisterAccess, D: DmaAllocator> TulipDevice<R, D> {
    /// A Tulip device on the DMA memory allocated for it: rings and
    /// buffers as given, both rings at their first descriptor, MAC not yet
    /// read. `None` when the device cannot reach that memory.
    pub fn with_regions(
        csr: R,
        dma: D,
        tx_ring_dma: DmaRegion,
        rx_ring_dma: DmaRegion,
        tx_bufs_dma: DmaRegion,
        rx_bufs_dma: DmaRegion,
    ) -> (d: Option<Self>)
        ensures
            d is Some <==> regions_reachable(tx_ring_dma, rx_ring_dma, tx_bufs_dma, rx_bufs_dma),
            d matches Some(dev) ==> {
                &&& dev.csr == csr
                &&& dev.dma == dma
                &&& dev.tx_ring_dma == tx_ring_dma
                &&& dev.rx_ring_dma == rx_ring_dma
                &&& dev.tx_bufs_dma == tx_bufs_dma
                &&& dev.rx_bufs_dma == rx_bufs_dma
                &&& dev.tx_next == 0
                &&& dev.rx_next == 0
                &&& dev.mac@ == seq![0u8, 0, 0, 0, 0, 0]
            },
    {
        if tx_ring_dma.paddr > 0xFFFF_FFFF || rx_ring_dma.paddr > 0xFFFF_FFFF || !region_addr32(&tx_bufs_dma)
            || !region_addr32(&rx_bufs_dma) {
            return None;
        }
        let d = TulipDevice {
            csr,
            dma,
            tx_ring_dma,
            rx_ring_dma,
            tx_bufs_dma,
            rx_bufs_dma,
            tx_next: 0,
            rx_next: 0,
            mac: [0u8; 6],
        };
        assert(d.mac@ =~= seq![0u8, 0, 0, 0, 0, 0]);
        Some(d)
    }

    /// Create a Tulip device after its software reset: programs the bus
    /// mode ([`bus_mode_write`]), allocates the rings and buffers in the
    /// order and sizes of [`dma_plan`] and builds the device on them
    /// with [`Self::with_regions`]. `None` when the allocator handed out
    /// memory the device cannot reach; what the allocator returns is up to
    /// its implementation, so when that happens is not stated here.
    pub fn new(csr: R, dma: D) -> (d: Option<Self>)
        ensures
            d matches Some(dev) ==> {
                &&& dev.csr == csr
                &&& dev.dma == dma
                &&& dev.tx_next == 0
                &&& dev.rx_next == 0
                &&& dev.mac@ == seq![0u8, 0, 0, 0, 0, 0]
                &&& regions_reachable(dev.tx_ring_dma, dev.rx_ring_dma, dev.tx_bufs_dma, dev.rx_bufs_dma)
            },
    {
        let mode = bus_mode_write();
        csr.write_reg(mode.offset, mode.value);
        let plan = dma_plan();
        let tx_ring_dma = dma.alloc_coherent(plan[0].0, plan[0].1);
        let rx_ring_dma = dma.alloc_coherent(plan[1].0, plan[1].1);
        let tx_bufs_dma = dma.alloc_coherent(plan[2].0, plan[2].1);
        let rx_bufs_dma = dma.alloc_coherent(plan[3].0, plan[3].1);
        Self::with_regions(csr, dma, tx_ring_dma, rx_ring_dma, tx_bufs_dma, rx_bufs_dma)
    }

    /// Set the rings up: TX descriptors driver-owned, RX descriptors
    /// NIC-owned, each with its buffer. Returns the writes of the
    /// descriptor list bases, which the caller performs in order: CSR3
    /// (RX) and CSR4 (TX).
    pub fn init_rings(&self, tx_ring: &mut [u8], rx_ring: &mut [u8]) -> (w: Vec<RegWrite>)
        requires
            old(tx_ring)@.len() >= RING_BYTES,
            old(rx_ring)@.len() >= RING_BYTES,
            self.tx_bufs_dma.paddr + 16 * 2048 <= usize::MAX,
            self.rx_bufs_dma.paddr + 16 * 2048 <= usize::MAX,
        ensures
            w@ == seq![
                RegWrite { offset: CSR3 / 4, value: self.rx_ring_dma.paddr as u32 },
                RegWrite { offset: CSR4 / 4, value: self.tx_ring_dma.paddr as u32 },
            ],
            final(tx_ring)@.len() == old(tx_ring)@.len(),
            final(rx_ring)@.len() == old(rx_ring)@.len(),
            tx_ring_closed(final(tx_ring)@),
            rx_ring_closed(final(rx_ring)@),
            forall|i: int|
                0 <= i < TX_RING_SIZE ==> #[trigger] tulip_desc_at(final(tx_ring)@, i) == initial_tx_desc(
                    self.tx_bufs_dma.paddr,
                    i,
                ),
            forall|i: int|
                0 <= i < RX_RING_SIZE ==> #[trigger] tulip_desc_at(final(rx_ring)@, i) == initial_rx_desc(
                    self.rx_bufs_dma.paddr,
                    i,
                ),
    {
        let txp = self.tx_bufs_dma.paddr;
        let mut i: usize = 0;
        while i < TX_RING_SIZE
            invariant
                i <= TX_RING_SIZE,
                tx_ring@.len() == old(tx_ring)@.len(),
                tx_ring@.len() >= RING_BYTES,
                txp == self.tx_bufs_dma.paddr,
                txp + 16 * 2048 <= usize::MAX,
                forall|k: int| 0 <= k < i ==> #[trigger] tulip_desc_at(tx_ring@, k) == initial_tx_desc(txp, k),
            decreases TX_RING_SIZE - i,
        {
            let ctrl = if i == TX_RING_SIZE - 1 {
                TDES1_TER
            } else {
                0
            };
            let d = TulipDesc { status: 0, control: ctrl, buf1_addr: #[verifier::truncate] ((txp + i * MBUF_SIZE) as u32), buf2_addr: 0 };
            let ghost before = tx_ring@;
            write_desc(tx_ring, i, d);
            proof {
                lemma_desc_roundtrip(before, i as int, d);
                assert forall|k: int| 0 <= k < i implies #[trigger] tulip_desc_at(tx_ring@, k) == initial_tx_desc(
                    txp,
                    k,
                ) by {
                    assert(tulip_desc_at(before, k) == initial_tx_desc(txp, k));
                    assert(tx_ring@.subrange(k * 16, k * 16 + 4) =~= before.subrange(k * 16, k * 16 + 4));
                    assert(tx_ring@.subrange(k * 16 + 4, k * 16 + 8) =~= before.subrange(k * 16 + 4, k * 16 + 8));
                    assert(tx_ring@.subrange(k * 16 + 8, k * 16 + 12) =~= before.subrange(k * 16 + 8, k * 16 + 12));
                    assert(tx_ring@.subrange(k * 16 + 12, k * 16 + 16) =~= before.subrange(
                        k * 16 + 12,
                        k * 16 + 16,
                    ));
                }
            }
            i = i + 1;
        }
        let rxp = self.rx_bufs_dma.paddr;
        let mut j: usize = 0;
        while j < RX_RING_SIZE
            invariant
                j <= RX_RING_SIZE,
                rx_ring@.len() == old(rx_ring)@.len(),
                rx_ring@.len() >= RING_BYTES,
                rxp == self.rx_bufs_dma.paddr,
                rxp + 16 * 2048 <= usize::MAX,
                forall|k: int| 0 <= k < j ==> #[trigger] tulip_desc_at(rx_ring@, k) == initial_rx_desc(rxp, k),
            decreases RX_RING_SIZE - j,
        {
            let ctrl = if j == RX_RING_SIZE - 1 {
                DESC_BUF_SIZE | RDES1_RER
            } else {
                DESC_BUF_SIZE
            };
            let d = TulipDesc {
                status: DESC_OWN,
                control: ctrl,
                buf1_addr: #[verifier::truncate] ((rxp + j * MBUF_SIZE) as u32),
                buf2_addr: 0,
            };
            let ghost before = rx_ring@;
            write_desc(rx_ring, j, d);
            proof {
                lemma_desc_roundtrip(before, j as int, d);
                assert forall|k: int| 0 <= k < j implies #[trigger] tulip_desc_at(rx_ring@, k) == initial_rx_desc(
                    rxp,
                    k,
                ) by {
                    assert(tulip_desc_at(before, k) == initial_rx_desc(rxp, k));
                    assert(rx_ring@.subrange(k * 16, k * 16 + 4) =~= before.subrange(k * 16, k * 16 + 4));
                    assert(rx_ring@.subrange(k * 16 + 4, k * 16 + 8) =~= before.subrange(k * 16 + 4, k * 16 + 8));
                    assert(rx_ring@.subrange(k * 16 + 8, k * 16 + 12) =~= before.subrange(k * 16 + 8, k * 16 + 12));
                    assert(rx_ring@.subrange(k * 16 + 12, k * 16 + 16) =~= before.subrange(
                        k * 16 + 12,
                        k * 16 + 16,
                    ));
                }
            }
            j = j + 1;
        }
        let mut w: Vec<RegWrite> = Vec::new();
        w.push(RegWrite { offset: CSR3 / 4, value: #[verifier::truncate] (self.rx_ring_dma.paddr as u32) });
        w.push(RegWrite { offset: CSR4 / 4, value: #[verifier::truncate] (self.tx_ring_dma.paddr as u32) });
        assert(w@ =~= seq![
            RegWrite { offset: CSR3 / 4, value: self.rx_ring_dma.paddr as u32 },
            RegWrite { offset: CSR4 / 4, value: self.tx_ring_dma.paddr as u32 },
        ]);
        proof {
            let k = (TX_RING_SIZE - 1) as int;
            assert(tulip_desc_at(tx_ring@, k) == initial_tx_desc(self.tx_bufs_dma.paddr, k));
            assert(0x0200_0000u32 & 0x0200_0000u32 != 0) by (bit_vector);
            assert(tulip_desc_at(rx_ring@, k) == initial_rx_desc(self.rx_bufs_dma.paddr, k));
            lemma_rx_control_bits(k);
        }
        w
    }

    /// Record the MAC address and start the device: receive and transmit
    /// on, promiscuous, store and forward, then a receive poll demand.
    pub fn start(&mut self, mac: [u8; 6])
        ensures
            final(self).mac == mac,
            final(self).tx_next == old(self).tx_next,
            final(self).rx_next == old(self).rx_next,
    {
        self.mac = mac;
        self.csr.write_reg(CSR6 / 4, CSR6_RUN);
        self.csr.write_reg(CSR2 / 4, 1);
    }

    /// MAC address of the device.
    pub fn mac(&self) -> (m: [u8; 6])
        ensures
            m == self.mac,
    {
        self.mac
    }

    /// Enable transmit, receive and summary interrupts: writes
    /// [`interrupt_enable_write`].
    pub fn enable_interrupts(&self) {
        let w = interrupt_enable_write();
        self.csr.write_reg(w.offset, w.value);
    }

    /// Acknowledge interrupts: mask them (CSR7 ← 0), read the status from
    /// CSR5, then write [`interrupt_ack_writes`] for it (the status back to
    /// CSR5 to clear it, interrupts unmasked). Returns the status read: the
    /// hardware's CSR5 value, read through `RegisterAccess`.
    pub fn handle_interrupt(&self) -> (status: u32) {
        self.csr.write_reg(CSR7 / 4, 0);
        let status = self.csr.read_reg(CSR5 / 4);
        let w = interrupt_ack_writes(status);
        write_all(&self.csr, w.as_slice());
        status
    }

    /// The driver owns the next RX descriptor: a frame has arrived.
    pub fn has_rx_packet(&self, rx_ring: &[u8]) -> (r: bool)
        requires
            self.rx_next < RX_RING_SIZE,
            rx_ring@.len() >= RING_BYTES,
        ensures
            r == (tulip_desc_at(rx_ring@, self.rx_next as int).status & DESC_OWN == 0),
    {
        let d = TulipDesc::read(rx_ring, self.rx_next);
        d.status & DESC_OWN == 0
    }

    /// The driver owns the next TX descriptor: a packet can be queued.
    pub fn has_tx_space(&self, tx_ring: &[u8]) -> (r: bool)
        requires
            self.tx_next < TX_RING_SIZE,
            tx_ring@.len() >= RING_BYTES,
        ensures
            r == (tulip_desc_at(tx_ring@, self.tx_next as int).status & DESC_OWN == 0),
    {
        let d = TulipDesc::read(tx_ring, self.tx_next);
        d.status & DESC_OWN == 0
    }

    /// Receive the frame in the next RX descriptor: `f` is handed its
    /// bytes (the frame length from the status word, cut at the end of the
    /// buffer area). The descriptor goes back to the NIC and the ring
    /// advances. `None` while the NIC still owns the descriptor.
    pub fn recv_with<T, F: FnOnce(&mut [u8]) -> T>(&mut self, rx_ring: &mut [u8], rx_bufs: &mut [u8], f: F) -> (r:
        Option<T>)
        requires
            old(self).rx_next < RX_RING_SIZE,
            old(rx_ring)@.len() >= RING_BYTES,
            old(rx_bufs)@.len() == BUFS_BYTES,
            forall|b: &mut [u8]| call_requires(f, (b,)),
        ensures
            final(rx_ring)@.len() == old(rx_ring)@.len(),
            final(rx_bufs)@.len() == old(rx_bufs)@.len(),
            final(self).tx_next == old(self).tx_next,
            final(self).mac == old(self).mac,
            final(self).rx_next < RX_RING_SIZE,
            rx_ring_closed(old(rx_ring)@) ==> rx_ring_closed(final(rx_ring)@),
            r matches Some(v) ==> exists|b: &mut [u8]|
                (*b)@ == old(rx_bufs)@.subrange(
                    old(self).rx_next * 2048,
                    old(self).rx_next * 2048 + rx_handed_len(
                        tulip_desc_at(old(rx_ring)@, old(self).rx_next as int).status,
                        old(self).rx_next as int,
                    ),
                ) && call_ensures(f, (b,), v) && final(rx_bufs)@ == copied_back(
                    old(rx_bufs)@,
                    old(self).rx_next * 2048,
                    rx_handed_len(tulip_desc_at(old(rx_ring)@, old(self).rx_next as int).status, old(self).rx_next as int),
                    (*final(b))@,
                ),
            ({
                let i = old(self).rx_next as int;
                let d = tulip_desc_at(old(rx_ring)@, i);
                if d.status & DESC_OWN != 0 {
                    &&& r is None
                    &&& final(rx_ring)@ == old(rx_ring)@
                    &&& final(rx_bufs)@ == old(rx_bufs)@
                    &&& final(self).rx_next == old(self).rx_next
                } else {
                    &&& r is Some
                    &&& final(rx_ring)@ == with_desc(
                        old(rx_ring)@,
                        i,
                        TulipDesc {
                            status: DESC_OWN,
                            control: rx_control(i),
                            buf1_addr: d.buf1_addr,
                            buf2_addr: d.buf2_addr,
                        },
                    )
                    &&& final(self).rx_next == (i + 1) % 16
                }
            }),
    {
        let i = self.rx_next;
        let d = TulipDesc::read(rx_ring, i);
        if d.status & DESC_OWN != 0 {
            return None;
        }
        let off = i * MBUF_SIZE;
        let frame_len = rx_frame_length(d.status);
        let len = if frame_len <= rx_bufs.len() - off {
            frame_len
        } else {
            rx_bufs.len() - off
        };
        let mut buf = sub_vec(rx_bufs, off, len);
        assert(len == rx_handed_len(d.status, i as int));
        let result = f(buf.as_mut_slice());
        // `f` cannot change the slice's length; testing it makes that explicit for the copy back.
        if buf.len() == len {
            copy_at(rx_bufs, off, buf.as_slice());
        }
        assert(rx_bufs@ == copied_back(old(rx_bufs)@, off as int, len as int, buf@));
        let ctrl = if i == RX_RING_SIZE - 1 {
            DESC_BUF_SIZE | RDES1_RER
        } else {
            DESC_BUF_SIZE
        };
        let nd = TulipDesc { status: DESC_OWN, control: ctrl, buf1_addr: d.buf1_addr, buf2_addr: d.buf2_addr };
        proof {
            if rx_ring_closed(rx_ring@) {
                lemma_rx_rearm_keeps_ring_closed(rx_ring@, i as int, nd);
            }
        }
        write_desc(rx_ring, i, nd);
        self.rx_next = (self.rx_next + 1) % RX_RING_SIZE;
        self.csr.write_reg(CSR2 / 4, 1);
        Some(result)
    }

    /// Transmit a packet of `len` bytes that `f` writes into the next TX
    /// buffer; the descriptor goes to the NIC and a transmit poll demand is
    /// issued. `None` while the NIC still owns the descriptor.
    pub fn transmit_with<T, F: FnOnce(&mut [u8]) -> T>(
        &mut self,
        len: usize,
        tx_ring: &mut [u8],
        tx_bufs: &mut [u8],
        f: F,
    ) -> (r: Option<T>)
        requires
            len <= MBUF_SIZE,
            old(self).tx_next < TX_RING_SIZE,
            old(tx_ring)@.len() >= RING_BYTES,
            old(tx_bufs)@.len() == BUFS_BYTES,
            forall|b: &mut [u8]| call_requires(f, (b,)),
        ensures
            final(tx_ring)@.len() == old(tx_ring)@.len(),
            final(tx_bufs)@.len() == old(tx_bufs)@.len(),
            final(self).rx_next == old(self).rx_next,
            final(self).mac == old(self).mac,
            final(self).tx_next < TX_RING_SIZE,
            tx_ring_closed(old(tx_ring)@) ==> tx_ring_closed(final(tx_ring)@),
            r matches Some(v) ==> exists|b: &mut [u8]|
                (*b)@ == old(tx_bufs)@.subrange(old(self).tx_next * 2048, old(self).tx_next * 2048 + len)
                    && call_ensures(f, (b,), v) && final(tx_bufs)@ == copied_back(
                    old(tx_bufs)@,
                    old(self).tx_next * 2048,
                    len as int,
                    (*final(b))@,
                ),
            ({
                let i = old(self).tx_next as int;
                let d = tulip_desc_at(old(tx_ring)@, i);
                if d.status & DESC_OWN != 0 {
                    &&& r is None
                    &&& final(tx_ring)@ == old(tx_ring)@
                    &&& final(tx_bufs)@ == old(tx_bufs)@
                    &&& final(self).tx_next == old(self).tx_next
                } else {
                    &&& r is Some
                    &&& final(tx_ring)@ == with_desc(
                        old(tx_ring)@,
                        i,
                        TulipDesc {
                            status: DESC_OWN,
                            control: tx_control(i, len),
                            buf1_addr: d.buf1_addr,
                            buf2_addr: d.buf2_addr,
                        },
                    )
                    &&& final(self).tx_next == (i + 1) % 16
                }
            }),
    {
        let i = self.tx_next;
        let d = TulipDesc::read(tx_ring, i);
        if d.status & DESC_OWN != 0 {
            return None;
        }
        let off = i * MBUF_SIZE;
        let mut buf = sub_vec(tx_bufs, off, len);
        let result = f(buf.as_mut_slice());
        // `f` cannot change the slice's length; testing it makes that explicit for the copy back.
        if buf.len() == len {
            copy_at(tx_bufs, off, buf.as_slice());
        }
        assert(tx_bufs@ == copied_back(old(tx_bufs)@, off as int, len as int, buf@));
        let c = ((len as u32) & 0x7FF) | TDES1_FS | TDES1_LS;
        let ctrl = if i == TX_RING_SIZE - 1 {
            c | TDES1_TER
        } else {
            c
        };
        let nd = TulipDesc { status: DESC_OWN, control: ctrl, buf1_addr: d.buf1_addr, buf2_addr: d.buf2_addr };
        proof {
            if tx_ring_closed(tx_ring@) {
                lemma_tx_queue_keeps_ring_closed(tx_ring@, i as int, len, nd);
            }
        }
        write_desc(tx_ring, i, nd);
        self.tx_next = (self.tx_next + 1) % TX_RING_SIZE;
        self.csr.write_reg(CSR1 / 4, 1);
        Some(result)
    }

    /// Stop the device (interrupts off, operation stopped, software reset)
    /// and release its DMA memory.
    pub fn free(self) {
        self.csr.write_reg(CSR7 / 4, 0);
        self.csr.write_reg(CSR6 / 4, 0);
        self.csr.write_reg(CSR0 / 4, CSR0_SWR);
        self.dma.free_coherent(&self.tx_ring_dma);
        self.dma.free_coherent(&self.rx_ring_dma);
        self.dma.free_coherent(&self.tx_bufs_dma);
        self.dma.free_coherent(&self.rx_bufs_dma);
    }
}

} // verus!
