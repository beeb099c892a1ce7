//! Intel e1000 NIC driver: ring setup, receive and transmit.
//!
//! Generic over register access and DMA allocation. The descriptor
//! rings and packet buffers live in DMA memory, which the caller hands
//! in as byte slices.
use vstd::prelude::*;
use crate::wire::{append_zeros, copied_back, copy_at, splice, sub_vec, zeros};
use crate::dma::{DmaAllocator, DmaRegion};
use crate::regs::{
    RegisterAccess, RegWrite, write_all, CTL, FCAH, FCAL, FCT, FCTTV, CTL_ASDE, CTL_RST, CTL_SLU, ICR, IMC, IMS,
    IMS_ENABLE_MASK, ITR, MTA, RADV, RAH, RAL, RCTL, RCTL_BAM, RCTL_EN, RCTL_MPE, RCTL_SECRC, RCTL_SZ_2048,
    RCTL_UPE, RDBAH, RDBAL, RDH, RDLEN, RDT, RDTR, RFCTL, RXD_STAT_DD, RXD_STAT_EOP, STAT, TADV, TCTL,
    TCTL_COLD_SHIFT, TCTL_CT_SHIFT, TCTL_EN, TCTL_PSP, TDBAH, TDBAL, TDH, TDLEN, TDT, TIDV, TIPG, TXD_CMD_EOP,
    TXD_CMD_RS, TXD_STAT_DD,
};
use crate::e1000_desc::{
    RxDesc, RxRingState, TxDesc, TxRingState, desc_slot, rx_desc_at, rx_desc_bytes, tx_desc_at, tx_desc_bytes,
    lemma_rx_desc_roundtrip, lemma_tx_desc_roundtrip, MBUF_SIZE, PAGE_SIZE, RX_BUF_PAGES, RX_RING_PAGES,
    RX_RING_SIZE, TX_BUF_PAGES, TX_RING_PAGES, TX_RING_SIZE,
};

verus! {

/// Interrupt status returned by `handle_interrupt`.
#[derive(Debug, Clone, Copy, PartialEq, Eq, Structural)]
pub struct InterruptStatus {
    pub icr: u32,
}

impl InterruptStatus {
    /// A receive timer interrupt is pending (ICR bit 7).
    pub fn rx_ready(&self) -> (r: bool)
        ensures
            r == (self.icr & 0x80u32 != 0),
    {
        self.icr & 0x80 != 0
    }

    /// The link status changed (ICR bit 2).
    pub fn link_status_change(&self) -> (r: bool)
        ensures
            r == (self.icr & 0x04u32 != 0),
    {
        self.icr & 0x04 != 0
    }
}

/// Byte size of a descriptor ring.
pub const RING_BYTES: usize = 4096;

/// Byte size of the packet buffers of a ring.
pub const BUFS_BYTES: usize = 256 * 2048;

/// Transmit descriptor `i` after ring setup: owns buffer `i`, done.
pub open spec fn initial_tx_desc(bufs_paddr: usize, i: int) -> TxDesc {
    TxDesc {
        addr: (bufs_paddr + i * 2048) as u64,
        length: 0,
        cso: 0,
        cmd: 0,
        status: TXD_STAT_DD,
        css: 0,
        special: 0,
    }
}

/// Receive descriptor `i` after ring setup: owns buffer `i`, empty.
pub open spec fn initial_rx_desc(bufs_paddr: usize, i: int) -> RxDesc {
    RxDesc { addr: (bufs_paddr + i * 2048) as u64, length: 0, csum: 0, status: 0, errors: 0, special: 0 }
}

/// Transmit control: enable, pad short packets, collision threshold 0x10,
/// collision distance 0x40.
pub open spec fn tctl_value() -> u32 {
    TCTL_EN | TCTL_PSP | (0x10u32 << TCTL_CT_SHIFT) | (0x40u32 << TCTL_COLD_SHIFT)
}

/// Receive control: enable, broadcast, unicast and multicast promiscuous,
/// 2048-byte buffers, strip CRC, descriptor threshold bits cleared.
pub open spec fn rctl_value() -> u32 {
    (RCTL_EN | RCTL_BAM | RCTL_UPE | RCTL_MPE | RCTL_SZ_2048 | RCTL_SECRC) & !(0b11u32 << 10u32)
}

/// Transmit inter-packet gap: IPGT 10, IPGR1 8, IPGR2 6.
pub open spec fn tipg_value() -> u32 {
    10u32 | (8u32 << 10u32) | (6u32 << 20u32)
}

/// Register writes of ring setup for rings at the given physical addresses.
pub open spec fn init_program_spec(tx_ring_paddr: usize, rx_ring_paddr: usize) -> Seq<RegWrite> {
    seq![
        RegWrite { offset: TCTL, value: tctl_value() },
        RegWrite { offset: TIPG, value: tipg_value() },
        RegWrite { offset: TDBAL, value: tx_ring_paddr as u32 },
        RegWrite { offset: TDBAH, value: ((tx_ring_paddr as u64) >> 32u64) as u32 },
        RegWrite { offset: TDLEN, value: 4096 },
        RegWrite { offset: TDT, value: 0 },
        RegWrite { offset: TDH, value: 0 },
        RegWrite { offset: RCTL, value: rctl_value() },
        RegWrite { offset: RFCTL, value: 0 },
        RegWrite { offset: RDBAL, value: rx_ring_paddr as u32 },
        RegWrite { offset: RDBAH, value: ((rx_ring_paddr as u64) >> 32u64) as u32 },
        RegWrite { offset: RDLEN, value: 4096 },
        RegWrite { offset: RDH, value: 0 },
        RegWrite { offset: RDT, value: 255 },
    ] + Seq::new(128, |i: int| RegWrite { offset: (MTA + i) as usize, value: 0 }) + seq![
        RegWrite { offset: TIDV, value: 0 },
        RegWrite { offset: TADV, value: 0 },
        RegWrite { offset: RDTR, value: 0 },
        RegWrite { offset: RADV, value: 0 },
        RegWrite { offset: ITR, value: 0 },
        RegWrite { offset: IMS, value: IMS_ENABLE_MASK },
    ]
}

/// Register writes of ring setup.
pub fn init_program(tx_ring_paddr: usize, rx_ring_paddr: usize) -> (w: Vec<RegWrite>)
    ensures
        w@ == init_program_spec(tx_ring_paddr, rx_ring_paddr),
{
    let mut w: Vec<RegWrite> = Vec::new();
    w.push(
        RegWrite {
            offset: TCTL,
            value: TCTL_EN | TCTL_PSP | (0x10 << TCTL_CT_SHIFT) | (0x40 << TCTL_COLD_SHIFT),
        },
    );
    w.push(RegWrite { offset: TIPG, value: 10 | (8 << 10) | (6 << 20) });
    w.push(RegWrite { offset: TDBAL, value: #[verifier::truncate] (tx_ring_paddr as u32) });
    w.push(RegWrite { offset: TDBAH, value: #[verifier::truncate] (((tx_ring_paddr as u64) >> 32) as u32) });
    w.push(RegWrite { offset: TDLEN, value: 4096 });
    w.push(RegWrite { offset: TDT, value: 0 });
    w.push(RegWrite { offset: TDH, value: 0 });
    w.push(
        RegWrite {
            offset: RCTL,
            value: (RCTL_EN | RCTL_BAM | RCTL_UPE | RCTL_MPE | RCTL_SZ_2048 | RCTL_SECRC) & !(0b11 << 10),
        },
    );
    w.push(RegWrite { offset: RFCTL, value: 0 });
    w.push(RegWrite { offset: RDBAL, value: #[verifier::truncate] (rx_ring_paddr as u32) });
    w.push(RegWrite { offset: RDBAH, value: #[verifier::truncate] (((rx_ring_paddr as u64) >> 32) as u32) });
    w.push(RegWrite { offset: RDLEN, value: 4096 });
    w.push(RegWrite { offset: RDH, value: 0 });
    w.push(RegWrite { offset: RDT, value: 255 });
    let ghost head = w@;
    let mut i: usize = 0;
    while i < 128
        invariant
            i <= 128,
            w@ == head + Seq::new(i as nat, |k: int| RegWrite { offset: (MTA + k) as usize, value: 0 }),
        decreases 128 - i,
    {
        w.push(RegWrite { offset: MTA + i, value: 0 });
        i = i + 1;
        assert(w@ =~= head + Seq::new(i as nat, |k: int| RegWrite { offset: (MTA + k) as usize, value: 0 }));
    }
    w.push(RegWrite { offset: TIDV, value: 0 });
    w.push(RegWrite { offset: TADV, value: 0 });
    w.push(RegWrite { offset: RDTR, value: 0 });
    w.push(RegWrite { offset: RADV, value: 0 });
    w.push(RegWrite { offset: ITR, value: 0 });
    w.push(RegWrite { offset: IMS, value: IMS_ENABLE_MASK });
    assert(w@ =~= init_program_spec(tx_ring_paddr, rx_ring_paddr));
    w
}

/// MAC address held in the receive address registers: RAL's four bytes,
/// then RAH's low two, least significant first.
pub open spec fn mac_from_spec(ral: u32, rah: u32) -> Seq<u8> {
    seq![
        ral as u8,
        (ral >> 8u32) as u8,
        (ral >> 16u32) as u8,
        (ral >> 24u32) as u8,
        rah as u8,
        (rah >> 8u32) as u8,
    ]
}

/// MAC address from the RAL and RAH register values.
pub fn mac_from_registers(ral: u32, rah: u32) -> (m: [u8; 6])
    ensures
        m@ == mac_from_spec(ral, rah),
{
    let m = [
        #[verifier::truncate] (ral as u8),
        #[verifier::truncate] ((ral >> 8) as u8),
        #[verifier::truncate] ((ral >> 16) as u8),
        #[verifier::truncate] ((ral >> 24) as u8),
        #[verifier::truncate] (rah as u8),
        #[verifier::truncate] ((rah >> 8) as u8),
    ];
    assert(m@ =~= mac_from_spec(ral, rah));
    m
}

/// Writes that follow a completed reset: interrupts masked, link up with
/// speed auto-detection, flow control off.
pub open spec fn post_reset_program() -> Seq<RegWrite> {
    seq![
        RegWrite { offset: IMS, value: 0 },
        RegWrite { offset: CTL, value: CTL_SLU | CTL_ASDE },
        RegWrite { offset: FCAL, value: 0 },
        RegWrite { offset: FCAH, value: 0 },
        RegWrite { offset: FCT, value: 0 },
        RegWrite { offset: FCTTV, value: 0 },
    ]
}

/// Polls of the reset bit before giving up.
pub const RESET_POLLS: u32 = 100_000;

/// Write that triggers a device reset, given CTL's value `ctl`: CTL with the
/// reset bit set.
pub fn reset_trigger(ctl: u32) -> (w: RegWrite)
    ensures
        w == (RegWrite { offset: CTL, value: ctl | CTL_RST }),
{
    RegWrite { offset: CTL, value: ctl | CTL_RST }
}

/// What one poll of CTL during a reset decides.
#[derive(Debug, Clone, Copy, PartialEq, Eq, Structural)]
pub enum ResetPoll {
    /// The reset bit reads clear: the reset completed.
    Done,
    /// The bit is still set and the poll budget is spent.
    TimedOut,
    /// The bit is still set: poll again, with this many polls left.
    Again(u32),
}

/// One poll of the reset: `ctl` is the value read from CTL, `left` the
/// polls left including this one.
pub fn reset_poll(ctl: u32, left: u32) -> (p: ResetPoll)
    ensures
        ctl & CTL_RST == 0 ==> p == ResetPoll::Done,
        ctl & CTL_RST != 0 && left <= 1 ==> p == ResetPoll::TimedOut,
        ctl & CTL_RST != 0 && left > 1 ==> p == ResetPoll::Again((left - 1) as u32),
{
    if ctl & CTL_RST == 0 {
        ResetPoll::Done
    } else if left <= 1 {
        ResetPoll::TimedOut
    } else {
        ResetPoll::Again(left - 1)
    }
}

/// Writes that follow a completed reset: interrupts masked, link up with
/// speed auto-detection, flow control off.
pub fn post_reset_writes() -> (w: Vec<RegWrite>)
    ensures
        w@ == post_reset_program(),
{
    let mut w: Vec<RegWrite> = Vec::new();
    w.push(RegWrite { offset: IMS, value: 0 });
    w.push(RegWrite { offset: CTL, value: CTL_SLU | CTL_ASDE });
    w.push(RegWrite { offset: FCAL, value: 0 });
    w.push(RegWrite { offset: FCAH, value: 0 });
    w.push(RegWrite { offset: FCT, value: 0 });
    w.push(RegWrite { offset: FCTTV, value: 0 });
    assert(w@ =~= post_reset_program());
    w
}

/// Reset an e1000 device to a clean post-reset state: interrupts masked
/// (IMS ← 0), reset triggered ([`reset_trigger`] on the CTL value read)
/// and CTL polled ([`reset_poll`]) up to [`RESET_POLLS`] times; once the
/// reset bit clears, [`post_reset_writes`] is written and `true` returned.
/// Returns `false` if the reset bit did not clear within the poll budget
/// (the device is then left as it is). Which of the two comes back is
/// decided by the values the hardware returns through `RegisterAccess`,
/// which carries no model of them.
pub fn reset_device<R: RegisterAccess>(regs: &R) -> (done: bool) {
    regs.write_reg(IMS, 0);
    let trigger = reset_trigger(regs.read_reg(CTL));
    regs.write_reg(trigger.offset, trigger.value);
    let mut left: u32 = RESET_POLLS;
    loop
        invariant
            left <= RESET_POLLS,
        decreases left,
    {
        match reset_poll(regs.read_reg(CTL), left) {
            ResetPoll::Done => {
                break;
            },
            ResetPoll::TimedOut => {
                return false;
            },
            ResetPoll::Again(n) => {
                left = n;
            },
        }
    }
    let w = post_reset_writes();
    write_all(regs, w.as_slice());
    true
}

/// Link state from the STAT value `stat` (bit 1, link up).
pub fn link_up_in(stat: u32) -> (up: bool)
    ensures
        up == (stat & 0x02u32 != 0),
{
    stat & 0x02 != 0
}

/// Write that enables the receive timer and link status change interrupts.
pub fn interrupts_on() -> (w: RegWrite)
    ensures
        w == (RegWrite { offset: IMS, value: IMS_ENABLE_MASK }),
{
    RegWrite { offset: IMS, value: IMS_ENABLE_MASK }
}

/// Write that masks every device interrupt.
pub fn interrupts_off() -> (w: RegWrite)
    ensures
        w == (RegWrite { offset: IMC, value: 0xFFFF_FFFFu32 }),
{
    RegWrite { offset: IMC, value: 0xFFFF_FFFF }
}

/// Acknowledging the interrupt causes `icr` read from ICR: the status
/// returned, and the write of the same bits back to ICR that clears them.
pub fn interrupt_ack(icr: u32) -> (r: (InterruptStatus, RegWrite))
    ensures
        r.0 == (InterruptStatus { icr }),
        r.1 == (RegWrite { offset: ICR, value: icr }),
{
    (InterruptStatus { icr }, RegWrite { offset: ICR, value: icr })
}

/// Sizes and alignments of the DMA areas a device allocates, in order: TX
/// ring, RX ring, TX buffers, RX buffers.
pub open spec fn dma_plan_spec() -> Seq<(usize, usize)> {
    seq![
        ((TX_RING_PAGES * PAGE_SIZE) as usize, PAGE_SIZE),
        ((RX_RING_PAGES * PAGE_SIZE) as usize, PAGE_SIZE),
        ((TX_BUF_PAGES * PAGE_SIZE) as usize, PAGE_SIZE),
        ((RX_BUF_PAGES * PAGE_SIZE) as usize, PAGE_SIZE),
    ]
}

/// The DMA areas to allocate, as (size, alignment), in order.
pub fn dma_plan() -> (v: Vec<(usize, usize)>)
    ensures
        v@ == dma_plan_spec(),
{
    let v = vec![
        (TX_RING_PAGES * PAGE_SIZE, PAGE_SIZE),
        (RX_RING_PAGES * PAGE_SIZE, PAGE_SIZE),
        (TX_BUF_PAGES * PAGE_SIZE, PAGE_SIZE),
        (RX_BUF_PAGES * PAGE_SIZE, PAGE_SIZE),
    ];
    assert(v@ =~= dma_plan_spec());
    v
}

/// Main e1000 device structure. Generic over register access and DMA allocation.
pub struct E1000Device<R: RegisterAccess, D: DmaAllocator> {
    pub regs: R,
    pub dma: D,
    pub tx_ring_dma: DmaRegion,
    pub rx_ring_dma: DmaRegion,
    pub tx_bufs_dma: DmaRegion,
    pub rx_bufs_dma: DmaRegion,
    pub tx: TxRingState,
    pub rx: RxRingState,
}

/// RX half of a split device: shared register access and the RX ring state.
pub struct RxHalf<'a, R: RegisterAccess> {
    pub regs: &'a R,
    pub rx: &'a RxRingState,
}

/// TX half of a split device: shared register access and the TX ring state.
pub struct TxHalf<'a, R: RegisterAccess> {
    pub regs: &'a R,
    pub tx: &'a TxRingState,
}

impl<R: RegisterAccess, D: DmaAllocator> E1000Device<R, D> {
    /// Create an e1000 device: allocates its descriptor rings and packet
    /// buffers in the order and sizes of [`dma_plan`]. The caller then sets
    /// the rings up with `init_rings`.
    ///
    /// The caller must have already:
    /// 1. Performed a device reset (write CTRL_RST, wait for clear)
    /// 2. Re-enabled PCI bus mastering
    /// 3. Set CTRL_SLU | CTRL_ASDE
    /// 4. Disabled flow control (FCAL, FCAH, FCT, FCTTV = 0)
    pub fn new(regs: R, dma: D) -> (d: Self)
        ensures
            d.regs == regs,
            d.dma == dma,
            d.tx == (TxRingState {
                ring_vaddr: d.tx_ring_dma.vaddr,
                ring_paddr: d.tx_ring_dma.paddr,
                bufs_vaddr: d.tx_bufs_dma.vaddr,
                bufs_paddr: d.tx_bufs_dma.paddr,
            }),
            d.rx == (RxRingState {
                ring_vaddr: d.rx_ring_dma.vaddr,
                ring_paddr: d.rx_ring_dma.paddr,
                bufs_vaddr: d.rx_bufs_dma.vaddr,
                bufs_paddr: d.rx_bufs_dma.paddr,
            }),
    {
        let plan = dma_plan();
        let tx_ring_dma = dma.alloc_coherent(plan[0].0, plan[0].1);
        let rx_ring_dma = dma.alloc_coherent(plan[1].0, plan[1].1);
        let tx_bufs_dma = dma.alloc_coherent(plan[2].0, plan[2].1);
        let rx_bufs_dma = dma.alloc_coherent(plan[3].0, plan[3].1);
        let tx = TxRingState {
            ring_vaddr: tx_ring_dma.vaddr,
            ring_paddr: tx_ring_dma.paddr,
            bufs_vaddr: tx_bufs_dma.vaddr,
            bufs_paddr: tx_bufs_dma.paddr,
        };
        let rx = RxRingState {
            ring_vaddr: rx_ring_dma.vaddr,
            ring_paddr: rx_ring_dma.paddr,
            bufs_vaddr: rx_bufs_dma.vaddr,
            bufs_paddr: rx_bufs_dma.paddr,
        };
        E1000Device { regs, dma, tx_ring_dma, rx_ring_dma, tx_bufs_dma, rx_bufs_dma, tx, rx }
    }

    /// Set the rings up: every TX descriptor owns its buffer and is done,
    /// every RX descriptor owns its buffer and is empty. Returns the ring
    /// register program for this device's rings (`init_program`); the
    /// caller writes it in order, then reads ICR to clear pending
    /// interrupts and STAT to flush the writes.
    pub fn init_rings(&self, tx_ring: &mut [u8], rx_ring: &mut [u8]) -> (w: Vec<RegWrite>)
        requires
            old(tx_ring)@.len() == RING_BYTES,
            old(rx_ring)@.len() == RING_BYTES,
            self.tx.bufs_paddr + 256 * 2048 <= usize::MAX,
            self.rx.bufs_paddr + 256 * 2048 <= usize::MAX,
        ensures
            w@ == init_program_spec(self.tx.ring_paddr, self.rx.ring_paddr),
            final(tx_ring)@.len() == RING_BYTES,
            final(rx_ring)@.len() == RING_BYTES,
            forall|i: int|
                0 <= i < TX_RING_SIZE ==> #[trigger] tx_desc_at(final(tx_ring)@, i) == initial_tx_desc(
                    self.tx.bufs_paddr,
                    i,
                ),
            forall|i: int|
                0 <= i < RX_RING_SIZE ==> #[trigger] rx_desc_at(final(rx_ring)@, i) == initial_rx_desc(
                    self.rx.bufs_paddr,
                    i,
                ),
    {
        let tx_bufs_paddr = self.tx.bufs_paddr;
        let mut i: usize = 0;
        while i < TX_RING_SIZE
            invariant
                i <= TX_RING_SIZE,
                tx_ring@.len() == RING_BYTES,
                tx_bufs_paddr == self.tx.bufs_paddr,
                tx_bufs_paddr + 256 * 2048 <= usize::MAX,
                forall|k: int| 0 <= k < i ==> #[trigger] desc_slot(tx_ring@, k) == tx_desc_bytes(
                    initial_tx_desc(tx_bufs_paddr, k),
                ),
            decreases TX_RING_SIZE - i,
        {
            let d = TxDesc {
                addr: (tx_bufs_paddr + i * MBUF_SIZE) as u64,
                length: 0,
                cso: 0,
                cmd: 0,
                status: TXD_STAT_DD,
                css: 0,
                special: 0,
            };
            let b = d.to_bytes();
            let ghost before = tx_ring@;
            copy_at(tx_ring, i * 16, b.as_slice());
            proof {
                assert forall|k: int| 0 <= k <= i implies #[trigger] desc_slot(tx_ring@, k) == tx_desc_bytes(
                    initial_tx_desc(tx_bufs_paddr, k),
                ) by {
                    if k < i {
                        assert(desc_slot(tx_ring@, k) =~= desc_slot(before, k));
                    } else {
                        assert(desc_slot(tx_ring@, k) =~= b@);
                    }
                }
            }
            i = i + 1;
        }
        let rx_bufs_paddr = self.rx.bufs_paddr;
        let mut j: usize = 0;
        while j < RX_RING_SIZE
            invariant
                j <= RX_RING_SIZE,
                rx_ring@.len() == RING_BYTES,
                rx_bufs_paddr == self.rx.bufs_paddr,
                rx_bufs_paddr + 256 * 2048 <= usize::MAX,
                forall|k: int| 0 <= k < j ==> #[trigger] desc_slot(rx_ring@, k) == rx_desc_bytes(
                    initial_rx_desc(rx_bufs_paddr, k),
                ),
            decreases RX_RING_SIZE - j,
        {
            let d = RxDesc {
                addr: (rx_bufs_paddr + j * MBUF_SIZE) as u64,
                length: 0,
                csum: 0,
                status: 0,
                errors: 0,
                special: 0,
            };
            let b = d.to_bytes();
            let ghost before = rx_ring@;
            copy_at(rx_ring, j * 16, b.as_slice());
            proof {
                assert forall|k: int| 0 <= k <= j implies #[trigger] desc_slot(rx_ring@, k) == rx_desc_bytes(
                    initial_rx_desc(rx_bufs_paddr, k),
                ) by {
                    if k < j {
                        assert(desc_slot(rx_ring@, k) =~= desc_slot(before, k));
                    } else {
                        assert(desc_slot(rx_ring@, k) =~= b@);
                    }
                }
            }
            j = j + 1;
        }
        proof {
            assert forall|i: int| 0 <= i < TX_RING_SIZE implies #[trigger] tx_desc_at(tx_ring@, i)
                == initial_tx_desc(self.tx.bufs_paddr, i) by {
                lemma_tx_desc_roundtrip(initial_tx_desc(self.tx.bufs_paddr, i));
                assert(desc_slot(tx_ring@, i) == tx_desc_bytes(initial_tx_desc(tx_bufs_paddr, i)));
            }
            assert forall|i: int| 0 <= i < RX_RING_SIZE implies #[trigger] rx_desc_at(rx_ring@, i)
                == initial_rx_desc(self.rx.bufs_paddr, i) by {
                lemma_rx_desc_roundtrip(initial_rx_desc(self.rx.bufs_paddr, i));
                assert(desc_slot(rx_ring@, i) == rx_desc_bytes(initial_rx_desc(rx_bufs_paddr, i)));
            }
        }
        init_program(self.tx.ring_paddr, self.rx.ring_paddr)
    }

    /// Flush posted writes by reading the status register.
    pub fn write_flush(&self) {
        let _ = self.regs.read_reg(STAT);
    }

    /// Read the MAC address from the RAL/RAH registers.
    pub fn mac_address(&self) -> (m: [u8; 6])
        ensures
            exists|ral: u32, rah: u32| m@ == mac_from_spec(ral, rah),
    {
        let ral = self.regs.read_reg(RAL);
        let rah = self.regs.read_reg(RAH);
        mac_from_registers(ral, rah)
    }

    /// Check if the link is up: reads STAT ([`link_up_in`]).
    pub fn link_is_up(&self) -> (up: bool)
        ensures
            exists|stat: u32| up == (stat & 0x02u32 != 0),
    {
        link_up_in(self.regs.read_reg(STAT))
    }

    /// Split into separate RX and TX handles for concurrent use.
    pub fn split(&self) -> (h: (RxHalf<'_, R>, TxHalf<'_, R>))
        ensures
            *h.0.rx == self.rx,
            *h.1.tx == self.tx,
    {
        (RxHalf { regs: &self.regs, rx: &self.rx }, TxHalf { regs: &self.regs, tx: &self.tx })
    }

    /// Enable device interrupts (receive timer and link status change):
    /// writes [`interrupts_on`], then flushes.
    pub fn enable_interrupts(&self) {
        let w = interrupts_on();
        self.regs.write_reg(w.offset, w.value);
        self.write_flush();
    }

    /// Disable all device interrupts: writes [`interrupts_off`], then
    /// flushes.
    pub fn disable_interrupts(&self) {
        let w = interrupts_off();
        self.regs.write_reg(w.offset, w.value);
        self.write_flush();
    }

    /// Acknowledge and return interrupt status: ICR is read and the same
    /// bits are written back to clear them. The status is the hardware's
    /// ICR value, read through `RegisterAccess`.
    pub fn handle_interrupt(&self) -> (s: InterruptStatus) {
        let (s, w) = interrupt_ack(self.regs.read_reg(ICR));
        self.regs.write_reg(w.offset, w.value);
        s
    }

    /// Release the DMA memory of the rings and buffers.
    pub fn free(self) {
        self.dma.free_coherent(&self.tx_ring_dma);
        self.dma.free_coherent(&self.rx_ring_dma);
        self.dma.free_coherent(&self.tx_bufs_dma);
        self.dma.free_coherent(&self.rx_bufs_dma);
    }
}


// ── receive ─────────────────────────────────────────────────────────────

/// Descriptor the next received packet lands in: the one after RDT.
pub open spec fn next_rx(rdt: u32) -> int {
    (rdt + 1) % 256
}

/// A packet is waiting in the descriptor after RDT: one that a receive
/// hands out (the descriptor owns a buffer, the hardware completed a whole
/// packet, DD and EOP, and it arrived without errors).
pub open spec fn rx_has_packet_spec(ring: Seq<u8>, rdt: u32) -> bool {
    rx_slot_spec(ring, rdt) is Ready
}

/// State of the descriptor after RDT.
#[derive(Debug, Clone, Copy, PartialEq, Eq, Structural)]
pub enum RxSlot {
    /// The descriptor owns no buffer.
    Empty,
    /// The hardware has not completed a whole packet in it.
    Pending,
    /// The packet in descriptor `0` arrived with errors.
    Errored(usize),
    /// Descriptor `0` holds a good packet of `1` bytes (capped at the buffer size).
    Ready(usize, usize),
}

/// State of the descriptor after RDT.
pub open spec fn rx_slot_spec(ring: Seq<u8>, rdt: u32) -> RxSlot {
    let i = next_rx(rdt);
    let d = rx_desc_at(ring, i);
    if d.addr == 0 {
        RxSlot::Empty
    } else if d.status & (RXD_STAT_DD | RXD_STAT_EOP) != (RXD_STAT_DD | RXD_STAT_EOP) {
        RxSlot::Pending
    } else if d.errors != 0 {
        RxSlot::Errored(i as usize)
    } else {
        RxSlot::Ready(
            i as usize,
            if d.length < 2048 {
                d.length as usize
            } else {
                2048
            },
        )
    }
}

/// Descriptor `i` with its status cleared, handing it back to the hardware.
pub open spec fn rx_released_desc(d: RxDesc) -> RxDesc {
    RxDesc { addr: d.addr, length: d.length, csum: d.csum, status: 0, errors: d.errors, special: d.special }
}

/// The ring with descriptor `i` handed back to the hardware.
pub open spec fn rx_released(ring: Seq<u8>, i: int) -> Seq<u8> {
    splice(ring, i * 16, rx_desc_bytes(rx_released_desc(rx_desc_at(ring, i))))
}

/// Classifies the descriptor after RDT.
pub fn rx_slot(ring: &[u8], rdt: u32) -> (s: RxSlot)
    requires
        ring@.len() == RING_BYTES,
    ensures
        s == rx_slot_spec(ring@, rdt),
{
    let i = ((rdt as u64 + 1) % 256) as usize;
    let d = RxDesc::read_at(ring, i * 16);
    if d.addr == 0 {
        RxSlot::Empty
    } else if d.status & (RXD_STAT_DD | RXD_STAT_EOP) != (RXD_STAT_DD | RXD_STAT_EOP) {
        RxSlot::Pending
    } else if d.errors != 0 {
        RxSlot::Errored(i)
    } else {
        let len = if (d.length as usize) < MBUF_SIZE {
            d.length as usize
        } else {
            MBUF_SIZE
        };
        RxSlot::Ready(i, len)
    }
}

/// Hands descriptor `i` back to the hardware by clearing its status.
fn rx_release(ring: &mut [u8], i: usize)
    requires
        old(ring)@.len() == RING_BYTES,
        i < RX_RING_SIZE,
    ensures
        final(ring)@ == rx_released(old(ring)@, i as int),
        final(ring)@.len() == RING_BYTES,
{
    let d = RxDesc::read_at(ring, i * 16);
    let nd = RxDesc { addr: d.addr, length: d.length, csum: d.csum, status: 0, errors: d.errors, special: d.special };
    let b = nd.to_bytes();
    copy_at(ring, i * 16, b.as_slice());
}

/// Whether a packet waits in the descriptor after RDT = `rdt`.
pub fn rx_has_packet_at(rx_ring: &[u8], rdt: u32) -> (r: bool)
    requires
        rx_ring@.len() == RING_BYTES,
    ensures
        r == rx_has_packet_spec(rx_ring@, rdt),
{
    match rx_slot(rx_ring, rdt) {
        RxSlot::Ready(_, _) => true,
        _ => false,
    }
}

/// Bytes of an RX buffer cleared after its packet was handed out.
pub open spec fn rx_cleared_len(len: usize) -> int {
    if len < 64 {
        len as int
    } else {
        64
    }
}

/// Receive with RDT = `rdt`: what `recv_with` does once the register is
/// read. For a good packet in descriptor `i`, `f` is handed its bytes in
/// buffer `i` and what it leaves there is kept, then the buffer's first
/// 64 bytes are cleared; an errored packet is dropped. Either way the
/// descriptor goes back to the hardware and the returned write moves RDT
/// to `i`. No packet: nothing changes and nothing is written.
pub fn recv_at<T, F: FnOnce(&mut [u8]) -> T>(rdt: u32, rx_ring: &mut [u8], rx_bufs: &mut [u8], f: F) -> (r: (
    Option<T>,
    Option<RegWrite>,
))
    requires
        old(rx_ring)@.len() == RING_BYTES,
        old(rx_bufs)@.len() == BUFS_BYTES,
        forall|b: &mut [u8]| call_requires(f, (b,)),
    ensures
        final(rx_ring)@.len() == RING_BYTES,
        final(rx_bufs)@.len() == BUFS_BYTES,
        r.0 is Some <==> rx_has_packet_spec(old(rx_ring)@, rdt),
        match rx_slot_spec(old(rx_ring)@, rdt) {
            RxSlot::Empty | RxSlot::Pending => {
                &&& r.0 is None
                &&& r.1 is None
                &&& final(rx_ring)@ == old(rx_ring)@
                &&& final(rx_bufs)@ == old(rx_bufs)@
            },
            RxSlot::Errored(i) => {
                &&& r.0 is None
                &&& r.1 == Some(RegWrite { offset: RDT, value: i as u32 })
                &&& final(rx_ring)@ == rx_released(old(rx_ring)@, i as int)
                &&& final(rx_bufs)@ == old(rx_bufs)@
            },
            RxSlot::Ready(i, len) => {
                &&& r.0 is Some
                &&& r.1 == Some(RegWrite { offset: RDT, value: i as u32 })
                &&& final(rx_ring)@ == rx_released(old(rx_ring)@, i as int)
            },
        },
        r.0 matches Some(v) ==> exists|b: &mut [u8]|
            (*b)@ == old(rx_bufs)@.subrange(
                rx_slot_spec(old(rx_ring)@, rdt)->Ready_0 * 2048,
                rx_slot_spec(old(rx_ring)@, rdt)->Ready_0 * 2048 + rx_slot_spec(old(rx_ring)@, rdt)->Ready_1,
            ) && call_ensures(f, (b,), v) && final(rx_bufs)@ == splice(
                copied_back(
                    old(rx_bufs)@,
                    rx_slot_spec(old(rx_ring)@, rdt)->Ready_0 * 2048,
                    rx_slot_spec(old(rx_ring)@, rdt)->Ready_1 as int,
                    (*final(b))@,
                ),
                rx_slot_spec(old(rx_ring)@, rdt)->Ready_0 * 2048,
                zeros(rx_cleared_len(rx_slot_spec(old(rx_ring)@, rdt)->Ready_1)),
            ),
{
    let slot = rx_slot(rx_ring, rdt);
    match slot {
        RxSlot::Empty | RxSlot::Pending => (None, None),
        RxSlot::Errored(i) => {
            rx_release(rx_ring, i);
            (None, Some(RegWrite { offset: RDT, value: i as u32 }))
        },
        RxSlot::Ready(i, len) => {
            let off = i * MBUF_SIZE;
            let mut buf = sub_vec(rx_bufs, off, len);
            let result = f(buf.as_mut_slice());
            // `f` cannot change the slice's length; testing it makes that explicit for the copy back.
            if buf.len() == len {
                copy_at(rx_bufs, off, buf.as_slice());
            }
            assert(rx_bufs@ == copied_back(old(rx_bufs)@, off as int, len as int, buf@));
            let z = if len < 64 {
                len
            } else {
                64
            };
            let mut clear: Vec<u8> = Vec::new();
            append_zeros(&mut clear, z);
            copy_at(rx_bufs, off, clear.as_slice());
            rx_release(rx_ring, i);
            (Some(result), Some(RegWrite { offset: RDT, value: i as u32 }))
        },
    }
}

impl<'a, R: RegisterAccess> RxHalf<'a, R> {
    /// Check if a received packet is ready without consuming it: reads
    /// RDT and looks at the descriptor after it ([`rx_has_packet_at`]). For
    /// the same RDT, a packet reported here is one [`recv_at`] hands out.
    pub fn has_rx_packet(&self, rx_ring: &[u8]) -> (r: bool)
        requires
            rx_ring@.len() == RING_BYTES,
        ensures
            exists|rdt: u32| r == rx_has_packet_spec(rx_ring@, rdt),
    {
        let rdt = self.regs.read_reg(RDT);
        rx_has_packet_at(rx_ring, rdt)
    }

    /// Receive one packet: reads RDT, then does what [`recv_at`] decides
    /// for that value, writes RDT back when it says so and flushes with a
    /// STAT read. Returns `None` if no complete packet is available.
    pub fn recv_with<T, F: FnOnce(&mut [u8]) -> T>(&mut self, rx_ring: &mut [u8], rx_bufs: &mut [u8], f: F) -> (r:
        Option<T>)
        requires
            old(rx_ring)@.len() == RING_BYTES,
            old(rx_bufs)@.len() == BUFS_BYTES,
            forall|b: &mut [u8]| call_requires(f, (b,)),
        ensures
            final(rx_ring)@.len() == RING_BYTES,
            final(rx_bufs)@.len() == BUFS_BYTES,
            exists|rdt: u32|
                #![trigger rx_slot_spec(old(rx_ring)@, rdt)]
                match rx_slot_spec(old(rx_ring)@, rdt) {
                    RxSlot::Empty | RxSlot::Pending => {
                        &&& r is None
                        &&& final(rx_ring)@ == old(rx_ring)@
                        &&& final(rx_bufs)@ == old(rx_bufs)@
                    },
                    RxSlot::Errored(i) => {
                        &&& r is None
                        &&& final(rx_ring)@ == rx_released(old(rx_ring)@, i as int)
                        &&& final(rx_bufs)@ == old(rx_bufs)@
                    },
                    RxSlot::Ready(i, len) => {
                        &&& final(rx_ring)@ == rx_released(old(rx_ring)@, i as int)
                        &&& r matches Some(v) && exists|b: &mut [u8]|
                            (*b)@ == old(rx_bufs)@.subrange(i * 2048, i * 2048 + len) && call_ensures(f, (b,), v)
                                && final(rx_bufs)@ == splice(
                                copied_back(old(rx_bufs)@, i * 2048, len as int, (*final(b))@),
                                i * 2048,
                                zeros(rx_cleared_len(len)),
                            )
                    },
                },
    {
        let rdt = self.regs.read_reg(RDT);
        let (r, w) = recv_at(rdt, rx_ring, rx_bufs, f);
        match w {
            Some(w) => {
                self.regs.write_reg(w.offset, w.value);
                let _ = self.regs.read_reg(STAT);
            },
            None => {},
        }
        r
    }
}

// ── transmit ────────────────────────────────────────────────────────────

/// The descriptor at TDT is free for a new packet. A TDT outside the ring
/// counts as no space.
pub open spec fn tx_free_spec(ring: Seq<u8>, tdt: u32) -> bool {
    tdt < 256 && tx_desc_at(ring, tdt as int).status & TXD_STAT_DD != 0
}

/// Descriptor `d` queued for a packet of `len` bytes: report status, end of packet.
pub open spec fn tx_queued_desc(d: TxDesc, len: u16) -> TxDesc {
    TxDesc {
        addr: d.addr,
        length: len,
        cso: d.cso,
        cmd: TXD_CMD_RS | TXD_CMD_EOP,
        status: 0,
        css: d.css,
        special: d.special,
    }
}

/// The ring with descriptor `i` queued for a packet of `len` bytes.
pub open spec fn tx_queued(ring: Seq<u8>, i: int, len: u16) -> Seq<u8> {
    splice(ring, i * 16, tx_desc_bytes(tx_queued_desc(tx_desc_at(ring, i), len)))
}

/// Bytes sent for a packet: at most one buffer's worth.
pub open spec fn tx_len(len: int) -> int {
    if len < 2048 {
        len
    } else {
        2048
    }
}

/// Queues descriptor `i` for a packet of `len` bytes.
fn tx_queue(ring: &mut [u8], i: usize, len: u16)
    requires
        old(ring)@.len() == RING_BYTES,
        i < TX_RING_SIZE,
    ensures
        final(ring)@ == tx_queued(old(ring)@, i as int, len),
        final(ring)@.len() == RING_BYTES,
{
    let d = TxDesc::read_at(ring, i * 16);
    let nd = TxDesc {
        addr: d.addr,
        length: len,
        cso: d.cso,
        cmd: TXD_CMD_RS | TXD_CMD_EOP,
        status: 0,
        css: d.css,
        special: d.special,
    };
    let b = nd.to_bytes();
    copy_at(ring, i * 16, b.as_slice());
}

/// The register write that hands descriptor `tdt` to the hardware: TDT
/// moves to the next descriptor.
pub open spec fn tdt_advance(tdt: u32) -> RegWrite {
    RegWrite { offset: TDT, value: ((tdt + 1) % 256) as u32 }
}

/// Whether the descriptor at TDT = `tdt` is free for a new packet.
pub fn tx_space_at(tx_ring: &[u8], tdt: u32) -> (r: bool)
    requires
        tx_ring@.len() == RING_BYTES,
    ensures
        r == tx_free_spec(tx_ring@, tdt),
{
    if tdt >= 256 {
        return false;
    }
    let d = TxDesc::read_at(tx_ring, (tdt as usize) * 16);
    (d.status & TXD_STAT_DD) != 0
}

/// Transmit with TDT = `tdt`: what `transmit` does once the register is
/// read. When the descriptor is free, the packet (cut to one buffer) goes
/// into buffer `tdt`, the descriptor is queued and the returned write
/// advances TDT; otherwise the packet is dropped and nothing is written.
pub fn transmit_at(tdt: u32, tx_ring: &mut [u8], tx_bufs: &mut [u8], packet: &[u8]) -> (w: Option<RegWrite>)
    requires
        old(tx_ring)@.len() == RING_BYTES,
        old(tx_bufs)@.len() == BUFS_BYTES,
    ensures
        final(tx_ring)@.len() == RING_BYTES,
        final(tx_bufs)@.len() == BUFS_BYTES,
        w is Some <==> tx_free_spec(old(tx_ring)@, tdt),
        if tx_free_spec(old(tx_ring)@, tdt) {
            let len = tx_len(packet@.len() as int);
            &&& w == Some(tdt_advance(tdt))
            &&& final(tx_ring)@ == tx_queued(old(tx_ring)@, tdt as int, len as u16)
            &&& final(tx_bufs)@ == splice(old(tx_bufs)@, tdt * 2048, packet@.subrange(0, len))
        } else {
            &&& final(tx_ring)@ == old(tx_ring)@
            &&& final(tx_bufs)@ == old(tx_bufs)@
        },
{
    if !tx_space_at(tx_ring, tdt) {
        return None;
    }
    let tindex = tdt as usize;
    let len = if packet.len() < MBUF_SIZE {
        packet.len()
    } else {
        MBUF_SIZE
    };
    let data = sub_vec(packet, 0, len);
    copy_at(tx_bufs, tindex * MBUF_SIZE, data.as_slice());
    tx_queue(tx_ring, tindex, len as u16);
    Some(RegWrite { offset: TDT, value: ((tindex + 1) % TX_RING_SIZE) as u32 })
}

/// Transmit via callback with TDT = `tdt`: what `transmit_with` does once
/// the register is read. When the descriptor is free, `f` is handed the
/// `len` bytes (cut to one buffer) of buffer `tdt` and what it leaves there
/// is sent: the descriptor is queued and the returned write advances TDT.
/// Otherwise `f` is not called and nothing changes.
pub fn transmit_with_at<T, F: FnOnce(&mut [u8]) -> T>(
    tdt: u32,
    len: usize,
    tx_ring: &mut [u8],
    tx_bufs: &mut [u8],
    f: F,
) -> (r: (Option<T>, Option<RegWrite>))
    requires
        old(tx_ring)@.len() == RING_BYTES,
        old(tx_bufs)@.len() == BUFS_BYTES,
        forall|b: &mut [u8]| call_requires(f, (b,)),
    ensures
        final(tx_ring)@.len() == RING_BYTES,
        final(tx_bufs)@.len() == BUFS_BYTES,
        r.0 is Some <==> tx_free_spec(old(tx_ring)@, tdt),
        if tx_free_spec(old(tx_ring)@, tdt) {
            &&& r.1 == Some(tdt_advance(tdt))
            &&& final(tx_ring)@ == tx_queued(old(tx_ring)@, tdt as int, tx_len(len as int) as u16)
        } else {
            &&& r.1 is None
            &&& final(tx_ring)@ == old(tx_ring)@
            &&& final(tx_bufs)@ == old(tx_bufs)@
        },
        r.0 matches Some(v) ==> exists|b: &mut [u8]|
            (*b)@ == old(tx_bufs)@.subrange(tdt * 2048, tdt * 2048 + tx_len(len as int)) && call_ensures(f, (b,), v)
                && final(tx_bufs)@ == copied_back(old(tx_bufs)@, tdt * 2048, tx_len(len as int), (*final(b))@),
{
    if !tx_space_at(tx_ring, tdt) {
        return (None, None);
    }
    let tindex = tdt as usize;
    let n = if len < MBUF_SIZE {
        len
    } else {
        MBUF_SIZE
    };
    let off = tindex * MBUF_SIZE;
    let mut buf = sub_vec(tx_bufs, off, n);
    let result = f(buf.as_mut_slice());
    // `f` cannot change the slice's length; testing it makes that explicit for the copy back.
    if buf.len() == n {
        copy_at(tx_bufs, off, buf.as_slice());
    }
    assert(tx_bufs@ == copied_back(old(tx_bufs)@, off as int, n as int, buf@));
    tx_queue(tx_ring, tindex, n as u16);
    (Some(result), Some(RegWrite { offset: TDT, value: ((tindex + 1) % TX_RING_SIZE) as u32 }))
}

impl<'a, R: RegisterAccess> TxHalf<'a, R> {
    /// Check if a TX descriptor is available: reads TDT and looks at that
    /// descriptor ([`tx_space_at`]).
    pub fn has_tx_space(&self, tx_ring: &[u8]) -> (r: bool)
        requires
            tx_ring@.len() == RING_BYTES,
        ensures
            exists|tdt: u32| r == tx_free_spec(tx_ring@, tdt),
    {
        let tdt = self.regs.read_reg(TDT);
        tx_space_at(tx_ring, tdt)
    }

    /// Transmit a packet (copied into the DMA buffer, truncated to one
    /// buffer): reads TDT, does what [`transmit_at`] decides for that value,
    /// writes TDT when it says so and flushes with a STAT read. The packet
    /// is dropped when the ring is full.
    pub fn transmit(&mut self, tx_ring: &mut [u8], tx_bufs: &mut [u8], packet: &[u8])
        requires
            old(tx_ring)@.len() == RING_BYTES,
            old(tx_bufs)@.len() == BUFS_BYTES,
        ensures
            final(tx_ring)@.len() == RING_BYTES,
            final(tx_bufs)@.len() == BUFS_BYTES,
            exists|tdt: u32|
                #![trigger tx_free_spec(old(tx_ring)@, tdt)]
                if tx_free_spec(old(tx_ring)@, tdt) {
                    let len = tx_len(packet@.len() as int);
                    &&& final(tx_ring)@ == tx_queued(old(tx_ring)@, tdt as int, len as u16)
                    &&& final(tx_bufs)@ == splice(old(tx_bufs)@, tdt * 2048, packet@.subrange(0, len))
                } else {
                    &&& final(tx_ring)@ == old(tx_ring)@
                    &&& final(tx_bufs)@ == old(tx_bufs)@
                },
    {
        let tdt = self.regs.read_reg(TDT);
        match transmit_at(tdt, tx_ring, tx_bufs, packet) {
            Some(w) => {
                self.regs.write_reg(w.offset, w.value);
                let _ = self.regs.read_reg(STAT);
            },
            None => {},
        }
    }

    /// Transmit via callback: reads TDT, does what [`transmit_with_at`]
    /// decides for that value, writes TDT when it says so and flushes with a
    /// STAT read. `None` when the ring is full.
    pub fn transmit_with<T, F: FnOnce(&mut [u8]) -> T>(
        &mut self,
        len: usize,
        tx_ring: &mut [u8],
        tx_bufs: &mut [u8],
        f: F,
    ) -> (r: Option<T>)
        requires
            old(tx_ring)@.len() == RING_BYTES,
            old(tx_bufs)@.len() == BUFS_BYTES,
            forall|b: &mut [u8]| call_requires(f, (b,)),
        ensures
            final(tx_ring)@.len() == RING_BYTES,
            final(tx_bufs)@.len() == BUFS_BYTES,
            exists|tdt: u32|
                #![trigger tx_free_spec(old(tx_ring)@, tdt)]
                if tx_free_spec(old(tx_ring)@, tdt) {
                    &&& final(tx_ring)@ == tx_queued(old(tx_ring)@, tdt as int, tx_len(len as int) as u16)
                    &&& r matches Some(v) && exists|b: &mut [u8]|
                        (*b)@ == old(tx_bufs)@.subrange(tdt * 2048, tdt * 2048 + tx_len(len as int)) && call_ensures(
                            f,
                            (b,),
                            v,
                        ) && final(tx_bufs)@ == copied_back(
                            old(tx_bufs)@,
                            tdt * 2048,
                            tx_len(len as int),
                            (*final(b))@,
                        )
                } else {
                    &&& r is None
                    &&& final(tx_ring)@ == old(tx_ring)@
                    &&& final(tx_bufs)@ == old(tx_bufs)@
                },
    {
        let tdt = self.regs.read_reg(TDT);
        let (r, w) = transmit_with_at(tdt, len, tx_ring, tx_bufs, f);
        match w {
            Some(w) => {
                self.regs.write_reg(w.offset, w.value);
                let _ = self.regs.read_reg(STAT);
            },
            None => {},
        }
        r
    }
}

} // verus!
