use std::cell::{Cell, RefCell};
use std::rc::Rc;

use embclox::dma::{DmaAllocator, DmaRegion};
use embclox::e1000::{
    dma_plan, init_program, interrupt_ack, interrupts_off, interrupts_on, link_up_in, mac_from_registers, post_reset_writes,
    recv_at, reset_device, reset_poll, reset_trigger, rx_has_packet_at, rx_slot, transmit_at, transmit_with_at,
    tx_space_at, E1000Device, InterruptStatus, ResetPoll, RxSlot, BUFS_BYTES, RING_BYTES,
};
use embclox::e1000_desc::{RxDesc, RxRingState, TxDesc, TxRingState};
use embclox::regs::{
    write_all, RegWrite, RegisterAccess, CTL, CTL_RST, FCAH, FCAL, FCT, FCTTV, ICR, IMC, IMS, RAH, RAL, RDLEN, RDT, STAT, TDLEN, TDT,
};
use embclox::tulip::{self, rx_frame_length, CsrAccess, TulipDesc, TulipDevice};

/// Register file that records writes; CTL's reset bit clears itself
/// unless the device is stuck.
struct MockRegs {
    regs: RefCell<Vec<u32>>,
    log: RefCell<Vec<(usize, u32)>>,
    stuck_reset: bool,
}

impl MockRegs {
    fn new() -> Self {
        MockRegs { regs: RefCell::new(vec![0; 0x2000]), log: RefCell::new(Vec::new()), stuck_reset: false }
    }
    fn get(&self, r: usize) -> u32 {
        self.regs.borrow()[r]
    }
    fn set(&self, r: usize, v: u32) {
        self.regs.borrow_mut()[r] = v;
    }
}

impl RegisterAccess for MockRegs {
    fn read_reg(&self, offset: usize) -> u32 {
        self.regs.borrow()[offset]
    }
    fn write_reg(&self, offset: usize, value: u32) {
        let v = if offset == CTL && !self.stuck_reset { value & !CTL_RST } else { value };
        self.regs.borrow_mut()[offset] = v;
        self.log.borrow_mut().push((offset, value));
    }
}

/// Allocator handing out consecutive regions below 4 GiB from `next`.
struct MockDma {
    next: Cell<usize>,
    freed: Rc<RefCell<Vec<DmaRegion>>>,
}

impl MockDma {
    fn at(base: usize) -> Self {
        MockDma { next: Cell::new(base), freed: Rc::new(RefCell::new(Vec::new())) }
    }
}

impl DmaAllocator for MockDma {
    fn alloc_coherent(&self, size: usize, _align: usize) -> DmaRegion {
        let a = self.next.get();
        self.next.set(a + size);
        DmaRegion { vaddr: a + 0x1000_0000_0000, paddr: a, size }
    }
    fn free_coherent(&self, region: &DmaRegion) {
        self.freed.borrow_mut().push(*region);
    }
}

fn e1000() -> (E1000Device<MockRegs, MockDma>, Vec<u8>, Vec<u8>) {
    let d = E1000Device::new(MockRegs::new(), MockDma::at(0x10_0000));
    let mut tx_ring = vec![0u8; RING_BYTES];
    let mut rx_ring = vec![0u8; RING_BYTES];
    let prog = d.init_rings(&mut tx_ring, &mut rx_ring);
    assert_eq!(prog, init_program(d.tx.ring_paddr, d.rx.ring_paddr));
    write_all(&d.regs, &prog);
    let _ = d.regs.read_reg(ICR);
    d.write_flush();
    (d, tx_ring, rx_ring)
}

#[test]
fn e1000_allocates_rings_and_buffers() {
    let d = E1000Device::new(MockRegs::new(), MockDma::at(0x10_0000));
    assert_eq!(d.tx.ring_paddr, 0x10_0000);
    assert_eq!(d.rx.ring_paddr, 0x10_1000);
    assert_eq!(d.tx.bufs_paddr, 0x10_2000);
    assert_eq!(d.rx.bufs_paddr, 0x10_2000 + BUFS_BYTES);
    assert_eq!(d.tx_bufs_dma.size, BUFS_BYTES);
    d.free();
}

#[test]
fn e1000_free_releases_all_regions() {
    let freed = Rc::new(RefCell::new(Vec::new()));
    let dma = MockDma { next: Cell::new(0x10_0000), freed: freed.clone() };
    let d = E1000Device::new(MockRegs::new(), dma);
    let regions = vec![d.tx_ring_dma, d.rx_ring_dma, d.tx_bufs_dma, d.rx_bufs_dma];
    d.free();
    assert_eq!(*freed.borrow(), regions);
}

#[test]
fn e1000_ring_setup() {
    let (d, tx_ring, rx_ring) = e1000();
    let t0 = TxDesc::read_at(&tx_ring, 0);
    assert_eq!(t0.addr, d.tx.bufs_paddr as u64);
    assert_eq!(t0.status, 1);
    assert_eq!(TxDesc::read_at(&tx_ring, 255 * 16).addr, (d.tx.bufs_paddr + 255 * 2048) as u64);
    let r1 = RxDesc::read_at(&rx_ring, 16);
    assert_eq!(r1.addr, (d.rx.bufs_paddr + 2048) as u64);
    assert_eq!(r1.status, 0);
    assert_eq!(d.regs.get(TDLEN), 4096);
    assert_eq!(d.regs.get(RDLEN), 4096);
    assert_eq!(d.regs.get(RDT), 255);
    assert_eq!(d.regs.get(IMS), 0x84);
}

#[test]
fn e1000_init_program_layout() {
    let p = init_program(0x1_2345_6000, 0x7000);
    assert_eq!(p.len(), 14 + 128 + 6);
    assert_eq!(p[2].value, 0x2345_6000);
    assert_eq!(p[3].value, 1);
    assert_eq!(p[13].offset, RDT);
    assert_eq!(p[13].value, 255);
    assert_eq!(p[14].offset, 0x5200 / 4);
    assert_eq!(p[147].offset, IMS);
}

#[test]
fn e1000_mac_link_and_interrupts() {
    let (d, _, _) = e1000();
    d.regs.set(RAL, 0x5634_1252);
    d.regs.set(RAH, 0x8000_9A78);
    assert_eq!(d.mac_address(), [0x52, 0x12, 0x34, 0x56, 0x78, 0x9A]);
    assert_eq!(mac_from_registers(0x0403_0201, 0x0605), [1, 2, 3, 4, 5, 6]);
    d.regs.set(STAT, 0x2);
    assert!(d.link_is_up());
    d.regs.set(STAT, 0x1);
    assert!(!d.link_is_up());
    d.regs.set(ICR, 0x84);
    let s = d.handle_interrupt();
    assert_eq!(s, InterruptStatus { icr: 0x84 });
    assert!(s.rx_ready() && s.link_status_change());
    assert!(d.regs.log.borrow().contains(&(ICR, 0x84)));
    assert!(!InterruptStatus { icr: 0x1 }.rx_ready());
    d.enable_interrupts();
    assert_eq!(d.regs.get(IMS), 0x84);
    d.disable_interrupts();
    assert_eq!(d.regs.get(embclox::regs::IMC), 0xFFFF_FFFF);
}

fn rx_desc(addr: u64, length: u16, status: u8, errors: u8) -> Vec<u8> {
    RxDesc { addr, length, csum: 0, status, errors, special: 0 }.to_bytes()
}

#[test]
fn e1000_receive_good_packet() {
    let (d, _, mut rx_ring) = e1000();
    let mut rx_bufs = vec![0u8; BUFS_BYTES];
    for (k, b) in rx_bufs[..60].iter_mut().enumerate() {
        *b = k as u8 + 1;
    }
    rx_ring[..16].copy_from_slice(&rx_desc(d.rx.bufs_paddr as u64, 60, 0x3, 0));
    assert_eq!(rx_slot(&rx_ring, 255), RxSlot::Ready(0, 60));
    let (mut rx, _) = d.split();
    assert!(rx.has_rx_packet(&rx_ring));
    let got = rx.recv_with(&mut rx_ring, &mut rx_bufs, |b: &mut [u8]| b.to_vec());
    assert_eq!(got, Some((1..=60u8).collect::<Vec<u8>>()));
    assert_eq!(RxDesc::read_at(&rx_ring, 0).status, 0);
    assert_eq!(d.regs.get(RDT), 0);
    assert!(rx_bufs[..60].iter().all(|b| *b == 0));
    // Nothing more to receive.
    assert_eq!(rx.recv_with(&mut rx_ring, &mut rx_bufs, |b: &mut [u8]| b.len()), None);
}

#[test]
fn e1000_receive_drops_errored_and_waits_for_pending() {
    let (d, _, mut rx_ring) = e1000();
    let mut rx_bufs = vec![7u8; BUFS_BYTES];
    rx_ring[..16].copy_from_slice(&rx_desc(d.rx.bufs_paddr as u64, 60, 0x1, 0));
    assert_eq!(rx_slot(&rx_ring, 255), RxSlot::Pending);
    let (mut rx, _) = d.split();
    assert_eq!(rx.recv_with(&mut rx_ring, &mut rx_bufs, |b: &mut [u8]| b.len()), None);
    assert_eq!(d.regs.get(RDT), 255);
    rx_ring[..16].copy_from_slice(&rx_desc(d.rx.bufs_paddr as u64, 60, 0x3, 0x4));
    assert_eq!(rx_slot(&rx_ring, 255), RxSlot::Errored(0));
    assert_eq!(rx.recv_with(&mut rx_ring, &mut rx_bufs, |b: &mut [u8]| b.len()), None);
    assert_eq!(d.regs.get(RDT), 0);
    assert_eq!(RxDesc::read_at(&rx_ring, 0).status, 0);
    assert_eq!(rx_bufs[0], 7);
    assert_eq!(rx_slot(&vec![0u8; RING_BYTES], 0), RxSlot::Empty);
    // A length past the buffer is capped at the buffer size.
    rx_ring[16..32].copy_from_slice(&rx_desc(1, 5000, 0x3, 0));
    assert_eq!(rx_slot(&rx_ring, 0), RxSlot::Ready(1, 2048));
}

#[test]
fn e1000_transmit_and_ring_full() {
    let (d, mut tx_ring, _) = e1000();
    let mut tx_bufs = vec![0u8; BUFS_BYTES];
    let (_, mut tx) = d.split();
    assert!(tx.has_tx_space(&tx_ring));
    let packet: Vec<u8> = (0..42u8).collect();
    tx.transmit(&mut tx_ring, &mut tx_bufs, &packet);
    assert_eq!(&tx_bufs[..42], packet.as_slice());
    let t0 = TxDesc::read_at(&tx_ring, 0);
    assert_eq!((t0.length, t0.cmd, t0.status), (42, 0x09, 0));
    assert_eq!(d.regs.get(TDT), 1);
    let r = tx.transmit_with(10, &mut tx_ring, &mut tx_bufs, |b: &mut [u8]| {
        b.copy_from_slice(&[0xAB; 10]);
        b.len()
    });
    assert_eq!(r, Some(10));
    assert_eq!(&tx_bufs[2048..2058], &[0xAB; 10]);
    assert_eq!(d.regs.get(TDT), 2);
    // Back at descriptor 0, still owned by the hardware: no space, dropped.
    d.regs.set(TDT, 0);
    assert!(!tx.has_tx_space(&tx_ring));
    let before = tx_bufs.clone();
    tx.transmit(&mut tx_ring, &mut tx_bufs, &[1, 2, 3]);
    assert_eq!(tx_bufs, before);
    assert_eq!(tx.transmit_with(4, &mut tx_ring, &mut tx_bufs, |b: &mut [u8]| b.len()), None);
    d.regs.set(TDT, 300);
    assert!(!tx.has_tx_space(&tx_ring));
}

#[test]
fn e1000_reset() {
    let regs = MockRegs::new();
    assert!(reset_device(&regs));
    assert_eq!(regs.get(CTL), 0x60);
    assert_eq!(regs.log.borrow()[1], (CTL, CTL_RST));
    let stuck = MockRegs { stuck_reset: true, ..MockRegs::new() };
    assert!(!reset_device(&stuck));
}

#[test]
fn e1000_ring_state_addresses() {
    let rx = RxRingState { ring_vaddr: 0, ring_paddr: 0, bufs_vaddr: 0x1000, bufs_paddr: 0x9000 };
    assert_eq!(rx.buf_vaddr(2), 0x1000 + 4096);
    assert_eq!(rx.buf_paddr(3), 0x9000 + 6144);
    let tx = TxRingState { ring_vaddr: 0, ring_paddr: 0, bufs_vaddr: 0x2000, bufs_paddr: 0 };
    assert_eq!(tx.buf_vaddr(1), 0x2000 + 2048);
}

#[test]
fn e1000_descriptor_roundtrip() {
    let t = TxDesc { addr: 0x1122_3344_5566_7788, length: 0x99AA, cso: 1, cmd: 2, status: 3, css: 4, special: 0xBBCC };
    let b = t.to_bytes();
    assert_eq!(b.len(), 16);
    assert_eq!(TxDesc::read_at(&b, 0), t);
    let r = RxDesc { addr: 5, length: 6, csum: 7, status: 8, errors: 9, special: 10 };
    assert_eq!(RxDesc::read_at(&r.to_bytes(), 0), r);
}

fn tulip() -> TulipDevice<MockRegs, MockDma> {
    TulipDevice::new(MockRegs::new(), MockDma::at(0x20_0000)).unwrap()
}

#[test]
fn tulip_with_regions_checks_reachability() {
    let r = |paddr: usize, size: usize| DmaRegion { vaddr: paddr, paddr, size };
    let d = TulipDevice::with_regions(
        MockRegs::new(),
        MockDma::at(0),
        r(0x1000, 4096),
        r(0x2000, 4096),
        r(0x10_0000, 0x8000),
        r(0x20_0000, 0x8000),
    )
    .unwrap();
    assert_eq!(d.tx_bufs_dma, r(0x10_0000, 0x8000));
    assert_eq!((d.tx_next, d.rx_next, d.mac), (0, 0, [0u8; 6]));
    // A buffer area ending past 4 GiB is refused, a ring base above it too.
    assert!(TulipDevice::with_regions(
        MockRegs::new(),
        MockDma::at(0),
        r(0x1000, 4096),
        r(0x2000, 4096),
        r(0xFFFF_F000, 0x2000),
        r(0x20_0000, 0x8000),
    )
    .is_none());
    assert!(TulipDevice::with_regions(
        MockRegs::new(),
        MockDma::at(0),
        r(0x1_0000_0000, 4096),
        r(0x2000, 4096),
        r(0x10_0000, 0x8000),
        r(0x20_0000, 0x8000),
    )
    .is_none());
    // An area that ends exactly at 4 GiB is reachable.
    assert!(TulipDevice::with_regions(
        MockRegs::new(),
        MockDma::at(0),
        r(0x1000, 4096),
        r(0x2000, 4096),
        r(0xFFFF_8000, 0x8000),
        r(0x20_0000, 0x8000),
    )
    .is_some());
}

#[test]
fn tulip_new_refuses_high_memory() {
    assert!(TulipDevice::new(MockRegs::new(), MockDma::at(0x1_0000_0000)).is_none());
    let d = tulip();
    assert_eq!(d.mac(), [0u8; 6]);
    assert_eq!((d.tx_next, d.rx_next), (0, 0));
    assert_eq!(d.csr.get(0), 0x2_0800);
}

#[test]
fn tulip_ring_setup_and_start() {
    let mut d = tulip();
    let mut tx_ring = vec![0u8; tulip::RING_BYTES];
    let mut rx_ring = vec![0u8; tulip::RING_BYTES];
    let bases = d.init_rings(&mut tx_ring, &mut rx_ring);
    assert_eq!(
        bases,
        vec![
            RegWrite { offset: tulip::CSR3 / 4, value: d.rx_ring_dma.paddr as u32 },
            RegWrite { offset: tulip::CSR4 / 4, value: d.tx_ring_dma.paddr as u32 },
        ]
    );
    write_all(&d.csr, &bases);
    let t15 = TulipDesc::read(&tx_ring, 15);
    assert_eq!(t15, TulipDesc { status: 0, control: 0x0200_0000, buf1_addr: (d.tx_bufs_dma.paddr + 15 * 2048) as u32, buf2_addr: 0 });
    let r0 = TulipDesc::read(&rx_ring, 0);
    assert_eq!(r0, TulipDesc { status: 0x8000_0000, control: 2047, buf1_addr: d.rx_bufs_dma.paddr as u32, buf2_addr: 0 });
    assert_eq!(TulipDesc::read(&rx_ring, 15).control, 2047 | 0x0200_0000);
    assert_eq!(d.csr.get(tulip::CSR3 / 4), d.rx_ring_dma.paddr as u32);
    assert_eq!(d.csr.get(tulip::CSR4 / 4), d.tx_ring_dma.paddr as u32);
    d.start([2, 0, 0, 0, 0, 1]);
    assert_eq!(d.mac(), [2, 0, 0, 0, 0, 1]);
    assert_eq!(d.csr.get(tulip::CSR6 / 4), tulip::CSR6_RUN);
    d.enable_interrupts();
    assert_eq!(d.csr.get(tulip::CSR7 / 4), tulip::CSR7_ENABLE);
    d.csr.set(tulip::CSR5 / 4, 0x41);
    assert_eq!(d.handle_interrupt(), 0x41);
    assert_eq!(d.csr.get(tulip::CSR7 / 4), tulip::CSR7_ENABLE);
}

#[test]
fn tulip_receive_and_transmit() {
    let mut d = tulip();
    let mut tx_ring = vec![0u8; tulip::RING_BYTES];
    let mut rx_ring = vec![0u8; tulip::RING_BYTES];
    let bases = d.init_rings(&mut tx_ring, &mut rx_ring);
    write_all(&d.csr, &bases);
    let mut rx_bufs = vec![0u8; tulip::BUFS_BYTES];
    let mut tx_bufs = vec![0u8; tulip::BUFS_BYTES];
    assert!(!d.has_rx_packet(&rx_ring));
    assert_eq!(d.recv_with(&mut rx_ring, &mut rx_bufs, |b: &mut [u8]| b.len()), None);
    // The NIC hands descriptor 0 back with a 64-byte frame.
    rx_bufs[..4].copy_from_slice(&[9, 8, 7, 6]);
    let mut r0 = TulipDesc::read(&rx_ring, 0);
    r0.status = 64 << 16;
    rx_ring[..16].copy_from_slice(&r0.to_bytes());
    assert!(d.has_rx_packet(&rx_ring));
    let got = d.recv_with(&mut rx_ring, &mut rx_bufs, |b: &mut [u8]| (b.len(), b[..4].to_vec()));
    assert_eq!(got, Some((64, vec![9, 8, 7, 6])));
    assert_eq!(d.rx_next, 1);
    assert_eq!(TulipDesc::read(&rx_ring, 0).status, 0x8000_0000);
    assert!(d.has_tx_space(&tx_ring));
    let r = d.transmit_with(60, &mut tx_ring, &mut tx_bufs, |b: &mut [u8]| {
        b[0] = 0xEE;
        b.len()
    });
    assert_eq!(r, Some(60));
    assert_eq!(tx_bufs[0], 0xEE);
    let t0 = TulipDesc::read(&tx_ring, 0);
    assert_eq!(t0.status, 0x8000_0000);
    assert_eq!(t0.control, 60 | 0x2000_0000 | 0x4000_0000);
    assert_eq!(d.tx_next, 1);
    assert_eq!(d.csr.get(tulip::CSR1 / 4), 1);
    d.tx_next = 0;
    assert!(!d.has_tx_space(&tx_ring));
    assert_eq!(d.transmit_with(10, &mut tx_ring, &mut tx_bufs, |b: &mut [u8]| b.len()), None);
    d.free();
}

#[test]
fn tulip_helpers() {
    assert_eq!(rx_frame_length(0x05EA_0000 | 0x8000_0000), 0x5EA);
    assert_eq!(rx_frame_length(0xFFFF_FFFF), 0x3FFF);
    assert_eq!(CsrAccess::Mmio(0x1000).location(tulip::CSR5), 0x1028);
    assert_eq!(CsrAccess::Io(0xC000).location(tulip::CSR9), 0xC048);
    let desc = TulipDesc { status: 1, control: 2, buf1_addr: 3, buf2_addr: 4 };
    assert_eq!(TulipDesc::read(&desc.to_bytes(), 0), desc);
    assert!(tulip::region_addr32(&DmaRegion { vaddr: 0, paddr: 0xFFFF_F000, size: 0x1000 }));
    assert!(!tulip::region_addr32(&DmaRegion { vaddr: 0, paddr: 0xFFFF_F000, size: 0x1001 }));
    assert!(!tulip::region_addr32(&DmaRegion { vaddr: 0, paddr: 0, size: 0 }));
}

#[test]
fn e1000_receive_at_register_value() {
    let mut rx_ring = vec![0u8; RING_BYTES];
    let mut rx_bufs = vec![9u8; BUFS_BYTES];
    for (k, b) in rx_bufs[5 * 2048..5 * 2048 + 100].iter_mut().enumerate() {
        *b = k as u8;
    }
    rx_ring[5 * 16..6 * 16].copy_from_slice(&rx_desc(0x5000, 100, 0x3, 0));
    assert!(rx_has_packet_at(&rx_ring, 4));
    assert!(!rx_has_packet_at(&rx_ring, 5));
    // DD without EOP: not reported, and not received either.
    let mut partial = rx_ring.clone();
    partial[5 * 16..6 * 16].copy_from_slice(&rx_desc(0x5000, 100, 0x1, 0));
    assert!(!rx_has_packet_at(&partial, 4));
    let mut scratch = rx_bufs.clone();
    assert_eq!(recv_at(4, &mut partial, &mut scratch, |b: &mut [u8]| b.len()).0, None);
    // Nothing after RDT = 5: no write, nothing changes.
    let (r, w) = recv_at(5, &mut rx_ring, &mut rx_bufs, |b: &mut [u8]| b.len());
    assert_eq!((r, w), (None, None));
    // RDT = 4: descriptor 5 is handed out, then given back to the hardware.
    let (r, w) = recv_at(4, &mut rx_ring, &mut rx_bufs, |b: &mut [u8]| {
        let first = b[..3].to_vec();
        b[99] = 0xEE;
        (b.len(), first)
    });
    assert_eq!(r, Some((100, vec![0, 1, 2])));
    assert_eq!(w, Some(RegWrite { offset: RDT, value: 5 }));
    assert_eq!(RxDesc::read_at(&rx_ring, 5 * 16).status, 0);
    assert!(rx_bufs[5 * 2048..5 * 2048 + 64].iter().all(|b| *b == 0));
    assert_eq!(rx_bufs[5 * 2048 + 64], 64);
    assert_eq!(rx_bufs[5 * 2048 + 99], 0xEE);
    assert_eq!(rx_bufs[5 * 2048 + 100], 9);
}

#[test]
fn e1000_transmit_at_register_value() {
    let mut tx_ring = vec![0u8; RING_BYTES];
    let mut tx_bufs = vec![0u8; BUFS_BYTES];
    tx_ring[255 * 16..256 * 16].copy_from_slice(&TxDesc { addr: 1, length: 0, cso: 0, cmd: 0, status: 1, css: 0, special: 0 }.to_bytes());
    assert!(tx_space_at(&tx_ring, 255));
    assert!(!tx_space_at(&tx_ring, 0));
    assert!(!tx_space_at(&tx_ring, 256));
    // The last descriptor is queued and TDT wraps to 0.
    let w = transmit_at(255, &mut tx_ring, &mut tx_bufs, &[1, 2, 3]);
    assert_eq!(w, Some(RegWrite { offset: TDT, value: 0 }));
    assert_eq!(&tx_bufs[255 * 2048..255 * 2048 + 3], &[1, 2, 3]);
    let t = TxDesc::read_at(&tx_ring, 255 * 16);
    assert_eq!((t.length, t.cmd, t.status), (3, 0x09, 0));
    // Now owned by the hardware: refused, closure not called.
    assert_eq!(transmit_at(255, &mut tx_ring, &mut tx_bufs, &[4]), None);
    let (r, w) = transmit_with_at(255, 8, &mut tx_ring, &mut tx_bufs, |_b: &mut [u8]| -> u8 { panic!("called") });
    assert_eq!((r, w), (None, None));
    // A free descriptor: the closure fills the buffer, capped at one buffer.
    tx_ring[7 * 16..8 * 16].copy_from_slice(&TxDesc { addr: 1, length: 0, cso: 0, cmd: 0, status: 1, css: 0, special: 0 }.to_bytes());
    let (r, w) = transmit_with_at(7, 5000, &mut tx_ring, &mut tx_bufs, |b: &mut [u8]| {
        b.fill(0x5A);
        b.len()
    });
    assert_eq!(r, Some(2048));
    assert_eq!(w, Some(RegWrite { offset: TDT, value: 8 }));
    assert!(tx_bufs[7 * 2048..8 * 2048].iter().all(|b| *b == 0x5A));
    assert_eq!(TxDesc::read_at(&tx_ring, 7 * 16).length, 2048);
}

#[test]
fn e1000_reset_and_interrupt_steps() {
    assert_eq!(reset_trigger(0x40), RegWrite { offset: CTL, value: 0x40 | CTL_RST });
    assert_eq!(reset_poll(0x40, 5), ResetPoll::Done);
    assert_eq!(reset_poll(CTL_RST, 5), ResetPoll::Again(4));
    assert_eq!(reset_poll(CTL_RST, 1), ResetPoll::TimedOut);
    assert_eq!(
        post_reset_writes(),
        vec![
            RegWrite { offset: IMS, value: 0 },
            RegWrite { offset: CTL, value: 0x60 },
            RegWrite { offset: FCAL, value: 0 },
            RegWrite { offset: FCAH, value: 0 },
            RegWrite { offset: FCT, value: 0 },
            RegWrite { offset: FCTTV, value: 0 },
        ]
    );
    assert_eq!(interrupt_ack(0x84), (InterruptStatus { icr: 0x84 }, RegWrite { offset: ICR, value: 0x84 }));
    assert_eq!(interrupts_on(), RegWrite { offset: IMS, value: 0x84 });
    assert_eq!(interrupts_off(), RegWrite { offset: IMC, value: 0xFFFF_FFFF });
    assert!(link_up_in(0x2));
    assert!(!link_up_in(0x1));
    // The whole reset writes in this order: IMS, CTL with RST, then the post-reset writes.
    let regs = MockRegs::new();
    regs.set(CTL, 0x8);
    assert!(reset_device(&regs));
    let log = regs.log.borrow();
    assert_eq!(log[0], (IMS, 0));
    assert_eq!(log[1], (CTL, 0x8 | CTL_RST));
    assert_eq!(&log[2..], &[(IMS, 0), (CTL, 0x60), (FCAL, 0), (FCAH, 0), (FCT, 0), (FCTTV, 0)]);
}

#[test]
fn tulip_interrupt_writes() {
    assert_eq!(tulip::interrupt_enable_write(), RegWrite { offset: tulip::CSR7 / 4, value: tulip::CSR7_ENABLE });
    assert_eq!(
        tulip::interrupt_ack_writes(0x45),
        vec![
            RegWrite { offset: tulip::CSR5 / 4, value: 0x45 },
            RegWrite { offset: tulip::CSR7 / 4, value: tulip::CSR7_ENABLE },
        ]
    );
    let d = tulip();
    d.csr.set(tulip::CSR5 / 4, 0x45);
    assert_eq!(d.handle_interrupt(), 0x45);
    let log = d.csr.log.borrow();
    let n = log.len();
    assert_eq!(&log[n - 3..], &[(tulip::CSR7 / 4, 0), (tulip::CSR5 / 4, 0x45), (tulip::CSR7 / 4, tulip::CSR7_ENABLE)]);
}

#[test]
fn tulip_allocation_plan_and_bus_mode() {
    assert_eq!(tulip::dma_plan(), vec![(4096, 4096), (4096, 4096), (8 * 4096, 4096), (8 * 4096, 4096)]);
    assert_eq!(tulip::bus_mode_write(), RegWrite { offset: tulip::CSR0 / 4, value: 0x2_0800 });
    let d = tulip();
    // Regions come from the allocator in plan order.
    assert_eq!(d.rx_ring_dma.paddr, d.tx_ring_dma.paddr + 4096);
    assert_eq!(d.tx_bufs_dma.size, 8 * 4096);
    assert_eq!(d.rx_bufs_dma.paddr, d.tx_bufs_dma.paddr + 8 * 4096);
}

#[test]
fn e1000_allocation_plan() {
    assert_eq!(dma_plan(), vec![(4096, 4096), (4096, 4096), (128 * 4096, 4096), (128 * 4096, 4096)]);
    let d = E1000Device::new(MockRegs::new(), MockDma::at(0x20_0000));
    // Regions come from the allocator in plan order.
    assert_eq!(d.tx_ring_dma.size, 4096);
    assert_eq!(d.rx_ring_dma.paddr, 0x20_1000);
    assert_eq!(d.rx_bufs_dma.size, 128 * 4096);
}
