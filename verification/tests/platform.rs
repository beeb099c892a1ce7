use embclox::apic::{LocalApic, APIC_EOI, APIC_LVT_TIMER, APIC_SVR, APIC_TIMER_DIV, APIC_TIMER_INIT_CNT, APIC_TPR};
use embclox::bump::BumpAlloc;
use embclox::dma::DmaRegion;
use embclox::dma_alloc::{pick_dma_region, BootDmaAllocator, Kernfn, MemoryRegion};
use embclox::e1000_pci::{e1000_command_write, pci_enable_bus_mastering, pci_find_e1000, pci_read_command, E1000PciInfo};
use embclox::hal::{Config, Peripherals, Serial, COM1, KERNEL_OFFSET};
use embclox::ioapic::{IoApic, IoApicWrite};
use embclox::memory::{page_count, MemoryMapper, MmioMapping, PageFrame, MMIO_VIRT_BASE};
use embclox::pci::{pci_config_address, pci_read16, pci_write16, PciBus, PciDevice};
use embclox::regs::{MmioRegs, RegWrite};
use embclox::time::{calibrate_tsc_per_us, pit_expected_us, start_apic_timer, AlarmTable, Schedule, TscClock};
use embclox::tulip_pci;
use embclox::pic;
use embclox::pit::{
    calibrate_tsc, calibrate_tsc_mhz, gate_on_quiet, gate_restart_program, pit_expired, pit_gate_on,
    pit_oneshot_program,
};
use embclox::portio::{serial_bytes, uart_init_program, uart_tx_ready, PortWrite};
use embclox::arp::gratuitous_arp;

fn no_devices() -> Vec<u32> {
    vec![0xFFFF_FFFF; 32]
}

#[test]
fn pci_config_address_layout() {
    assert_eq!(pci_config_address(0, 3, 0, 0x10), 0x8000_1810);
    assert_eq!(pci_config_address(1, 31, 7, 0x06), 0x8001_FF04);
}

#[test]
fn pci_16_bit_fields() {
    let dword = 0x0290_0107u32;
    assert_eq!(pci_read16(dword, 4), 0x0107);
    assert_eq!(pci_read16(dword, 6), 0x0290);
    let w = pci_write16(dword, 4, 0x0007);
    assert_eq!(w, 0x0290_0007);
    // Writing a half then reading it back gives the value; the other half stays.
    let w2 = pci_write16(dword, 6, 0xBEEF);
    assert_eq!(pci_read16(w2, 6), 0xBEEF);
    assert_eq!(pci_read16(w2, 4), 0x0107);
}

#[test]
fn pci_scan_finds_first_match() {
    let bus = PciBus;
    let mut ids = no_devices();
    ids[2] = 0x1237_8086;
    ids[5] = 0x100E_8086;
    ids[7] = 0x100E_8086;
    let d = bus.find_device(&ids, 0x8086, 0x100E).unwrap();
    assert_eq!(d, PciDevice { bus: 0, dev: 5, func: 0, vendor: 0x8086, device: 0x100E });
    assert_eq!(bus.find_device(&ids, 0x8086, 0x10D3), None);
    assert_eq!(bus.find_device_any(&ids, 0x8086, &[0x10D3, 0x1237]).unwrap().dev, 2);
    assert_eq!(bus.enable_bus_mastering(&d, 0x0100), 0x0107);
    assert_eq!(bus.bar_offset(1), 0x14);
    assert_eq!(bus.read_bar(&d, 0xFEBC_000F), 0xFEBC_0000);
    assert_eq!(bus.read_config(&d, 0x04), 0x8000_2804);
    assert_eq!(bus.write_config(&d, 0x04, 7), (0x8000_2804, 7));
}

#[test]
fn e1000_scan() {
    let mut ids = no_devices();
    let mut bars = vec![0u32; 32];
    ids[3] = 0x10D3_8086;
    bars[3] = 0xFEB8_0004;
    let info = pci_find_e1000(&ids, &bars).unwrap();
    assert_eq!(info.dev, 3);
    assert_eq!((info.bus, info.func), (0, 0));
    assert_eq!(info.bar0_phys, 0xFEB8_0000);
    assert!(pci_find_e1000(&no_devices(), &vec![0u32; 32]).is_none());
    assert_eq!(pci_enable_bus_mastering(0x0400), 0x0407);
    assert_eq!(pci_read_command(0x0010_0003), 0x0003);
}

#[test]
fn e1000_command_write_sets_io_memory_and_bus_master() {
    let info = E1000PciInfo { bar0_phys: 0xFEB8_0000, bus: 0, dev: 3, func: 0 };
    // Status in the high half is kept, the command gains bits 0..2.
    assert_eq!(e1000_command_write(&info, 0x0010_0400), (0x8000_1804, 0x0010_0407));
}

#[test]
fn tulip_scan_and_bar() {
    let mut ids = no_devices();
    ids[1] = 0x0002_1011;
    ids[4] = 0x0019_1011;
    assert_eq!(tulip_pci::find_tulip(&ids), Some((4, 0x19)));
    ids[0] = 0x0009_1011;
    assert_eq!(tulip_pci::find_tulip(&ids), Some((0, 0x09)));
    assert_eq!(tulip_pci::find_tulip(&no_devices()), None);
    assert_eq!(tulip_pci::pci_enable_bus_mastering(0x0001), 0x0005);
    assert_eq!(tulip_pci::pci_read_bar0(0xC001, 0x1234), 0xC000);
    assert_eq!(tulip_pci::pci_read_bar0(0xFEBF_0000, 0x1234), 0xFEBF_0000);
    assert_eq!(tulip_pci::pci_read_bar0(0xFEBF_0004, 0x1), 0x1_FEBF_0000);
}

#[test]
fn lapic_programs() {
    let mut a = LocalApic::new(0x1000);
    assert_eq!(a.register(APIC_EOI), 0x10B0);
    assert_eq!(
        a.enable(),
        vec![RegWrite { offset: APIC_SVR, value: 0x127 }, RegWrite { offset: APIC_TPR, value: 0 }]
    );
    assert_eq!(a.set_divider(16), RegWrite { offset: APIC_TIMER_DIV, value: 0b0011 });
    assert_eq!(a.set_divider(1), RegWrite { offset: APIC_TIMER_DIV, value: 0b1011 });
    assert_eq!(a.set_divider(128), RegWrite { offset: APIC_TIMER_DIV, value: 0b1010 });
    assert_eq!(
        a.set_timer_periodic(32, 16, 1000),
        vec![
            RegWrite { offset: APIC_TIMER_DIV, value: 3 },
            RegWrite { offset: APIC_LVT_TIMER, value: 0x2_0020 },
            RegWrite { offset: APIC_TIMER_INIT_CNT, value: 1000 },
        ]
    );
    assert_eq!(a.mask_timer(0x2_0020), RegWrite { offset: APIC_LVT_TIMER, value: 0x3_0020 });
    assert_eq!(a.timer_current_count(), 0x1390);
    assert_eq!(a.set_timer_initial_count(0xFFFF_FFFF), RegWrite { offset: APIC_TIMER_INIT_CNT, value: 0xFFFF_FFFF });
    assert_eq!(
        a.set_timer_oneshot_masked(16),
        vec![RegWrite { offset: APIC_TIMER_DIV, value: 3 }, RegWrite { offset: APIC_LVT_TIMER, value: 0x1_0020 }]
    );
    assert_eq!(a.end_of_interrupt(), RegWrite { offset: APIC_EOI, value: 0 });
}

#[test]
fn ioapic_programs() {
    let mut io = IoApic::new(0x2000);
    assert_eq!(io.max_entries(0x0017_0011), 24);
    assert_eq!(
        io.enable_irq(11, 0x30, 2),
        vec![IoApicWrite { reg: 0x27, value: 0x0200_0000 }, IoApicWrite { reg: 0x26, value: 0x30 }]
    );
    assert_eq!(io.redirection_register(11), 0x26);
    assert_eq!(io.disable_irq(11, 0x30), IoApicWrite { reg: 0x26, value: 0x1_0030 });
}

#[test]
fn tsc_clock_and_calibration() {
    let mut c = TscClock::new(1);
    assert_eq!(c.now(5000), 5000);
    c.set_tsc_per_us(2500);
    assert_eq!(c.now(5_000_000), 2000);
    assert_eq!(pit_expected_us(0xFFFF), 54_924);
    assert_eq!(pit_expected_us(11932), 10000);
    assert_eq!(calibrate_tsc_per_us(137_310_000, 54_924), 2500);
    // Later readings never give an earlier time.
    let c = TscClock::new(3);
    let mut last = 0;
    for t in [0u64, 1, 2, 3, 299, 300, 301, u64::MAX] {
        assert!(c.now(t) >= last);
        last = c.now(t);
    }
}

#[test]
fn apic_timer_start() {
    let mut a = LocalApic::new(0);
    let w = start_apic_timer(&mut a, 2000, 1000);
    assert_eq!(w[0], RegWrite { offset: APIC_TIMER_DIV, value: 3 });
    assert_eq!(w[1], RegWrite { offset: APIC_LVT_TIMER, value: 0x2_0020 });
    assert_eq!(w[2], RegWrite { offset: APIC_TIMER_INIT_CNT, value: 125_000 });
}

#[test]
fn alarm_table_schedules_and_expires() {
    let mut t = AlarmTable::new(3);
    assert_eq!(t.slots, vec![None, None, None]);
    assert_eq!(t.schedule_wake(100, 100, None), Schedule::WakeNow);
    assert_eq!(t.schedule_wake(200, 100, None), Schedule::Inserted(0));
    assert_eq!(t.schedule_wake(300, 100, None), Schedule::Inserted(1));
    assert_eq!(t.schedule_wake(250, 100, Some(0)), Schedule::Updated(0));
    assert_eq!(t.slots, vec![Some(250), Some(300), None]);
    // A stale match falls back to a free slot.
    assert_eq!(t.schedule_wake(400, 100, Some(2)), Schedule::Inserted(2));
    assert_eq!(t.schedule_wake(500, 100, None), Schedule::WakeNow);
    assert_eq!(t.on_timer_tick(299), vec![0]);
    assert_eq!(t.slots, vec![None, Some(300), Some(400)]);
    assert_eq!(t.on_timer_tick(1000), vec![1, 2]);
    assert_eq!(t.slots, vec![None, None, None]);
    assert_eq!(t.on_timer_tick(2000), Vec::<usize>::new());
}

#[test]
fn scheduled_alarm_fires_exactly_at_its_deadline() {
    let mut t = AlarmTable::new(2);
    assert_eq!(t.schedule_wake(500, 10, None), Schedule::Inserted(0));
    assert_eq!(t.on_timer_tick(499), Vec::<usize>::new());
    assert_eq!(t.slots, vec![Some(500), None]);
    assert_eq!(t.on_timer_tick(500), vec![0]);
    assert_eq!(t.slots, vec![None, None]);
}

#[test]
fn bump_allocation() {
    let mut b = BumpAlloc::new(0x1000, 0x100);
    assert_eq!(b.allocate(10, 1), Some(0x1000));
    assert_eq!(b.allocate(16, 16), Some(0x1010));
    assert_eq!(b.offset, 0x20);
    assert_eq!(b.allocate(0x100, 8), None);
    assert_eq!(b.offset, 0x20);
    assert_eq!(b.allocate(0x20, 0x40), Some(0x1040));
    assert_eq!(b.allocate(0xA0, 1), Some(0x1060));
    assert_eq!(b.allocate(1, 1), None);
}

#[test]
fn boot_dma_translation() {
    let a = BootDmaAllocator { kernel_offset: 0xFF_FF00_0000, phys_offset: 0x1000_0000_0000 };
    let r = a.region_for(0xFF_FF20_0000, 8192);
    assert_eq!(r, DmaRegion { vaddr: 0x1000_0020_0000, paddr: 0x20_0000, size: 8192 });
    assert_eq!(a.heap_addr(&r), 0xFF_FF20_0000);
    let k = Kernfn { kernel_offset: 0xFF_FF00_0000, phys_offset: 0x1000_0000_0000 };
    assert_eq!(k.dma_bytes(3), 12288);
    assert_eq!(k.dma_alloc_coherent(0xFF_FF20_0000), (0x1000_0020_0000, 0x20_0000));
    assert_eq!(k.dma_free_coherent(0x1000_0020_0000), 0xFF_FF20_0000);
}

#[test]
fn hal_defaults() {
    let c = Config::default();
    assert_eq!(c.serial_port, COM1);
    assert_eq!(c.serial_port, 0x3F8);
    assert_eq!(c.heap_size, 4 * 1024 * 1024);
    let p = Peripherals::from_config(&c, 0x1000_0000_0000);
    assert_eq!(p.serial, Serial::new(0x3F8));
    assert_eq!(p.serial.port(), 0x3F8);
    assert_eq!(p.memory.phys_offset(), 0x1000_0000_0000);
    assert_eq!(p.memory.kernel_offset(), KERNEL_OFFSET);
    assert_eq!(p.memory.next_vaddr, MMIO_VIRT_BASE);
}

#[test]
fn memory_mapper_plans_pages_with_guard() {
    assert_eq!(page_count(0), 0);
    assert_eq!(page_count(1), 1);
    assert_eq!(page_count(4096), 1);
    assert_eq!(page_count(4097), 2);
    let mut m = MemoryMapper::new(0x1000_0000_0000, KERNEL_OFFSET);
    let (a, pages) = m.map_mmio(0xFEBC_0000, 0x2_0000);
    assert_eq!(a, MmioMapping { vaddr: MMIO_VIRT_BASE as usize, size: 0x2_0000 });
    assert_eq!(a.page_count(), 32);
    assert_eq!(pages.len(), 32);
    assert_eq!(pages[1], PageFrame { page: MMIO_VIRT_BASE + 4096, frame: 0xFEBC_1000 });
    let (b, pages) = m.map_code(0x3_0000, 100);
    assert_eq!(b.vaddr(), MMIO_VIRT_BASE as usize + 33 * 4096);
    assert_eq!(b.size(), 100);
    assert_eq!(pages, vec![PageFrame { page: MMIO_VIRT_BASE + 33 * 4096, frame: 0x3_0000 }]);
    assert_eq!(m.next_vaddr, MMIO_VIRT_BASE + 35 * 4096);
    assert_eq!(m.frame_paddr(KERNEL_OFFSET + 0x5000), 0x5000);
    // A region that starts inside a page maps the frames that hold it.
    let (_, pages) = m.map_mmio(0xFEC0_0010, 4097);
    assert_eq!(pages[0].frame, 0xFEC0_0000);
    assert_eq!(pages[1].frame, 0xFEC0_1000);
}

#[test]
fn legacy_mapper_returns_address() {
    let mut m = embclox::x86_memory::MemoryMapper::new(0, KERNEL_OFFSET);
    let (a, pages) = m.map_mmio(0xFEE0_0000, 4096);
    assert_eq!(a, MMIO_VIRT_BASE as usize);
    assert_eq!(pages.len(), 1);
    let (b, _) = m.map_mmio(0xFEC0_0000, 4096);
    assert_eq!(b, MMIO_VIRT_BASE as usize + 2 * 4096);
}

#[test]
fn mmio_register_address() {
    let r = MmioRegs::new(0x4000);
    assert_eq!(r.address(embclox::regs::RDT), 0x4000 + 0x2818);
}

#[test]
fn pic_disable_masks_everything() {
    let p = pic::disable();
    assert_eq!(p.len(), 10);
    assert_eq!(p[0], PortWrite { port: 0x20, value: 0x11 });
    assert_eq!(p[2], PortWrite { port: 0x21, value: 0x20 });
    assert_eq!(p[3], PortWrite { port: 0xA1, value: 0x28 });
    assert_eq!(p[8], PortWrite { port: 0x21, value: 0xFF });
    assert_eq!(p[9], PortWrite { port: 0xA1, value: 0xFF });
}

#[test]
fn pit_one_shot() {
    assert_eq!(pit_gate_on(0x02), 0x01);
    assert_eq!(pit_gate_on(0xF0), 0xF1);
    assert_eq!(
        pit_oneshot_program(11932),
        vec![
            PortWrite { port: 0x43, value: 0xB0 },
            PortWrite { port: 0x42, value: 0x9C },
            PortWrite { port: 0x42, value: 0x2E },
        ]
    );
    assert!(pit_expired(0x20));
    assert!(!pit_expired(0xDF));
    assert_eq!(calibrate_tsc_mhz(25_000_000), 2500);
    assert_eq!(calibrate_tsc_mhz(9_999), 0);
    assert_eq!(gate_on_quiet(0xFF), 0x0D);
    assert_eq!(
        gate_restart_program(0x0D),
        vec![PortWrite { port: 0x61, value: 0x0C }, PortWrite { port: 0x61, value: 0x0D }]
    );
    assert_eq!(calibrate_tsc(150_000_000), 3000);
}

#[test]
fn uart_setup_and_crlf() {
    let p = uart_init_program(0x3F8);
    assert_eq!(p.len(), 7);
    assert_eq!(p[1], PortWrite { port: 0x3FB, value: 0x80 });
    assert_eq!(p[2], PortWrite { port: 0x3F8, value: 0x01 });
    assert_eq!(p[6], PortWrite { port: 0x3FC, value: 0x0B });
    assert!(uart_tx_ready(0x60));
    assert!(!uart_tx_ready(0x01));
    assert_eq!(serial_bytes("a\nb\n"), b"a\r\nb\r\n".to_vec());
    assert_eq!(serial_bytes(""), Vec::<u8>::new());
}

#[test]
fn gratuitous_arp_frame() {
    let mac = [0x00, 0x15, 0x5D, 0x01, 0x02, 0x03];
    let f = gratuitous_arp(mac, [10, 0, 0, 2]);
    assert_eq!(&f[0..6], &[0xFF; 6]);
    assert_eq!(&f[6..12], &mac);
    assert_eq!(&f[12..14], &[0x08, 0x06]);
    assert_eq!(&f[14..22], &[0, 1, 0x08, 0x00, 6, 4, 0, 1]);
    assert_eq!(&f[22..28], &mac);
    assert_eq!(&f[28..32], &[10, 0, 0, 2]);
    assert_eq!(&f[32..38], &[0; 6]);
    assert_eq!(&f[38..42], &[10, 0, 0, 2]);
    assert_eq!(&f[42..60], &[0; 18]);
}

#[test]
fn unmap_plan_covers_the_mapping() {
    let m = MemoryMapper::new(0, KERNEL_OFFSET);
    let pages = m.unmap_mmio(&MmioMapping { vaddr: 0x4000_0000_0000, size: 8193 });
    assert_eq!(pages, vec![0x4000_0000_0000, 0x4000_0000_1000, 0x4000_0000_2000]);
    assert!(m.unmap_mmio(&MmioMapping { vaddr: 0x1000, size: 0 }).is_empty());
}

fn region(base: u64, length: u64, usable: bool) -> MemoryRegion {
    MemoryRegion { base, length, usable }
}

#[test]
fn dma_pool_takes_longest_usable_region_below_4g() {
    let map = [
        region(0x1000, 0x9_F000, true),
        region(0x10_0000, 0x7FF0_0000, true),
        region(0x8000_0000, 0x1000_0000, false),
        region(0x1_0000_0000, 0x4000_0000, true),
        region(0x9000_0000, 0x7FF0_0000, true),
    ];
    // Equal lengths: the first one wins.
    assert_eq!(pick_dma_region(&map), Some(map[1]));
    assert_eq!(pick_dma_region(&map[2..4]), None);
    assert_eq!(pick_dma_region(&[]), None);
    // A region reaching past 4 GiB does not qualify.
    assert_eq!(pick_dma_region(&[region(0xF000_0000, 0x1000_0000, true)]), None);
    assert_eq!(pick_dma_region(&[region(0xF000_0000, 0x0FFF_FFFF, true)]), Some(region(0xF000_0000, 0x0FFF_FFFF, true)));
    assert_eq!(pick_dma_region(&[region(0x1000, 0, true)]), None);
}
