//! Platform configuration and the peripherals handed out at start-up.
use vstd::prelude::*;
use crate::memory::MemoryMapper;
use crate::pci::PciBus;

verus! {

/// Kernel virtual-to-physical offset of the bootloader's kernel mapping.
pub const KERNEL_OFFSET: u64 = 0xFF_FF00_0000;

/// Standard COM1 port.
pub const COM1: u16 = 0x3F8;

/// Default heap size: 4 MiB.
pub const DEFAULT_HEAP_SIZE: usize = 4 * 1024 * 1024;

/// HAL configuration.
pub struct Config {
    pub serial_port: u16,
    pub heap_size: usize,
}

impl Default for Config {
    /// COM1 and a 4 MiB heap.
    fn default() -> (c: Self)
        ensures
            c.serial_port == COM1,
            c.heap_size == DEFAULT_HEAP_SIZE,
    {
        Config { serial_port: COM1, heap_size: DEFAULT_HEAP_SIZE }
    }
}

/// UART 16550 serial port handle.
#[derive(Debug, Clone, Copy, PartialEq, Eq, Structural)]
pub struct Serial {
    pub port: u16,
}

impl Serial {
    /// Create a serial port handle for the given I/O port address.
    pub fn new(port: u16) -> (s: Self)
        ensures
            s.port == port,
    {
        Serial { port }
    }

    /// Get the I/O port address.
    pub fn port(&self) -> (p: u16)
        ensures
            p == self.port,
    {
        self.port
    }
}

/// Platform peripherals handed out at start-up.
pub struct Peripherals {
    pub serial: Serial,
    pub pci: PciBus,
    pub memory: MemoryMapper,
}

impl Peripherals {
    /// Peripherals for `config` once the bootloader reported the physical
    /// memory offset: the configured serial port, the PCI bus, and a
    /// memory mapper with that offset and the kernel's fixed offset.
    pub fn from_config(config: &Config, phys_offset: u64) -> (p: Self)
        ensures
            p.serial.port == config.serial_port,
            p.memory.phys_offset == phys_offset,
            p.memory.kernel_offset == KERNEL_OFFSET,
            p.memory.next_vaddr == crate::memory::MMIO_VIRT_BASE,
    {
        Peripherals {
            serial: Serial::new(config.serial_port),
            pci: PciBus,
            memory: MemoryMapper::new(phys_offset, KERNEL_OFFSET),
        }
    }
}

} // verus!
