//! I/O APIC redirection-table programming.
//!
//! Registers are reached indirectly: the register number is written to
//! IOREGSEL, then the value is read from or written to IOWIN. Each
//! operation here yields the (register, value) writes it performs.
use vstd::prelude::*;

verus! {

/// IOAPIC default physical address (QEMU q35/pc).
pub const IOAPIC_PHYS_BASE: u64 = 0xFEC0_0000;

pub const IOREGSEL: usize = 0x00;
pub const IOWIN: usize = 0x10;

// IOAPIC registers
pub const IOAPICID: u8 = 0x00;
pub const IOAPICVER: u8 = 0x01;
pub const IOREDTBL_BASE: u8 = 0x10;

/// Redirection entry mask bit.
pub const IOREDTBL_MASKED: u32 = 0x1_0000;

/// One indirect register write: select `reg`, then write `value`.
#[derive(Debug, Clone, Copy, PartialEq, Eq, Structural)]
pub struct IoApicWrite {
    pub reg: u8,
    pub value: u32,
}

/// I/O APIC for routing external interrupts to LAPIC vectors.
pub struct IoApic {
    pub base: usize,
}

/// Register holding the low half of the redirection entry of `irq`.
pub open spec fn redirection_low(irq: u8) -> int {
    IOREDTBL_BASE + irq * 2
}

impl IoApic {
    /// Create from a UC-mapped virtual address.
    pub fn new(base: usize) -> (a: Self)
        ensures
            a.base == base,
    {
        IoApic { base }
    }

    /// Maximum number of redirection entries, from the version register:
    /// the maximum redirection entry index (bits 16..24) plus one.
    pub fn max_entries(&self, version: u32) -> (n: u8)
        requires
            (version >> 16u32) & 0xFFu32 < 0xFF,
        ensures
            n == ((version >> 16u32) & 0xFFu32) + 1,
    {
        let m = (version >> 16) & 0xFF;
        (m as u8) + 1
    }

    /// Route an IRQ to a LAPIC vector: fixed delivery, edge-triggered,
    /// active high, physical destination `lapic_id`. The high half is
    /// written first, then the low half, which unmasks the entry.
    pub fn enable_irq(&mut self, irq: u8, vector: u8, lapic_id: u8) -> (w: Vec<IoApicWrite>)
        requires
            redirection_low(irq) + 1 <= u8::MAX,
        ensures
            final(self).base == old(self).base,
            w@ == seq![
                IoApicWrite { reg: (redirection_low(irq) + 1) as u8, value: (lapic_id as u32) << 24u32 },
                IoApicWrite { reg: redirection_low(irq) as u8, value: vector as u32 },
            ],
    {
        let reg_low = IOREDTBL_BASE + irq * 2;
        let reg_high = reg_low + 1;
        let low = vector as u32;
        let high = (lapic_id as u32) << 24;
        let mut w: Vec<IoApicWrite> = Vec::new();
        w.push(IoApicWrite { reg: reg_high, value: high });
        w.push(IoApicWrite { reg: reg_low, value: low });
        w
    }

    /// Register to read before masking `irq`: the low half of its entry.
    pub fn redirection_register(&self, irq: u8) -> (reg: u8)
        requires
            redirection_low(irq) <= u8::MAX,
        ensures
            reg == redirection_low(irq),
    {
        IOREDTBL_BASE + irq * 2
    }

    /// Mask (disable) an IRQ, given the low half of its entry.
    pub fn disable_irq(&mut self, irq: u8, low: u32) -> (w: IoApicWrite)
        requires
            redirection_low(irq) <= u8::MAX,
        ensures
            final(self).base == old(self).base,
            w == (IoApicWrite { reg: redirection_low(irq) as u8, value: low | IOREDTBL_MASKED }),
    {
        let reg_low = IOREDTBL_BASE + irq * 2;
        IoApicWrite { reg: reg_low, value: low | IOREDTBL_MASKED }
    }
}

} // verus!
