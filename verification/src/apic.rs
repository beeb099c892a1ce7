//! Local APIC (xAPIC) register programming.
//!
//! Each operation yields the register writes it performs, as byte
//! offsets from the LAPIC base; the caller issues them as volatile
//! 32-bit stores to the uncached mapping of `LAPIC_PHYS_BASE`.
use vstd::prelude::*;
use crate::regs::RegWrite;

verus! {

/// Local APIC register offsets (from base address).
pub const APIC_ID: usize = 0x020;
pub const APIC_VERSION: usize = 0x030;
pub const APIC_TPR: usize = 0x080;
pub const APIC_EOI: usize = 0x0B0;
pub const APIC_SVR: usize = 0x0F0;
pub const APIC_LVT_TIMER: usize = 0x320;
pub const APIC_TIMER_INIT_CNT: usize = 0x380;
pub const APIC_TIMER_CURR_CNT: usize = 0x390;
pub const APIC_TIMER_DIV: usize = 0x3E0;

pub const APIC_SVR_ENABLE: u32 = 0x100;
pub const APIC_TIMER_PERIODIC: u32 = 0x2_0000;
pub const APIC_TIMER_MASKED: u32 = 0x1_0000;

/// Spurious interrupt vector programmed by `enable`.
pub const APIC_SPURIOUS_VECTOR: u32 = 39;

/// LAPIC physical address (standard for xAPIC).
pub const LAPIC_PHYS_BASE: u64 = 0xFEE0_0000;

/// Local APIC (Advanced Programmable Interrupt Controller).
pub struct LocalApic {
    pub base: usize,
}

/// Timer dividers the hardware supports.
pub open spec fn valid_divider(divider: u8) -> bool {
    divider == 1 || divider == 2 || divider == 4 || divider == 8 || divider == 16 || divider == 32
        || divider == 64 || divider == 128
}

/// Divide configuration register value for a divider.
pub open spec fn divider_code(divider: u8) -> u32 {
    if divider == 1 {
        0b1011
    } else if divider == 2 {
        0b0000
    } else if divider == 4 {
        0b0001
    } else if divider == 8 {
        0b0010
    } else if divider == 16 {
        0b0011
    } else if divider == 32 {
        0b1000
    } else if divider == 64 {
        0b1001
    } else {
        0b1010
    }
}

/// Divider the timer applies for a divide configuration value (Intel
/// SDM): bits 0, 1 and 3 form a number n; n = 7 divides by 1, otherwise
/// by 2 to the power n + 1.
pub open spec fn decoded_divider(code: u32) -> int {
    let n = (code & 3) + if code & 8 != 0 {
        4int
    } else {
        0int
    };
    if n == 7 {
        1
    } else if n == 0 {
        2
    } else if n == 1 {
        4
    } else if n == 2 {
        8
    } else if n == 3 {
        16
    } else if n == 4 {
        32
    } else if n == 5 {
        64
    } else {
        128
    }
}

/// The divide configuration written for a divider is the one the
/// hardware decodes back to that divider.
pub proof fn lemma_divider_code_decodes(divider: u8)
    requires
        valid_divider(divider),
    ensures
        decoded_divider(divider_code(divider)) == divider,
{
    assert(0b1011u32 & 3 == 3 && 0b1011u32 & 8 != 0) by (bit_vector);
    assert(0b0000u32 & 3 == 0 && 0b0000u32 & 8 == 0) by (bit_vector);
    assert(0b0001u32 & 3 == 1 && 0b0001u32 & 8 == 0) by (bit_vector);
    assert(0b0010u32 & 3 == 2 && 0b0010u32 & 8 == 0) by (bit_vector);
    assert(0b0011u32 & 3 == 3 && 0b0011u32 & 8 == 0) by (bit_vector);
    assert(0b1000u32 & 3 == 0 && 0b1000u32 & 8 != 0) by (bit_vector);
    assert(0b1001u32 & 3 == 1 && 0b1001u32 & 8 != 0) by (bit_vector);
    assert(0b1010u32 & 3 == 2 && 0b1010u32 & 8 != 0) by (bit_vector);
}

impl LocalApic {
    /// Create a new LAPIC instance from a UC-mapped virtual address.
    /// Map `LAPIC_PHYS_BASE` first.
    pub fn new(base: usize) -> (a: Self)
        ensures
            a.base == base,
    {
        LocalApic { base }
    }

    /// Virtual address of the register at byte offset `offset`.
    pub fn register(&self, offset: usize) -> (a: usize)
        requires
            self.base + offset <= usize::MAX,
        ensures
            a == self.base + offset,
    {
        self.base + offset
    }

    /// Enable the LAPIC with spurious vector 39 and task priority 0
    /// (accept all interrupts).
    pub fn enable(&mut self) -> (w: Vec<RegWrite>)
        ensures
            final(self).base == old(self).base,
            w@ == seq![
                RegWrite { offset: APIC_SVR, value: APIC_SVR_ENABLE | APIC_SPURIOUS_VECTOR },
                RegWrite { offset: APIC_TPR, value: 0 },
            ],
    {
        let mut w: Vec<RegWrite> = Vec::new();
        w.push(RegWrite { offset: APIC_SVR, value: APIC_SVR_ENABLE | APIC_SPURIOUS_VECTOR });
        w.push(RegWrite { offset: APIC_TPR, value: 0 });
        w
    }

    /// Divide configuration write for a timer divider.
    pub fn set_divider(&mut self, divider: u8) -> (w: RegWrite)
        requires
            valid_divider(divider),
        ensures
            final(self).base == old(self).base,
            w == (RegWrite { offset: APIC_TIMER_DIV, value: divider_code(divider) }),
    {
        let val: u32 = match divider {
            1 => 0b1011,
            2 => 0b0000,
            4 => 0b0001,
            8 => 0b0010,
            16 => 0b0011,
            32 => 0b1000,
            64 => 0b1001,
            _ => 0b1010,
        };
        RegWrite { offset: APIC_TIMER_DIV, value: val }
    }

    /// Configure the APIC timer in periodic mode: divider, then the LVT
    /// entry (periodic, `vector`, not masked), then the initial count.
    pub fn set_timer_periodic(&mut self, vector: u8, divider: u8, initial_count: u32) -> (w: Vec<RegWrite>)
        requires
            valid_divider(divider),
        ensures
            final(self).base == old(self).base,
            w@ == seq![
                RegWrite { offset: APIC_TIMER_DIV, value: divider_code(divider) },
                RegWrite { offset: APIC_LVT_TIMER, value: APIC_TIMER_PERIODIC | (vector as u32) },
                RegWrite { offset: APIC_TIMER_INIT_CNT, value: initial_count },
            ],
    {
        let mut w: Vec<RegWrite> = Vec::new();
        w.push(self.set_divider(divider));
        w.push(RegWrite { offset: APIC_LVT_TIMER, value: APIC_TIMER_PERIODIC | vector as u32 });
        w.push(RegWrite { offset: APIC_TIMER_INIT_CNT, value: initial_count });
        w
    }

    /// Mask (disable) the timer interrupt, given the LVT timer entry's
    /// current value.
    pub fn mask_timer(&mut self, lvt: u32) -> (w: RegWrite)
        ensures
            final(self).base == old(self).base,
            w == (RegWrite { offset: APIC_LVT_TIMER, value: lvt | APIC_TIMER_MASKED }),
    {
        RegWrite { offset: APIC_LVT_TIMER, value: lvt | APIC_TIMER_MASKED }
    }

    /// Virtual address of the current-count register (read for calibration).
    pub fn timer_current_count(&self) -> (a: usize)
        requires
            self.base + APIC_TIMER_CURR_CNT <= usize::MAX,
        ensures
            a == self.base + APIC_TIMER_CURR_CNT,
    {
        self.base + APIC_TIMER_CURR_CNT
    }

    /// Set initial timer count (for calibration).
    pub fn set_timer_initial_count(&mut self, count: u32) -> (w: RegWrite)
        ensures
            final(self).base == old(self).base,
            w == (RegWrite { offset: APIC_TIMER_INIT_CNT, value: count }),
    {
        RegWrite { offset: APIC_TIMER_INIT_CNT, value: count }
    }

    /// Set timer in one-shot mode with masked interrupt (for calibration):
    /// divider, then the LVT entry (masked, vector 32).
    pub fn set_timer_oneshot_masked(&mut self, divider: u8) -> (w: Vec<RegWrite>)
        requires
            valid_divider(divider),
        ensures
            final(self).base == old(self).base,
            w@ == seq![
                RegWrite { offset: APIC_TIMER_DIV, value: divider_code(divider) },
                RegWrite { offset: APIC_LVT_TIMER, value: APIC_TIMER_MASKED | 32 },
            ],
    {
        let mut w: Vec<RegWrite> = Vec::new();
        w.push(self.set_divider(divider));
        w.push(RegWrite { offset: APIC_LVT_TIMER, value: APIC_TIMER_MASKED | 32 });
        w
    }

    /// End-of-interrupt write.
    pub fn end_of_interrupt(&self) -> (w: RegWrite)
        ensures
            w == (RegWrite { offset: APIC_EOI, value: 0 }),
    {
        RegWrite { offset: APIC_EOI, value: 0 }
    }
}

} // verus!
