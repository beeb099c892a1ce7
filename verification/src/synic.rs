//! SynIC (Synthetic Interrupt Controller) setup and message slot handling.
//!
//! The SynIC provides the message delivery mechanism for VMBus. The
//! hypervisor writes VMBus responses to the SIMP (SynIC Message Page) at
//! SINT slot 2. Each slot is an `HvMessage`: type (u32), payload size (u8),
//! flags (u8, bit 0 = more messages pending), reserved (u16), origination
//! id (u64), payload (240 bytes).
use vstd::prelude::*;
use vstd::bytes::*;
use crate::wire::{copy_into, push_u32_le, read_u32_le, sub_vec, u32_at, zeros};
use crate::dma::DmaRegion;

verus! {

// Hyper-V synthetic MSRs (TLFS).
pub const HV_X64_MSR_HYPERCALL: u32 = 0x4000_0001;
pub const HV_X64_MSR_SCONTROL: u32 = 0x4000_0080;
pub const HV_X64_MSR_SIEFP: u32 = 0x4000_0082;
pub const HV_X64_MSR_SIMP: u32 = 0x4000_0083;
pub const HV_X64_MSR_EOM: u32 = 0x4000_0084;
pub const HV_X64_MSR_SINT0: u32 = 0x4000_0090;

/// SINT used for VMBus messages.
pub const VMBUS_SINT: u32 = 2;

/// Size of one message slot in the SIMP page.
pub const HV_MESSAGE_SIZE: usize = 256;

/// Largest message payload.
pub const HV_MESSAGE_PAYLOAD_MAX: usize = 240;

/// Offset of the payload within a message slot.
pub const HV_MESSAGE_PAYLOAD_OFFSET: usize = 16;

/// SINT auto-EOI bit.
pub const SINT_AUTO_EOI: u64 = 0x2_0000;

/// One MSR write of a register program.
#[derive(Debug, Clone, Copy, PartialEq, Eq, Structural)]
pub struct MsrWrite {
    pub msr: u32,
    pub value: u64,
}

/// SynIC state: owns the SIMP and SIEFP pages.
pub struct SynIC {
    pub simp: DmaRegion,
    pub siefp: DmaRegion,
}

/// MSR writes that enable the SynIC: SCONTROL, SIMP and SIEFP (GPA with
/// the enable bit), then SINT2 with the interrupt vector and auto-EOI.
pub open spec fn enable_program(simp_paddr: u64, siefp_paddr: u64, vector: u8) -> Seq<MsrWrite> {
    seq![
        MsrWrite { msr: HV_X64_MSR_SCONTROL, value: 1 },
        MsrWrite { msr: HV_X64_MSR_SIMP, value: simp_paddr | 1 },
        MsrWrite { msr: HV_X64_MSR_SIEFP, value: siefp_paddr | 1 },
        MsrWrite { msr: (HV_X64_MSR_SINT0 + VMBUS_SINT) as u32, value: (vector as u64) | SINT_AUTO_EOI },
    ]
}

/// Payload of the message in a slot, or `None` when the slot is empty
/// (message type 0). The declared size is capped at 240 bytes.
pub open spec fn slot_message(slot: Seq<u8>) -> Option<Seq<u8>> {
    if u32_at(slot, 0) == 0 {
        None
    } else {
        let size = if slot[4] < 240 {
            slot[4] as int
        } else {
            240
        };
        Some(slot.subrange(16, 16 + size))
    }
}

impl SynIC {
    /// SynIC over the given message and event-flags pages.
    pub fn new(simp: DmaRegion, siefp: DmaRegion) -> (s: Self)
        ensures
            s.simp == simp,
            s.siefp == siefp,
    {
        SynIC { simp, siefp }
    }

    /// MSR writes that enable the SynIC and route SINT2 to `vector`.
    pub fn enable_program(&self, vector: u8) -> (w: Vec<MsrWrite>)
        ensures
            w@ == enable_program(self.simp.paddr as u64, self.siefp.paddr as u64, vector),
    {
        let mut w: Vec<MsrWrite> = Vec::new();
        w.push(MsrWrite { msr: HV_X64_MSR_SCONTROL, value: 1 });
        w.push(MsrWrite { msr: HV_X64_MSR_SIMP, value: (self.simp.paddr as u64) | 1 });
        w.push(MsrWrite { msr: HV_X64_MSR_SIEFP, value: (self.siefp.paddr as u64) | 1 });
        w.push(MsrWrite { msr: HV_X64_MSR_SINT0 + VMBUS_SINT, value: (vector as u64) | SINT_AUTO_EOI });
        assert(w@ =~= enable_program(self.simp.paddr as u64, self.siefp.paddr as u64, vector));
        w
    }

    /// Address of the VMBus SINT message slot in the SIMP page.
    pub fn message_slot(&self) -> (a: usize)
        requires
            self.simp.vaddr + 512 <= usize::MAX,
        ensures
            a == self.simp.vaddr + (VMBUS_SINT as int) * 256,
    {
        self.simp.vaddr + (VMBUS_SINT as usize) * HV_MESSAGE_SIZE
    }

    /// The payload of the message in `slot` (the VMBus message slot's
    /// bytes), or `None` when the slot is empty.
    pub fn poll_message(&self, slot: &[u8]) -> (m: Option<Vec<u8>>)
        requires
            slot@.len() >= HV_MESSAGE_SIZE,
        ensures
            match m {
                Some(p) => slot_message(slot@) == Some(p@),
                None => slot_message(slot@) is None,
            },
    {
        let msg_type = read_u32_le(slot, 0);
        if msg_type == 0 {
            return None;
        }
        let size = if (slot[4] as usize) < HV_MESSAGE_PAYLOAD_MAX {
            slot[4] as usize
        } else {
            HV_MESSAGE_PAYLOAD_MAX
        };
        Some(sub_vec(slot, HV_MESSAGE_PAYLOAD_OFFSET, size))
    }

    /// Acknowledge the current message: its type word is cleared to free
    /// the slot. Returns whether more messages are pending (flags bit 0),
    /// in which case the caller writes EOM to have the next one delivered.
    pub fn ack_message(&self, slot: &mut [u8]) -> (eom: bool)
        requires
            old(slot)@.len() >= HV_MESSAGE_SIZE,
        ensures
            eom == (old(slot)@[5] & 1u8 != 0),
            final(slot)@ == spec_u32_to_le_bytes(0) + old(slot)@.subrange(4, old(slot)@.len() as int),
    {
        let flags = slot[5];
        let mut z: Vec<u8> = Vec::new();
        push_u32_le(&mut z, 0);
        proof {
            lemma_auto_spec_u32_to_from_le_bytes();
        }
        copy_into(slot, z.as_slice());
        flags & 1 != 0
    }
}

/// Acknowledging a message empties the slot: polling it afterwards finds
/// nothing until the hypervisor delivers the next one.
pub proof fn lemma_ack_empties_slot(slot: Seq<u8>)
    requires
        slot.len() >= HV_MESSAGE_SIZE,
    ensures
        slot_message(spec_u32_to_le_bytes(0) + slot.subrange(4, slot.len() as int)) is None,
{
    lemma_auto_spec_u32_to_from_le_bytes();
    let s = spec_u32_to_le_bytes(0) + slot.subrange(4, slot.len() as int);
    assert(s.subrange(0, 4) =~= spec_u32_to_le_bytes(0));
}

} // verus!
