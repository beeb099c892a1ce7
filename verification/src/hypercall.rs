//! Hyper-V hypercall page setup and HvPostMessage.
//!
//! The hypercall instruction itself is issued by the caller; this module
//! holds the page bookkeeping, lays out the HvPostMessage input block and
//! decides what each returned status means.
use vstd::prelude::*;
use vstd::bytes::*;
use crate::wire::{append_bytes, append_zeros, copy_into, push_u32_le, zeros};
use crate::channel::HvError;
use crate::dma::DmaRegion;
use crate::memory::MmioMapping;

verus! {

/// Hypercall code for HvPostMessage.
pub const HV_POST_MESSAGE: u64 = 0x005C;

/// Hypercall code for HvSignalEvent.
pub const HV_SIGNAL_EVENT: u64 = 0x005D;

/// Fast hypercall flag (input in registers, not GPA).
pub const HV_HYPERCALL_FAST: u64 = 0x1_0000;

/// Transient status: the host has no buffer for the message yet.
pub const HV_STATUS_INSUFFICIENT_BUFFERS: u16 = 0x13;

/// Attempts of HvPostMessage before giving up.
pub const POST_MESSAGE_ATTEMPTS: usize = 10;

/// Size of the HvPostMessage input block.
pub const POST_MESSAGE_INPUT_SIZE: usize = 256;

/// Largest HvPostMessage payload.
pub const POST_MESSAGE_PAYLOAD_MAX: usize = 240;

/// Manages the hypercall page and provides HvPostMessage.
pub struct HypercallPage {
    /// DMA region for the hypercall code page (physical memory).
    pub page: DmaRegion,
    /// Executable virtual mapping of the hypercall page.
    pub code_mapping: MmioMapping,
    /// Virtual address to call into (executable).
    pub call_addr: u64,
    /// DMA region for HvPostMessage input buffer.
    pub msg_buffer: DmaRegion,
}

/// HvPostMessage input block: connection id, reserved, message type,
/// payload size, payload zero-padded to 240 bytes.
pub open spec fn post_message_input(connection_id: u32, msg_type: u32, data: Seq<u8>) -> Seq<u8> {
    spec_u32_to_le_bytes(connection_id) + spec_u32_to_le_bytes(0) + spec_u32_to_le_bytes(msg_type)
        + spec_u32_to_le_bytes(data.len() as u32) + data + zeros(240 - data.len())
}

/// What a status returned by HvPostMessage on attempt `attempt` (from 0)
/// means: `None` to try again, else the result of the post.
pub open spec fn post_status_spec(attempt: int, status: u64) -> Option<Result<(), HvError>> {
    let s = status as u16;
    if s == 0 {
        Some(Ok(()))
    } else if s == HV_STATUS_INSUFFICIENT_BUFFERS {
        if attempt + 1 < POST_MESSAGE_ATTEMPTS {
            None
        } else {
            Some(Err(HvError::HypercallRetryExhausted))
        }
    } else {
        Some(Err(HvError::HypercallFailed(s)))
    }
}

impl HypercallPage {
    /// Hypercall page whose code page is `page`, mapped executable at
    /// `code_mapping`, with `msg_buffer` for HvPostMessage input.
    pub fn new(page: DmaRegion, code_mapping: MmioMapping, msg_buffer: DmaRegion) -> (h: Self)
        ensures
            h.page == page,
            h.code_mapping == code_mapping,
            h.call_addr == code_mapping.vaddr,
            h.msg_buffer == msg_buffer,
    {
        HypercallPage { page, code_mapping, call_addr: code_mapping.vaddr as u64, msg_buffer }
    }

    /// Value written to the hypercall MSR: the page's GPA with the enable bit.
    pub fn enable_value(&self) -> (v: u64)
        ensures
            v == (self.page.paddr as u64) | 1,
    {
        (self.page.paddr as u64) | 1
    }

    /// Lays out the HvPostMessage input block in the message buffer `buf`
    /// and returns its GPA, the hypercall's input parameter.
    pub fn post_message(&self, buf: &mut [u8], connection_id: u32, msg_type: u32, data: &[u8]) -> (gpa: u64)
        requires
            data@.len() <= POST_MESSAGE_PAYLOAD_MAX,
            old(buf)@.len() >= POST_MESSAGE_INPUT_SIZE,
        ensures
            gpa == self.msg_buffer.paddr as u64,
            final(buf)@ == post_message_input(connection_id, msg_type, data@) + old(buf)@.subrange(
                256,
                old(buf)@.len() as int,
            ),
    {
        let mut m: Vec<u8> = Vec::new();
        push_u32_le(&mut m, connection_id);
        push_u32_le(&mut m, 0);
        push_u32_le(&mut m, msg_type);
        push_u32_le(&mut m, data.len() as u32);
        append_bytes(&mut m, data);
        append_zeros(&mut m, POST_MESSAGE_PAYLOAD_MAX - data.len());
        proof {
            lemma_auto_spec_u32_to_from_le_bytes();
            assert(m@ =~= post_message_input(connection_id, msg_type, data@));
        }
        copy_into(buf, m.as_slice());
        self.msg_buffer.paddr as u64
    }

    /// Decides on the status HvPostMessage returned on attempt `attempt`:
    /// `None` to retry (insufficient buffers, attempts left), else the result.
    pub fn post_status(attempt: usize, status: u64) -> (r: Option<Result<(), HvError>>)
        ensures
            r == post_status_spec(attempt as int, status),
    {
        let s = #[verifier::truncate] (status as u16);
        if s == 0 {
            Some(Ok(()))
        } else if s == HV_STATUS_INSUFFICIENT_BUFFERS {
            if attempt < POST_MESSAGE_ATTEMPTS - 1 {
                None
            } else {
                Some(Err(HvError::HypercallRetryExhausted))
            }
        } else {
            Some(Err(HvError::HypercallFailed(s)))
        }
    }

    /// Hypercall input value and parameter of HvSignalEvent for a channel:
    /// the fast-call code and the connection id.
    pub fn signal_event(&self, connection_id: u32) -> (r: (u64, u64))
        ensures
            r == (HV_SIGNAL_EVENT | HV_HYPERCALL_FAST, connection_id as u64),
    {
        (HV_SIGNAL_EVENT | HV_HYPERCALL_FAST, connection_id as u64)
    }
}

} // verus!
