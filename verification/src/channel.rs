//! VMBus channel management: GPADL creation, channel open, send/receive.
//!
//! The channel's two ring halves live in shared memory; the send and
//! receive operations take the ring data area and its control-page
//! indices, and leave raising the host signal (HvSignalEvent) to the
//! caller after a successful send.
use vstd::prelude::*;
use vstd::bytes::*;
use crate::wire::{append_bytes, append_zeros, push_u16_le, push_u32_le, push_u64_le, read_u32_le, u32_at, zeros};
use crate::ring::{
    RingError, RingHalf, RingIndices, VmPacketDescriptor, VMBUS_DATA_PACKET_FLAG_COMPLETION_REQUESTED,
    frame_bytes, frame_total, indices_in_range, pending, recv_copy_len, recv_corrupt,
    recv_payload, recv_consumed, recv_raw_copy_len, recv_raw_corrupt, descriptor_from_bytes, used_bytes, wrap, VM_PKT_COMP,
    VM_PKT_DATA_INBAND, VM_PKT_DATA_USING_GPA_DIRECT, page_range_bytes,
};
use crate::dma::DmaRegion;

verus! {

/// Errors of the Hyper-V layer.
#[derive(Debug, Clone, Copy, PartialEq, Eq, Structural)]
pub enum HvError {
    /// Not running on Hyper-V, or the requested device is not offered.
    NotHyperV,
    /// A hypercall or host operation returned this status.
    HypercallFailed(u16),
    /// HvPostMessage kept returning HV_STATUS_INSUFFICIENT_BUFFERS.
    HypercallRetryExhausted,
    /// The host rejected every protocol version we offered.
    VersionRejected,
    /// No response arrived before the deadline.
    Timeout,
}

// VMBus channel message types
pub const CHANNELMSG_OPENCHANNEL: u32 = 5;
pub const CHANNELMSG_OPENCHANNEL_RESULT: u32 = 6;
pub const CHANNELMSG_GPADL_HEADER: u32 = 8;
pub const CHANNELMSG_GPADL_BODY: u32 = 9;
pub const CHANNELMSG_GPADL_CREATED: u32 = 10;

// VMBus message connection ID and type
pub const VMBUS_MESSAGE_CONNECTION_ID: u32 = 1;
pub const VMBUS_MESSAGE_TYPE_CHANNEL: u32 = 1;

/// Largest payload of a VMBus channel message.
pub const MAX_MESSAGE_PAYLOAD: usize = 240;

/// Value of the GPADL handle counter at boot: handle 0 is never used.
pub const FIRST_GPADL_HANDLE: u32 = 1;

/// Hands out GPADL handles, monotonically increasing from 1.
pub fn alloc_gpadl_handle(next: &mut u32) -> (h: u32)
    ensures
        h == *old(next),
        *final(next) == (*old(next)).wrapping_add(1),
{
    let h = *next;
    *next = next.wrapping_add(1);
    h
}

/// Handle given by the `i`-th allocation (from 0) from a counter at `start`.
pub open spec fn nth_gpadl_handle(start: u32, i: int) -> u32 {
    ((start + i) % 0x1_0000_0000) as u32
}

/// GPADL handles are unique: allocations from a counter at `start` give
/// `start`, then each the one before plus one (wrapping), and any two of
/// the first 2^32 allocations differ.
pub proof fn lemma_gpadl_handles_distinct(start: u32, i: int, j: int)
    requires
        0 <= i < j < 0x1_0000_0000,
    ensures
        nth_gpadl_handle(start, 0) == start,
        nth_gpadl_handle(start, i + 1) == nth_gpadl_handle(start, i).wrapping_add(1),
        nth_gpadl_handle(start, i) != nth_gpadl_handle(start, j),
{
    let a = start + i;
    let b = start + j;
    assert(0 < b - a < 0x1_0000_0000);
    assert(a % 0x1_0000_0000 != b % 0x1_0000_0000) by (nonlinear_arith)
        requires
            0 <= a,
            0 < b - a < 0x1_0000_0000,
    ;
    assert((a + 1) % 0x1_0000_0000 == if a % 0x1_0000_0000 + 1 == 0x1_0000_0000 {
        0
    } else {
        a % 0x1_0000_0000 + 1
    }) by (nonlinear_arith)
        requires
            0 <= a,
    ;
}

/// Handles of one boot's counter, started at [`FIRST_GPADL_HANDLE`]: while
/// fewer than 2^32 - 1 have been allocated, every handle is at least 1 and
/// each handle is larger than every one allocated before it, so no two
/// GPADLs (channel rings or shared buffers) share a handle.
pub proof fn lemma_gpadl_handles_increase(i: int, j: int)
    requires
        0 <= i < j < 0xFFFF_FFFF,
    ensures
        nth_gpadl_handle(FIRST_GPADL_HANDLE, i) == i + 1,
        1 <= nth_gpadl_handle(FIRST_GPADL_HANDLE, i) < nth_gpadl_handle(FIRST_GPADL_HANDLE, j),
{
    assert((1 + i) % 0x1_0000_0000 == 1 + i);
    assert((1 + j) % 0x1_0000_0000 == 1 + j);
}

/// An open VMBus channel with send/receive ring buffers.
pub struct Channel {
    pub child_relid: u32,
    pub connection_id: u32,
    pub gpadl_handle: u32,
    pub send: RingHalf,
    pub recv: RingHalf,
}

/// Error reported for any ring failure.
pub open spec fn ring_failure() -> HvError {
    HvError::HypercallFailed(0xFFFF)
}

/// Send side of a ring of `n` data bytes as its writer sees it: the bytes
/// pending for the reader and the indices. Posting `payload` as a packet
/// of this type, flags and transaction id appends its frame and advances
/// the write index when the ring has room; otherwise nothing changes. The
/// flag says whether the packet went out.
pub open spec fn post_spec(
    n: int,
    pend: Seq<u8>,
    idx: RingIndices,
    packet_type: u16,
    flags: u16,
    transaction_id: u64,
    payload: Seq<u8>,
) -> (Seq<u8>, RingIndices, bool) {
    let total = frame_total(0, payload.len() as int);
    if indices_in_range(n, idx) && n - used_bytes(n, idx.read_index as int, idx.write_index as int) > total {
        (
            pend + frame_bytes(packet_type, flags, transaction_id, Seq::empty(), payload, idx),
            RingIndices { write_index: wrap(n, idx.write_index + total) as u32, read_index: idx.read_index },
            true,
        )
    } else {
        (pend, idx, false)
    }
}

impl Channel {
    /// Both ring halves are usable.
    pub open spec fn wf(&self) -> bool {
        self.send.wf() && self.recv.wf()
    }

    /// The send ring accepts a packet with these lengths.
    pub open spec fn send_accepts(&self, data: Seq<u8>, idx: RingIndices, extra_len: int, user_len: int) -> bool {
        let n = self.send.data_size as int;
        indices_in_range(n, idx) && n - used_bytes(n, idx.read_index as int, idx.write_index as int)
            > frame_total(extra_len, user_len)
    }

    /// Outcome of posting `payload` as an in-band packet (completion
    /// requested) with this transaction id: appended to the send ring when
    /// it has room, otherwise nothing written and the ring failure reported.
    pub open spec fn posted(
        &self,
        old_ring: Seq<u8>,
        old_idx: RingIndices,
        new_ring: Seq<u8>,
        new_idx: RingIndices,
        payload: Seq<u8>,
        transaction_id: u64,
        res: Result<(), HvError>,
    ) -> bool {
        &&& new_ring.len() == old_ring.len()
        &&& if self.send_accepts(old_ring, old_idx, 0, payload.len() as int) {
            &&& res is Ok
            &&& pending(new_ring, new_idx) == pending(old_ring, old_idx) + frame_bytes(
                VM_PKT_DATA_INBAND,
                VMBUS_DATA_PACKET_FLAG_COMPLETION_REQUESTED,
                transaction_id,
                Seq::empty(),
                payload,
                old_idx,
            )
            &&& new_idx.read_index == old_idx.read_index
            &&& new_idx.write_index == wrap(
                self.send.data_size as int,
                old_idx.write_index + frame_total(0, payload.len() as int),
            )
        } else {
            &&& res == Err::<(), HvError>(ring_failure())
            &&& new_ring == old_ring
            &&& new_idx == old_idx
        }
    }

    /// Send a VMBus in-band data packet through the channel, requesting completion.
    /// After `Ok` the caller signals the host.
    pub fn send(&self, ring: &mut [u8], idx: &mut RingIndices, payload: &[u8], transaction_id: u64) -> (res: Result<(), HvError>)
        requires
            self.wf(),
            old(ring)@.len() == self.send.data_size,
        ensures
            final(ring)@.len() == old(ring)@.len(),
            self.send_accepts(old(ring)@, *old(idx), 0, payload@.len() as int) ==> {
                &&& res is Ok
                &&& pending(final(ring)@, *final(idx)) == pending(old(ring)@, *old(idx)) + frame_bytes(
                    VM_PKT_DATA_INBAND,
                    VMBUS_DATA_PACKET_FLAG_COMPLETION_REQUESTED,
                    transaction_id,
                    Seq::empty(),
                    payload@,
                    *old(idx),
                )
                &&& final(idx).read_index == old(idx).read_index
                &&& final(idx).write_index == wrap(
                    self.send.data_size as int,
                    old(idx).write_index + frame_total(0, payload@.len() as int),
                )
            },
            !self.send_accepts(old(ring)@, *old(idx), 0, payload@.len() as int) ==> {
                &&& res == Err::<(), HvError>(ring_failure())
                &&& final(ring)@ == old(ring)@
                &&& *final(idx) == *old(idx)
            },
    {
        match self.send.send_packet(ring, idx, payload, transaction_id, VMBUS_DATA_PACKET_FLAG_COMPLETION_REQUESTED) {
            Ok(()) => Ok(()),
            Err(_) => Err(HvError::HypercallFailed(0xFFFF)),
        }
    }

    /// Send a VMBus in-band data packet with flags=0 (no completion requested).
    /// After `Ok` the caller signals the host.
    pub fn send_raw(&self, ring: &mut [u8], idx: &mut RingIndices, payload: &[u8], transaction_id: u64) -> (res: Result<(), HvError>)
        requires
            self.wf(),
            old(ring)@.len() == self.send.data_size,
        ensures
            final(ring)@.len() == old(ring)@.len(),
            self.send_accepts(old(ring)@, *old(idx), 0, payload@.len() as int) ==> {
                &&& res is Ok
                &&& pending(final(ring)@, *final(idx)) == pending(old(ring)@, *old(idx)) + frame_bytes(
                    VM_PKT_DATA_INBAND,
                    0,
                    transaction_id,
                    Seq::empty(),
                    payload@,
                    *old(idx),
                )
                &&& final(idx).read_index == old(idx).read_index
                &&& final(idx).write_index == wrap(
                    self.send.data_size as int,
                    old(idx).write_index + frame_total(0, payload@.len() as int),
                )
            },
            !self.send_accepts(old(ring)@, *old(idx), 0, payload@.len() as int) ==> {
                &&& res == Err::<(), HvError>(ring_failure())
                &&& final(ring)@ == old(ring)@
                &&& *final(idx) == *old(idx)
            },
    {
        match self.send.send_packet(ring, idx, payload, transaction_id, 0) {
            Ok(()) => Ok(()),
            Err(_) => Err(HvError::HypercallFailed(0xFFFF)),
        }
    }

    /// Send a VMBus packet with a page buffer (GPA direct) for RNDIS control messages.
    /// After `Ok` the caller signals the host.
    pub fn send_with_page_buffer(
        &self,
        ring: &mut [u8],
        idx: &mut RingIndices,
        user_data: &[u8],
        page_pfn: u64,
        page_offset: u32,
        page_len: u32,
        transaction_id: u64,
    ) -> (res: Result<(), HvError>)
        requires
            self.wf(),
            old(ring)@.len() == self.send.data_size,
        ensures
            final(ring)@.len() == old(ring)@.len(),
            self.send_accepts(old(ring)@, *old(idx), 24, user_data@.len() as int) ==> {
                &&& res is Ok
                &&& pending(final(ring)@, *final(idx)) == pending(old(ring)@, *old(idx)) + frame_bytes(
                    VM_PKT_DATA_USING_GPA_DIRECT,
                    VMBUS_DATA_PACKET_FLAG_COMPLETION_REQUESTED,
                    transaction_id,
                    page_range_bytes(page_pfn, page_offset, page_len),
                    user_data@,
                    *old(idx),
                )
                &&& final(idx).read_index == old(idx).read_index
            },
            !self.send_accepts(old(ring)@, *old(idx), 24, user_data@.len() as int) ==> {
                &&& res == Err::<(), HvError>(ring_failure())
                &&& final(ring)@ == old(ring)@
                &&& *final(idx) == *old(idx)
            },
    {
        match self.send.send_packet_with_page_buffer(
            ring,
            idx,
            user_data,
            page_pfn,
            page_offset,
            page_len,
            transaction_id,
            VMBUS_DATA_PACKET_FLAG_COMPLETION_REQUESTED,
        ) {
            Ok(()) => Ok(()),
            Err(_) => Err(HvError::HypercallFailed(0xFFFF)),
        }
    }

    /// Send a VMBus completion packet (VM_PKT_COMP, type 11) for a received xfer page packet.
    /// The transaction_id must match the received packet's transaction_id.
    /// After `Ok` the caller signals the host.
    pub fn send_completion(&self, ring: &mut [u8], idx: &mut RingIndices, payload: &[u8], transaction_id: u64) -> (res: Result<(), HvError>)
        requires
            self.wf(),
            old(ring)@.len() == self.send.data_size,
        ensures
            final(ring)@.len() == old(ring)@.len(),
            self.send_accepts(old(ring)@, *old(idx), 0, payload@.len() as int) ==> {
                &&& res is Ok
                &&& pending(final(ring)@, *final(idx)) == pending(old(ring)@, *old(idx)) + frame_bytes(
                    VM_PKT_COMP,
                    0,
                    transaction_id,
                    Seq::empty(),
                    payload@,
                    *old(idx),
                )
                &&& final(idx).read_index == old(idx).read_index
                &&& final(idx).write_index == wrap(
                    self.send.data_size as int,
                    old(idx).write_index + frame_total(0, payload@.len() as int),
                )
            },
            !self.send_accepts(old(ring)@, *old(idx), 0, payload@.len() as int) ==> {
                &&& res == Err::<(), HvError>(ring_failure())
                &&& final(ring)@ == old(ring)@
                &&& *final(idx) == *old(idx)
            },
    {
        match self.send.send_comp(ring, idx, payload, transaction_id) {
            Ok(()) => Ok(()),
            Err(_) => Err(HvError::HypercallFailed(0xFFFF)),
        }
    }

    /// Try to receive a packet from the channel.
    ///
    /// Returns `Ok(Some((desc, payload_len)))` if a packet was read into `buf`,
    /// or `Ok(None)` if no packet is available.
    pub fn try_recv(&self, ring: &[u8], idx: &mut RingIndices, buf: &mut [u8]) -> (res: Result<
        Option<(VmPacketDescriptor, usize)>,
        HvError,
    >)
        requires
            self.wf(),
            ring@.len() == self.recv.data_size,
        ensures
            final(buf)@.len() == old(buf)@.len(),
            ({
                let n = self.recv.data_size as int;
                let p = pending(ring@, *old(idx));
                let bl = old(buf)@.len() as int;
                if !indices_in_range(n, *old(idx)) || (p.len() > 0 && recv_corrupt(p)) {
                    &&& res == Err::<Option<(VmPacketDescriptor, usize)>, HvError>(ring_failure())
                    &&& final(buf)@ == old(buf)@
                    &&& *final(idx) == *old(idx)
                } else if p.len() == 0 {
                    &&& res == Ok::<Option<(VmPacketDescriptor, usize)>, HvError>(None)
                    &&& final(buf)@ == old(buf)@
                    &&& *final(idx) == *old(idx)
                } else {
                    let c = recv_copy_len(p, bl);
                    &&& res == Ok::<Option<(VmPacketDescriptor, usize)>, HvError>(
                        Some((descriptor_from_bytes(p), c as usize)),
                    )
                    &&& final(buf)@.subrange(0, c) == recv_payload(p, bl)
                    &&& pending(ring@, *final(idx)) == p.subrange(descriptor_from_bytes(p).len8 * 8 + 8, p.len() as int)
                    &&& final(idx).write_index == old(idx).write_index
                    &&& final(idx).read_index == wrap(n, old(idx).read_index + recv_consumed(p))
                }
            }),
    {
        match self.recv.recv_packet(ring, idx, buf) {
            Ok(r) => Ok(r),
            Err(_) => Err(HvError::HypercallFailed(0xFFFF)),
        }
    }

    /// Try to receive a raw packet (including transfer page headers for type 7).
    /// Returns all bytes after the 16-byte descriptor. Use `desc.offset8` to
    /// find the NVSP payload within the returned data.
    pub fn try_recv_raw(&self, ring: &[u8], idx: &mut RingIndices, buf: &mut [u8]) -> (res: Result<
        Option<(VmPacketDescriptor, usize)>,
        HvError,
    >)
        requires
            self.wf(),
            ring@.len() == self.recv.data_size,
        ensures
            final(buf)@.len() == old(buf)@.len(),
            ({
                let n = self.recv.data_size as int;
                let p = pending(ring@, *old(idx));
                let bl = old(buf)@.len() as int;
                if !indices_in_range(n, *old(idx)) || (p.len() > 0 && recv_raw_corrupt(p)) {
                    &&& res == Err::<Option<(VmPacketDescriptor, usize)>, HvError>(ring_failure())
                    &&& final(buf)@ == old(buf)@
                    &&& *final(idx) == *old(idx)
                } else if p.len() == 0 {
                    &&& res == Ok::<Option<(VmPacketDescriptor, usize)>, HvError>(None)
                    &&& final(buf)@ == old(buf)@
                    &&& *final(idx) == *old(idx)
                } else {
                    let c = recv_raw_copy_len(p, bl);
                    &&& res == Ok::<Option<(VmPacketDescriptor, usize)>, HvError>(
                        Some((descriptor_from_bytes(p), c as usize)),
                    )
                    &&& final(buf)@.subrange(0, c) == p.subrange(16, 16 + c)
                    &&& pending(ring@, *final(idx)) == p.subrange(descriptor_from_bytes(p).len8 * 8 + 8, p.len() as int)
                    &&& indices_in_range(n, *final(idx))
                    &&& final(idx).write_index == old(idx).write_index
                    &&& final(idx).read_index == wrap(n, old(idx).read_index + recv_consumed(p))
                }
            }),
    {
        match self.recv.recv_packet_raw(ring, idx, buf) {
            Ok(r) => Ok(r),
            Err(_) => Err(HvError::HypercallFailed(0xFFFF)),
        }
    }

    /// GPADL handle for this channel (for debug/logging).
    pub fn gpadl_handle(&self) -> (h: u32)
        ensures
            h == self.gpadl_handle,
    {
        self.gpadl_handle
    }
}


// ── GPADL and channel-open messages ───────────────────────────────────

/// Page frame number of page `i` of a physically contiguous region.
pub open spec fn pfn_of(paddr: int, i: int) -> u64 {
    ((paddr + i * 4096) as u64) >> 12u64
}

/// Build a PFN list for `num_pages` consecutive pages starting at `region.paddr`.
pub fn build_pfn_list(region: &DmaRegion, num_pages: usize) -> (pfns: Vec<u64>)
    requires
        region.paddr + num_pages * 4096 <= usize::MAX,
    ensures
        pfns@.len() == num_pages,
        forall|i: int| 0 <= i < num_pages ==> #[trigger] pfns@[i] == pfn_of(region.paddr as int, i),
{
    let mut pfns: Vec<u64> = Vec::new();
    let mut i: usize = 0;
    while i < num_pages
        invariant
            region.paddr + num_pages * 4096 <= usize::MAX,
            i <= num_pages,
            pfns@.len() == i,
            forall|k: int| 0 <= k < i ==> #[trigger] pfns@[k] == pfn_of(region.paddr as int, k),
        decreases num_pages - i,
    {
        assert(region.paddr + i * 4096 <= region.paddr + num_pages * 4096) by (nonlinear_arith)
            requires
                i < num_pages,
        ;
        let paddr = region.paddr + i * 4096;
        pfns.push((paddr as u64) >> 12u64);
        i = i + 1;
    }
    pfns
}

/// Little-endian encoding of a list of PFNs.
pub open spec fn pfn_bytes(pfns: Seq<u64>) -> Seq<u8>
    decreases pfns.len(),
{
    if pfns.len() == 0 {
        Seq::empty()
    } else {
        pfn_bytes(pfns.drop_last()) + spec_u64_to_le_bytes(pfns.last())
    }
}

/// PFNs that fit in the GPADL_HEADER message.
pub const MAX_PFNS_IN_HEADER: usize = 26;

/// PFNs that fit in one GPADL_BODY message.
pub const MAX_PFNS_PER_BODY: usize = 28;

/// GPADL_HEADER: message type, child relid, handle, range length, range
/// count (1), byte count, byte offset (0), then the first PFNs.
pub open spec fn gpadl_header_bytes(child_relid: u32, gpadl_handle: u32, byte_count: usize, total_pfns: int, pfns: Seq<u64>) -> Seq<u8> {
    spec_u32_to_le_bytes(CHANNELMSG_GPADL_HEADER) + spec_u32_to_le_bytes(0) + spec_u32_to_le_bytes(child_relid)
        + spec_u32_to_le_bytes(gpadl_handle) + spec_u16_to_le_bytes((8 + total_pfns * 8) as u16)
        + spec_u16_to_le_bytes(1) + spec_u32_to_le_bytes(byte_count as u32) + spec_u32_to_le_bytes(0)
        + pfn_bytes(pfns)
}

/// GPADL_BODY: message type, message number, handle, then more PFNs.
pub open spec fn gpadl_body_bytes(msg_number: u32, gpadl_handle: u32, pfns: Seq<u64>) -> Seq<u8> {
    spec_u32_to_le_bytes(CHANNELMSG_GPADL_BODY) + spec_u32_to_le_bytes(0) + spec_u32_to_le_bytes(msg_number)
        + spec_u32_to_le_bytes(gpadl_handle) + pfn_bytes(pfns)
}

/// The PFNs carried by body message `j` (counting from 0).
pub open spec fn body_chunk(pfns: Seq<u64>, j: int) -> Seq<u64> {
    let start = 26 + 28 * j;
    let end = if pfns.len() < start + 28 {
        pfns.len() as int
    } else {
        start + 28
    };
    pfns.subrange(start, end)
}

/// The PFNs carried by the header message.
pub open spec fn header_chunk(pfns: Seq<u64>) -> Seq<u64> {
    pfns.subrange(0, if pfns.len() < 26 { pfns.len() as int } else { 26 })
}

/// Number of GPADL_BODY messages needed after the header.
pub open spec fn body_count(n: int) -> int {
    if n <= 26 {
        0
    } else {
        (n - 26 + 27) / 28
    }
}

/// Appends the encodings of `pfns[from..to]`.
fn push_pfns(v: &mut Vec<u8>, pfns: &[u64], from: usize, to: usize)
    requires
        from <= to <= pfns@.len(),
    ensures
        final(v)@ == old(v)@ + pfn_bytes(pfns@.subrange(from as int, to as int)),
{
    let ghost start = v@;
    let mut i = from;
    while i < to
        invariant
            from <= i <= to,
            to <= pfns@.len(),
            v@ == start + pfn_bytes(pfns@.subrange(from as int, i as int)),
        decreases to - i,
    {
        push_u64_le(v, pfns[i]);
        proof {
            let s = pfns@.subrange(from as int, i + 1);
            assert(s.drop_last() =~= pfns@.subrange(from as int, i as int));
            assert(s.last() == pfns@[i as int]);
        }
        i = i + 1;
    }
}

/// Build the GPADL_HEADER message and the GPADL_BODY messages that
/// describe a region of `byte_count` bytes made of the pages `pfns`.
pub fn gpadl_messages(child_relid: u32, gpadl_handle: u32, byte_count: usize, pfns: &[u64]) -> (msgs: Vec<Vec<u8>>)
    requires
        pfns@.len() < 0x1000_0000,
    ensures
        msgs@.len() == 1 + body_count(pfns@.len() as int),
        msgs@[0]@ == gpadl_header_bytes(child_relid, gpadl_handle, byte_count, pfns@.len() as int, header_chunk(pfns@)),
        forall|j: int| 0 <= j < body_count(pfns@.len() as int) ==> #[trigger] msgs@[j + 1]@ == gpadl_body_bytes(
            j as u32,
            gpadl_handle,
            body_chunk(pfns@, j),
        ),
{
    let n = pfns.len();
    let in_header = if n < MAX_PFNS_IN_HEADER { n } else { MAX_PFNS_IN_HEADER };
    let mut header: Vec<u8> = Vec::new();
    push_u32_le(&mut header, CHANNELMSG_GPADL_HEADER);
    push_u32_le(&mut header, 0);
    push_u32_le(&mut header, child_relid);
    push_u32_le(&mut header, gpadl_handle);
    let range_buflen = #[verifier::truncate] ((8 + (n as u64) * 8) as u16);
    push_u16_le(&mut header, range_buflen);
    push_u16_le(&mut header, 1);
    push_u32_le(&mut header, #[verifier::truncate] (byte_count as u32));
    push_u32_le(&mut header, 0);
    push_pfns(&mut header, pfns, 0, in_header);
    let mut msgs: Vec<Vec<u8>> = Vec::new();
    msgs.push(header);
    let mut start = in_header;
    let mut msg_number: u32 = 0;
    while start < n
        invariant
            n == pfns@.len(),
            n < 0x1000_0000,
            in_header == (if n < 26 { n } else { 26 }),
            start <= n,
            n > 26 && start < n ==> start == 26 + 28 * msg_number,
            msg_number <= n,
            n <= 26 ==> start == n && msg_number == 0,
            msg_number <= body_count(n as int),
            start < n ==> msg_number < body_count(n as int),
            start == n ==> msg_number == body_count(n as int),
            msgs@.len() == 1 + msg_number,
            msgs@[0]@ == gpadl_header_bytes(child_relid, gpadl_handle, byte_count, n as int, header_chunk(pfns@)),
            forall|j: int| 0 <= j < msg_number ==> #[trigger] msgs@[j + 1]@ == gpadl_body_bytes(
                j as u32,
                gpadl_handle,
                body_chunk(pfns@, j),
            ),
        decreases n - start,
    {
        let count = if n - start < MAX_PFNS_PER_BODY { n - start } else { MAX_PFNS_PER_BODY };
        let mut body: Vec<u8> = Vec::new();
        push_u32_le(&mut body, CHANNELMSG_GPADL_BODY);
        push_u32_le(&mut body, 0);
        push_u32_le(&mut body, msg_number);
        push_u32_le(&mut body, gpadl_handle);
        push_pfns(&mut body, pfns, start, start + count);
        msgs.push(body);
        proof {
            assert(body_chunk(pfns@, msg_number as int) =~= pfns@.subrange(start as int, start + count));
            assert((n - 26 + 27) / 28 > msg_number + 1 || start + count == n) by (nonlinear_arith)
                requires
                    n > 26,
                    start == 26 + 28 * msg_number,
                    start < n,
                    count == (if n - start < 28 { n - start } else { 28 }),
            ;
            assert(start + count == n ==> (n - 26 + 27) / 28 == msg_number + 1) by (nonlinear_arith)
                requires
                    n > 26,
                    start == 26 + 28 * msg_number,
                    start < n,
                    count == (if n - start < 28 { n - start } else { 28 }),
            ;
        }
        start = start + count;
        msg_number = msg_number + 1;
    }
    proof {
        assert(header_chunk(pfns@) =~= pfns@.subrange(0, in_header as int));
    }
    msgs
}

/// Concatenating the PFN chunks of the header and of every body message
/// gives back the full PFN list: the GPADL describes exactly the region's pages.
pub proof fn lemma_gpadl_chunks_cover(pfns: Seq<u64>)
    ensures
        ({
            let bodies = Seq::new(body_count(pfns.len() as int) as nat, |j: int| body_chunk(pfns, j));
            header_chunk(pfns) + bodies.flatten() == pfns
        }),
    decreases pfns.len(),
{
    let n = pfns.len() as int;
    let bodies = Seq::new(body_count(n) as nat, |j: int| body_chunk(pfns, j));
    if n <= 26 {
        assert(bodies =~= Seq::<Seq<u64>>::empty());
        assert(header_chunk(pfns) =~= pfns);
    } else {
        lemma_bodies_cover(pfns, body_count(n));
        assert(header_chunk(pfns) + pfns.subrange(26, n) =~= pfns);
    }
}

/// The first `k` body chunks cover the PFNs from index 26 up to the end of chunk `k - 1`.
proof fn lemma_bodies_cover(pfns: Seq<u64>, k: int)
    requires
        pfns.len() > 26,
        0 <= k <= body_count(pfns.len() as int),
    ensures
        Seq::new(k as nat, |j: int| body_chunk(pfns, j)).flatten() == pfns.subrange(
            26,
            if pfns.len() < 26 + 28 * k { pfns.len() as int } else { 26 + 28 * k },
        ),
    decreases k,
{
    let n = pfns.len() as int;
    let s = Seq::new(k as nat, |j: int| body_chunk(pfns, j));
    if k == 0 {
        assert(s =~= Seq::<Seq<u64>>::empty());
        assert(pfns.subrange(26, 26) =~= Seq::<u64>::empty());
    } else {
        lemma_bodies_cover(pfns, k - 1);
        let prev = Seq::new((k - 1) as nat, |j: int| body_chunk(pfns, j));
        assert(s =~= prev.push(body_chunk(pfns, k - 1)));
        prev.lemma_flatten_push(body_chunk(pfns, k - 1));
        assert(26 + 28 * (k - 1) < n) by (nonlinear_arith)
            requires
                0 < k <= (n - 26 + 27) / 28,
                n > 26,
        ;
        let e0 = if n < 26 + 28 * (k - 1) { n } else { 26 + 28 * (k - 1) };
        assert(e0 == 26 + 28 * (k - 1));
        assert(pfns.subrange(26, e0) + body_chunk(pfns, k - 1) =~= pfns.subrange(
            26,
            if n < 26 + 28 * k { n } else { 26 + 28 * k },
        ));
    }
}

/// GPADL_CREATED / OPENCHANNEL_RESULT: the status word of a message of
/// type `expected`, or `None` for any other message.
pub open spec fn channel_result_status(payload: Seq<u8>, expected: u32) -> Option<u32> {
    if payload.len() < 20 || u32_at(payload, 0) != expected {
        None
    } else {
        Some(u32_at(payload, 16))
    }
}

/// Matches the host's GPADL_CREATED message and extracts its status.
pub fn match_gpadl_created(payload: &[u8]) -> (r: Option<u32>)
    ensures
        r == channel_result_status(payload@, CHANNELMSG_GPADL_CREATED),
{
    if payload.len() < 20 {
        return None;
    }
    if read_u32_le(payload, 0) != CHANNELMSG_GPADL_CREATED {
        return None;
    }
    Some(read_u32_le(payload, 16))
}

/// Matches the host's OPENCHANNEL_RESULT message and extracts its status.
pub fn match_open_channel_result(payload: &[u8]) -> (r: Option<u32>)
    ensures
        r == channel_result_status(payload@, CHANNELMSG_OPENCHANNEL_RESULT),
{
    if payload.len() < 20 {
        return None;
    }
    if read_u32_le(payload, 0) != CHANNELMSG_OPENCHANNEL_RESULT {
        return None;
    }
    Some(read_u32_le(payload, 16))
}

/// Outcome of a GPADL creation or channel open given the host's status.
pub fn channel_status_result(status: u32) -> (r: Result<(), HvError>)
    ensures
        status == 0 ==> r is Ok,
        status != 0 ==> r == Err::<(), HvError>(HvError::HypercallFailed(status as u16)),
{
    if status == 0 {
        Ok(())
    } else {
        Err(HvError::HypercallFailed(#[verifier::truncate] (status as u16)))
    }
}

/// OPENCHANNEL (148 bytes): type, padding, child relid, open id (= relid),
/// ring GPADL handle, target vp (0), downstream ring page offset, then
/// 120 bytes of user data whose first byte selects message pipe mode.
pub open spec fn open_channel_bytes(child_relid: u32, gpadl_handle: u32, downstream_page_offset: u32) -> Seq<u8> {
    spec_u32_to_le_bytes(CHANNELMSG_OPENCHANNEL) + spec_u32_to_le_bytes(0) + spec_u32_to_le_bytes(child_relid)
        + spec_u32_to_le_bytes(child_relid) + spec_u32_to_le_bytes(gpadl_handle) + spec_u32_to_le_bytes(0)
        + spec_u32_to_le_bytes(downstream_page_offset) + seq![1u8] + zeros(119)
}

/// Build the OPENCHANNEL message.
pub fn open_channel_msg(child_relid: u32, gpadl_handle: u32, downstream_page_offset: u32) -> (m: Vec<u8>)
    ensures
        m@ == open_channel_bytes(child_relid, gpadl_handle, downstream_page_offset),
        m@.len() == 148,
{
    let mut m: Vec<u8> = Vec::new();
    push_u32_le(&mut m, CHANNELMSG_OPENCHANNEL);
    push_u32_le(&mut m, 0);
    push_u32_le(&mut m, child_relid);
    push_u32_le(&mut m, child_relid);
    push_u32_le(&mut m, gpadl_handle);
    push_u32_le(&mut m, 0);
    push_u32_le(&mut m, downstream_page_offset);
    m.push(1u8);
    append_zeros(&mut m, 119);
    proof {
        vstd::bytes::lemma_auto_spec_u32_to_from_le_bytes();
        assert(m@ =~= open_channel_bytes(child_relid, gpadl_handle, downstream_page_offset));
    }
    m
}

/// Everything needed to open a channel on a ring buffer region: the
/// GPADL messages describing the region, the OPENCHANNEL message and
/// the channel with its two ring halves.
pub struct OpenChannelPlan {
    pub pfns: Vec<u64>,
    pub gpadl_messages: Vec<Vec<u8>>,
    pub open_message: Vec<u8>,
    pub channel: Channel,
}

/// Open a VMBus channel on an allocated ring buffer region: PFN list,
/// GPADL messages, OPENCHANNEL message and the two ring halves (send
/// first, receive second). The caller posts the messages and waits for
/// the host's GPADL_CREATED and OPENCHANNEL_RESULT answers.
///
/// Each half (`ring_size / 2` bytes) must itself be a ring half: more than
/// its 4096-byte control page and a whole number of pages. That is what
/// `ring_size > 8192` and `ring_size % 8192 == 0` say; a ring of 8192
/// bytes, or of an odd number of pages, would leave a half without data
/// pages or with a partial page.
pub fn open_channel(
    child_relid: u32,
    connection_id: u32,
    ring_buf: &DmaRegion,
    ring_size: usize,
    gpadl_handle: u32,
) -> (plan: OpenChannelPlan)
    requires
        ring_size > 8192,
        ring_size % 8192 == 0,
        ring_size <= 0x7FFF_FFFF,
        ring_buf.paddr + ring_size <= usize::MAX,
        ring_buf.vaddr + ring_size <= usize::MAX,
    ensures
        plan.pfns@.len() == ring_size / 4096,
        forall|i: int| 0 <= i < ring_size / 4096 ==> #[trigger] plan.pfns@[i] == pfn_of(ring_buf.paddr as int, i),
        plan.gpadl_messages@.len() == 1 + body_count((ring_size / 4096) as int),
        plan.gpadl_messages@[0]@ == gpadl_header_bytes(child_relid, gpadl_handle, ring_size, (ring_size / 4096) as int, header_chunk(plan.pfns@)),
        forall|j: int|
            0 <= j < body_count((ring_size / 4096) as int) ==> #[trigger] plan.gpadl_messages@[j + 1]@
                == gpadl_body_bytes(j as u32, gpadl_handle, body_chunk(plan.pfns@, j)),
        plan.open_message@ == open_channel_bytes(child_relid, gpadl_handle, (ring_size / 2 / 4096) as u32),
        plan.channel.child_relid == child_relid,
        plan.channel.connection_id == connection_id,
        plan.channel.gpadl_handle == gpadl_handle,
        plan.channel.send.base == ring_buf.vaddr,
        plan.channel.send.data_size == ring_size / 2 - 4096,
        plan.channel.recv.base == ring_buf.vaddr + ring_size / 2,
        plan.channel.recv.data_size == ring_size / 2 - 4096,
        plan.channel.wf(),
{
    let half_size = ring_size / 2;
    let num_pages = ring_size / 4096;
    assert(ring_buf.paddr + num_pages * 4096 <= usize::MAX) by (nonlinear_arith)
        requires
            ring_buf.paddr + ring_size <= usize::MAX,
            num_pages == ring_size / 4096,
    ;
    let pfns = build_pfn_list(ring_buf, num_pages);
    let gpadl_messages = gpadl_messages(child_relid, gpadl_handle, ring_size, pfns.as_slice());
    let send_pages = half_size / 4096;
    let open_message = open_channel_msg(child_relid, gpadl_handle, send_pages as u32);
    let send = crate::ring::RingHalf::new(ring_buf.vaddr, half_size);
    let recv = crate::ring::RingHalf::new(ring_buf.vaddr + half_size, half_size);
    OpenChannelPlan {
        pfns,
        gpadl_messages,
        open_message,
        channel: Channel { child_relid, connection_id, gpadl_handle, send, recv },
    }
}

} // verus!
