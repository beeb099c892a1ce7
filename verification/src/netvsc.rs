//! NetVSC (Hyper-V synthetic NIC) driver — NVSP + RNDIS layers.
//!
//! The device state (negotiated parameters, send-section ownership,
//! control-response slot, single-slot receive queue) is kept here, with
//! the decisions taken on each packet the host delivers and on each
//! response to a control request. Moving bytes through the channel
//! rings and the shared send/receive buffers is left to the caller,
//! which acts on the decisions returned.
use vstd::prelude::*;
use vstd::bytes::*;
use crate::wire::{append_bytes, copy_into, copied_back, push_u32_le, read_u32_le, splice, sub_vec, u32_at, zeros, append_zeros};
use crate::dma::DmaRegion;
use crate::channel::{Channel, HvError, build_pfn_list, pfn_of, post_spec, ring_failure};
use crate::ring::{
    RingIndices, VmPacketDescriptor, descriptor_from_bytes, indices_in_range, pending, recv_consumed,
    recv_raw_copy_len, recv_raw_corrupt, VM_PKT_COMP, VM_PKT_DATA_INBAND, VM_PKT_DATA_USING_XFER_PAGES,
    VMBUS_DATA_PACKET_FLAG_COMPLETION_REQUESTED,
};
use crate::nvsp_types::{
    nvsp_version_value, negotiate_order_spec, NvspVersion, NVSP_MSG1_TYPE_SEND_RNDIS_PKT_COMPLETE,
    NVSP_PROTOCOL_VERSION_4, NVSP_PROTOCOL_VERSION_1, NVSP_STAT_SUCCESS, RNDIS_MSG_KEEPALIVE,
    RNDIS_MSG_KEEPALIVE_C, RNDIS_MSG_PACKET, RNDIS_STATUS_SUCCESS, VmbusPacketType,
    vmbus_packet_type_value, NdisOid, RNDIS_MSG_QUERY, RNDIS_MSG_SET, OID_802_3_CURRENT_ADDRESS,
    OID_802_3_PERMANENT_ADDRESS, OID_GEN_MAXIMUM_FRAME_SIZE, OID_GEN_CURRENT_PACKET_FILTER,
    NDIS_PACKET_FILTER_STANDARD,
};
use crate::nvsp_msg::{
    parse_rndis_response, rndis_response_spec, rndis_opt_view, RndisResponse, RndisResponseView,
    RNDIS_HEADER_SIZE, build_nvsp_send_rndis_pkt, nvsp_message_padded, nvsp_rndis_pkt_bytes,
    parse_nvsp_response, nvsp_response_spec, nvsp_opt_view, NvspResponse, NvspResponseView,
    build_nvsp_init, nvsp_init_bytes, build_nvsp_send_ndis_config, nvsp_ndis_config_bytes,
    build_rndis_init, build_rndis_query, build_rndis_set, rndis_init_bytes, rndis_oid_request_bytes,
};

verus! {

// Buffer sizes (our chosen allocation sizes, not protocol constants)
pub const NETVSC_RECV_BUF_SIZE: usize = 2 * 1024 * 1024;
pub const NETVSC_SEND_BUF_SIZE: usize = 1024 * 1024;
pub const NETVSC_RING_SIZE: usize = 256 * 1024;

/// Maximum Ethernet frame size we buffer for the receive queue.
pub const RX_FRAME_MAX: usize = 1600;

/// RNDIS_PACKET_MSG header: rndis_packet struct + 8-byte RNDIS header.
pub const RNDIS_PACKET_HDR_SIZE: usize = 44;

/// RNDIS_KEEPALIVE_CMPLT: type, length (16), request id, status SUCCESS.
pub open spec fn keepalive_complete_bytes(request_id: u32) -> Seq<u8> {
    spec_u32_to_le_bytes(RNDIS_MSG_KEEPALIVE_C) + spec_u32_to_le_bytes(16) + spec_u32_to_le_bytes(request_id)
        + spec_u32_to_le_bytes(RNDIS_STATUS_SUCCESS)
}

/// Build RNDIS_KEEPALIVE_CMPLT response into `buf`; returns its length.
///
/// This is a response we send back to the host (not a request).
pub fn build_rndis_keepalive_complete(request_id: u32, buf: &mut [u8]) -> (len: usize)
    requires
        old(buf)@.len() >= 16,
    ensures
        len == 16,
        keepalive_complete_bytes(request_id).len() == 16,
        final(buf)@ == keepalive_complete_bytes(request_id) + old(buf)@.subrange(16, old(buf)@.len() as int),
{
    let mut m: Vec<u8> = Vec::new();
    push_u32_le(&mut m, RNDIS_MSG_KEEPALIVE_C);
    push_u32_le(&mut m, 16);
    push_u32_le(&mut m, request_id);
    push_u32_le(&mut m, RNDIS_STATUS_SUCCESS);
    proof {
        lemma_auto_spec_u32_to_from_le_bytes();
    }
    copy_into(buf, m.as_slice());
    16
}

/// Answering a keepalive completes it: the host reads back the request id
/// with status SUCCESS.
pub proof fn lemma_keepalive_complete_parses(request_id: u32)
    ensures
        rndis_response_spec(keepalive_complete_bytes(request_id)) == Some(
            RndisResponseView::KeepAliveComplete {
                req_id: request_id,
                status: crate::nvsp_types::RndisStatus(RNDIS_STATUS_SUCCESS),
            },
        ),
{
    lemma_auto_spec_u32_to_from_le_bytes();
    let b = keepalive_complete_bytes(request_id);
    assert(b.subrange(0, 4) =~= spec_u32_to_le_bytes(RNDIS_MSG_KEEPALIVE_C));
    assert(b.subrange(4, 8) =~= spec_u32_to_le_bytes(16));
    let body = b.subrange(8, 16);
    assert(crate::nvsp_msg::rndis_body(b) =~= body);
    assert(body.subrange(0, 4) =~= spec_u32_to_le_bytes(request_id));
    assert(body.subrange(4, 8) =~= spec_u32_to_le_bytes(RNDIS_STATUS_SUCCESS));
}

/// Build PFN list from a DmaRegion (contiguous physical pages).
pub fn pfn_list(region: &DmaRegion) -> (pfns: Vec<u64>)
    requires
        region.paddr + region.size <= usize::MAX,
    ensures
        pfns@.len() == region.size / 4096,
        forall|i: int| 0 <= i < region.size / 4096 ==> #[trigger] pfns@[i] == pfn_of(region.paddr as int, i),
{
    let num_pages = region.size / 4096;
    assert(region.paddr + num_pages * 4096 <= usize::MAX) by (nonlinear_arith)
        requires
            region.paddr + region.size <= usize::MAX,
            num_pages == region.size / 4096,
    ;
    build_pfn_list(region, num_pages)
}

// ── RNDIS data path helpers ─────────────────────────────────────────────

/// Frame carried by an RNDIS_PACKET_MSG: its data starts at
/// `8 + data_offset` and is `data_len` long; `None` when the message is
/// not a packet or the frame does not lie inside the message.
pub open spec fn eth_frame_spec(msg: Seq<u8>, buf_len: int) -> Option<Seq<u8>> {
    match rndis_response_spec(msg) {
        Some(RndisResponseView::Packet { data_offset, data_len, .. }) => {
            let start = 8 + data_offset;
            if start + data_len <= msg.len() && data_len <= buf_len {
                Some(msg.subrange(start, start + data_len))
            } else {
                None
            }
        },
        _ => None,
    }
}

/// Pull the Ethernet frame out of an RNDIS_PACKET_MSG already buffered in
/// `buf`. Returns the Ethernet length and rewrites `buf[0..eth_len]` to
/// hold the bare Ethernet frame (header + payload).
pub fn extract_eth_frame(buf: &mut [u8], rndis_len: usize) -> (r: Option<usize>)
    requires
        rndis_len <= old(buf)@.len(),
    ensures
        final(buf)@.len() == old(buf)@.len(),
        rndis_len < 8 ==> r is None && final(buf)@ == old(buf)@,
        rndis_len >= 8 ==> match eth_frame_spec(old(buf)@.subrange(0, rndis_len as int), old(buf)@.len() as int) {
            Some(f) => r == Some(f.len() as usize) && final(buf)@.subrange(0, f.len() as int) == f,
            None => r is None && final(buf)@ == old(buf)@,
        },
{
    if rndis_len < RNDIS_HEADER_SIZE {
        return None;
    }
    let msg = sub_vec(buf, 0, rndis_len);
    match parse_rndis_response(msg.as_slice()) {
        Some(RndisResponse::Packet { data_offset, data_len, .. }) => {
            let frame_start = (RNDIS_HEADER_SIZE as u64) + (data_offset as u64);
            if frame_start + (data_len as u64) <= rndis_len as u64 && (data_len as usize) <= buf.len() {
                let frame = sub_vec(msg.as_slice(), frame_start as usize, data_len as usize);
                copy_into(buf, frame.as_slice());
                Some(data_len as usize)
            } else {
                None
            }
        },
        _ => None,
    }
}

/// RNDIS bytes referenced by a transfer-page packet: the first range's
/// `byte_count` bytes at `byte_offset` in the receive buffer, truncated to
/// `out_len`; empty when the header or the range is malformed.
pub open spec fn xfer_page_data(raw: Seq<u8>, recv_buf: Seq<u8>, out_len: int) -> Seq<u8> {
    if raw.len() < 8 {
        Seq::empty()
    } else {
        let range_cnt = u32_at(raw, 4) as int;
        if range_cnt == 0 || raw.len() < 8 + range_cnt * 8 {
            Seq::empty()
        } else {
            let byte_count = u32_at(raw, 8) as int;
            let byte_offset = u32_at(raw, 12) as int;
            if byte_offset + byte_count > NETVSC_RECV_BUF_SIZE || byte_count == 0 {
                Seq::empty()
            } else {
                let n = if byte_count < out_len { byte_count } else { out_len };
                recv_buf.subrange(byte_offset, byte_offset + n)
            }
        }
    }
}

/// Parse a VM_PKT_DATA_USING_XFER_PAGES packet and copy RNDIS data from recv buffer.
/// `raw` is everything after the 16-byte VmPacketDescriptor:
///   [0..2] xfer_pageset_id (u16), [2] sender_owns_set, [3] reserved,
///   [4..8] range_cnt (u32), [8..] ranges (byte_count + byte_offset) * range_cnt.
/// Returns the number of bytes copied into `out`.
pub fn parse_xfer_page_packet(raw: &[u8], recv_buf: &[u8], out: &mut [u8]) -> (len: usize)
    requires
        recv_buf@.len() >= NETVSC_RECV_BUF_SIZE,
    ensures
        ({
            let d = xfer_page_data(raw@, recv_buf@, old(out)@.len() as int);
            &&& len == d.len()
            &&& final(out)@ == d + old(out)@.subrange(len as int, old(out)@.len() as int)
        }),
{
    if raw.len() < 8 {
        assert(old(out)@.subrange(0, old(out)@.len() as int) =~= old(out)@);
        return 0;
    }
    let range_cnt = read_u32_le(raw, 4);
    if range_cnt == 0 || (raw.len() as u64) < 8 + (range_cnt as u64) * 8 {
        assert(old(out)@.subrange(0, old(out)@.len() as int) =~= old(out)@);
        return 0;
    }
    let byte_count = read_u32_le(raw, 8);
    let byte_offset = read_u32_le(raw, 12);
    if (byte_offset as u64) + (byte_count as u64) > NETVSC_RECV_BUF_SIZE as u64 || byte_count == 0 {
        assert(old(out)@.subrange(0, old(out)@.len() as int) =~= old(out)@);
        return 0;
    }
    let copy_len = if (byte_count as usize) < out.len() {
        byte_count as usize
    } else {
        out.len()
    };
    let data = sub_vec(recv_buf, byte_offset as usize, copy_len);
    copy_into(out, data.as_slice());
    copy_len
}

// ── device state ────────────────────────────────────────────────────────

/// NetVSC synthetic NIC device state.
pub struct NetvscDevice {
    pub channel: Channel,
    pub recv_buf: DmaRegion,
    pub recv_buf_gpadl: u32,
    pub send_buf: DmaRegion,
    pub send_buf_gpadl: u32,
    pub nvsp_version: u32,
    pub mac: [u8; 6],
    pub mtu: u32,
    pub next_request_id: u32,
    pub next_txid: u64,
    /// Response slot for synchronous RNDIS control messages. Only one
    /// control message is in flight at a time.
    pub ctrl_resp: Vec<u8>,
    pub ctrl_resp_ready: bool,
    /// Whether send buffer section 0 is free for the next message.
    pub send_section_free: bool,
    /// Single-slot receive queue used by the data path: the Ethernet
    /// frame waiting to be consumed.
    pub pending_rx: Option<Vec<u8>>,
}

/// Decisions taken on one packet drained from the receive ring.
pub struct PacketAction {
    /// Send a VM_PKT_COMP completion with this transaction id.
    pub completion: Option<u64>,
    /// Send this RNDIS control message (a keepalive answer) through the send buffer.
    pub reply: Option<Vec<u8>>,
    /// Stop draining the ring.
    pub stop: bool,
}

impl PacketAction {
    /// The reply, by its bytes.
    pub open spec fn reply_bytes(&self) -> Option<Seq<u8>> {
        match self.reply {
            Some(r) => Some(r@),
            None => None,
        }
    }

    /// Nothing to do for this packet.
    pub open spec fn is_idle(&self) -> bool {
        self.completion is None && self.reply is None && !self.stop
    }
}

/// Completion payload sent for every transfer-page packet:
/// SEND_RNDIS_PKT_COMPLETE with status SUCCESS.
pub open spec fn xfer_completion_bytes() -> Seq<u8> {
    spec_u32_to_le_bytes(NVSP_MSG1_TYPE_SEND_RNDIS_PKT_COMPLETE) + spec_u32_to_le_bytes(NVSP_STAT_SUCCESS)
}

/// Builds the completion payload for a transfer-page packet.
pub fn xfer_completion() -> (c: Vec<u8>)
    ensures
        c@ == xfer_completion_bytes(),
{
    let mut c: Vec<u8> = Vec::new();
    push_u32_le(&mut c, NVSP_MSG1_TYPE_SEND_RNDIS_PKT_COMPLETE);
    push_u32_le(&mut c, NVSP_STAT_SUCCESS);
    c
}

/// A completion packet whose NVSP message is SEND_RNDIS_PKT_COMPLETE frees
/// the send section. The NVSP message starts `offset8 * 8 - 16` bytes into
/// the data after the descriptor.
pub open spec fn completion_frees_section(desc: VmPacketDescriptor, raw: Seq<u8>) -> bool {
    let off = desc.offset8 * 8 - 16;
    desc.offset8 * 8 >= 16 && off + 4 <= raw.len() && u32_at(raw, off) == NVSP_MSG1_TYPE_SEND_RNDIS_PKT_COMPLETE
}

/// Whether a completion packet frees the send section.
fn completion_is_rndis_pkt_complete(desc: &VmPacketDescriptor, raw: &[u8]) -> (r: bool)
    ensures
        r == completion_frees_section(*desc, raw@),
{
    let off8 = (desc.offset8 as usize) * 8;
    if off8 < 16 {
        return false;
    }
    let nvsp_offset = off8 - 16;
    if nvsp_offset + 4 <= raw.len() {
        read_u32_le(raw, nvsp_offset) == NVSP_MSG1_TYPE_SEND_RNDIS_PKT_COMPLETE
    } else {
        false
    }
}

/// Frame the data path queues from a staged RNDIS message: the Ethernet
/// frame of an RNDIS_PACKET_MSG that fits the receive slot.
pub open spec fn rx_frame_of(d: Seq<u8>) -> Option<Seq<u8>> {
    if d.len() >= 8 && u32_at(d, 0) == RNDIS_MSG_PACKET {
        eth_frame_spec(d, RX_FRAME_MAX as int)
    } else {
        None
    }
}

/// Request id of a host's RNDIS_MSG_KEEPALIVE (type, length, request id),
/// when the staged message is one.
pub open spec fn keepalive_request_spec(d: Seq<u8>) -> Option<u32> {
    if d.len() >= 12 && u32_at(d, 0) == RNDIS_MSG_KEEPALIVE {
        Some(u32_at(d, 8))
    } else {
        None
    }
}

/// Answer to a staged RNDIS message: a host keepalive with request id `r`
/// is answered by a KEEPALIVE_CMPLT for `r` with status SUCCESS; nothing
/// else is answered.
pub open spec fn keepalive_reply_of(d: Seq<u8>) -> Option<Seq<u8>> {
    match keepalive_request_spec(d) {
        Some(r) => Some(keepalive_complete_bytes(r)),
        None => None,
    }
}

/// The request id of a host keepalive message.
pub fn keepalive_request_id(msg: &[u8]) -> (r: Option<u32>)
    ensures
        r == keepalive_request_spec(msg@),
{
    if msg.len() >= 12 && read_u32_le(msg, 0) == RNDIS_MSG_KEEPALIVE {
        Some(read_u32_le(msg, 8))
    } else {
        None
    }
}

/// The KEEPALIVE_CMPLT answering request `req_id`.
fn keepalive_answer(req_id: u32) -> (resp: Vec<u8>)
    ensures
        resp@ == keepalive_complete_bytes(req_id),
        resp@.len() == 16,
{
    let mut resp: Vec<u8> = Vec::new();
    append_zeros(&mut resp, 16);
    build_rndis_keepalive_complete(req_id, resp.as_mut_slice());
    assert(resp@ =~= keepalive_complete_bytes(req_id));
    resp
}

/// Responses to INITIALIZE, QUERY and SET go to the control-response slot.
pub open spec fn is_control_response(d: Seq<u8>) -> bool {
    d.len() >= 8 && match rndis_response_spec(d) {
        Some(RndisResponseView::InitComplete { .. }) => true,
        Some(RndisResponseView::QueryComplete { .. }) => true,
        Some(RndisResponseView::SetComplete { .. }) => true,
        _ => false,
    }
}

/// Size of the staging buffer used for control-path messages.
pub const CTRL_STAGE_SIZE: usize = 256;

impl NetvscDevice {
    /// The queued frame, by its bytes.
    pub open spec fn pending_frame(&self) -> Option<Seq<u8>> {
        match self.pending_rx {
            Some(f) => Some(f@),
            None => None,
        }
    }

    /// Channel, buffers, negotiated parameters and id counters agree.
    pub open spec fn same_setup(&self, o: &Self) -> bool {
        &&& self.channel == o.channel
        &&& self.recv_buf == o.recv_buf
        &&& self.recv_buf_gpadl == o.recv_buf_gpadl
        &&& self.send_buf == o.send_buf
        &&& self.send_buf_gpadl == o.send_buf_gpadl
        &&& self.nvsp_version == o.nvsp_version
        &&& self.mac == o.mac
        &&& self.mtu == o.mtu
        &&& self.next_request_id == o.next_request_id
        &&& self.next_txid == o.next_txid
    }

    /// Decide what the data path does with one packet drained from the
    /// receive ring (`raw` is everything after the descriptor).
    ///
    /// A transfer-page packet is staged into a receive-slot-sized buffer
    /// and always acknowledged; an RNDIS data packet fills the receive
    /// slot, and a host keepalive is answered with a KEEPALIVE_CMPLT for
    /// its request id. While the slot is full, draining stops. A completion that
    /// carries SEND_RNDIS_PKT_COMPLETE frees the send section. Anything
    /// else is skipped.
    pub fn pump_packet(&mut self, desc: &VmPacketDescriptor, raw: &[u8], recv_buf: &[u8]) -> (a: PacketAction)
        requires
            recv_buf@.len() >= NETVSC_RECV_BUF_SIZE,
        ensures
            final(self).same_setup(old(self)),
            final(self).ctrl_resp == old(self).ctrl_resp,
            final(self).ctrl_resp_ready == old(self).ctrl_resp_ready,
            a.reply matches Some(r) ==> r@.len() == 16,
            desc.packet_type == VM_PKT_DATA_USING_XFER_PAGES && old(self).pending_rx is Some ==> {
                &&& a.stop && a.completion is None && a.reply is None
                &&& final(self).pending_frame() == old(self).pending_frame()
                &&& final(self).send_section_free == old(self).send_section_free
            },
            desc.packet_type == VM_PKT_DATA_USING_XFER_PAGES && old(self).pending_rx is None ==> {
                let d = xfer_page_data(raw@, recv_buf@, RX_FRAME_MAX as int);
                &&& !a.stop
                &&& a.completion == Some(desc.transaction_id)
                &&& a.reply_bytes() == keepalive_reply_of(d)
                &&& final(self).pending_frame() == rx_frame_of(d)
                &&& final(self).send_section_free == old(self).send_section_free
            },
            desc.packet_type == VM_PKT_COMP ==> {
                &&& a.is_idle()
                &&& final(self).pending_frame() == old(self).pending_frame()
                &&& final(self).send_section_free == (old(self).send_section_free || completion_frees_section(
                    *desc,
                    raw@,
                ))
            },
            desc.packet_type != VM_PKT_DATA_USING_XFER_PAGES && desc.packet_type != VM_PKT_COMP ==> {
                &&& a.is_idle()
                &&& final(self).pending_frame() == old(self).pending_frame()
                &&& final(self).send_section_free == old(self).send_section_free
            },
    {
        if desc.packet_type == VM_PKT_DATA_USING_XFER_PAGES {
            if self.pending_rx.is_some() {
                return PacketAction { completion: None, reply: None, stop: true };
            }
            let mut tmp: Vec<u8> = Vec::new();
            append_zeros(&mut tmp, RX_FRAME_MAX);
            let rndis_len = parse_xfer_page_packet(raw, recv_buf, tmp.as_mut_slice());
            let ghost d = xfer_page_data(raw@, recv_buf@, RX_FRAME_MAX as int);
            assert(tmp@.subrange(0, rndis_len as int) =~= d);
            let mut reply: Option<Vec<u8>> = None;
            if rndis_len >= RNDIS_HEADER_SIZE {
                let msg_type = read_u32_le(tmp.as_slice(), 0);
                assert(tmp@.subrange(0, 4) =~= d.subrange(0, 4));
                if msg_type == RNDIS_MSG_PACKET {
                    match extract_eth_frame(tmp.as_mut_slice(), rndis_len) {
                        Some(eth_len) => {
                            let frame = sub_vec(tmp.as_slice(), 0, eth_len);
                            self.pending_rx = Some(frame);
                        },
                        None => {},
                    }
                } else if msg_type == RNDIS_MSG_KEEPALIVE {
                    // A host keepalive is answered inline.
                    let msg = sub_vec(tmp.as_slice(), 0, rndis_len);
                    assert(msg@ =~= d);
                    match keepalive_request_id(msg.as_slice()) {
                        Some(req_id) => {
                            reply = Some(keepalive_answer(req_id));
                        },
                        None => {},
                    }
                }
            }
            PacketAction { completion: Some(desc.transaction_id), reply, stop: false }
        } else if desc.packet_type == VM_PKT_COMP {
            if completion_is_rndis_pkt_complete(desc, raw) {
                self.send_section_free = true;
            }
            PacketAction { completion: None, reply: None, stop: false }
        } else {
            PacketAction { completion: None, reply: None, stop: false }
        }
    }
}


impl NetvscDevice {
    /// Decide what the control path (device bring-up) does with one packet
    /// drained from the receive ring.
    ///
    /// A transfer-page packet is staged into a 256-byte buffer and always
    /// acknowledged; a response to INITIALIZE, QUERY or SET fills the
    /// control-response slot, and a host keepalive is answered. A
    /// completion carrying SEND_RNDIS_PKT_COMPLETE frees the send section.
    pub fn poll_packet(&mut self, desc: &VmPacketDescriptor, raw: &[u8], recv_buf: &[u8]) -> (a: PacketAction)
        requires
            recv_buf@.len() >= NETVSC_RECV_BUF_SIZE,
        ensures
            final(self).same_setup(old(self)),
            final(self).pending_frame() == old(self).pending_frame(),
            !a.stop,
            a.reply matches Some(r) ==> r@.len() == 16,
            desc.packet_type == VM_PKT_DATA_USING_XFER_PAGES ==> {
                let d = xfer_page_data(raw@, recv_buf@, CTRL_STAGE_SIZE as int);
                &&& a.completion == Some(desc.transaction_id)
                &&& a.reply_bytes() == keepalive_reply_of(d)
                &&& final(self).send_section_free == old(self).send_section_free
                &&& is_control_response(d) ==> final(self).ctrl_resp@ == d && final(self).ctrl_resp_ready
                &&& !is_control_response(d) ==> final(self).ctrl_resp == old(self).ctrl_resp
                    && final(self).ctrl_resp_ready == old(self).ctrl_resp_ready
            },
            desc.packet_type == VM_PKT_COMP ==> {
                &&& a.is_idle()
                &&& final(self).ctrl_resp == old(self).ctrl_resp
                &&& final(self).ctrl_resp_ready == old(self).ctrl_resp_ready
                &&& final(self).send_section_free == (old(self).send_section_free || completion_frees_section(
                    *desc,
                    raw@,
                ))
            },
            desc.packet_type != VM_PKT_DATA_USING_XFER_PAGES && desc.packet_type != VM_PKT_COMP ==> {
                &&& a.is_idle()
                &&& final(self).ctrl_resp == old(self).ctrl_resp
                &&& final(self).ctrl_resp_ready == old(self).ctrl_resp_ready
                &&& final(self).send_section_free == old(self).send_section_free
            },
    {
        if desc.packet_type == VM_PKT_DATA_USING_XFER_PAGES {
            let mut buf: Vec<u8> = Vec::new();
            append_zeros(&mut buf, CTRL_STAGE_SIZE);
            let len = parse_xfer_page_packet(raw, recv_buf, buf.as_mut_slice());
            let ghost d = xfer_page_data(raw@, recv_buf@, CTRL_STAGE_SIZE as int);
            let msg = sub_vec(buf.as_slice(), 0, len);
            assert(msg@ =~= d);
            let mut reply: Option<Vec<u8>> = None;
            if len >= RNDIS_HEADER_SIZE {
                match parse_rndis_response(msg.as_slice()) {
                    Some(RndisResponse::InitComplete { .. }) | Some(RndisResponse::QueryComplete { .. }) | Some(
                        RndisResponse::SetComplete { .. },
                    ) => {
                        self.ctrl_resp = msg;
                        self.ctrl_resp_ready = true;
                    },
                    _ => {
                        // A host keepalive is answered inline.
                        match keepalive_request_id(msg.as_slice()) {
                            Some(req_id) => {
                                reply = Some(keepalive_answer(req_id));
                            },
                            None => {},
                        }
                    },
                }
            }
            PacketAction { completion: Some(desc.transaction_id), reply, stop: false }
        } else if desc.packet_type == VM_PKT_COMP {
            if completion_is_rndis_pkt_complete(desc, raw) {
                self.send_section_free = true;
            }
            PacketAction { completion: None, reply: None, stop: false }
        } else {
            PacketAction { completion: None, reply: None, stop: false }
        }
    }
}


// ── sending through send-buffer section 0 ───────────────────────────────

/// NVSP SEND_RNDIS_PKT announcing `size` bytes in send section 0, padded to
/// the 40 bytes the host expects. `channel_type` is 0 for data, 1 for control.
pub open spec fn rndis_announce_bytes(channel_type: u32, size: u32) -> Seq<u8> {
    nvsp_rndis_pkt_bytes(channel_type, 0, size) + zeros(8)
}

/// Builds the announcement of `size` bytes in send section 0.
fn rndis_announce(channel_type: u32, size: u32) -> (m: [u8; 40])
    ensures
        m@ == rndis_announce_bytes(channel_type, size),
{
    let nvsp = build_nvsp_send_rndis_pkt(channel_type, 0, size);
    nvsp_message_padded(nvsp.as_slice())
}

/// RNDIS_PACKET_MSG header for a frame of `frame_len` bytes: message type
/// and length, then the `rndis_packet` fields with the data and the
/// per-packet-info area both starting right after the structure.
pub open spec fn rndis_packet_header(frame_len: u32) -> Seq<u8> {
    spec_u32_to_le_bytes(RNDIS_MSG_PACKET) + spec_u32_to_le_bytes((RNDIS_PACKET_HDR_SIZE + frame_len) as u32)
        + spec_u32_to_le_bytes(36) + spec_u32_to_le_bytes(frame_len) + zeros(12) + spec_u32_to_le_bytes(36)
        + zeros(12)
}

/// Builds the RNDIS_PACKET_MSG header for a frame of `frame_len` bytes.
fn build_rndis_packet_header(frame_len: u32) -> (h: Vec<u8>)
    requires
        RNDIS_PACKET_HDR_SIZE + frame_len <= u32::MAX,
    ensures
        h@ == rndis_packet_header(frame_len),
        h@.len() == RNDIS_PACKET_HDR_SIZE,
{
    let mut h: Vec<u8> = Vec::new();
    push_u32_le(&mut h, RNDIS_MSG_PACKET);
    push_u32_le(&mut h, (RNDIS_PACKET_HDR_SIZE as u32) + frame_len);
    push_u32_le(&mut h, 36);
    push_u32_le(&mut h, frame_len);
    append_zeros(&mut h, 12);
    push_u32_le(&mut h, 36);
    append_zeros(&mut h, 12);
    proof {
        lemma_auto_spec_u32_to_from_le_bytes();
    }
    h
}

impl NetvscDevice {
    /// Send an RNDIS control message (an answer to the host) through send
    /// section 0, without taking the section or a transaction id.
    /// After `Ok` the caller signals the host.
    pub fn send_rndis_control_inner(
        &self,
        rndis_msg: &[u8],
        send_ring: &mut [u8],
        send_idx: &mut RingIndices,
        send_buf: &mut [u8],
    ) -> (res: Result<(), HvError>)
        requires
            self.channel.wf(),
            old(send_ring)@.len() == self.channel.send.data_size,
            rndis_msg@.len() <= old(send_buf)@.len(),
            rndis_msg@.len() <= NETVSC_SEND_BUF_SIZE,
        ensures
            final(send_buf)@ == rndis_msg@ + old(send_buf)@.subrange(
                rndis_msg@.len() as int,
                old(send_buf)@.len() as int,
            ),
            self.channel.posted(
                old(send_ring)@,
                *old(send_idx),
                final(send_ring)@,
                *final(send_idx),
                rndis_announce_bytes(1, rndis_msg@.len() as u32),
                0,
                res,
            ),
    {
        copy_into(send_buf, rndis_msg);
        let bytes = rndis_announce(1, rndis_msg.len() as u32);
        self.channel.send(send_ring, send_idx, &bytes, 0)
    }

    /// Send an RNDIS control message via send section 0: the section is
    /// taken and the announcement carries the next transaction id.
    /// `Err(Timeout)` when the section is still in use (the caller waits
    /// for its completion first). After `Ok` the caller signals the host.
    pub fn send_rndis_control(
        &mut self,
        rndis_msg: &[u8],
        send_ring: &mut [u8],
        send_idx: &mut RingIndices,
        send_buf: &mut [u8],
    ) -> (res: Result<(), HvError>)
        requires
            old(self).channel.wf(),
            old(send_ring)@.len() == old(self).channel.send.data_size,
            rndis_msg@.len() <= NETVSC_SEND_BUF_SIZE,
            rndis_msg@.len() <= old(send_buf)@.len(),
            old(self).next_txid < u64::MAX,
        ensures
            !old(self).send_section_free ==> {
                &&& res == Err::<(), HvError>(HvError::Timeout)
                &&& *final(self) == *old(self)
                &&& final(send_buf)@ == old(send_buf)@
                &&& final(send_ring)@ == old(send_ring)@
                &&& *final(send_idx) == *old(send_idx)
            },
            old(self).send_section_free ==> {
                &&& final(send_buf)@ == rndis_msg@ + old(send_buf)@.subrange(
                    rndis_msg@.len() as int,
                    old(send_buf)@.len() as int,
                )
                &&& !final(self).send_section_free
                &&& final(self).next_txid == old(self).next_txid + 1
                &&& final(self).channel == old(self).channel
                &&& final(self).mac == old(self).mac
                &&& final(self).mtu == old(self).mtu
                &&& final(self).next_request_id == old(self).next_request_id
                &&& final(self).pending_frame() == old(self).pending_frame()
                &&& final(self).ctrl_resp == old(self).ctrl_resp
                &&& final(self).ctrl_resp_ready == old(self).ctrl_resp_ready
                &&& old(self).channel.posted(
                    old(send_ring)@,
                    *old(send_idx),
                    final(send_ring)@,
                    *final(send_idx),
                    rndis_announce_bytes(1, rndis_msg@.len() as u32),
                    old(self).next_txid,
                    res,
                )
            },
    {
        if !self.send_section_free {
            return Err(HvError::Timeout);
        }
        copy_into(send_buf, rndis_msg);
        let bytes = rndis_announce(1, rndis_msg.len() as u32);
        self.send_section_free = false;
        let txid = self.next_txid;
        self.next_txid = self.next_txid + 1;
        self.channel.send(send_ring, send_idx, &bytes, txid)
    }

    /// Send an Ethernet frame through send section 0 as an RNDIS data
    /// packet: header and frame are written to the section, which is
    /// taken, and the announcement carries the next transaction id.
    /// `Err(Timeout)` when no send slot is free (the caller drains pending
    /// completions first). After `Ok` the caller signals the host.
    pub fn transmit(
        &mut self,
        frame: &[u8],
        send_ring: &mut [u8],
        send_idx: &mut RingIndices,
        send_buf: &mut [u8],
    ) -> (res: Result<(), HvError>)
        requires
            old(self).channel.wf(),
            old(send_ring)@.len() == old(self).channel.send.data_size,
            RNDIS_PACKET_HDR_SIZE + frame@.len() <= NETVSC_SEND_BUF_SIZE,
            NETVSC_SEND_BUF_SIZE <= old(send_buf)@.len(),
            old(self).next_txid < u64::MAX,
        ensures
            !old(self).send_section_free ==> {
                &&& res == Err::<(), HvError>(HvError::Timeout)
                &&& *final(self) == *old(self)
                &&& final(send_buf)@ == old(send_buf)@
                &&& final(send_ring)@ == old(send_ring)@
                &&& *final(send_idx) == *old(send_idx)
            },
            old(self).send_section_free ==> {
                let rndis_len = RNDIS_PACKET_HDR_SIZE + frame@.len();
                &&& final(send_buf)@ == rndis_packet_header(frame@.len() as u32) + frame@
                    + old(send_buf)@.subrange(rndis_len as int, old(send_buf)@.len() as int)
                &&& !final(self).send_section_free
                &&& final(self).next_txid == old(self).next_txid + 1
                &&& final(self).channel == old(self).channel
                &&& final(self).mac == old(self).mac
                &&& final(self).mtu == old(self).mtu
                &&& final(self).next_request_id == old(self).next_request_id
                &&& final(self).pending_frame() == old(self).pending_frame()
                &&& final(self).ctrl_resp == old(self).ctrl_resp
                &&& final(self).ctrl_resp_ready == old(self).ctrl_resp_ready
                &&& old(self).channel.posted(
                    old(send_ring)@,
                    *old(send_idx),
                    final(send_ring)@,
                    *final(send_idx),
                    rndis_announce_bytes(0, rndis_len as u32),
                    old(self).next_txid,
                    res,
                )
            },
    {
        if !self.send_section_free {
            return Err(HvError::Timeout);
        }
        let frame_len = frame.len();
        let rndis_len = RNDIS_PACKET_HDR_SIZE + frame_len;
        let mut msg = build_rndis_packet_header(frame_len as u32);
        append_bytes(&mut msg, frame);
        copy_into(send_buf, msg.as_slice());
        let bytes = rndis_announce(0, rndis_len as u32);
        let txid = self.next_txid;
        self.next_txid = self.next_txid + 1;
        self.send_section_free = false;
        self.channel.send(send_ring, send_idx, &bytes, txid)
    }
}


// ── draining the receive ring ───────────────────────────────────────────

/// Ring indices of the channel's two halves, as read from their control
/// pages, and whether a packet was posted since the host was last signalled.
pub struct ChannelCursor {
    pub send: RingIndices,
    pub recv: RingIndices,
    pub signal: bool,
}

/// The send side of a drain: what is pending on the send ring from the
/// cursor's send indices, the send buffer and the cursor's signal flag.
pub open spec fn send_side(send_ring: Seq<u8>, cur: ChannelCursor, send_buf: Seq<u8>) -> SendSide {
    (pending(send_ring, cur.send), cur.send, send_buf, cur.signal)
}

/// Size of the buffer a drained packet is read into.
pub const RAW_PACKET_BUF: usize = 512;

/// Bytes after the descriptor of the packet at the front of the pending
/// bytes `p`, as far as a drain reads them.
pub open spec fn front_raw(p: Seq<u8>) -> Seq<u8> {
    p.subrange(16, 16 + recv_raw_copy_len(p, RAW_PACKET_BUF as int))
}

/// Pending bytes after the packet at the front of `p`.
pub open spec fn after_front(p: Seq<u8>) -> Seq<u8> {
    p.subrange(recv_consumed(p), p.len() as int)
}

/// Send side of the channel as a drain sees it: the bytes pending for the
/// host on the send ring, the send indices, the send buffer's bytes and
/// whether the host is to be signalled.
pub type SendSide = (Seq<u8>, RingIndices, Seq<u8>, bool);

/// Send side after acting on one packet's decisions on a send ring of `n`
/// data bytes: the completion is posted, then the reply is written to the
/// send buffer and announced; each post that goes out raises the signal.
pub open spec fn act_spec(n: int, completion: Option<u64>, reply: Option<Seq<u8>>, tx: SendSide) -> SendSide {
    let t1 = match completion {
        Some(txid) => {
            let o = post_spec(n, tx.0, tx.1, VM_PKT_COMP, 0, txid, xfer_completion_bytes());
            (o.0, o.1, tx.2, tx.3 || o.2)
        },
        None => tx,
    };
    match reply {
        Some(r) => {
            let o = post_spec(
                n,
                t1.0,
                t1.1,
                VM_PKT_DATA_INBAND,
                VMBUS_DATA_PACKET_FLAG_COMPLETION_REQUESTED,
                0,
                rndis_announce_bytes(1, r.len() as u32),
            );
            (o.0, o.1, r + t1.2.subrange(r.len() as int, t1.2.len() as int), t1.3 || o.2)
        },
        None => t1,
    }
}

/// Send side after a data transmit of `frame` with transaction id `txid`
/// from the send side `tx` of a send ring of `n` data bytes: the RNDIS
/// packet header and the frame are written at the start of the send
/// buffer, and their announcement on send section 0 is posted, raising the
/// signal when it goes out. The flag says whether it went out.
pub open spec fn transmit_spec(n: int, frame: Seq<u8>, txid: u64, tx: SendSide) -> (SendSide, bool) {
    let rndis_len = RNDIS_PACKET_HDR_SIZE + frame.len();
    let o = post_spec(
        n,
        tx.0,
        tx.1,
        VM_PKT_DATA_INBAND,
        VMBUS_DATA_PACKET_FLAG_COMPLETION_REQUESTED,
        txid,
        rndis_announce_bytes(0, rndis_len as u32),
    );
    (
        (
            o.0,
            o.1,
            rndis_packet_header(frame.len() as u32) + frame + tx.2.subrange(rndis_len, tx.2.len() as int),
            tx.3 || o.2,
        ),
        o.2,
    )
}

/// Outcome of draining the pending bytes `p` on the data path, from a
/// receive slot holding `frame`, a send section free or not and the send
/// side `tx` of a send ring of `n` data bytes: the receive slot, whether
/// the send section is free, the bytes left pending, whether the drain
/// succeeded and the send side. Every transfer-page packet consumed is
/// acknowledged. A transfer-page packet that meets a full slot stays on
/// the ring and ends the drain; a malformed packet ends it with an error.
pub open spec fn pump_drain(
    p: Seq<u8>,
    recv_buf: Seq<u8>,
    frame: Option<Seq<u8>>,
    free: bool,
    n: int,
    tx: SendSide,
) -> (Option<Seq<u8>>, bool, Seq<u8>, bool, SendSide)
    decreases p.len(),
{
    if p.len() == 0 {
        (frame, free, p, true, tx)
    } else if recv_raw_corrupt(p) {
        (frame, free, p, false, tx)
    } else {
        let desc = descriptor_from_bytes(p);
        let raw = front_raw(p);
        if desc.packet_type == VM_PKT_DATA_USING_XFER_PAGES {
            if frame is Some {
                (frame, free, p, true, tx)
            } else {
                let d = xfer_page_data(raw, recv_buf, RX_FRAME_MAX as int);
                pump_drain(
                    after_front(p),
                    recv_buf,
                    rx_frame_of(d),
                    free,
                    n,
                    act_spec(n, Some(desc.transaction_id), keepalive_reply_of(d), tx),
                )
            }
        } else if desc.packet_type == VM_PKT_COMP {
            pump_drain(after_front(p), recv_buf, frame, free || completion_frees_section(desc, raw), n, tx)
        } else {
            pump_drain(after_front(p), recv_buf, frame, free, n, tx)
        }
    }
}

/// Draining the data path is idempotent: once a drain has succeeded,
/// draining again from where it stopped, with the state it left, changes
/// nothing (the ring is empty, or its front packet waits for the receive
/// slot to be emptied).
pub proof fn lemma_pump_drain_idempotent(
    p: Seq<u8>,
    recv_buf: Seq<u8>,
    frame: Option<Seq<u8>>,
    free: bool,
    n: int,
    tx: SendSide,
)
    requires
        pump_drain(p, recv_buf, frame, free, n, tx).3,
    ensures
        ({
            let o = pump_drain(p, recv_buf, frame, free, n, tx);
            pump_drain(o.2, recv_buf, o.0, o.1, n, o.4) == (o.0, o.1, o.2, true, o.4)
        }),
    decreases p.len(),
{
    if p.len() == 0 || recv_raw_corrupt(p) {
    } else {
        let desc = descriptor_from_bytes(p);
        let raw = front_raw(p);
        if desc.packet_type == VM_PKT_DATA_USING_XFER_PAGES {
            if frame is None {
                let d = xfer_page_data(raw, recv_buf, RX_FRAME_MAX as int);
                lemma_pump_drain_idempotent(
                    after_front(p),
                    recv_buf,
                    rx_frame_of(d),
                    free,
                    n,
                    act_spec(n, Some(desc.transaction_id), keepalive_reply_of(d), tx),
                );
            }
        } else if desc.packet_type == VM_PKT_COMP {
            lemma_pump_drain_idempotent(after_front(p), recv_buf, frame, free || completion_frees_section(desc, raw), n, tx);
        } else {
            lemma_pump_drain_idempotent(after_front(p), recv_buf, frame, free, n, tx);
        }
    }
}

/// Outcome of draining the pending bytes `p` during bring-up, from a
/// control-response slot holding `ctrl` (filled or not), a send section
/// free or not and the send side `tx` of a send ring of `n` data bytes:
/// the slot's bytes, whether it is filled, whether the send section is
/// free, whether the drain succeeded and the send side. Every well-formed
/// packet is consumed and every transfer-page packet acknowledged; a
/// malformed one ends the drain with an error.
pub open spec fn poll_drain(
    p: Seq<u8>,
    recv_buf: Seq<u8>,
    ctrl: Seq<u8>,
    ready: bool,
    free: bool,
    n: int,
    tx: SendSide,
) -> (Seq<u8>, bool, bool, bool, SendSide)
    decreases p.len(),
{
    if p.len() == 0 {
        (ctrl, ready, free, true, tx)
    } else if recv_raw_corrupt(p) {
        (ctrl, ready, free, false, tx)
    } else {
        let desc = descriptor_from_bytes(p);
        let raw = front_raw(p);
        if desc.packet_type == VM_PKT_DATA_USING_XFER_PAGES {
            let d = xfer_page_data(raw, recv_buf, CTRL_STAGE_SIZE as int);
            let tx1 = act_spec(n, Some(desc.transaction_id), keepalive_reply_of(d), tx);
            if is_control_response(d) {
                poll_drain(after_front(p), recv_buf, d, true, free, n, tx1)
            } else {
                poll_drain(after_front(p), recv_buf, ctrl, ready, free, n, tx1)
            }
        } else if desc.packet_type == VM_PKT_COMP {
            poll_drain(after_front(p), recv_buf, ctrl, ready, free || completion_frees_section(desc, raw), n, tx)
        } else {
            poll_drain(after_front(p), recv_buf, ctrl, ready, free, n, tx)
        }
    }
}

impl NetvscDevice {
    /// Data-path drain of the receive ring from the read cursor `at`, with
    /// the send side `tx` (see [`pump_drain`]).
    pub open spec fn drain_from(&self, recv_ring: Seq<u8>, at: RingIndices, recv_buf: Seq<u8>, tx: SendSide) -> (
        Option<Seq<u8>>,
        bool,
        Seq<u8>,
        bool,
        SendSide,
    ) {
        pump_drain(
            pending(recv_ring, at),
            recv_buf,
            self.pending_frame(),
            self.send_section_free,
            self.channel.send.data_size as int,
            tx,
        )
    }

    /// Receive slot after a data-path drain from the read cursor `at`
    /// (a drain from a cursor out of range changes nothing).
    pub open spec fn frame_after_drain(&self, recv_ring: Seq<u8>, at: RingIndices, recv_buf: Seq<u8>, tx: SendSide) -> Option<
        Seq<u8>,
    > {
        if indices_in_range(recv_ring.len() as int, at) {
            self.drain_from(recv_ring, at, recv_buf, tx).0
        } else {
            self.pending_frame()
        }
    }

    /// Whether the send section is free after a data-path drain from the
    /// read cursor `at`.
    pub open spec fn free_after_drain(&self, recv_ring: Seq<u8>, at: RingIndices, recv_buf: Seq<u8>, tx: SendSide) -> bool {
        if indices_in_range(recv_ring.len() as int, at) {
            self.drain_from(recv_ring, at, recv_buf, tx).1
        } else {
            self.send_section_free
        }
    }

    /// Shared memory handed to a drain matches the channel.
    pub open spec fn io_ok(&self, send_ring: Seq<u8>, recv_ring: Seq<u8>, recv_buf: Seq<u8>, send_buf: Seq<u8>) -> bool {
        &&& self.channel.wf()
        &&& send_ring.len() == self.channel.send.data_size
        &&& recv_ring.len() == self.channel.recv.data_size
        &&& recv_buf.len() >= NETVSC_RECV_BUF_SIZE
        &&& send_buf.len() >= 16
    }

    /// Acts on one packet's decisions: the completion and the reply are
    /// posted on the send ring; a successful post raises `cur.signal`.
    fn act(
        &self,
        a: PacketAction,
        cur: &mut ChannelCursor,
        send_ring: &mut [u8],
        send_buf: &mut [u8],
    )
        requires
            self.channel.wf(),
            old(send_ring)@.len() == self.channel.send.data_size,
            old(send_buf)@.len() >= 16,
            a.reply matches Some(r) ==> r@.len() == 16,
        ensures
            final(send_ring)@.len() == old(send_ring)@.len(),
            final(send_buf)@.len() == old(send_buf)@.len(),
            final(cur).recv == old(cur).recv,
            old(cur).signal ==> final(cur).signal,
            send_side(final(send_ring)@, *final(cur), final(send_buf)@) == act_spec(
                self.channel.send.data_size as int,
                a.completion,
                a.reply_bytes(),
                send_side(old(send_ring)@, *old(cur), old(send_buf)@),
            ),
    {
        match a.completion {
            Some(txid) => {
                let comp = xfer_completion();
                if self.channel.send_completion(send_ring, &mut cur.send, comp.as_slice(), txid).is_ok() {
                    cur.signal = true;
                }
            },
            None => {},
        }
        match a.reply {
            Some(reply) => {
                if self.send_rndis_control_inner(reply.as_slice(), send_ring, &mut cur.send, send_buf).is_ok() {
                    cur.signal = true;
                }
            },
            None => {},
        }
    }

    /// Drive the channel forward for the data path: drain every pending
    /// packet into the device state, posting completions and answers.
    /// A transfer-page packet that arrives while the receive slot is full
    /// is left on the ring, and draining stops there. Safe to call
    /// repeatedly: after a successful drain another one changes nothing
    /// ([`lemma_pump_drain_idempotent`]). The caller signals the host when
    /// `cur.signal` is raised and writes the indices back.
    pub fn pump_channel(
        &mut self,
        cur: &mut ChannelCursor,
        send_ring: &mut [u8],
        recv_ring: &[u8],
        recv_buf: &[u8],
        send_buf: &mut [u8],
    ) -> (res: Result<(), HvError>)
        requires
            old(self).io_ok(old(send_ring)@, recv_ring@, recv_buf@, old(send_buf)@),
        ensures
            final(self).same_setup(old(self)),
            final(self).ctrl_resp == old(self).ctrl_resp,
            final(self).ctrl_resp_ready == old(self).ctrl_resp_ready,
            old(self).send_section_free ==> final(self).send_section_free,
            old(self).pending_rx is Some ==> final(self).pending_frame() == old(self).pending_frame(),
            final(send_ring)@.len() == old(send_ring)@.len(),
            final(send_buf)@.len() == old(send_buf)@.len(),
            old(cur).signal ==> final(cur).signal,
            indices_in_range(recv_ring@.len() as int, old(cur).recv) ==> ({
                let o = old(self).drain_from(
                    recv_ring@,
                    old(cur).recv,
                    recv_buf@,
                    send_side(old(send_ring)@, *old(cur), old(send_buf)@),
                );
                &&& final(self).pending_frame() == o.0
                &&& final(self).send_section_free == o.1
                &&& indices_in_range(recv_ring@.len() as int, final(cur).recv)
                &&& pending(recv_ring@, final(cur).recv) == o.2
                &&& (res is Ok) == o.3
                &&& send_side(final(send_ring)@, *final(cur), final(send_buf)@) == o.4
            }),
            indices_in_range(recv_ring@.len() as int, old(cur).recv) && pending(recv_ring@, old(cur).recv).len()
                == 0 ==> res is Ok && *final(self) == *old(self) && *final(cur) == *old(cur),
            !indices_in_range(recv_ring@.len() as int, old(cur).recv) ==> res is Err && *final(self) == *old(self)
                && *final(cur) == *old(cur) && final(send_ring)@ == old(send_ring)@ && final(send_buf)@ == old(
                send_buf,
            )@,
    {
        let mut raw: Vec<u8> = Vec::new();
        append_zeros(&mut raw, RAW_PACKET_BUF);
        let ghost mut progressed = false;
        let ghost n = recv_ring@.len() as int;
        let ghost goal = self.drain_from(recv_ring@, cur.recv, recv_buf@, send_side(send_ring@, *cur, send_buf@));
        loop
            invariant
                self.io_ok(send_ring@, recv_ring@, recv_buf@, send_buf@),
                raw@.len() == RAW_PACKET_BUF,
                n == recv_ring@.len(),
                self.same_setup(old(self)),
                self.ctrl_resp == old(self).ctrl_resp,
                self.ctrl_resp_ready == old(self).ctrl_resp_ready,
                old(self).send_section_free ==> self.send_section_free,
                old(self).pending_rx is Some ==> self.pending_frame() == old(self).pending_frame(),
                send_ring@.len() == old(send_ring)@.len(),
                send_buf@.len() == old(send_buf)@.len(),
                old(cur).signal ==> cur.signal,
                !progressed ==> *self == *old(self) && *cur == *old(cur) && send_ring@ == old(send_ring)@ && send_buf@
                    == old(send_buf)@,
                progressed ==> indices_in_range(n, old(cur).recv) && pending(recv_ring@, old(cur).recv).len() > 0,
                goal == old(self).drain_from(
                    recv_ring@,
                    old(cur).recv,
                    recv_buf@,
                    send_side(old(send_ring)@, *old(cur), old(send_buf)@),
                ),
                indices_in_range(n, old(cur).recv) ==> indices_in_range(n, cur.recv) && self.drain_from(
                    recv_ring@,
                    cur.recv,
                    recv_buf@,
                    send_side(send_ring@, *cur, send_buf@),
                ) == goal,
            decreases pending(recv_ring@, cur.recv).len(),
        {
            let before = cur.recv;
            let ghost p = pending(recv_ring@, cur.recv);
            let r = self.channel.try_recv_raw(recv_ring, &mut cur.recv, raw.as_mut_slice());
            match r {
                Err(e) => {
                    return Err(e);
                },
                Ok(None) => {
                    return Ok(());
                },
                Ok(Some((desc, raw_len))) => {
                    proof {
                        progressed = true;
                    }
                    let pkt = sub_vec(raw.as_slice(), 0, raw_len);
                    assert(pkt@ =~= front_raw(p));
                    let a = self.pump_packet(&desc, pkt.as_slice(), recv_buf);
                    if a.stop {
                        cur.recv = before;
                        return Ok(());
                    }
                    self.act(a, cur, send_ring, send_buf);
                },
            }
        }
    }
}


impl NetvscDevice {
    /// Drive the channel forward during bring-up: drain every pending
    /// packet into the device state, posting completions and answers.
    /// Returns whether any packet was processed. The caller signals the
    /// host when `cur.signal` is raised and writes the indices back.
    pub fn poll_channel(
        &mut self,
        cur: &mut ChannelCursor,
        send_ring: &mut [u8],
        recv_ring: &[u8],
        recv_buf: &[u8],
        send_buf: &mut [u8],
    ) -> (res: Result<bool, HvError>)
        requires
            old(self).io_ok(old(send_ring)@, recv_ring@, recv_buf@, old(send_buf)@),
        ensures
            final(self).same_setup(old(self)),
            final(self).pending_frame() == old(self).pending_frame(),
            old(self).send_section_free ==> final(self).send_section_free,
            old(self).ctrl_resp_ready ==> final(self).ctrl_resp_ready,
            final(send_ring)@.len() == old(send_ring)@.len(),
            final(send_buf)@.len() == old(send_buf)@.len(),
            old(cur).signal ==> final(cur).signal,
            indices_in_range(recv_ring@.len() as int, old(cur).recv) ==> ({
                let p = pending(recv_ring@, old(cur).recv);
                let o = poll_drain(
                    p,
                    recv_buf@,
                    old(self).ctrl_resp@,
                    old(self).ctrl_resp_ready,
                    old(self).send_section_free,
                    old(self).channel.send.data_size as int,
                    send_side(old(send_ring)@, *old(cur), old(send_buf)@),
                );
                &&& final(self).ctrl_resp@ == o.0
                &&& final(self).ctrl_resp_ready == o.1
                &&& final(self).send_section_free == o.2
                &&& (res is Ok) == o.3
                &&& send_side(final(send_ring)@, *final(cur), final(send_buf)@) == o.4
                &&& res matches Ok(processed) ==> processed == (p.len() > 0) && pending(
                    recv_ring@,
                    final(cur).recv,
                ).len() == 0
            }),
            indices_in_range(recv_ring@.len() as int, old(cur).recv) && pending(recv_ring@, old(cur).recv).len()
                == 0 ==> res == Ok::<bool, HvError>(false) && *final(self) == *old(self) && *final(cur) == *old(cur),
            !indices_in_range(recv_ring@.len() as int, old(cur).recv) ==> res is Err && *final(self) == *old(self)
                && final(cur).recv == old(cur).recv,
    {
        let mut raw: Vec<u8> = Vec::new();
        append_zeros(&mut raw, RAW_PACKET_BUF);
        let mut processed = false;
        let ghost n = recv_ring@.len() as int;
        let ghost goal = poll_drain(
            pending(recv_ring@, cur.recv),
            recv_buf@,
            self.ctrl_resp@,
            self.ctrl_resp_ready,
            self.send_section_free,
            self.channel.send.data_size as int,
            send_side(send_ring@, *cur, send_buf@),
        );
        loop
            invariant
                self.io_ok(send_ring@, recv_ring@, recv_buf@, send_buf@),
                raw@.len() == RAW_PACKET_BUF,
                n == recv_ring@.len(),
                self.same_setup(old(self)),
                self.pending_frame() == old(self).pending_frame(),
                old(self).send_section_free ==> self.send_section_free,
                old(self).ctrl_resp_ready ==> self.ctrl_resp_ready,
                send_ring@.len() == old(send_ring)@.len(),
                send_buf@.len() == old(send_buf)@.len(),
                old(cur).signal ==> cur.signal,
                !processed ==> *self == *old(self) && *cur == *old(cur),
                processed ==> indices_in_range(n, old(cur).recv) && pending(recv_ring@, old(cur).recv).len() > 0,
                goal == poll_drain(
                    pending(recv_ring@, old(cur).recv),
                    recv_buf@,
                    old(self).ctrl_resp@,
                    old(self).ctrl_resp_ready,
                    old(self).send_section_free,
                    old(self).channel.send.data_size as int,
                    send_side(old(send_ring)@, *old(cur), old(send_buf)@),
                ),
                indices_in_range(n, old(cur).recv) ==> indices_in_range(n, cur.recv) && poll_drain(
                    pending(recv_ring@, cur.recv),
                    recv_buf@,
                    self.ctrl_resp@,
                    self.ctrl_resp_ready,
                    self.send_section_free,
                    self.channel.send.data_size as int,
                    send_side(send_ring@, *cur, send_buf@),
                ) == goal,
            decreases pending(recv_ring@, cur.recv).len(),
        {
            let ghost p = pending(recv_ring@, cur.recv);
            let r = self.channel.try_recv_raw(recv_ring, &mut cur.recv, raw.as_mut_slice());
            match r {
                Err(e) => {
                    return Err(e);
                },
                Ok(None) => {
                    return Ok(processed);
                },
                Ok(Some((desc, raw_len))) => {
                    processed = true;
                    let pkt = sub_vec(raw.as_slice(), 0, raw_len);
                    assert(pkt@ =~= front_raw(p));
                    let a = self.poll_packet(&desc, pkt.as_slice(), recv_buf);
                    self.act(a, cur, send_ring, send_buf);
                },
            }
        }
    }

    /// Whether there is room in the send buffer for another transmit,
    /// after draining pending packets (completions among them).
    pub fn has_tx_space(
        &mut self,
        cur: &mut ChannelCursor,
        send_ring: &mut [u8],
        recv_ring: &[u8],
        recv_buf: &[u8],
        send_buf: &mut [u8],
    ) -> (r: bool)
        requires
            old(self).io_ok(old(send_ring)@, recv_ring@, recv_buf@, old(send_buf)@),
        ensures
            indices_in_range(recv_ring@.len() as int, old(cur).recv) ==> ({
                let o = old(self).drain_from(
                    recv_ring@,
                    old(cur).recv,
                    recv_buf@,
                    send_side(old(send_ring)@, *old(cur), old(send_buf)@),
                );
                &&& pending(recv_ring@, final(cur).recv) == o.2
                &&& send_side(final(send_ring)@, *final(cur), final(send_buf)@) == o.4
            }),
            !indices_in_range(recv_ring@.len() as int, old(cur).recv) ==> final(cur).recv == old(cur).recv,
            r == final(self).send_section_free,
            r == old(self).free_after_drain(recv_ring@, old(cur).recv, recv_buf@, send_side(old(send_ring)@, *old(cur), old(send_buf)@)),
            final(self).pending_frame() == old(self).frame_after_drain(recv_ring@, old(cur).recv, recv_buf@, send_side(old(send_ring)@, *old(cur), old(send_buf)@)),
            old(self).send_section_free ==> r,
            final(self).same_setup(old(self)),
            old(self).pending_rx is Some ==> final(self).pending_frame() == old(self).pending_frame(),
            final(send_ring)@.len() == old(send_ring)@.len(),
            final(send_buf)@.len() == old(send_buf)@.len(),
    {
        let _ = self.pump_channel(cur, send_ring, recv_ring, recv_buf, send_buf);
        self.send_section_free
    }

    /// Receive slot, send-section state and send side that a send works
    /// from: a busy send section first has the receive ring drained from
    /// the read cursor `at` (completions free it); a free one is used as it
    /// is. A drain from a cursor out of range changes nothing.
    pub open spec fn before_send(&self, recv_ring: Seq<u8>, at: RingIndices, recv_buf: Seq<u8>, tx: SendSide) -> (
        Option<Seq<u8>>,
        bool,
        SendSide,
    ) {
        if !self.send_section_free && indices_in_range(recv_ring.len() as int, at) {
            let o = self.drain_from(recv_ring, at, recv_buf, tx);
            (o.0, o.1, o.4)
        } else {
            (self.pending_frame(), self.send_section_free, tx)
        }
    }

    /// Send an Ethernet frame of `frame_len` bytes built in place by `f`.
    /// A busy send section is first waited on by draining pending packets
    /// ([`Self::before_send`]); when it is still busy the result is
    /// `Err(Timeout)` and `f` is not called. Otherwise `f` is handed the
    /// `frame_len` bytes of the send section after the RNDIS header, and
    /// what it leaves there is sent as [`Self::transmit`] sends a frame
    /// ([`transmit_spec`]); a post that goes out raises `cur.signal`.
    pub fn transmit_with<R, F: FnOnce(&mut [u8]) -> R>(
        &mut self,
        frame_len: usize,
        f: F,
        cur: &mut ChannelCursor,
        send_ring: &mut [u8],
        recv_ring: &[u8],
        recv_buf: &[u8],
        send_buf: &mut [u8],
    ) -> (res: Result<R, HvError>)
        requires
            old(self).io_ok(old(send_ring)@, recv_ring@, recv_buf@, old(send_buf)@),
            RNDIS_PACKET_HDR_SIZE + frame_len <= NETVSC_SEND_BUF_SIZE,
            NETVSC_SEND_BUF_SIZE <= old(send_buf)@.len(),
            old(self).next_txid < u64::MAX,
            forall|b: &mut [u8]| call_requires(f, (b,)),
        ensures
            ({
                let tx0 = send_side(old(send_ring)@, *old(cur), old(send_buf)@);
                let s = old(self).before_send(recv_ring@, old(cur).recv, recv_buf@, tx0);
                &&& final(self).pending_frame() == s.0
                &&& !final(self).send_section_free
                &&& final(self).channel == old(self).channel
                &&& final(self).mac == old(self).mac
                &&& final(self).mtu == old(self).mtu
                &&& final(self).next_request_id == old(self).next_request_id
                &&& final(self).ctrl_resp == old(self).ctrl_resp
                &&& final(self).ctrl_resp_ready == old(self).ctrl_resp_ready
                &&& !s.1 ==> {
                    &&& res == Err::<R, HvError>(HvError::Timeout)
                    &&& final(self).next_txid == old(self).next_txid
                    &&& send_side(final(send_ring)@, *final(cur), final(send_buf)@) == s.2
                }
                &&& s.1 ==> {
                    &&& final(self).next_txid == old(self).next_txid + 1
                    &&& exists|b: &mut [u8], v: R|
                        (*b)@ == s.2.2.subrange(
                            RNDIS_PACKET_HDR_SIZE as int,
                            RNDIS_PACKET_HDR_SIZE + frame_len,
                        ) && call_ensures(f, (b,), v) && ({
                            let t = transmit_spec(
                                old(self).channel.send.data_size as int,
                                copied_back((*b)@, 0, frame_len as int, (*final(b))@),
                                old(self).next_txid,
                                s.2,
                            );
                            &&& send_side(final(send_ring)@, *final(cur), final(send_buf)@) == t.0
                            &&& (res is Ok) == t.1
                            &&& res matches Ok(r) ==> r == v
                            &&& res is Err ==> res == Err::<R, HvError>(ring_failure())
                        })
                }
            }),
            !old(self).send_section_free && indices_in_range(recv_ring@.len() as int, old(cur).recv) ==> pending(
                recv_ring@,
                final(cur).recv,
            ) == old(self).drain_from(
                recv_ring@,
                old(cur).recv,
                recv_buf@,
                send_side(old(send_ring)@, *old(cur), old(send_buf)@),
            ).2,
            old(self).send_section_free || !indices_in_range(recv_ring@.len() as int, old(cur).recv)
                ==> final(cur).recv == old(cur).recv,
    {
        if !self.send_section_free {
            let _ = self.pump_channel(cur, send_ring, recv_ring, recv_buf, send_buf);
            if !self.send_section_free {
                return Err(HvError::Timeout);
            }
        }
        let mut frame = sub_vec(send_buf, RNDIS_PACKET_HDR_SIZE, frame_len);
        let ghost section = frame@;
        let result = f(frame.as_mut_slice());
        // `f` cannot change the slice's length; testing it makes that explicit.
        let sent = if frame.len() == frame_len {
            frame
        } else {
            sub_vec(send_buf, RNDIS_PACKET_HDR_SIZE, frame_len)
        };
        assert(sent@ == copied_back(section, 0, frame_len as int, frame@)) by {
            if frame@.len() == frame_len {
                assert(splice(section, 0, frame@) =~= frame@);
            }
        }
        let r = self.transmit(sent.as_slice(), send_ring, &mut cur.send, send_buf);
        match r {
            Ok(()) => {
                cur.signal = true;
                Ok(result)
            },
            Err(e) => Err(e),
        }
    }

    /// Whether an Ethernet frame is buffered, after draining pending packets.
    pub fn has_rx_packet(
        &mut self,
        cur: &mut ChannelCursor,
        send_ring: &mut [u8],
        recv_ring: &[u8],
        recv_buf: &[u8],
        send_buf: &mut [u8],
    ) -> (r: bool)
        requires
            old(self).io_ok(old(send_ring)@, recv_ring@, recv_buf@, old(send_buf)@),
        ensures
            indices_in_range(recv_ring@.len() as int, old(cur).recv) ==> ({
                let o = old(self).drain_from(
                    recv_ring@,
                    old(cur).recv,
                    recv_buf@,
                    send_side(old(send_ring)@, *old(cur), old(send_buf)@),
                );
                &&& pending(recv_ring@, final(cur).recv) == o.2
                &&& send_side(final(send_ring)@, *final(cur), final(send_buf)@) == o.4
            }),
            !indices_in_range(recv_ring@.len() as int, old(cur).recv) ==> final(cur).recv == old(cur).recv,
            r == final(self).pending_rx is Some,
            final(self).pending_frame() == old(self).frame_after_drain(recv_ring@, old(cur).recv, recv_buf@, send_side(old(send_ring)@, *old(cur), old(send_buf)@)),
            final(self).send_section_free == old(self).free_after_drain(recv_ring@, old(cur).recv, recv_buf@, send_side(old(send_ring)@, *old(cur), old(send_buf)@)),
            old(self).pending_rx is Some ==> r && final(self).pending_frame() == old(self).pending_frame(),
            final(self).same_setup(old(self)),
            old(self).send_section_free ==> final(self).send_section_free,
            final(send_ring)@.len() == old(send_ring)@.len(),
            final(send_buf)@.len() == old(send_buf)@.len(),
    {
        let _ = self.pump_channel(cur, send_ring, recv_ring, recv_buf, send_buf);
        self.pending_rx.is_some()
    }

    /// Consume the buffered Ethernet frame, handing it to `f`; `None`
    /// when no frame is buffered.
    pub fn recv_with<R, F: FnOnce(&mut [u8]) -> R>(&mut self, f: F) -> (r: Option<R>)
        requires
            forall|b: &mut [u8]| call_requires(f, (b,)),
        ensures
            r is Some <==> old(self).pending_rx is Some,
            r matches Some(v) ==> exists|b: &mut [u8]|
                old(self).pending_frame() == Some((*b)@) && call_ensures(f, (b,), v),
            final(self).pending_rx is None,
            final(self).same_setup(old(self)),
            final(self).send_section_free == old(self).send_section_free,
    {
        match self.pending_rx.take() {
            None => None,
            Some(mut frame) => Some(f(frame.as_mut_slice())),
        }
    }
}


// ── NVSP bring-up decisions ─────────────────────────────────────────────

/// The host accepted the NVSP version offered by an INIT message.
pub open spec fn nvsp_init_accepted_spec(resp: Seq<u8>) -> bool {
    match nvsp_response_spec(resp) {
        Some(NvspResponseView::InitComplete { status, .. }) => status == NVSP_STAT_SUCCESS,
        _ => false,
    }
}

/// MTU announced in NDIS_CONFIG: the default MTU plus the Ethernet header.
pub const NDIS_CONFIG_MTU: u32 = 1514 + 14;

/// NDIS_CONFIG sent after an accepted version other than the first
/// protocol version: MTU with the Ethernet header, IEEE 802.1Q enabled.
pub open spec fn ndis_config_message() -> Seq<u8> {
    nvsp_ndis_config_bytes(NDIS_CONFIG_MTU, 1) + zeros(8)
}

/// What to do after offering one NVSP version.
pub enum NvspStep {
    /// The version was accepted; send `ndis_config` (fire-and-forget) when present.
    Accepted { version: u32, ndis_config: Option<Vec<u8>> },
    /// Offer the next version in the negotiation order.
    TryNext,
    /// Every version was refused.
    Rejected,
}

/// Decides on the host's answer to the offer of
/// `negotiate_order()[attempt]`.
pub fn nvsp_negotiate_step(attempt: usize, resp: &[u8]) -> (s: NvspStep)
    requires
        attempt < negotiate_order_spec().len(),
    ensures
        ({
            let ver = negotiate_order_spec()[attempt as int];
            if nvsp_init_accepted_spec(resp@) {
                &&& s matches NvspStep::Accepted { version, ndis_config }
                &&& version == nvsp_version_value(ver)
                &&& ver == NvspVersion::V1 ==> ndis_config is None
                &&& ver != NvspVersion::V1 ==> (ndis_config matches Some(c) && c@ == ndis_config_message())
            } else if attempt + 1 < negotiate_order_spec().len() {
                s is TryNext
            } else {
                s is Rejected
            }
        }),
{
    let order = NvspVersion::negotiate_order();
    let ver = order[attempt];
    let accepted = match parse_nvsp_response(resp) {
        Some(NvspResponse::InitComplete { status, .. }) => status == NVSP_STAT_SUCCESS,
        _ => false,
    };
    if accepted {
        let ndis_config = if ver != NvspVersion::V1 {
            let cfg = build_nvsp_send_ndis_config(NDIS_CONFIG_MTU, 1);
            let padded = nvsp_message_padded(cfg.as_slice());
            let mut c: Vec<u8> = Vec::new();
            append_bytes(&mut c, &padded);
            Some(c)
        } else {
            None
        };
        NvspStep::Accepted { version: ver.as_u32(), ndis_config }
    } else if attempt + 1 < order.len() {
        NvspStep::TryNext
    } else {
        NvspStep::Rejected
    }
}

/// NDIS version announced for a negotiated NVSP version: 6.30 above
/// NVSP version 4, 6.1 otherwise.
pub open spec fn ndis_version_for_spec(nvsp_version: u32) -> (u32, u32) {
    if nvsp_version > NVSP_PROTOCOL_VERSION_4 {
        (6, 30)
    } else {
        (6, 1)
    }
}

/// NDIS version announced for a negotiated NVSP version.
pub fn ndis_version_for(nvsp_version: u32) -> (v: (u32, u32))
    ensures
        v == ndis_version_for_spec(nvsp_version),
{
    if nvsp_version > NVSP_PROTOCOL_VERSION_4 {
        (6, 30)
    } else {
        (6, 1)
    }
}

/// Status word the host reports for a failed buffer registration.
pub open spec fn setup_failure(status: u32) -> HvError {
    HvError::HypercallFailed(status as u16)
}

/// Outcome of registering the receive buffer.
pub open spec fn recv_buf_setup_spec(resp: Seq<u8>) -> Result<(), HvError> {
    match nvsp_response_spec(resp) {
        Some(NvspResponseView::RecvBufComplete { status, .. }) => if status == NVSP_STAT_SUCCESS {
            Ok(())
        } else {
            Err(setup_failure(status))
        },
        _ => Err(HvError::HypercallFailed(0xFFFF)),
    }
}

/// Checks the host's answer to SEND_RECV_BUF.
pub fn recv_buf_setup_outcome(resp: &[u8]) -> (r: Result<(), HvError>)
    ensures
        r == recv_buf_setup_spec(resp@),
{
    match parse_nvsp_response(resp) {
        Some(NvspResponse::RecvBufComplete { status, .. }) => {
            if status != NVSP_STAT_SUCCESS {
                Err(HvError::HypercallFailed(#[verifier::truncate] (status as u16)))
            } else {
                Ok(())
            }
        },
        _ => Err(HvError::HypercallFailed(0xFFFF)),
    }
}

/// Outcome of registering the send buffer: the section size on success.
pub open spec fn send_buf_setup_spec(resp: Seq<u8>) -> Result<u32, HvError> {
    match nvsp_response_spec(resp) {
        Some(NvspResponseView::SendBufComplete { status, section_size }) => if status == NVSP_STAT_SUCCESS {
            Ok(section_size)
        } else {
            Err(setup_failure(status))
        },
        _ => Err(HvError::HypercallFailed(0xFFFF)),
    }
}

/// Checks the host's answer to SEND_SEND_BUF.
pub fn send_buf_setup_outcome(resp: &[u8]) -> (r: Result<u32, HvError>)
    ensures
        r == send_buf_setup_spec(resp@),
{
    match parse_nvsp_response(resp) {
        Some(NvspResponse::SendBufComplete { status, section_size }) => {
            if status != NVSP_STAT_SUCCESS {
                Err(HvError::HypercallFailed(#[verifier::truncate] (status as u16)))
            } else {
                Ok(section_size)
            }
        },
        _ => Err(HvError::HypercallFailed(0xFFFF)),
    }
}

// ── RNDIS bring-up ──────────────────────────────────────────────────────

/// Largest transfer announced in RNDIS INITIALIZE.
pub const RNDIS_MAX_TRANSFER: u32 = 0x4000;

/// Step of the RNDIS bring-up that follows the NVSP phase.
#[derive(Debug, Clone, Copy, PartialEq, Eq, Structural)]
pub enum RndisPhase {
    Initialize,
    /// Query the current MAC address, then the permanent one.
    QueryCurrentMac,
    QueryPermanentMac,
    QueryMtu,
    SetPacketFilter,
    Ready,
}

/// Control request sent in a phase with request id `req_id`.
pub open spec fn rndis_request_bytes(phase: RndisPhase, req_id: u32) -> Seq<u8> {
    match phase {
        RndisPhase::Initialize => rndis_init_bytes(req_id, RNDIS_MAX_TRANSFER),
        RndisPhase::QueryCurrentMac => rndis_oid_request_bytes(
            RNDIS_MSG_QUERY,
            req_id,
            OID_802_3_CURRENT_ADDRESS,
            Seq::empty(),
        ),
        RndisPhase::QueryPermanentMac => rndis_oid_request_bytes(
            RNDIS_MSG_QUERY,
            req_id,
            OID_802_3_PERMANENT_ADDRESS,
            Seq::empty(),
        ),
        RndisPhase::QueryMtu => rndis_oid_request_bytes(RNDIS_MSG_QUERY, req_id, OID_GEN_MAXIMUM_FRAME_SIZE, Seq::empty()),
        RndisPhase::SetPacketFilter => rndis_oid_request_bytes(
            RNDIS_MSG_SET,
            req_id,
            OID_GEN_CURRENT_PACKET_FILTER,
            spec_u32_to_le_bytes(NDIS_PACKET_FILTER_STANDARD),
        ),
        RndisPhase::Ready => Seq::empty(),
    }
}

/// Successful QUERY answer with at least `min` information bytes.
pub open spec fn query_info(resp: Seq<u8>, min: int) -> Option<Seq<u8>> {
    match rndis_response_spec(resp) {
        Some(RndisResponseView::QueryComplete { status, info, .. }) => if status.0 == RNDIS_STATUS_SUCCESS
            && info.len() >= min {
            Some(info)
        } else {
            None
        },
        _ => None,
    }
}

/// Phase that follows the response `resp` to the request of `phase`, or
/// the error that ends the bring-up.
pub open spec fn rndis_phase_after(phase: RndisPhase, resp: Seq<u8>) -> Result<RndisPhase, HvError> {
    match phase {
        RndisPhase::Initialize => match rndis_response_spec(resp) {
            Some(RndisResponseView::InitComplete { status, .. }) => if status.0 == RNDIS_STATUS_SUCCESS {
                Ok(RndisPhase::QueryCurrentMac)
            } else {
                Err(HvError::HypercallFailed(status.0 as u16))
            },
            _ => Err(HvError::VersionRejected),
        },
        RndisPhase::QueryCurrentMac => if query_info(resp, 6) is Some {
            Ok(RndisPhase::QueryMtu)
        } else {
            Ok(RndisPhase::QueryPermanentMac)
        },
        RndisPhase::QueryPermanentMac => Ok(RndisPhase::QueryMtu),
        RndisPhase::QueryMtu => Ok(RndisPhase::SetPacketFilter),
        RndisPhase::SetPacketFilter => match rndis_response_spec(resp) {
            Some(RndisResponseView::SetComplete { .. }) => Ok(RndisPhase::Ready),
            _ => Err(HvError::VersionRejected),
        },
        RndisPhase::Ready => Ok(RndisPhase::Ready),
    }
}

/// MAC address taken from the response in a MAC-query phase.
pub open spec fn mac_from(phase: RndisPhase, resp: Seq<u8>) -> Option<Seq<u8>> {
    if phase == RndisPhase::QueryCurrentMac || phase == RndisPhase::QueryPermanentMac {
        match query_info(resp, 6) {
            Some(info) => Some(info.subrange(0, 6)),
            None => None,
        }
    } else {
        None
    }
}

/// MTU taken from the response in the MTU-query phase.
pub open spec fn mtu_from(phase: RndisPhase, resp: Seq<u8>) -> Option<u32> {
    if phase == RndisPhase::QueryMtu {
        match query_info(resp, 4) {
            Some(info) => Some(u32_at(info, 0)),
            None => None,
        }
    } else {
        None
    }
}

impl NetvscDevice {
    /// Builds the control request of `phase`, taking the next request id.
    pub fn rndis_request(&mut self, phase: RndisPhase) -> (m: Vec<u8>)
        requires
            old(self).next_request_id < u32::MAX,
            phase != RndisPhase::Ready,
        ensures
            m@ == rndis_request_bytes(phase, old(self).next_request_id),
            m@.len() <= 64,
            final(self).next_request_id == old(self).next_request_id + 1,
            final(self).channel == old(self).channel,
            final(self).mac == old(self).mac,
            final(self).mtu == old(self).mtu,
            final(self).next_txid == old(self).next_txid,
            final(self).send_section_free == old(self).send_section_free,
            final(self).pending_frame() == old(self).pending_frame(),
            final(self).ctrl_resp == old(self).ctrl_resp,
            final(self).ctrl_resp_ready == old(self).ctrl_resp_ready,
    {
        let req_id = self.next_request_id;
        self.next_request_id = self.next_request_id + 1;
        let mut buf: Vec<u8> = Vec::new();
        append_zeros(&mut buf, 64);
        proof {
            lemma_auto_spec_u32_to_from_le_bytes();
        }
        match phase {
            RndisPhase::Initialize => build_rndis_init(req_id, RNDIS_MAX_TRANSFER),
            RndisPhase::QueryCurrentMac | RndisPhase::QueryPermanentMac | RndisPhase::QueryMtu => {
                let oid = match phase {
                    RndisPhase::QueryCurrentMac => NdisOid(OID_802_3_CURRENT_ADDRESS),
                    RndisPhase::QueryPermanentMac => NdisOid(OID_802_3_PERMANENT_ADDRESS),
                    _ => NdisOid(OID_GEN_MAXIMUM_FRAME_SIZE),
                };
                let empty: Vec<u8> = Vec::new();
                let n = build_rndis_query(req_id, oid, empty.as_slice(), buf.as_mut_slice());
                let m = sub_vec(buf.as_slice(), 0, n);
                assert(m@ =~= rndis_request_bytes(phase, req_id));
                m
            },
            _ => {
                let mut filter: Vec<u8> = Vec::new();
                push_u32_le(&mut filter, NDIS_PACKET_FILTER_STANDARD);
                let n = build_rndis_set(req_id, NdisOid(OID_GEN_CURRENT_PACKET_FILTER), filter.as_slice(), buf.as_mut_slice());
                let m = sub_vec(buf.as_slice(), 0, n);
                assert(m@ =~= rndis_request_bytes(phase, req_id));
                m
            },
        }
    }

    /// Acts on the response to the request of `phase`: records the MAC
    /// address or the MTU it carries and returns the next phase, or the
    /// error that ends the bring-up.
    pub fn rndis_response(&mut self, phase: RndisPhase, resp: &[u8]) -> (r: Result<RndisPhase, HvError>)
        ensures
            r == rndis_phase_after(phase, resp@),
            mac_from(phase, resp@) matches Some(m) ==> final(self).mac@ == m,
            mac_from(phase, resp@) is None ==> final(self).mac == old(self).mac,
            mtu_from(phase, resp@) matches Some(m) ==> final(self).mtu == m,
            mtu_from(phase, resp@) is None ==> final(self).mtu == old(self).mtu,
            final(self).channel == old(self).channel,
            final(self).nvsp_version == old(self).nvsp_version,
            final(self).next_request_id == old(self).next_request_id,
            final(self).next_txid == old(self).next_txid,
            final(self).send_section_free == old(self).send_section_free,
            final(self).pending_frame() == old(self).pending_frame(),
            final(self).ctrl_resp == old(self).ctrl_resp,
            final(self).ctrl_resp_ready == old(self).ctrl_resp_ready,
    {
        let parsed = parse_rndis_response(resp);
        match phase {
            RndisPhase::Initialize => match parsed {
                Some(RndisResponse::InitComplete { status, .. }) => {
                    if !status.is_success() {
                        Err(HvError::HypercallFailed(#[verifier::truncate] (status.0 as u16)))
                    } else {
                        Ok(RndisPhase::QueryCurrentMac)
                    }
                },
                _ => Err(HvError::VersionRejected),
            },
            RndisPhase::QueryCurrentMac | RndisPhase::QueryPermanentMac => {
                let mut found = false;
                match parsed {
                    Some(RndisResponse::QueryComplete { status, info, .. }) => {
                        if status.is_success() && info.len() >= 6 {
                            let mut mac = [0u8; 6];
                            let mut i: usize = 0;
                            while i < 6
                                invariant
                                    i <= 6,
                                    info@.len() >= 6,
                                    forall|k: int| 0 <= k < i ==> mac@[k] == info@[k],
                                decreases 6 - i,
                            {
                                mac[i] = info[i];
                                i = i + 1;
                            }
                            assert(mac@ =~= info@.subrange(0, 6));
                            self.mac = mac;
                            found = true;
                        }
                    },
                    _ => {},
                }
                if found || phase == RndisPhase::QueryPermanentMac {
                    Ok(RndisPhase::QueryMtu)
                } else {
                    Ok(RndisPhase::QueryPermanentMac)
                }
            },
            RndisPhase::QueryMtu => {
                match parsed {
                    Some(RndisResponse::QueryComplete { status, info, .. }) => {
                        if status.is_success() && info.len() >= 4 {
                            self.mtu = read_u32_le(info.as_slice(), 0);
                        }
                    },
                    _ => {},
                }
                Ok(RndisPhase::SetPacketFilter)
            },
            RndisPhase::SetPacketFilter => match parsed {
                Some(RndisResponse::SetComplete { .. }) => Ok(RndisPhase::Ready),
                _ => Err(HvError::VersionRejected),
            },
            RndisPhase::Ready => Ok(RndisPhase::Ready),
        }
    }

    /// Takes the control response once it has arrived: the slot is
    /// cleared and its bytes returned.
    pub fn take_ctrl_response(&mut self) -> (r: Option<Vec<u8>>)
        ensures
            old(self).ctrl_resp_ready ==> (r matches Some(v) && v@ == old(self).ctrl_resp@),
            !old(self).ctrl_resp_ready ==> r is None,
            !final(self).ctrl_resp_ready,
            final(self).same_setup(old(self)),
            final(self).send_section_free == old(self).send_section_free,
            final(self).pending_frame() == old(self).pending_frame(),
    {
        if self.ctrl_resp_ready {
            self.ctrl_resp_ready = false;
            let v = sub_vec(self.ctrl_resp.as_slice(), 0, self.ctrl_resp.len());
            assert(v@ =~= self.ctrl_resp@);
            Some(v)
        } else {
            None
        }
    }

    /// Consume the buffered Ethernet frame into `frame_buf`, after
    /// draining pending packets; returns the number of bytes copied, at
    /// most the buffer's length, or `None` when no frame is buffered.
    pub fn try_receive(
        &mut self,
        frame_buf: &mut [u8],
        cur: &mut ChannelCursor,
        send_ring: &mut [u8],
        recv_ring: &[u8],
        recv_buf: &[u8],
        send_buf: &mut [u8],
    ) -> (res: Result<Option<usize>, HvError>)
        requires
            old(self).io_ok(old(send_ring)@, recv_ring@, recv_buf@, old(send_buf)@),
        ensures
            indices_in_range(recv_ring@.len() as int, old(cur).recv) ==> ({
                let o = old(self).drain_from(
                    recv_ring@,
                    old(cur).recv,
                    recv_buf@,
                    send_side(old(send_ring)@, *old(cur), old(send_buf)@),
                );
                &&& pending(recv_ring@, final(cur).recv) == o.2
                &&& send_side(final(send_ring)@, *final(cur), final(send_buf)@) == o.4
            }),
            !indices_in_range(recv_ring@.len() as int, old(cur).recv) ==> final(cur).recv == old(cur).recv,
            res is Ok,
            final(self).pending_rx is None,
            final(self).same_setup(old(self)),
            old(self).send_section_free ==> final(self).send_section_free,
            final(frame_buf)@.len() == old(frame_buf)@.len(),
            res matches Ok(Some(n)) ==> n <= old(frame_buf)@.len() && final(frame_buf)@.subrange(
                n as int,
                old(frame_buf)@.len() as int,
            ) == old(frame_buf)@.subrange(n as int, old(frame_buf)@.len() as int),
            final(self).send_section_free == old(self).free_after_drain(recv_ring@, old(cur).recv, recv_buf@, send_side(old(send_ring)@, *old(cur), old(send_buf)@)),
            res matches Ok(None) ==> final(frame_buf)@ == old(frame_buf)@,
            old(self).frame_after_drain(recv_ring@, old(cur).recv, recv_buf@, send_side(old(send_ring)@, *old(cur), old(send_buf)@)) is None ==> res == Ok::<
                Option<usize>,
                HvError,
            >(None),
            old(self).frame_after_drain(recv_ring@, old(cur).recv, recv_buf@, send_side(old(send_ring)@, *old(cur), old(send_buf)@)) matches Some(f) ==> {
                let n = if f.len() < old(frame_buf)@.len() {
                    f.len()
                } else {
                    old(frame_buf)@.len() as nat
                };
                &&& res == Ok::<Option<usize>, HvError>(Some(n as usize))
                &&& final(frame_buf)@.subrange(0, n as int) == f.subrange(0, n as int)
            },
    {
        if !self.has_rx_packet(cur, send_ring, recv_ring, recv_buf, send_buf) {
            return Ok(None);
        }
        match self.pending_rx.take() {
            Some(frame) => {
                let n = if frame.len() < frame_buf.len() {
                    frame.len()
                } else {
                    frame_buf.len()
                };
                let part = sub_vec(frame.as_slice(), 0, n);
                copy_into(frame_buf, part.as_slice());
                Ok(Some(n))
            },
            None => Ok(Some(0)),
        }
    }
}


impl NetvscDevice {
    /// Device state once the NVSP phase is done: default MAC and MTU,
    /// request ids from 1, transaction ids from 100, send section free,
    /// no control response and no frame queued.
    pub fn new(
        channel: Channel,
        recv_buf: DmaRegion,
        recv_buf_gpadl: u32,
        send_buf: DmaRegion,
        send_buf_gpadl: u32,
        nvsp_version: u32,
    ) -> (d: Self)
        ensures
            d.channel == channel,
            d.recv_buf == recv_buf,
            d.send_buf == send_buf,
            d.recv_buf_gpadl == recv_buf_gpadl,
            d.send_buf_gpadl == send_buf_gpadl,
            d.nvsp_version == nvsp_version,
            d.mac@ == seq![0u8, 0, 0, 0, 0, 0],
            d.mtu == 1514,
            d.next_request_id == 1,
            d.next_txid == 100,
            !d.ctrl_resp_ready,
            d.ctrl_resp@.len() == 0,
            d.send_section_free,
            d.pending_rx is None,
    {
        let d = NetvscDevice {
            channel,
            recv_buf,
            recv_buf_gpadl,
            send_buf,
            send_buf_gpadl,
            nvsp_version,
            mac: [0u8; 6],
            mtu: 1514,
            next_request_id: 1,
            next_txid: 100,
            ctrl_resp: Vec::new(),
            ctrl_resp_ready: false,
            send_section_free: true,
            pending_rx: None,
        };
        assert(d.mac@ =~= seq![0u8, 0, 0, 0, 0, 0]);
        d
    }

    /// MAC address assigned by the hypervisor.
    pub fn mac(&self) -> (m: [u8; 6])
        ensures
            m == self.mac,
    {
        self.mac
    }

    /// Maximum transmission unit.
    pub fn mtu(&self) -> (m: u32)
        ensures
            m == self.mtu,
    {
        self.mtu
    }

    /// NVSP protocol version negotiated with the host.
    pub fn nvsp_version(&self) -> (v: u32)
        ensures
            v == self.nvsp_version,
    {
        self.nvsp_version
    }
}


/// A data packet decodes with its data offset 36 (counted from the field
/// itself, right after the 44-byte header) and the frame's length.
pub proof fn lemma_rndis_packet_decodes(frame: Seq<u8>)
    requires
        RNDIS_PACKET_HDR_SIZE + frame.len() <= u32::MAX,
    ensures
        rndis_response_spec(rndis_packet_header(frame.len() as u32) + frame) == Some(
            RndisResponseView::Packet {
                data_offset: 36,
                data_len: frame.len() as u32,
                raw: rndis_packet_header(frame.len() as u32) + frame,
            },
        ),
{
    lemma_auto_spec_u32_to_from_le_bytes();
    let l = frame.len() as u32;
    let h = rndis_packet_header(l);
    let msg = h + frame;
    assert(h.len() == 44);
    assert(msg.subrange(0, 4) =~= spec_u32_to_le_bytes(RNDIS_MSG_PACKET));
    assert(msg.subrange(4, 8) =~= spec_u32_to_le_bytes((RNDIS_PACKET_HDR_SIZE + l) as u32));
    let body = crate::nvsp_msg::rndis_body(msg);
    assert(body =~= msg.subrange(8, msg.len() as int));
    assert(body.subrange(0, 4) =~= spec_u32_to_le_bytes(36));
    assert(body.subrange(4, 8) =~= spec_u32_to_le_bytes(l));
}

/// A frame sent as an RNDIS data packet is extracted unchanged by the
/// receive path: the packet header written by `transmit`, followed by the
/// frame, decodes to exactly that frame when it fits the receive buffer.
pub proof fn lemma_rndis_packet_roundtrip(frame: Seq<u8>, buf_len: int)
    requires
        RNDIS_PACKET_HDR_SIZE + frame.len() <= u32::MAX,
        frame.len() <= buf_len,
    ensures
        eth_frame_spec(rndis_packet_header(frame.len() as u32) + frame, buf_len) == Some(frame),
{
    lemma_auto_spec_u32_to_from_le_bytes();
    let l = frame.len() as u32;
    let h = rndis_packet_header(l);
    let msg = h + frame;
    assert(h.len() == 44);
    assert(msg.subrange(0, 4) =~= spec_u32_to_le_bytes(RNDIS_MSG_PACKET));
    assert(msg.subrange(4, 8) =~= spec_u32_to_le_bytes((RNDIS_PACKET_HDR_SIZE + l) as u32));
    let body = crate::nvsp_msg::rndis_body(msg);
    assert(body =~= msg.subrange(8, msg.len() as int));
    assert(body.subrange(0, 4) =~= spec_u32_to_le_bytes(36));
    assert(body.subrange(4, 8) =~= spec_u32_to_le_bytes(l));
    assert(msg.subrange(44, 44 + frame.len() as int) =~= frame);
}

} // verus!
