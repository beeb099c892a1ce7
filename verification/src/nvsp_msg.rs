//! NVSP and RNDIS message encoding and decoding.
//!
//! Builders produce the little-endian wire bytes of outgoing messages;
//! parsers decode received messages into [`NvspResponse`] and
//! [`RndisResponse`].
use vstd::prelude::*;
use vstd::bytes::*;
use crate::wire::{
    append_bytes, append_zeros, copy_into, push_u32_le, push_u64_le, push_u16_le, read_u32_le,
    sub_vec, u32_at, zeros,
};
use crate::nvsp_types::{
    NdisOid, RndisStatus, NVSP_MSG1_TYPE_SEND_NDIS_VER, NVSP_MSG1_TYPE_SEND_RECV_BUF,
    NVSP_MSG1_TYPE_SEND_RECV_BUF_COMPLETE, NVSP_MSG1_TYPE_SEND_RNDIS_PKT,
    NVSP_MSG1_TYPE_SEND_RNDIS_PKT_COMPLETE, NVSP_MSG1_TYPE_SEND_SEND_BUF,
    NVSP_MSG1_TYPE_SEND_SEND_BUF_COMPLETE, NVSP_MSG2_TYPE_SEND_NDIS_CONFIG, NVSP_MSG_TYPE_INIT,
    NVSP_MSG_TYPE_INIT_COMPLETE, RNDIS_MAJOR_VERSION, RNDIS_MINOR_VERSION, RNDIS_MSG_HALT,
    RNDIS_MSG_INDICATE, RNDIS_MSG_INIT, RNDIS_MSG_INIT_C, RNDIS_MSG_KEEPALIVE,
    RNDIS_MSG_KEEPALIVE_C, RNDIS_MSG_PACKET, RNDIS_MSG_QUERY, RNDIS_MSG_QUERY_C, RNDIS_MSG_SET,
    RNDIS_MSG_SET_C,
};

verus! {

// ── sizes ───────────────────────────────────────────────────────────────

/// Size of the fixed NVSP message structure (header + largest body).
pub const NVSP_STRUCT_SIZE: usize = 32;

/// Minimum NVSP message size sent on the VMBus ring buffer.
///
/// The host requires 40 bytes (the Linux `nvsp_message` size, which
/// includes the large v6 PacketDirect messages) for raw ring writes.
pub const NVSP_MESSAGE_SIZE: usize = 40;

/// RNDIS header size: ndis_msg_type(4) + msg_len(4).
pub const RNDIS_HEADER_SIZE: usize = 8;

/// Size of the NVSP message header (the message type).
pub const NVSP_HEADER_SIZE: usize = 4;

/// Size of `rndis_query_request` / the fixed part of `rndis_set_request`:
/// request id, OID, information buffer length and offset, device VC handle.
pub const RNDIS_QUERY_REQUEST_SIZE: usize = 20;

/// Size of the `rndis_packet` structure following the RNDIS header.
pub const RNDIS_PACKET_SIZE: usize = 36;

// ── NVSP builders ───────────────────────────────────────────────────────

/// Little-endian encoding of a `u32`.
pub open spec fn le32(x: u32) -> Seq<u8> {
    spec_u32_to_le_bytes(x)
}

/// An NVSP message: type word, body words, zero-filled to the structure size.
pub open spec fn nvsp_bytes(msg_type: u32, body: Seq<u8>) -> Seq<u8> {
    le32(msg_type) + body + zeros(28 - body.len())
}

pub open spec fn nvsp_init_bytes(version: u32) -> Seq<u8> {
    nvsp_bytes(NVSP_MSG_TYPE_INIT, le32(version) + le32(version))
}

pub open spec fn nvsp_ndis_version_bytes(major: u32, minor: u32) -> Seq<u8> {
    nvsp_bytes(NVSP_MSG1_TYPE_SEND_NDIS_VER, le32(major) + le32(minor))
}

pub open spec fn nvsp_ndis_config_bytes(mtu: u32, capabilities: u64) -> Seq<u8> {
    nvsp_bytes(NVSP_MSG2_TYPE_SEND_NDIS_CONFIG, le32(mtu) + le32(0) + spec_u64_to_le_bytes(capabilities))
}

pub open spec fn nvsp_buffer_bytes(msg_type: u32, gpadl_handle: u32, id: u16) -> Seq<u8> {
    nvsp_bytes(msg_type, le32(gpadl_handle) + spec_u16_to_le_bytes(id))
}

pub open spec fn nvsp_rndis_pkt_bytes(channel_type: u32, index: u32, size: u32) -> Seq<u8> {
    nvsp_bytes(NVSP_MSG1_TYPE_SEND_RNDIS_PKT, le32(channel_type) + le32(index) + le32(size))
}

/// Builds an NVSP message from its type and body bytes.
fn nvsp_message(msg_type: u32, body: &Vec<u8>) -> (m: Vec<u8>)
    requires
        body@.len() <= 28,
    ensures
        m@ == nvsp_bytes(msg_type, body@),
        m@.len() == NVSP_STRUCT_SIZE,
{
    let mut m: Vec<u8> = Vec::new();
    push_u32_le(&mut m, msg_type);
    append_bytes(&mut m, body.as_slice());
    append_zeros(&mut m, 28 - body.len());
    proof {
        lemma_auto_spec_u32_to_from_le_bytes();
    }
    m
}

/// Build an NVSP_MSG_TYPE_INIT message.
pub fn build_nvsp_init(version: u32) -> (m: Vec<u8>)
    ensures
        m@ == nvsp_init_bytes(version),
        m@.len() == NVSP_STRUCT_SIZE,
{
    let mut body: Vec<u8> = Vec::new();
    push_u32_le(&mut body, version);
    push_u32_le(&mut body, version);
    proof {
        lemma_auto_spec_u32_to_from_le_bytes();
        assert(body@ =~= le32(version) + le32(version));
    }
    nvsp_message(NVSP_MSG_TYPE_INIT, &body)
}

/// Build an NVSP_MSG1_TYPE_SEND_NDIS_VER message.
pub fn build_nvsp_send_ndis_version(major: u32, minor: u32) -> (m: Vec<u8>)
    ensures
        m@ == nvsp_ndis_version_bytes(major, minor),
        m@.len() == NVSP_STRUCT_SIZE,
{
    let mut body: Vec<u8> = Vec::new();
    push_u32_le(&mut body, major);
    push_u32_le(&mut body, minor);
    proof {
        lemma_auto_spec_u32_to_from_le_bytes();
        assert(body@ =~= le32(major) + le32(minor));
    }
    nvsp_message(NVSP_MSG1_TYPE_SEND_NDIS_VER, &body)
}

/// Build an NVSP_MSG2_TYPE_SEND_NDIS_CONFIG message.
pub fn build_nvsp_send_ndis_config(mtu: u32, capabilities: u64) -> (m: Vec<u8>)
    ensures
        m@ == nvsp_ndis_config_bytes(mtu, capabilities),
        m@.len() == NVSP_STRUCT_SIZE,
{
    let mut body: Vec<u8> = Vec::new();
    push_u32_le(&mut body, mtu);
    push_u32_le(&mut body, 0);
    push_u64_le(&mut body, capabilities);
    proof {
        lemma_auto_spec_u32_to_from_le_bytes();
        lemma_auto_spec_u64_to_from_le_bytes();
        assert(body@ =~= le32(mtu) + le32(0) + spec_u64_to_le_bytes(capabilities));
    }
    nvsp_message(NVSP_MSG2_TYPE_SEND_NDIS_CONFIG, &body)
}

/// Builds a receive/send buffer registration message.
fn build_nvsp_buffer(msg_type: u32, gpadl_handle: u32, id: u16) -> (m: Vec<u8>)
    ensures
        m@ == nvsp_buffer_bytes(msg_type, gpadl_handle, id),
        m@.len() == NVSP_STRUCT_SIZE,
{
    let mut body: Vec<u8> = Vec::new();
    push_u32_le(&mut body, gpadl_handle);
    push_u16_le(&mut body, id);
    proof {
        lemma_auto_spec_u32_to_from_le_bytes();
        lemma_auto_spec_u16_to_from_le_bytes();
        assert(body@ =~= le32(gpadl_handle) + spec_u16_to_le_bytes(id));
    }
    nvsp_message(msg_type, &body)
}

/// Build an NVSP_MSG1_TYPE_SEND_RECV_BUF message.
pub fn build_nvsp_send_recv_buf(gpadl_handle: u32, id: u16) -> (m: Vec<u8>)
    ensures
        m@ == nvsp_buffer_bytes(NVSP_MSG1_TYPE_SEND_RECV_BUF, gpadl_handle, id),
        m@.len() == NVSP_STRUCT_SIZE,
{
    build_nvsp_buffer(NVSP_MSG1_TYPE_SEND_RECV_BUF, gpadl_handle, id)
}

/// Build an NVSP_MSG1_TYPE_SEND_SEND_BUF message.
pub fn build_nvsp_send_send_buf(gpadl_handle: u32, id: u16) -> (m: Vec<u8>)
    ensures
        m@ == nvsp_buffer_bytes(NVSP_MSG1_TYPE_SEND_SEND_BUF, gpadl_handle, id),
        m@.len() == NVSP_STRUCT_SIZE,
{
    build_nvsp_buffer(NVSP_MSG1_TYPE_SEND_SEND_BUF, gpadl_handle, id)
}

/// Build an NVSP_MSG1_TYPE_SEND_RNDIS_PKT message.
///
/// `channel_type`: 0 = data, 1 = control.
/// `send_buf_section_index`: index into send buffer, or 0xFFFFFFFF if not using send buffer.
/// `send_buf_section_size`: size of send buffer section used, or 0.
pub fn build_nvsp_send_rndis_pkt(
    channel_type: u32,
    send_buf_section_index: u32,
    send_buf_section_size: u32,
) -> (m: Vec<u8>)
    ensures
        m@ == nvsp_rndis_pkt_bytes(channel_type, send_buf_section_index, send_buf_section_size),
        m@.len() == NVSP_STRUCT_SIZE,
{
    let mut body: Vec<u8> = Vec::new();
    push_u32_le(&mut body, channel_type);
    push_u32_le(&mut body, send_buf_section_index);
    push_u32_le(&mut body, send_buf_section_size);
    proof {
        lemma_auto_spec_u32_to_from_le_bytes();
        assert(body@ =~= le32(channel_type) + le32(send_buf_section_index) + le32(
            send_buf_section_size,
        ));
    }
    nvsp_message(NVSP_MSG1_TYPE_SEND_RNDIS_PKT, &body)
}

/// Copy an NVSP message into a 40-byte buffer (host-required minimum size).
pub fn nvsp_message_padded(msg: &[u8]) -> (buf: [u8; 40])
    requires
        msg@.len() == NVSP_STRUCT_SIZE,
    ensures
        buf@ == msg@ + zeros(8),
{
    let mut buf = [0u8; 40];
    let mut i: usize = 0;
    while i < 32
        invariant
            msg@.len() == 32,
            i <= 32,
            forall|k: int| 0 <= k < i ==> buf@[k] == msg@[k],
            forall|k: int| 32 <= k < 40 ==> buf@[k] == 0u8,
        decreases 32 - i,
    {
        buf[i] = msg[i];
        i = i + 1;
    }
    assert(buf@ =~= msg@ + zeros(8));
    buf
}

// ── NVSP parsing ────────────────────────────────────────────────────────

/// One section of the host's receive buffer description.
#[derive(Debug, Clone, Copy, PartialEq, Eq)]
pub struct ReceiveBufferSection {
    pub offset: u32,
    pub sub_alloc_size: u32,
    pub num_sub_allocs: u32,
    pub end_offset: u32,
}

/// A parsed NVSP response received from the host.
#[derive(Debug)]
pub enum NvspResponse {
    /// Response to NVSP_MSG_TYPE_INIT.
    InitComplete { negotiated_version: u32, max_mdl_chain_len: u32, status: u32 },
    /// Response to NVSP_MSG1_TYPE_SEND_RECV_BUF.
    RecvBufComplete { status: u32, num_sections: u32, sections: Vec<ReceiveBufferSection> },
    /// Response to NVSP_MSG1_TYPE_SEND_SEND_BUF.
    SendBufComplete { status: u32, section_size: u32 },
    /// Response to NVSP_MSG1_TYPE_SEND_RNDIS_PKT.
    RndisPktComplete { status: u32 },
    /// Unrecognized message type.
    Unknown(u32),
}

/// Mathematical form of [`NvspResponse`].
pub enum NvspResponseView {
    InitComplete { negotiated_version: u32, max_mdl_chain_len: u32, status: u32 },
    RecvBufComplete { status: u32, num_sections: u32, sections: Seq<ReceiveBufferSection> },
    SendBufComplete { status: u32, section_size: u32 },
    RndisPktComplete { status: u32 },
    Unknown(u32),
}

impl View for NvspResponse {
    type V = NvspResponseView;

    open spec fn view(&self) -> NvspResponseView {
        match self {
            NvspResponse::InitComplete { negotiated_version, max_mdl_chain_len, status } =>
                NvspResponseView::InitComplete {
                negotiated_version: *negotiated_version,
                max_mdl_chain_len: *max_mdl_chain_len,
                status: *status,
            },
            NvspResponse::RecvBufComplete { status, num_sections, sections } =>
                NvspResponseView::RecvBufComplete {
                status: *status,
                num_sections: *num_sections,
                sections: sections@,
            },
            NvspResponse::SendBufComplete { status, section_size } =>
                NvspResponseView::SendBufComplete { status: *status, section_size: *section_size },
            NvspResponse::RndisPktComplete { status } => NvspResponseView::RndisPktComplete {
                status: *status,
            },
            NvspResponse::Unknown(t) => NvspResponseView::Unknown(*t),
        }
    }
}

/// Option of a response, by its view.
pub open spec fn nvsp_opt_view(r: Option<NvspResponse>) -> Option<NvspResponseView> {
    match r {
        Some(x) => Some(x@),
        None => None,
    }
}

/// Receive buffer section `i` stored after the status and count words.
pub open spec fn section_at(data: Seq<u8>, i: int) -> ReceiveBufferSection {
    let base = 12 + 16 * i;
    ReceiveBufferSection {
        offset: u32_at(data, base),
        sub_alloc_size: u32_at(data, base + 4),
        num_sub_allocs: u32_at(data, base + 8),
        end_offset: u32_at(data, base + 12),
    }
}

/// Number of sections reported: at most the count the host claims and
/// at most as many as the received bytes hold.
pub open spec fn sections_count(data: Seq<u8>) -> int {
    let available = (data.len() - 12) / 16;
    let claimed = u32_at(data, 8) as int;
    if available < claimed {
        available
    } else {
        claimed
    }
}

/// Decoding of a received NVSP message (header + body).
pub open spec fn nvsp_response_spec(data: Seq<u8>) -> Option<NvspResponseView> {
    if data.len() < 4 {
        None
    } else {
        let t = u32_at(data, 0);
        let body_len = data.len() - 4;
        if t == NVSP_MSG_TYPE_INIT_COMPLETE {
            if body_len < 12 {
                None
            } else {
                Some(
                    NvspResponseView::InitComplete {
                        negotiated_version: u32_at(data, 4),
                        max_mdl_chain_len: u32_at(data, 8),
                        status: u32_at(data, 12),
                    },
                )
            }
        } else if t == NVSP_MSG1_TYPE_SEND_RECV_BUF_COMPLETE {
            if body_len < 24 {
                None
            } else {
                Some(
                    NvspResponseView::RecvBufComplete {
                        status: u32_at(data, 4),
                        num_sections: u32_at(data, 8),
                        sections: Seq::new(
                            sections_count(data) as nat,
                            |i: int| section_at(data, i),
                        ),
                    },
                )
            }
        } else if t == NVSP_MSG1_TYPE_SEND_SEND_BUF_COMPLETE {
            if body_len < 8 {
                None
            } else {
                Some(
                    NvspResponseView::SendBufComplete {
                        status: u32_at(data, 4),
                        section_size: u32_at(data, 8),
                    },
                )
            }
        } else if t == NVSP_MSG1_TYPE_SEND_RNDIS_PKT_COMPLETE {
            if body_len < 4 {
                None
            } else {
                Some(NvspResponseView::RndisPktComplete { status: u32_at(data, 4) })
            }
        } else {
            Some(NvspResponseView::Unknown(t))
        }
    }
}

/// The three little-endian words `a`, `b`, `c` after a message type.
pub open spec fn nvsp_words(t: u32, a: u32, b: u32, c: u32) -> Seq<u8> {
    spec_u32_to_le_bytes(t) + spec_u32_to_le_bytes(a) + spec_u32_to_le_bytes(b) + spec_u32_to_le_bytes(c)
}

/// NVSP completions decode to the fields the host wrote, in the order of
/// the wire layout: INIT_COMPLETE carries the negotiated version, the MDL
/// chain length and the status; SEND_SEND_BUF_COMPLETE the status and the
/// section size; SEND_RNDIS_PKT_COMPLETE the status.
pub proof fn lemma_nvsp_completions_roundtrip(a: u32, b: u32, c: u32)
    ensures
        nvsp_response_spec(nvsp_words(NVSP_MSG_TYPE_INIT_COMPLETE, a, b, c)) == Some(
            NvspResponseView::InitComplete { negotiated_version: a, max_mdl_chain_len: b, status: c },
        ),
        nvsp_response_spec(nvsp_words(NVSP_MSG1_TYPE_SEND_SEND_BUF_COMPLETE, a, b, c)) == Some(
            NvspResponseView::SendBufComplete { status: a, section_size: b },
        ),
        nvsp_response_spec(nvsp_words(NVSP_MSG1_TYPE_SEND_RNDIS_PKT_COMPLETE, a, b, c)) == Some(
            NvspResponseView::RndisPktComplete { status: a },
        ),
{
    lemma_auto_spec_u32_to_from_le_bytes();
    let i = nvsp_words(NVSP_MSG_TYPE_INIT_COMPLETE, a, b, c);
    let s = nvsp_words(NVSP_MSG1_TYPE_SEND_SEND_BUF_COMPLETE, a, b, c);
    let r = nvsp_words(NVSP_MSG1_TYPE_SEND_RNDIS_PKT_COMPLETE, a, b, c);
    assert(i.subrange(0, 4) =~= spec_u32_to_le_bytes(NVSP_MSG_TYPE_INIT_COMPLETE));
    assert(s.subrange(0, 4) =~= spec_u32_to_le_bytes(NVSP_MSG1_TYPE_SEND_SEND_BUF_COMPLETE));
    assert(r.subrange(0, 4) =~= spec_u32_to_le_bytes(NVSP_MSG1_TYPE_SEND_RNDIS_PKT_COMPLETE));
    assert(i.subrange(4, 8) =~= spec_u32_to_le_bytes(a));
    assert(i.subrange(8, 12) =~= spec_u32_to_le_bytes(b));
    assert(i.subrange(12, 16) =~= spec_u32_to_le_bytes(c));
    assert(s.subrange(4, 8) =~= spec_u32_to_le_bytes(a));
    assert(s.subrange(8, 12) =~= spec_u32_to_le_bytes(b));
    assert(r.subrange(4, 8) =~= spec_u32_to_le_bytes(a));
}

/// Parse an NVSP response from the payload bytes (after the vmpacket_descriptor).
///
/// `data` should contain the full nvsp_message (header + body).
pub fn parse_nvsp_response(data: &[u8]) -> (r: Option<NvspResponse>)
    ensures
        nvsp_opt_view(r) == nvsp_response_spec(data@),
{
    if data.len() < 4 {
        return None;
    }
    let msg_type = read_u32_le(data, 0);
    let body_len = data.len() - 4;
    if msg_type == NVSP_MSG_TYPE_INIT_COMPLETE {
        if body_len < 12 {
            return None;
        }
        Some(
            NvspResponse::InitComplete {
                negotiated_version: read_u32_le(data, 4),
                max_mdl_chain_len: read_u32_le(data, 8),
                status: read_u32_le(data, 12),
            },
        )
    } else if msg_type == NVSP_MSG1_TYPE_SEND_RECV_BUF_COMPLETE {
        if body_len < 24 {
            return None;
        }
        let status = read_u32_le(data, 4);
        let num_sections = read_u32_le(data, 8);
        let available = (data.len() - 12) / 16;
        let n = if available < num_sections as usize {
            available
        } else {
            num_sections as usize
        };
        let mut sections: Vec<ReceiveBufferSection> = Vec::new();
        let mut i: usize = 0;
        while i < n
            invariant
                n <= available,
                available == (data@.len() - 12) / 16,
                data@.len() >= 28,
                i <= n,
                sections@.len() == i,
                forall|k: int| 0 <= k < i ==> sections@[k] == section_at(data@, k),
            decreases n - i,
        {
            assert(12 + 16 * i + 16 <= data@.len()) by (nonlinear_arith)
                requires
                    i < n,
                    n <= available,
                    available == (data@.len() - 12) / 16,
                    data@.len() >= 28,
            ;
            assert(data@.len() == data.len());
            let base = 12 + 16 * i;
            sections.push(
                ReceiveBufferSection {
                    offset: read_u32_le(data, base),
                    sub_alloc_size: read_u32_le(data, base + 4),
                    num_sub_allocs: read_u32_le(data, base + 8),
                    end_offset: read_u32_le(data, base + 12),
                },
            );
            i = i + 1;
        }
        assert(sections@ =~= Seq::new(sections_count(data@) as nat, |k: int| section_at(data@, k)));
        Some(NvspResponse::RecvBufComplete { status, num_sections, sections })
    } else if msg_type == NVSP_MSG1_TYPE_SEND_SEND_BUF_COMPLETE {
        if body_len < 8 {
            return None;
        }
        Some(
            NvspResponse::SendBufComplete {
                status: read_u32_le(data, 4),
                section_size: read_u32_le(data, 8),
            },
        )
    } else if msg_type == NVSP_MSG1_TYPE_SEND_RNDIS_PKT_COMPLETE {
        if body_len < 4 {
            return None;
        }
        Some(NvspResponse::RndisPktComplete { status: read_u32_le(data, 4) })
    } else {
        Some(NvspResponse::Unknown(msg_type))
    }
}


// ── RNDIS builders ──────────────────────────────────────────────────────

/// An RNDIS message: type, total length, then the request fields.
pub open spec fn rndis_bytes(msg_type: u32, fields: Seq<u8>) -> Seq<u8> {
    le32(msg_type) + le32((8 + fields.len()) as u32) + fields
}

pub open spec fn rndis_init_bytes(req_id: u32, max_xfer_size: u32) -> Seq<u8> {
    rndis_bytes(
        RNDIS_MSG_INIT,
        le32(req_id) + le32(RNDIS_MAJOR_VERSION) + le32(RNDIS_MINOR_VERSION) + le32(max_xfer_size),
    )
}

pub open spec fn rndis_halt_bytes(req_id: u32) -> Seq<u8> {
    rndis_bytes(RNDIS_MSG_HALT, le32(req_id))
}

pub open spec fn rndis_keepalive_bytes(req_id: u32) -> Seq<u8> {
    rndis_bytes(RNDIS_MSG_KEEPALIVE, le32(req_id))
}

/// Fixed part of a QUERY or SET request followed by the information buffer.
pub open spec fn rndis_oid_request_bytes(msg_type: u32, req_id: u32, oid: u32, info: Seq<u8>) -> Seq<u8> {
    le32(msg_type) + le32((28 + info.len()) as u32) + le32(req_id) + le32(oid) + le32(info.len() as u32)
        + le32(20) + le32(0) + info
}

/// Builds an RNDIS message from its type and request fields.
fn rndis_message(msg_type: u32, fields: &Vec<u8>) -> (m: Vec<u8>)
    requires
        fields@.len() <= 64,
    ensures
        m@ == rndis_bytes(msg_type, fields@),
{
    let mut m: Vec<u8> = Vec::new();
    push_u32_le(&mut m, msg_type);
    push_u32_le(&mut m, (8 + fields.len()) as u32);
    append_bytes(&mut m, fields.as_slice());
    m
}

/// Build an RNDIS_MSG_INIT message (the `MessageLength` bytes sent on the wire).
pub fn build_rndis_init(req_id: u32, max_xfer_size: u32) -> (m: Vec<u8>)
    ensures
        m@ == rndis_init_bytes(req_id, max_xfer_size),
        m@.len() == 24,
{
    let mut f: Vec<u8> = Vec::new();
    push_u32_le(&mut f, req_id);
    push_u32_le(&mut f, RNDIS_MAJOR_VERSION);
    push_u32_le(&mut f, RNDIS_MINOR_VERSION);
    push_u32_le(&mut f, max_xfer_size);
    proof {
        lemma_auto_spec_u32_to_from_le_bytes();
        assert(f@ =~= le32(req_id) + le32(RNDIS_MAJOR_VERSION) + le32(RNDIS_MINOR_VERSION) + le32(
            max_xfer_size,
        ));
    }
    rndis_message(RNDIS_MSG_INIT, &f)
}

/// Build an RNDIS_MSG_HALT message.
pub fn build_rndis_halt(req_id: u32) -> (m: Vec<u8>)
    ensures
        m@ == rndis_halt_bytes(req_id),
        m@.len() == 12,
{
    let mut f: Vec<u8> = Vec::new();
    push_u32_le(&mut f, req_id);
    proof {
        lemma_auto_spec_u32_to_from_le_bytes();
    }
    rndis_message(RNDIS_MSG_HALT, &f)
}

/// Build an RNDIS_MSG_KEEPALIVE message.
pub fn build_rndis_keepalive(req_id: u32) -> (m: Vec<u8>)
    ensures
        m@ == rndis_keepalive_bytes(req_id),
        m@.len() == 12,
{
    let mut f: Vec<u8> = Vec::new();
    push_u32_le(&mut f, req_id);
    proof {
        lemma_auto_spec_u32_to_from_le_bytes();
    }
    rndis_message(RNDIS_MSG_KEEPALIVE, &f)
}

/// Writes a QUERY or SET request into the start of `buf`; returns its length.
fn build_oid_request(msg_type: u32, req_id: u32, oid: NdisOid, info_buf: &[u8], buf: &mut [u8]) -> (n: usize)
    requires
        28 + info_buf@.len() <= old(buf)@.len(),
    ensures
        n == 28 + info_buf@.len(),
        final(buf)@ == rndis_oid_request_bytes(msg_type, req_id, oid.0, info_buf@) + old(buf)@.subrange(
            n as int,
            old(buf)@.len() as int,
        ),
{
    assert(buf@.len() == buf.len());
    let msg_len = RNDIS_HEADER_SIZE + RNDIS_QUERY_REQUEST_SIZE + info_buf.len();
    let mut m: Vec<u8> = Vec::new();
    push_u32_le(&mut m, msg_type);
    push_u32_le(&mut m, #[verifier::truncate] (msg_len as u32));
    push_u32_le(&mut m, req_id);
    push_u32_le(&mut m, oid.0);
    push_u32_le(&mut m, #[verifier::truncate] (info_buf.len() as u32));
    push_u32_le(&mut m, RNDIS_QUERY_REQUEST_SIZE as u32);
    push_u32_le(&mut m, 0);
    append_bytes(&mut m, info_buf);
    proof {
        lemma_auto_spec_u32_to_from_le_bytes();
        assert(m@ =~= rndis_oid_request_bytes(msg_type, req_id, oid.0, info_buf@));
    }
    copy_into(buf, m.as_slice());
    msg_len
}

/// Build an RNDIS_MSG_QUERY message into `buf`. Returns bytes written.
///
/// Uses a buffer because the message has variable-length `info_buf` appended
/// after the fixed `rndis_query_request` fields.
pub fn build_rndis_query(req_id: u32, oid: NdisOid, info_buf: &[u8], buf: &mut [u8]) -> (n: usize)
    requires
        28 + info_buf@.len() <= old(buf)@.len(),
    ensures
        n == 28 + info_buf@.len(),
        final(buf)@ == rndis_oid_request_bytes(RNDIS_MSG_QUERY, req_id, oid.0, info_buf@) + old(
            buf,
        )@.subrange(n as int, old(buf)@.len() as int),
{
    build_oid_request(RNDIS_MSG_QUERY, req_id, oid, info_buf, buf)
}

/// Build an RNDIS_MSG_SET message into `buf`. Returns bytes written.
///
/// Uses a buffer because the message has variable-length `info_buf` appended
/// after the fixed `rndis_set_request` fields.
pub fn build_rndis_set(req_id: u32, oid: NdisOid, info_buf: &[u8], buf: &mut [u8]) -> (n: usize)
    requires
        28 + info_buf@.len() <= old(buf)@.len(),
    ensures
        n == 28 + info_buf@.len(),
        final(buf)@ == rndis_oid_request_bytes(RNDIS_MSG_SET, req_id, oid.0, info_buf@) + old(
            buf,
        )@.subrange(n as int, old(buf)@.len() as int),
{
    build_oid_request(RNDIS_MSG_SET, req_id, oid, info_buf, buf)
}

// ── RNDIS parsing ───────────────────────────────────────────────────────

/// A parsed RNDIS response received from the host.
#[derive(Debug)]
pub enum RndisResponse {
    /// RNDIS_MSG_INIT_C: response to INITIALIZE.
    InitComplete {
        req_id: u32,
        status: RndisStatus,
        major_ver: u32,
        minor_ver: u32,
        max_pkt_per_msg: u32,
        max_xfer_size: u32,
        pkt_alignment_factor: u32,
    },
    /// RNDIS_MSG_QUERY_C: response to QUERY.
    QueryComplete { req_id: u32, status: RndisStatus, info: Vec<u8> },
    /// RNDIS_MSG_SET_C: response to SET.
    SetComplete { req_id: u32, status: RndisStatus },
    /// RNDIS_MSG_KEEPALIVE_C: response to KEEPALIVE.
    KeepAliveComplete { req_id: u32, status: RndisStatus },
    /// RNDIS_MSG_INDICATE: unsolicited status indication.
    Indicate { status: RndisStatus, status_buf: Vec<u8> },
    /// RNDIS_MSG_PACKET: data packet.
    Packet {
        data_offset: u32,
        data_len: u32,
        /// The full message bytes for further PPI parsing.
        raw: Vec<u8>,
    },
    /// Unrecognized message type.
    Unknown(u32),
}

/// Mathematical form of [`RndisResponse`].
pub enum RndisResponseView {
    InitComplete {
        req_id: u32,
        status: RndisStatus,
        major_ver: u32,
        minor_ver: u32,
        max_pkt_per_msg: u32,
        max_xfer_size: u32,
        pkt_alignment_factor: u32,
    },
    QueryComplete { req_id: u32, status: RndisStatus, info: Seq<u8> },
    SetComplete { req_id: u32, status: RndisStatus },
    KeepAliveComplete { req_id: u32, status: RndisStatus },
    Indicate { status: RndisStatus, status_buf: Seq<u8> },
    Packet { data_offset: u32, data_len: u32, raw: Seq<u8> },
    Unknown(u32),
}

impl View for RndisResponse {
    type V = RndisResponseView;

    open spec fn view(&self) -> RndisResponseView {
        match self {
            RndisResponse::InitComplete {
                req_id,
                status,
                major_ver,
                minor_ver,
                max_pkt_per_msg,
                max_xfer_size,
                pkt_alignment_factor,
            } => RndisResponseView::InitComplete {
                req_id: *req_id,
                status: *status,
                major_ver: *major_ver,
                minor_ver: *minor_ver,
                max_pkt_per_msg: *max_pkt_per_msg,
                max_xfer_size: *max_xfer_size,
                pkt_alignment_factor: *pkt_alignment_factor,
            },
            RndisResponse::QueryComplete { req_id, status, info } =>
                RndisResponseView::QueryComplete { req_id: *req_id, status: *status, info: info@ },
            RndisResponse::SetComplete { req_id, status } => RndisResponseView::SetComplete {
                req_id: *req_id,
                status: *status,
            },
            RndisResponse::KeepAliveComplete { req_id, status } =>
                RndisResponseView::KeepAliveComplete { req_id: *req_id, status: *status },
            RndisResponse::Indicate { status, status_buf } => RndisResponseView::Indicate {
                status: *status,
                status_buf: status_buf@,
            },
            RndisResponse::Packet { data_offset, data_len, raw } => RndisResponseView::Packet {
                data_offset: *data_offset,
                data_len: *data_len,
                raw: raw@,
            },
            RndisResponse::Unknown(t) => RndisResponseView::Unknown(*t),
        }
    }
}

/// Option of a response, by its view.
pub open spec fn rndis_opt_view(r: Option<RndisResponse>) -> Option<RndisResponseView> {
    match r {
        Some(x) => Some(x@),
        None => None,
    }
}

/// Message body: the bytes after the header, up to the declared message length.
pub open spec fn rndis_body(data: Seq<u8>) -> Seq<u8> {
    let msg_len = u32_at(data, 4) as int;
    let end = if data.len() < msg_len {
        data.len() as int
    } else {
        msg_len
    };
    data.subrange(8, end)
}

/// The `len` bytes at `off` in `body` when they are non-empty and in range, else nothing.
pub open spec fn info_slice(body: Seq<u8>, off: int, len: int) -> Seq<u8> {
    if len > 0 && off + len <= body.len() {
        body.subrange(off, off + len)
    } else {
        Seq::empty()
    }
}

/// Decoding of a received RNDIS message.
///
/// A declared message length shorter than the header is treated as malformed.
pub open spec fn rndis_response_spec(data: Seq<u8>) -> Option<RndisResponseView> {
    if data.len() < 8 || u32_at(data, 4) < 8 {
        None
    } else {
        let t = u32_at(data, 0);
        let body = rndis_body(data);
        if t == RNDIS_MSG_INIT_C {
            if body.len() < 44 {
                None
            } else {
                Some(
                    RndisResponseView::InitComplete {
                        req_id: u32_at(body, 0),
                        status: RndisStatus(u32_at(body, 4)),
                        major_ver: u32_at(body, 8),
                        minor_ver: u32_at(body, 12),
                        max_pkt_per_msg: u32_at(body, 24),
                        max_xfer_size: u32_at(body, 28),
                        pkt_alignment_factor: u32_at(body, 32),
                    },
                )
            }
        } else if t == RNDIS_MSG_QUERY_C {
            if body.len() < 16 {
                None
            } else {
                Some(
                    RndisResponseView::QueryComplete {
                        req_id: u32_at(body, 0),
                        status: RndisStatus(u32_at(body, 4)),
                        info: info_slice(body, u32_at(body, 12) as int, u32_at(body, 8) as int),
                    },
                )
            }
        } else if t == RNDIS_MSG_SET_C {
            if body.len() < 8 {
                None
            } else {
                Some(
                    RndisResponseView::SetComplete {
                        req_id: u32_at(body, 0),
                        status: RndisStatus(u32_at(body, 4)),
                    },
                )
            }
        } else if t == RNDIS_MSG_KEEPALIVE_C {
            if body.len() < 8 {
                None
            } else {
                Some(
                    RndisResponseView::KeepAliveComplete {
                        req_id: u32_at(body, 0),
                        status: RndisStatus(u32_at(body, 4)),
                    },
                )
            }
        } else if t == RNDIS_MSG_INDICATE {
            if body.len() < 12 {
                None
            } else {
                Some(
                    RndisResponseView::Indicate {
                        status: RndisStatus(u32_at(body, 0)),
                        status_buf: info_slice(body, u32_at(body, 8) as int, u32_at(body, 4) as int),
                    },
                )
            }
        } else if t == RNDIS_MSG_PACKET {
            if body.len() < 36 {
                None
            } else {
                Some(
                    RndisResponseView::Packet {
                        data_offset: u32_at(body, 0),
                        data_len: u32_at(body, 4),
                        raw: data,
                    },
                )
            }
        } else {
            Some(RndisResponseView::Unknown(t))
        }
    }
}

/// An RNDIS_INITIALIZE_CMPLT message as the host lays it out: type and
/// length 52, then RequestId, Status, MajorVersion, MinorVersion,
/// DeviceFlags, Medium, MaxPacketsPerMessage, MaxTransferSize,
/// PacketAlignmentFactor, AFListOffset and AFListSize, each a
/// little-endian `u32`.
pub open spec fn init_complete_bytes(
    req_id: u32,
    status: u32,
    major: u32,
    minor: u32,
    device_flags: u32,
    medium: u32,
    max_pkts: u32,
    max_xfer: u32,
    align: u32,
    af_offset: u32,
    af_size: u32,
) -> Seq<u8> {
    spec_u32_to_le_bytes(RNDIS_MSG_INIT_C) + spec_u32_to_le_bytes(52) + spec_u32_to_le_bytes(req_id)
        + spec_u32_to_le_bytes(status) + spec_u32_to_le_bytes(major) + spec_u32_to_le_bytes(minor)
        + spec_u32_to_le_bytes(device_flags) + spec_u32_to_le_bytes(medium) + spec_u32_to_le_bytes(max_pkts)
        + spec_u32_to_le_bytes(max_xfer) + spec_u32_to_le_bytes(align) + spec_u32_to_le_bytes(af_offset)
        + spec_u32_to_le_bytes(af_size)
}

/// An INITIALIZE_CMPLT decodes to the field values it was built from:
/// request id, status, major and minor version, packets per message,
/// transfer size and alignment factor, each taken from its own place.
pub proof fn lemma_init_complete_roundtrip(
    req_id: u32,
    status: u32,
    major: u32,
    minor: u32,
    device_flags: u32,
    medium: u32,
    max_pkts: u32,
    max_xfer: u32,
    align: u32,
    af_offset: u32,
    af_size: u32,
)
    ensures
        rndis_response_spec(
            init_complete_bytes(
                req_id,
                status,
                major,
                minor,
                device_flags,
                medium,
                max_pkts,
                max_xfer,
                align,
                af_offset,
                af_size,
            ),
        ) == Some(
            RndisResponseView::InitComplete {
                req_id,
                status: RndisStatus(status),
                major_ver: major,
                minor_ver: minor,
                max_pkt_per_msg: max_pkts,
                max_xfer_size: max_xfer,
                pkt_alignment_factor: align,
            },
        ),
{
    lemma_auto_spec_u32_to_from_le_bytes();
    let b = init_complete_bytes(
        req_id,
        status,
        major,
        minor,
        device_flags,
        medium,
        max_pkts,
        max_xfer,
        align,
        af_offset,
        af_size,
    );
    assert(b.len() == 52);
    assert(b.subrange(0, 4) =~= spec_u32_to_le_bytes(RNDIS_MSG_INIT_C));
    assert(b.subrange(4, 8) =~= spec_u32_to_le_bytes(52));
    let body = rndis_body(b);
    assert(body =~= b.subrange(8, 52));
    assert(body.subrange(0, 4) =~= spec_u32_to_le_bytes(req_id));
    assert(body.subrange(4, 8) =~= spec_u32_to_le_bytes(status));
    assert(body.subrange(8, 12) =~= spec_u32_to_le_bytes(major));
    assert(body.subrange(12, 16) =~= spec_u32_to_le_bytes(minor));
    assert(body.subrange(24, 28) =~= spec_u32_to_le_bytes(max_pkts));
    assert(body.subrange(28, 32) =~= spec_u32_to_le_bytes(max_xfer));
    assert(body.subrange(32, 36) =~= spec_u32_to_le_bytes(align));
}

/// An RNDIS_QUERY_CMPLT as the host lays it out: type, length, RequestId,
/// Status, InformationBufferLength, InformationBufferOffset (16, counted
/// from RequestId), then the information buffer.
pub open spec fn query_complete_bytes(req_id: u32, status: u32, info: Seq<u8>) -> Seq<u8> {
    spec_u32_to_le_bytes(RNDIS_MSG_QUERY_C) + spec_u32_to_le_bytes((24 + info.len()) as u32)
        + spec_u32_to_le_bytes(req_id) + spec_u32_to_le_bytes(status) + spec_u32_to_le_bytes(
        info.len() as u32,
    ) + spec_u32_to_le_bytes(16) + info
}

/// A QUERY_CMPLT decodes to the request id, status and information
/// buffer it was built from.
pub proof fn lemma_query_complete_roundtrip(req_id: u32, status: u32, info: Seq<u8>)
    requires
        24 + info.len() <= u32::MAX,
    ensures
        rndis_response_spec(query_complete_bytes(req_id, status, info)) == Some(
            RndisResponseView::QueryComplete { req_id, status: RndisStatus(status), info },
        ),
{
    lemma_auto_spec_u32_to_from_le_bytes();
    let b = query_complete_bytes(req_id, status, info);
    let n = 24 + info.len();
    assert(b.len() == n);
    assert(b.subrange(0, 4) =~= spec_u32_to_le_bytes(RNDIS_MSG_QUERY_C));
    assert(b.subrange(4, 8) =~= spec_u32_to_le_bytes(n as u32));
    let body = rndis_body(b);
    assert(body =~= b.subrange(8, n as int));
    assert(body.subrange(0, 4) =~= spec_u32_to_le_bytes(req_id));
    assert(body.subrange(4, 8) =~= spec_u32_to_le_bytes(status));
    assert(body.subrange(8, 12) =~= spec_u32_to_le_bytes(info.len() as u32));
    assert(body.subrange(12, 16) =~= spec_u32_to_le_bytes(16));
    assert(body.subrange(16, 16 + info.len() as int) =~= info);
    if info.len() == 0 {
        assert(info =~= Seq::<u8>::empty());
    }
}

/// An RNDIS_SET_CMPLT or RNDIS_KEEPALIVE_CMPLT as the host lays it out:
/// type, length 16, RequestId, Status.
pub open spec fn status_complete_bytes(msg_type: u32, req_id: u32, status: u32) -> Seq<u8> {
    spec_u32_to_le_bytes(msg_type) + spec_u32_to_le_bytes(16) + spec_u32_to_le_bytes(req_id)
        + spec_u32_to_le_bytes(status)
}

/// SET_CMPLT and KEEPALIVE_CMPLT decode to the request id and status they
/// were built from.
pub proof fn lemma_status_complete_roundtrip(req_id: u32, status: u32)
    ensures
        rndis_response_spec(status_complete_bytes(RNDIS_MSG_SET_C, req_id, status)) == Some(
            RndisResponseView::SetComplete { req_id, status: RndisStatus(status) },
        ),
        rndis_response_spec(status_complete_bytes(RNDIS_MSG_KEEPALIVE_C, req_id, status)) == Some(
            RndisResponseView::KeepAliveComplete { req_id, status: RndisStatus(status) },
        ),
{
    lemma_auto_spec_u32_to_from_le_bytes();
    let a = status_complete_bytes(RNDIS_MSG_SET_C, req_id, status);
    let k = status_complete_bytes(RNDIS_MSG_KEEPALIVE_C, req_id, status);
    assert(a.subrange(0, 4) =~= spec_u32_to_le_bytes(RNDIS_MSG_SET_C));
    assert(a.subrange(4, 8) =~= spec_u32_to_le_bytes(16));
    assert(k.subrange(0, 4) =~= spec_u32_to_le_bytes(RNDIS_MSG_KEEPALIVE_C));
    assert(k.subrange(4, 8) =~= spec_u32_to_le_bytes(16));
    assert(rndis_body(a) =~= a.subrange(8, 16));
    assert(rndis_body(k) =~= k.subrange(8, 16));
    assert(a.subrange(8, 16).subrange(0, 4) =~= spec_u32_to_le_bytes(req_id));
    assert(a.subrange(8, 16).subrange(4, 8) =~= spec_u32_to_le_bytes(status));
    assert(k.subrange(8, 16).subrange(0, 4) =~= spec_u32_to_le_bytes(req_id));
    assert(k.subrange(8, 16).subrange(4, 8) =~= spec_u32_to_le_bytes(status));
}

/// An RNDIS_INDICATE_STATUS as the host lays it out: type, length, Status,
/// StatusBufferLength, StatusBufferOffset (12, counted from Status), then
/// the status buffer.
pub open spec fn indicate_bytes(status: u32, buf: Seq<u8>) -> Seq<u8> {
    spec_u32_to_le_bytes(RNDIS_MSG_INDICATE) + spec_u32_to_le_bytes((20 + buf.len()) as u32)
        + spec_u32_to_le_bytes(status) + spec_u32_to_le_bytes(buf.len() as u32) + spec_u32_to_le_bytes(12)
        + buf
}

/// An INDICATE_STATUS decodes to the status and status buffer it was
/// built from.
pub proof fn lemma_indicate_roundtrip(status: u32, buf: Seq<u8>)
    requires
        20 + buf.len() <= u32::MAX,
    ensures
        rndis_response_spec(indicate_bytes(status, buf)) == Some(
            RndisResponseView::Indicate { status: RndisStatus(status), status_buf: buf },
        ),
{
    lemma_auto_spec_u32_to_from_le_bytes();
    let b = indicate_bytes(status, buf);
    let n = 20 + buf.len();
    assert(b.len() == n);
    assert(b.subrange(0, 4) =~= spec_u32_to_le_bytes(RNDIS_MSG_INDICATE));
    assert(b.subrange(4, 8) =~= spec_u32_to_le_bytes(n as u32));
    let body = rndis_body(b);
    assert(body =~= b.subrange(8, n as int));
    assert(body.subrange(0, 4) =~= spec_u32_to_le_bytes(status));
    assert(body.subrange(4, 8) =~= spec_u32_to_le_bytes(buf.len() as u32));
    assert(body.subrange(8, 12) =~= spec_u32_to_le_bytes(12));
    assert(body.subrange(12, 12 + buf.len() as int) =~= buf);
    if buf.len() == 0 {
        assert(buf =~= Seq::<u8>::empty());
    }
}

/// Reads a `u32` field of the body, which starts at byte 8 of `data`.
fn body_u32(data: &[u8], end: usize, off: usize) -> (v: u32)
    requires
        8 <= end <= data@.len(),
        off + 4 <= end - 8,
    ensures
        v == u32_at(data@.subrange(8, end as int), off as int),
{
    proof {
        assert(data@.subrange(8, end as int).subrange(off as int, off + 4) =~= data@.subrange(
            8 + off,
            8 + off + 4,
        ));
    }
    read_u32_le(data, 8 + off)
}

/// Copies the body's `len` bytes at `off` when non-empty and in range.
fn body_slice(data: &[u8], end: usize, off: u32, len: u32) -> (v: Vec<u8>)
    requires
        8 <= end <= data@.len(),
    ensures
        v@ == info_slice(data@.subrange(8, end as int), off as int, len as int),
{
    let body_len = end - 8;
    if len > 0 && (off as u64) + (len as u64) <= body_len as u64 {
        let v = sub_vec(data, 8 + off as usize, len as usize);
        proof {
            let body = data@.subrange(8, end as int);
            assert(v@ =~= body.subrange(off as int, off + len));
        }
        v
    } else {
        Vec::new()
    }
}

/// Parse an RNDIS response from message bytes.
///
/// `data` should contain the full rndis_message starting from ndis_msg_type.
pub fn parse_rndis_response(data: &[u8]) -> (r: Option<RndisResponse>)
    ensures
        rndis_opt_view(r) == rndis_response_spec(data@),
{
    if data.len() < RNDIS_HEADER_SIZE {
        return None;
    }
    let msg_type = read_u32_le(data, 0);
    let msg_len = read_u32_le(data, 4);
    if msg_len < 8 {
        return None;
    }
    let end = if data.len() < msg_len as usize {
        data.len()
    } else {
        msg_len as usize
    };
    let body_len = end - 8;
    if msg_type == RNDIS_MSG_INIT_C {
        if body_len < 44 {
            return None;
        }
        Some(
            RndisResponse::InitComplete {
                req_id: body_u32(data, end, 0),
                status: RndisStatus(body_u32(data, end, 4)),
                major_ver: body_u32(data, end, 8),
                minor_ver: body_u32(data, end, 12),
                max_pkt_per_msg: body_u32(data, end, 24),
                max_xfer_size: body_u32(data, end, 28),
                pkt_alignment_factor: body_u32(data, end, 32),
            },
        )
    } else if msg_type == RNDIS_MSG_QUERY_C {
        if body_len < 16 {
            return None;
        }
        let info_len = body_u32(data, end, 8);
        let info_off = body_u32(data, end, 12);
        Some(
            RndisResponse::QueryComplete {
                req_id: body_u32(data, end, 0),
                status: RndisStatus(body_u32(data, end, 4)),
                info: body_slice(data, end, info_off, info_len),
            },
        )
    } else if msg_type == RNDIS_MSG_SET_C {
        if body_len < 8 {
            return None;
        }
        Some(
            RndisResponse::SetComplete {
                req_id: body_u32(data, end, 0),
                status: RndisStatus(body_u32(data, end, 4)),
            },
        )
    } else if msg_type == RNDIS_MSG_KEEPALIVE_C {
        if body_len < 8 {
            return None;
        }
        Some(
            RndisResponse::KeepAliveComplete {
                req_id: body_u32(data, end, 0),
                status: RndisStatus(body_u32(data, end, 4)),
            },
        )
    } else if msg_type == RNDIS_MSG_INDICATE {
        if body_len < 12 {
            return None;
        }
        let buf_len = body_u32(data, end, 4);
        let buf_off = body_u32(data, end, 8);
        Some(
            RndisResponse::Indicate {
                status: RndisStatus(body_u32(data, end, 0)),
                status_buf: body_slice(data, end, buf_off, buf_len),
            },
        )
    } else if msg_type == RNDIS_MSG_PACKET {
        if body_len < 36 {
            return None;
        }
        let raw = sub_vec(data, 0, data.len());
        proof {
            assert(raw@ =~= data@);
        }
        Some(
            RndisResponse::Packet {
                data_offset: body_u32(data, end, 0),
                data_len: body_u32(data, end, 4),
                raw,
            },
        )
    } else {
        Some(RndisResponse::Unknown(msg_type))
    }
}

} // verus!
