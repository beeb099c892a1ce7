use embclox::channel::{Channel, HvError};
use embclox::dma::DmaRegion;
use embclox::netvsc::{
    build_rndis_keepalive_complete, extract_eth_frame, ndis_version_for, nvsp_negotiate_step,
    parse_xfer_page_packet, recv_buf_setup_outcome, send_buf_setup_outcome, ChannelCursor,
    NetvscDevice, NvspStep, RndisPhase, NETVSC_RECV_BUF_SIZE, NETVSC_SEND_BUF_SIZE, pfn_list,
};
use embclox::nvsp_msg::{parse_rndis_response, RndisResponse};
use embclox::nvsp_setup::{nvsp_buffer_shared, nvsp_setup_response, nvsp_setup_start, NvspSetup};
use embclox::ring::{RingHalf, RingIndices, VmPacketDescriptor, VM_PKT_COMP, VM_PKT_DATA_USING_XFER_PAGES};

const RING: usize = 4096;

fn le32(v: &mut Vec<u8>, x: u32) {
    v.extend_from_slice(&x.to_le_bytes());
}

fn device() -> NetvscDevice {
    let channel = Channel {
        child_relid: 1,
        connection_id: 2,
        gpadl_handle: 3,
        send: RingHalf::new(0x1000_0000, RING + 4096),
        recv: RingHalf::new(0x2000_0000, RING + 4096),
    };
    let recv_buf = DmaRegion { vaddr: 0x3000_0000, paddr: 0x3000_0000, size: NETVSC_RECV_BUF_SIZE };
    let send_buf = DmaRegion { vaddr: 0x4000_0000, paddr: 0x4000_0000, size: NETVSC_SEND_BUF_SIZE };
    NetvscDevice::new(channel, recv_buf, 10, send_buf, 11, 0x60001)
}

fn frame() -> Vec<u8> {
    (1..=60u8).collect()
}

/// RNDIS_PACKET_MSG carrying `f`, laid out as the host sends it.
fn rndis_packet(f: &[u8]) -> Vec<u8> {
    let mut m = Vec::new();
    le32(&mut m, 1);
    le32(&mut m, 44 + f.len() as u32);
    le32(&mut m, 36);
    le32(&mut m, f.len() as u32);
    m.extend_from_slice(&[0u8; 12]);
    le32(&mut m, 36);
    m.extend_from_slice(&[0u8; 12]);
    m.extend_from_slice(f);
    m
}

/// Transfer-page header with one range of `count` bytes at `offset`.
fn xfer_raw(count: u32, offset: u32) -> Vec<u8> {
    let mut r = vec![0u8, 0, 0, 0];
    le32(&mut r, 1);
    le32(&mut r, count);
    le32(&mut r, offset);
    r
}

fn recv_buf_with(msg: &[u8], offset: usize) -> Vec<u8> {
    let mut b = vec![0u8; NETVSC_RECV_BUF_SIZE];
    b[offset..offset + msg.len()].copy_from_slice(msg);
    b
}

fn xfer_desc(txid: u64) -> VmPacketDescriptor {
    VmPacketDescriptor { packet_type: VM_PKT_DATA_USING_XFER_PAGES, offset8: 2, len8: 4, flags: 1, transaction_id: txid }
}

fn init_complete(status: u32) -> Vec<u8> {
    let mut m = Vec::new();
    le32(&mut m, 0x8000_0002);
    le32(&mut m, 52);
    le32(&mut m, 1);
    le32(&mut m, status);
    for v in [1u32, 0, 0, 0, 1, 0x4000, 3, 0, 0] {
        le32(&mut m, v);
    }
    m
}

fn query_complete(status: u32, info: &[u8]) -> Vec<u8> {
    let mut m = Vec::new();
    le32(&mut m, 0x8000_0004);
    le32(&mut m, 24 + info.len() as u32);
    le32(&mut m, 2);
    le32(&mut m, status);
    le32(&mut m, info.len() as u32);
    le32(&mut m, 16);
    m.extend_from_slice(info);
    m
}

fn set_complete() -> Vec<u8> {
    let mut m = Vec::new();
    le32(&mut m, 0x8000_0005);
    le32(&mut m, 16);
    le32(&mut m, 5);
    le32(&mut m, 0);
    m
}

#[test]
fn keepalive_complete_layout() {
    let mut buf = [0xAAu8; 20];
    assert_eq!(build_rndis_keepalive_complete(0x0102_0304, &mut buf), 16);
    assert_eq!(&buf[0..4], &[0x08, 0, 0, 0x80]);
    assert_eq!(&buf[4..8], &[16, 0, 0, 0]);
    assert_eq!(&buf[8..12], &[4, 3, 2, 1]);
    assert_eq!(&buf[12..16], &[0, 0, 0, 0]);
    assert_eq!(&buf[16..20], &[0xAA; 4]);
}

#[test]
fn keepalive_complete_parses_back() {
    let mut buf = [0u8; 16];
    build_rndis_keepalive_complete(42, &mut buf);
    match parse_rndis_response(&buf) {
        Some(RndisResponse::KeepAliveComplete { req_id, status }) => {
            assert_eq!(req_id, 42);
            assert_eq!(status.0, 0);
        }
        other => panic!("unexpected {:?}", other),
    }
}

#[test]
fn new_device_defaults() {
    let d = device();
    assert_eq!(d.mac(), [0u8; 6]);
    assert_eq!(d.mtu(), 1514);
    assert_eq!(d.nvsp_version(), 0x60001);
    assert_eq!(d.next_request_id, 1);
    assert_eq!(d.next_txid, 100);
    assert!(d.send_section_free);
    assert!(d.pending_rx.is_none());
    assert!(!d.ctrl_resp_ready);
}

#[test]
fn transmit_writes_header_frame_and_announcement() {
    let mut d = device();
    let mut ring = vec![0u8; RING];
    let mut idx = RingIndices { write_index: 0, read_index: 0 };
    let mut send_buf = vec![0xEEu8; NETVSC_SEND_BUF_SIZE];
    let f = frame();
    assert_eq!(d.transmit(&f, &mut ring, &mut idx, &mut send_buf), Ok(()));
    assert_eq!(&send_buf[0..104], rndis_packet(&f).as_slice());
    assert_eq!(send_buf[104], 0xEE);
    assert!(!d.send_section_free);
    assert_eq!(d.next_txid, 101);
    // Descriptor + 40-byte announcement + trailing indices.
    assert_eq!(idx.write_index, 64);
    let mut read = RingIndices { write_index: idx.write_index, read_index: 0 };
    let mut payload = [0u8; 64];
    let (desc, n) = d.channel.send.recv_packet(&ring, &mut read, &mut payload).unwrap().unwrap();
    assert_eq!(desc.packet_type, 6);
    assert_eq!(desc.flags, 1);
    assert_eq!(desc.transaction_id, 100);
    assert_eq!(n, 40);
    assert_eq!(&payload[0..16], &[107, 0, 0, 0, 0, 0, 0, 0, 0, 0, 0, 0, 104, 0, 0, 0]);
}

#[test]
fn transmit_while_section_busy_times_out() {
    let mut d = device();
    let mut ring = vec![0u8; RING];
    let mut idx = RingIndices { write_index: 0, read_index: 0 };
    let mut send_buf = vec![0u8; NETVSC_SEND_BUF_SIZE];
    let f = frame();
    d.transmit(&f, &mut ring, &mut idx, &mut send_buf).unwrap();
    let before = send_buf.clone();
    let w = idx.write_index;
    assert_eq!(d.transmit(&[9u8; 20], &mut ring, &mut idx, &mut send_buf), Err(HvError::Timeout));
    assert_eq!(send_buf, before);
    assert_eq!(idx.write_index, w);
    assert_eq!(d.next_txid, 101);
}

#[test]
fn send_rndis_control_takes_section() {
    let mut d = device();
    let mut ring = vec![0u8; RING];
    let mut idx = RingIndices { write_index: 0, read_index: 0 };
    let mut send_buf = vec![0u8; 64];
    let msg = [1u8, 2, 3, 4, 5, 6, 7, 8];
    assert_eq!(d.send_rndis_control(&msg, &mut ring, &mut idx, &mut send_buf), Ok(()));
    assert_eq!(&send_buf[..8], &msg);
    assert!(!d.send_section_free);
    assert_eq!(d.send_rndis_control(&msg, &mut ring, &mut idx, &mut send_buf), Err(HvError::Timeout));
}

#[test]
fn transmitted_packet_extracts_to_the_frame() {
    let f = frame();
    let msg = rndis_packet(&f);
    let mut buf = vec![0u8; 1600];
    buf[..msg.len()].copy_from_slice(&msg);
    assert_eq!(extract_eth_frame(&mut buf, msg.len()), Some(60));
    assert_eq!(&buf[..60], f.as_slice());
}

#[test]
fn extract_rejects_short_and_foreign_messages() {
    let mut buf = vec![7u8; 64];
    assert_eq!(extract_eth_frame(&mut buf, 4), None);
    assert_eq!(buf, vec![7u8; 64]);
    let q = query_complete(0, &[1, 2, 3, 4]);
    let mut buf = vec![0u8; 64];
    buf[..q.len()].copy_from_slice(&q);
    assert_eq!(extract_eth_frame(&mut buf, q.len()), None);
    // A frame running past the message is refused.
    let mut m = rndis_packet(&frame());
    m.truncate(80);
    let mut buf = vec![0u8; 1600];
    buf[..80].copy_from_slice(&m);
    assert_eq!(extract_eth_frame(&mut buf, 80), None);
}

#[test]
fn xfer_page_packet_copies_range() {
    let rb = recv_buf_with(&[5, 6, 7, 8, 9], 100);
    let mut out = [0u8; 16];
    assert_eq!(parse_xfer_page_packet(&xfer_raw(5, 100), &rb, &mut out), 5);
    assert_eq!(&out[..5], &[5, 6, 7, 8, 9]);
    let mut small = [0u8; 3];
    assert_eq!(parse_xfer_page_packet(&xfer_raw(5, 100), &rb, &mut small), 3);
    assert_eq!(small, [5, 6, 7]);
}

#[test]
fn xfer_page_packet_rejects_malformed() {
    let rb = vec![1u8; NETVSC_RECV_BUF_SIZE];
    let mut out = [0u8; 8];
    assert_eq!(parse_xfer_page_packet(&[0u8; 4], &rb, &mut out), 0);
    let mut no_range = xfer_raw(5, 0);
    no_range[4] = 0;
    assert_eq!(parse_xfer_page_packet(&no_range, &rb, &mut out), 0);
    assert_eq!(parse_xfer_page_packet(&xfer_raw(8, NETVSC_RECV_BUF_SIZE as u32 - 4), &rb, &mut out), 0);
    assert_eq!(parse_xfer_page_packet(&xfer_raw(0, 0), &rb, &mut out), 0);
    assert_eq!(out, [0u8; 8]);
}

#[test]
fn pump_packet_queues_frame_and_acknowledges() {
    let mut d = device();
    let msg = rndis_packet(&frame());
    let rb = recv_buf_with(&msg, 0);
    let a = d.pump_packet(&xfer_desc(55), &xfer_raw(msg.len() as u32, 0), &rb);
    assert_eq!(a.completion, Some(55));
    assert!(a.reply.is_none());
    assert!(!a.stop);
    assert_eq!(d.pending_rx, Some(frame()));
    // While the slot is full, draining stops without acknowledging.
    let b = d.pump_packet(&xfer_desc(56), &xfer_raw(msg.len() as u32, 0), &rb);
    assert!(b.stop);
    assert_eq!(b.completion, None);
    assert_eq!(d.pending_rx, Some(frame()));
}

#[test]
fn pump_packet_answers_keepalive_and_acknowledges_other_messages() {
    let mut d = device();
    let mut ka = Vec::new();
    le32(&mut ka, 8);
    le32(&mut ka, 12);
    le32(&mut ka, 9);
    let rb = recv_buf_with(&ka, 0);
    let a = d.pump_packet(&xfer_desc(3), &xfer_raw(12, 0), &rb);
    assert_eq!(a.completion, Some(3));
    let mut answer = [0u8; 16];
    build_rndis_keepalive_complete(9, &mut answer);
    assert_eq!(a.reply, Some(answer.to_vec()));
    assert!(d.pending_rx.is_none());
    // An INDICATE_STATUS is acknowledged and not answered.
    let mut st = Vec::new();
    le32(&mut st, 7);
    le32(&mut st, 12);
    le32(&mut st, 0);
    let rb = recv_buf_with(&st, 0);
    let b = d.pump_packet(&xfer_desc(4), &xfer_raw(12, 0), &rb);
    assert_eq!(b.completion, Some(4));
    assert!(b.reply.is_none());
}

#[test]
fn completion_frees_send_section() {
    let mut d = device();
    d.send_section_free = false;
    let rb = vec![0u8; NETVSC_RECV_BUF_SIZE];
    let desc = VmPacketDescriptor { packet_type: VM_PKT_COMP, offset8: 2, len8: 3, flags: 0, transaction_id: 100 };
    let mut other = Vec::new();
    le32(&mut other, 102);
    le32(&mut other, 1);
    let a = d.pump_packet(&desc, &other, &rb);
    assert!(a.completion.is_none() && a.reply.is_none() && !a.stop);
    assert!(!d.send_section_free);
    let mut done = Vec::new();
    le32(&mut done, 108);
    le32(&mut done, 1);
    d.pump_packet(&desc, &done, &rb);
    assert!(d.send_section_free);
}

#[test]
fn poll_packet_fills_control_slot() {
    let mut d = device();
    let msg = init_complete(0);
    let rb = recv_buf_with(&msg, 4096);
    let a = d.poll_packet(&xfer_desc(9), &xfer_raw(msg.len() as u32, 4096), &rb);
    assert_eq!(a.completion, Some(9));
    assert!(a.reply.is_none());
    assert!(d.ctrl_resp_ready);
    assert_eq!(d.take_ctrl_response(), Some(msg));
    assert!(!d.ctrl_resp_ready);
    assert_eq!(d.take_ctrl_response(), None);
}

#[test]
fn poll_packet_answers_host_keepalive() {
    let mut d = device();
    let mut ka = Vec::new();
    le32(&mut ka, 8);
    le32(&mut ka, 12);
    le32(&mut ka, 77);
    let rb = recv_buf_with(&ka, 0);
    let a = d.poll_packet(&xfer_desc(1), &xfer_raw(12, 0), &rb);
    let mut answer = [0u8; 16];
    build_rndis_keepalive_complete(77, &mut answer);
    assert_eq!(a.reply, Some(answer.to_vec()));
    assert!(!d.ctrl_resp_ready);
    // A keepalive completion from the host is not answered again.
    let rb = recv_buf_with(&answer, 0);
    let b = d.poll_packet(&xfer_desc(2), &xfer_raw(16, 0), &rb);
    assert!(b.reply.is_none());
}

#[test]
fn rndis_requests_take_request_ids() {
    let mut d = device();
    let init = d.rndis_request(RndisPhase::Initialize);
    assert_eq!(&init[0..4], &[2, 0, 0, 0]);
    assert_eq!(&init[8..12], &[1, 0, 0, 0]);
    assert_eq!(d.next_request_id, 2);
    let q = d.rndis_request(RndisPhase::QueryCurrentMac);
    assert_eq!(&q[0..4], &[4, 0, 0, 0]);
    assert_eq!(&q[8..12], &[2, 0, 0, 0]);
    assert_eq!(&q[12..16], &0x0101_0102u32.to_le_bytes());
    let s = d.rndis_request(RndisPhase::SetPacketFilter);
    assert_eq!(&s[0..4], &[5, 0, 0, 0]);
    assert_eq!(&s[12..16], &0x0001_010Eu32.to_le_bytes());
    assert_eq!(&s[s.len() - 4..], &0x0000_000Bu32.to_le_bytes());
    assert_eq!(d.next_request_id, 4);
}

#[test]
fn rndis_bring_up_phases() {
    let mut d = device();
    assert_eq!(d.rndis_response(RndisPhase::Initialize, &init_complete(0)), Ok(RndisPhase::QueryCurrentMac));
    let mac = [0x00u8, 0x15, 0x5D, 0x01, 0x02, 0x03];
    assert_eq!(d.rndis_response(RndisPhase::QueryCurrentMac, &query_complete(0, &mac)), Ok(RndisPhase::QueryMtu));
    assert_eq!(d.mac(), mac);
    assert_eq!(
        d.rndis_response(RndisPhase::QueryMtu, &query_complete(0, &1500u32.to_le_bytes())),
        Ok(RndisPhase::SetPacketFilter)
    );
    assert_eq!(d.mtu(), 1500);
    assert_eq!(d.rndis_response(RndisPhase::SetPacketFilter, &set_complete()), Ok(RndisPhase::Ready));
}

#[test]
fn rndis_bring_up_falls_back_and_fails() {
    let mut d = device();
    assert_eq!(
        d.rndis_response(RndisPhase::Initialize, &init_complete(0xC000_0001)),
        Err(HvError::HypercallFailed(0x0001))
    );
    assert_eq!(d.rndis_response(RndisPhase::Initialize, &set_complete()), Err(HvError::VersionRejected));
    assert_eq!(
        d.rndis_response(RndisPhase::QueryCurrentMac, &query_complete(0xC000_0001, &[1, 2, 3, 4, 5, 6])),
        Ok(RndisPhase::QueryPermanentMac)
    );
    assert_eq!(d.mac(), [0u8; 6]);
    assert_eq!(d.rndis_response(RndisPhase::QueryPermanentMac, &query_complete(0, &[1, 2])), Ok(RndisPhase::QueryMtu));
    assert_eq!(d.mac(), [0u8; 6]);
    assert_eq!(d.rndis_response(RndisPhase::QueryMtu, &set_complete()), Ok(RndisPhase::SetPacketFilter));
    assert_eq!(d.mtu(), 1514);
    assert_eq!(d.rndis_response(RndisPhase::SetPacketFilter, &init_complete(0)), Err(HvError::VersionRejected));
}

fn nvsp_init_complete(status: u32) -> Vec<u8> {
    let mut m = Vec::new();
    for v in [2u32, 0x60001, 0, status] {
        le32(&mut m, v);
    }
    m
}

#[test]
fn nvsp_negotiation_steps() {
    match nvsp_negotiate_step(0, &nvsp_init_complete(1)) {
        NvspStep::Accepted { version, ndis_config: Some(c) } => {
            assert_eq!(version, 0x60001);
            assert_eq!(c.len(), 40);
            assert_eq!(&c[0..4], &125u32.to_le_bytes());
            assert_eq!(&c[4..8], &1528u32.to_le_bytes());
        }
        _ => panic!("expected acceptance with NDIS config"),
    }
    match nvsp_negotiate_step(5, &nvsp_init_complete(1)) {
        NvspStep::Accepted { version, ndis_config } => {
            assert_eq!(version, 2);
            assert!(ndis_config.is_none());
        }
        _ => panic!("expected acceptance"),
    }
    assert!(matches!(nvsp_negotiate_step(0, &nvsp_init_complete(2)), NvspStep::TryNext));
    assert!(matches!(nvsp_negotiate_step(4, &[1, 2]), NvspStep::TryNext));
    assert!(matches!(nvsp_negotiate_step(5, &nvsp_init_complete(2)), NvspStep::Rejected));
}

#[test]
fn ndis_version_depends_on_nvsp() {
    assert_eq!(ndis_version_for(0x60001), (6, 30));
    assert_eq!(ndis_version_for(0x50000), (6, 30));
    assert_eq!(ndis_version_for(0x40000), (6, 1));
    assert_eq!(ndis_version_for(2), (6, 1));
}

#[test]
fn buffer_setup_outcomes() {
    let mut ok = Vec::new();
    for v in [102u32, 1, 1, 0, 0x600, 1, 0x600] {
        le32(&mut ok, v);
    }
    assert_eq!(recv_buf_setup_outcome(&ok), Ok(()));
    ok[4] = 2;
    assert_eq!(recv_buf_setup_outcome(&ok), Err(HvError::HypercallFailed(2)));
    assert_eq!(recv_buf_setup_outcome(&[0u8; 3]), Err(HvError::HypercallFailed(0xFFFF)));
    let mut s = Vec::new();
    for v in [105u32, 1, 6144] {
        le32(&mut s, v);
    }
    assert_eq!(send_buf_setup_outcome(&s), Ok(6144));
    s[4] = 6;
    assert_eq!(send_buf_setup_outcome(&s), Err(HvError::HypercallFailed(6)));
    assert_eq!(send_buf_setup_outcome(&ok), Err(HvError::HypercallFailed(0xFFFF)));
}

/// Receive ring holding one transfer-page packet for `count` bytes at offset 0.
fn recv_ring_with_xfer(txid: u64, count: u32) -> (Vec<u8>, RingIndices) {
    let mut ring = vec![0u8; RING];
    let d = xfer_desc(txid);
    let mut bytes = d.to_bytes();
    bytes.extend_from_slice(&xfer_raw(count, 0));
    bytes.extend_from_slice(&[0u8; 8]);
    ring[..bytes.len()].copy_from_slice(&bytes);
    (ring, RingIndices { write_index: bytes.len() as u32, read_index: 0 })
}

#[test]
fn pump_channel_delivers_frame_end_to_end() {
    let mut d = device();
    let msg = rndis_packet(&frame());
    let rb = recv_buf_with(&msg, 0);
    let (recv_ring, recv_idx) = recv_ring_with_xfer(77, msg.len() as u32);
    let mut send_ring = vec![0u8; RING];
    let mut send_buf = vec![0u8; NETVSC_SEND_BUF_SIZE];
    let mut cur = ChannelCursor { send: RingIndices { write_index: 0, read_index: 0 }, recv: recv_idx, signal: false };
    assert_eq!(d.pump_channel(&mut cur, &mut send_ring, &recv_ring, &rb, &mut send_buf), Ok(()));
    assert_eq!(cur.recv.read_index, cur.recv.write_index);
    assert!(cur.signal);
    assert_eq!(d.pending_rx, Some(frame()));
    // The completion went out on the send ring.
    let mut read = RingIndices { write_index: cur.send.write_index, read_index: 0 };
    let mut payload = [0u8; 16];
    let (desc, n) = d.channel.send.recv_packet(&send_ring, &mut read, &mut payload).unwrap().unwrap();
    assert_eq!(desc.packet_type, VM_PKT_COMP);
    assert_eq!(desc.transaction_id, 77);
    assert_eq!(n, 8);
    assert_eq!(&payload[..8], &[108, 0, 0, 0, 1, 0, 0, 0]);
    // The frame is then handed out once.
    let mut out = [0u8; 100];
    let res = d.try_receive(&mut out, &mut cur, &mut send_ring, &recv_ring, &rb, &mut send_buf);
    assert_eq!(res, Ok(Some(60)));
    assert_eq!(&out[..60], frame().as_slice());
    let res = d.try_receive(&mut out, &mut cur, &mut send_ring, &recv_ring, &rb, &mut send_buf);
    assert_eq!(res, Ok(None));
}

#[test]
fn pump_channel_leaves_packet_on_ring_while_slot_full() {
    let mut d = device();
    let msg = rndis_packet(&frame());
    let rb = recv_buf_with(&msg, 0);
    let (recv_ring, recv_idx) = recv_ring_with_xfer(78, msg.len() as u32);
    let mut send_ring = vec![0u8; RING];
    let mut send_buf = vec![0u8; NETVSC_SEND_BUF_SIZE];
    let mut cur = ChannelCursor { send: RingIndices { write_index: 0, read_index: 0 }, recv: recv_idx, signal: false };
    d.pending_rx = Some(vec![9u8; 20]);
    assert_eq!(d.pump_channel(&mut cur, &mut send_ring, &recv_ring, &rb, &mut send_buf), Ok(()));
    // Nothing consumed, nothing acknowledged, the queued frame kept.
    assert_eq!(cur.recv.read_index, recv_idx.read_index);
    assert_eq!(cur.recv.write_index, recv_idx.write_index);
    assert!(!cur.signal);
    assert_eq!(cur.send.write_index, 0);
    assert_eq!(d.pending_rx, Some(vec![9u8; 20]));
    // Once the slot is emptied the packet is delivered.
    assert_eq!(d.recv_with(|b: &mut [u8]| b.len()), Some(20));
    assert_eq!(d.pump_channel(&mut cur, &mut send_ring, &recv_ring, &rb, &mut send_buf), Ok(()));
    assert_eq!(cur.recv.read_index, cur.recv.write_index);
    assert!(cur.signal);
    assert_eq!(d.pending_rx, Some(frame()));
}

#[test]
fn pump_channel_on_empty_ring_changes_nothing() {
    let mut d = device();
    let rb = vec![0u8; NETVSC_RECV_BUF_SIZE];
    let recv_ring = vec![0u8; RING];
    let mut send_ring = vec![0u8; RING];
    let mut send_buf = vec![0u8; 64];
    let mut cur = ChannelCursor {
        send: RingIndices { write_index: 0, read_index: 0 },
        recv: RingIndices { write_index: 8, read_index: 8 },
        signal: false,
    };
    assert_eq!(d.pump_channel(&mut cur, &mut send_ring, &recv_ring, &rb, &mut send_buf), Ok(()));
    assert!(!cur.signal);
    assert!(d.has_tx_space(&mut cur, &mut send_ring, &recv_ring, &rb, &mut send_buf));
    assert!(!d.has_rx_packet(&mut cur, &mut send_ring, &recv_ring, &rb, &mut send_buf));
    assert_eq!(d.poll_channel(&mut cur, &mut send_ring, &recv_ring, &rb, &mut send_buf), Ok(false));
    cur.recv.read_index = RING as u32;
    assert!(d.pump_channel(&mut cur, &mut send_ring, &recv_ring, &rb, &mut send_buf).is_err());
}

#[test]
fn recv_with_consumes_the_frame() {
    let mut d = device();
    assert_eq!(d.recv_with(|b: &mut [u8]| b.len()), None);
    d.pending_rx = Some(frame());
    assert_eq!(d.recv_with(|b: &mut [u8]| (b.len(), b[0])), Some((60, 1)));
    assert!(d.pending_rx.is_none());
}

fn recv_buf_complete(status: u32) -> Vec<u8> {
    let mut m = Vec::new();
    for v in [102u32, status, 1, 0, 0x600, 1, 0x600] {
        le32(&mut m, v);
    }
    m
}

fn send_buf_complete(status: u32, size: u32) -> Vec<u8> {
    let mut m = Vec::new();
    for v in [105u32, status, size] {
        le32(&mut m, v);
    }
    m
}

#[test]
fn nvsp_setup_runs_to_ready() {
    let (st, sends) = nvsp_setup_start();
    assert_eq!(st, NvspSetup::Offered(0));
    assert_eq!(sends.len(), 1);
    assert_eq!((sends[0].txid, sends[0].completion, sends[0].payload.len()), (0, true, 40));
    assert_eq!(&sends[0].payload[0..12], &[1, 0, 0, 0, 1, 0, 6, 0, 1, 0, 6, 0]);

    let (st, sends) = nvsp_setup_response(st, &nvsp_init_complete(1));
    assert_eq!(st, NvspSetup::ShareRecvBuffer(0x60001));
    assert_eq!(sends.len(), 2);
    assert_eq!((sends[0].txid, sends[0].completion), (99, false));
    assert_eq!(&sends[0].payload[0..4], &125u32.to_le_bytes());
    assert_eq!((sends[1].txid, sends[1].completion), (98, false));
    assert_eq!(&sends[1].payload[0..12], &[100, 0, 0, 0, 6, 0, 0, 0, 30, 0, 0, 0]);

    let (st, sends) = nvsp_buffer_shared(st, 5);
    assert_eq!(st, NvspSetup::RecvBufferSent(0x60001));
    assert_eq!((sends[0].txid, sends[0].completion), (1, true));
    assert_eq!(&sends[0].payload[0..10], &[101, 0, 0, 0, 5, 0, 0, 0, 0xFE, 0xCA]);

    // A completion without payload is skipped.
    let (st, sends) = nvsp_setup_response(st, &[]);
    assert_eq!(st, NvspSetup::RecvBufferSent(0x60001));
    assert!(sends.is_empty());

    let (st, _) = nvsp_setup_response(st, &recv_buf_complete(1));
    assert_eq!(st, NvspSetup::ShareSendBuffer(0x60001));
    let (st, sends) = nvsp_buffer_shared(st, 6);
    assert_eq!(st, NvspSetup::SendBufferSent(0x60001));
    assert_eq!((sends[0].txid, sends[0].completion), (2, true));
    assert_eq!(&sends[0].payload[0..10], &[104, 0, 0, 0, 6, 0, 0, 0, 0, 0]);
    let (st, _) = nvsp_setup_response(st, &send_buf_complete(1, 6144));
    assert_eq!(st, NvspSetup::Ready(0x60001, 6144));

    // Nothing moves a finished set-up.
    let (st2, sends) = nvsp_setup_response(st, &nvsp_init_complete(1));
    assert_eq!(st2, st);
    assert!(sends.is_empty());
    let (st3, sends) = nvsp_buffer_shared(st, 9);
    assert_eq!(st3, st);
    assert!(sends.is_empty());
}

#[test]
fn nvsp_setup_falls_back_and_fails() {
    let mut st = NvspSetup::Offered(0);
    for attempt in 0..5 {
        let (next, sends) = nvsp_setup_response(st, &nvsp_init_complete(2));
        assert_eq!(next, NvspSetup::Offered(attempt + 1));
        assert_eq!(sends[0].txid, 0);
        st = next;
    }
    let (last, sends) = nvsp_setup_response(st, &nvsp_init_complete(2));
    assert_eq!(last, NvspSetup::Failed(HvError::VersionRejected));
    assert!(sends.is_empty());
    // Version 1 accepted: no NDIS_CONFIG, only the NDIS version 6.1.
    let (st, sends) = nvsp_setup_response(NvspSetup::Offered(5), &nvsp_init_complete(1));
    assert_eq!(st, NvspSetup::ShareRecvBuffer(2));
    assert_eq!(sends.len(), 1);
    assert_eq!(&sends[0].payload[4..12], &[6, 0, 0, 0, 1, 0, 0, 0]);
    let (st, _) = nvsp_setup_response(NvspSetup::RecvBufferSent(2), &recv_buf_complete(2));
    assert_eq!(st, NvspSetup::Failed(HvError::HypercallFailed(2)));
    let (st, _) = nvsp_setup_response(NvspSetup::SendBufferSent(2), &[7, 7, 7, 7, 7]);
    assert_eq!(st, NvspSetup::Failed(HvError::HypercallFailed(0xFFFF)));
}

#[test]
fn pfn_list_covers_whole_pages_of_the_region() {
    let r = DmaRegion { vaddr: 0, paddr: 0x30_0000, size: 2 * 4096 + 100 };
    assert_eq!(pfn_list(&r), vec![0x300, 0x301]);
    let empty = DmaRegion { vaddr: 0, paddr: 0x30_0000, size: 4095 };
    assert_eq!(pfn_list(&empty), Vec::<u64>::new());
}

#[test]
fn nvsp_setup_ignores_out_of_order_events() {
    // An answer while a buffer is still to be shared moves nothing.
    let (st, sends) = nvsp_setup_response(NvspSetup::ShareRecvBuffer(0x60001), &recv_buf_complete(1));
    assert_eq!(st, NvspSetup::ShareRecvBuffer(0x60001));
    assert!(sends.is_empty());
    // Sharing a buffer while an answer is awaited moves nothing.
    let (st, sends) = nvsp_buffer_shared(NvspSetup::RecvBufferSent(0x60001), 5);
    assert_eq!(st, NvspSetup::RecvBufferSent(0x60001));
    assert!(sends.is_empty());
    let (st, sends) = nvsp_buffer_shared(NvspSetup::Offered(0), 5);
    assert_eq!(st, NvspSetup::Offered(0));
    assert!(sends.is_empty());
}

#[test]
fn pump_channel_twice_changes_nothing_more() {
    let mut d = device();
    let msg = rndis_packet(&frame());
    let rb = recv_buf_with(&msg, 0);
    let (recv_ring, recv_idx) = recv_ring_with_xfer(79, msg.len() as u32);
    let mut send_ring = vec![0u8; RING];
    let mut send_buf = vec![0u8; NETVSC_SEND_BUF_SIZE];
    let mut cur = ChannelCursor { send: RingIndices { write_index: 0, read_index: 0 }, recv: recv_idx, signal: false };
    assert_eq!(d.pump_channel(&mut cur, &mut send_ring, &recv_ring, &rb, &mut send_buf), Ok(()));
    let (send_w, recv_r) = (cur.send.write_index, cur.recv.read_index);
    let ring_before = send_ring.clone();
    assert_eq!(d.pump_channel(&mut cur, &mut send_ring, &recv_ring, &rb, &mut send_buf), Ok(()));
    assert_eq!((cur.send.write_index, cur.recv.read_index), (send_w, recv_r));
    assert_eq!(send_ring, ring_before);
    assert_eq!(d.pending_rx, Some(frame()));
}

#[test]
fn pump_channel_answers_host_keepalive() {
    let mut d = device();
    let mut ka = Vec::new();
    le32(&mut ka, 8);
    le32(&mut ka, 12);
    le32(&mut ka, 0x1234_5678);
    let rb = recv_buf_with(&ka, 0);
    let (recv_ring, recv_idx) = recv_ring_with_xfer(80, ka.len() as u32);
    let mut send_ring = vec![0u8; RING];
    let mut send_buf = vec![0xEEu8; NETVSC_SEND_BUF_SIZE];
    let mut cur = ChannelCursor { send: RingIndices { write_index: 0, read_index: 0 }, recv: recv_idx, signal: false };
    assert_eq!(d.pump_channel(&mut cur, &mut send_ring, &recv_ring, &rb, &mut send_buf), Ok(()));
    assert!(cur.signal);
    assert_eq!(d.pending_rx, None);
    // KEEPALIVE_CMPLT for the request, status SUCCESS, in the send buffer.
    let mut expect = Vec::new();
    for v in [0x8000_0008u32, 16, 0x1234_5678, 0] {
        le32(&mut expect, v);
    }
    assert_eq!(&send_buf[..16], expect.as_slice());
    assert_eq!(send_buf[16], 0xEE);
    // First the completion of the transfer-page packet, then the announcement.
    let mut read = RingIndices { write_index: cur.send.write_index, read_index: 0 };
    let mut payload = [0u8; 40];
    let (desc, _) = d.channel.send.recv_packet(&send_ring, &mut read, &mut payload).unwrap().unwrap();
    assert_eq!((desc.packet_type, desc.transaction_id), (VM_PKT_COMP, 80));
    let (desc, n) = d.channel.send.recv_packet(&send_ring, &mut read, &mut payload).unwrap().unwrap();
    assert_eq!(desc.packet_type, 6);
    assert_eq!(n, 40);
    assert_eq!(&payload[0..16], &[107, 0, 0, 0, 1, 0, 0, 0, 0, 0, 0, 0, 16, 0, 0, 0]);
}

#[test]
fn transmit_with_builds_frame_in_the_send_section() {
    let mut d = device();
    let rb = vec![0u8; NETVSC_RECV_BUF_SIZE];
    let recv_ring = vec![0u8; RING];
    let mut send_ring = vec![0u8; RING];
    let mut send_buf = vec![0xEEu8; NETVSC_SEND_BUF_SIZE];
    let mut cur = ChannelCursor {
        send: RingIndices { write_index: 0, read_index: 0 },
        recv: RingIndices { write_index: 0, read_index: 0 },
        signal: false,
    };
    let f = frame();
    let res = d.transmit_with(
        60,
        |b: &mut [u8]| {
            assert_eq!(b, &[0xEEu8; 60][..]);
            b.copy_from_slice(&f);
            7u32
        },
        &mut cur,
        &mut send_ring,
        &recv_ring,
        &rb,
        &mut send_buf,
    );
    assert_eq!(res, Ok(7));
    assert_eq!(&send_buf[0..104], rndis_packet(&f).as_slice());
    assert_eq!(send_buf[104], 0xEE);
    assert!(cur.signal);
    assert!(!d.send_section_free);
    assert_eq!(d.next_txid, 101);
    assert_eq!(cur.send.write_index, 64);
}

/// Receive ring holding one completion of an RNDIS data packet.
fn recv_ring_with_send_completion(txid: u64) -> (Vec<u8>, RingIndices) {
    let mut ring = vec![0u8; RING];
    let desc = VmPacketDescriptor { packet_type: VM_PKT_COMP, offset8: 2, len8: 3, flags: 0, transaction_id: txid };
    let mut bytes = desc.to_bytes();
    le32(&mut bytes, 108);
    le32(&mut bytes, 1);
    bytes.extend_from_slice(&[0u8; 8]);
    ring[..bytes.len()].copy_from_slice(&bytes);
    (ring, RingIndices { write_index: bytes.len() as u32, read_index: 0 })
}

#[test]
fn transmit_with_drains_completions_of_a_busy_section() {
    let mut d = device();
    d.send_section_free = false;
    let rb = vec![0u8; NETVSC_RECV_BUF_SIZE];
    let (recv_ring, recv_idx) = recv_ring_with_send_completion(100);
    let mut send_ring = vec![0u8; RING];
    let mut send_buf = vec![0u8; NETVSC_SEND_BUF_SIZE];
    let mut cur = ChannelCursor { send: RingIndices { write_index: 0, read_index: 0 }, recv: recv_idx, signal: false };
    let res = d.transmit_with(
        20,
        |b: &mut [u8]| b.copy_from_slice(&[5u8; 20]),
        &mut cur,
        &mut send_ring,
        &recv_ring,
        &rb,
        &mut send_buf,
    );
    assert_eq!(res, Ok(()));
    // The completion was consumed, then the frame went out.
    assert_eq!(cur.recv.read_index, cur.recv.write_index);
    assert_eq!(&send_buf[44..64], &[5u8; 20]);
    assert_eq!(cur.send.write_index, 64);
    assert!(!d.send_section_free);
}

#[test]
fn transmit_with_busy_section_times_out_without_building() {
    let mut d = device();
    d.send_section_free = false;
    let rb = vec![0u8; NETVSC_RECV_BUF_SIZE];
    let recv_ring = vec![0u8; RING];
    let mut send_ring = vec![0u8; RING];
    let mut send_buf = vec![0u8; NETVSC_SEND_BUF_SIZE];
    let mut cur = ChannelCursor {
        send: RingIndices { write_index: 0, read_index: 0 },
        recv: RingIndices { write_index: 16, read_index: 16 },
        signal: false,
    };
    let mut called = false;
    let res = d.transmit_with(
        20,
        |_b: &mut [u8]| called = true,
        &mut cur,
        &mut send_ring,
        &recv_ring,
        &rb,
        &mut send_buf,
    );
    assert_eq!(res, Err(HvError::Timeout));
    assert!(!called);
    assert_eq!(cur.send.write_index, 0);
    assert!(!cur.signal);
    assert_eq!(d.next_txid, 100);
    assert!(send_buf.iter().all(|&b| b == 0));
}
