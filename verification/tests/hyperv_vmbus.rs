use embclox::channel::{
    alloc_gpadl_handle, FIRST_GPADL_HANDLE, build_pfn_list, channel_status_result, gpadl_messages, match_gpadl_created,
    match_open_channel_result, open_channel, open_channel_msg, HvError,
};
use embclox::dma::DmaRegion;
use embclox::ring::RingIndices;
use embclox::vmbus::{
    collect_offer, connect_step, find_offer, connect_version, device_name, finish_offers, guid_heartbeat, guid_netvsc,
    guid_synthvid, initiate_contact_msg, match_version_response, parse_offer, request_offers_msg,
    target_info_for_version, ConnectStep, Guid, VERSION_WIN10, VERSION_WIN8_1,
};

fn le32(b: &[u8], off: usize) -> u32 {
    u32::from_le_bytes([b[off], b[off + 1], b[off + 2], b[off + 3]])
}

fn offer_payload(dev: &Guid, relid: u32, conn: u32) -> Vec<u8> {
    let mut p = vec![0u8; 196];
    p[0..4].copy_from_slice(&1u32.to_le_bytes());
    p[8..24].copy_from_slice(&dev.bytes);
    p[24..40].copy_from_slice(&[0x11; 16]);
    p[184..188].copy_from_slice(&relid.to_le_bytes());
    p[188] = 3;
    p[189] = 1;
    p[190..192].copy_from_slice(&1u16.to_le_bytes());
    p[192..196].copy_from_slice(&conn.to_le_bytes());
    p
}

#[test]
fn names_of_well_known_devices() {
    assert_eq!(device_name(&guid_netvsc()), "netvsc");
    assert_eq!(device_name(&guid_synthvid()), "synthvid");
    assert_eq!(device_name(&guid_heartbeat()), "heartbeat");
    assert_eq!(device_name(&Guid::from_bytes([0; 16])), "unknown");
}

#[test]
fn initiate_contact_layout() {
    assert_eq!(target_info_for_version(VERSION_WIN10), 0x100);
    assert_eq!(target_info_for_version(0x0002_0004), 0);
    let m = initiate_contact_msg(VERSION_WIN10, 0x1000, 0x2000);
    assert_eq!(m.len(), 40);
    assert_eq!(le32(&m, 0), 14);
    assert_eq!(le32(&m, 8), VERSION_WIN10);
    assert_eq!(&m[16..24], &0x100u64.to_le_bytes());
    assert_eq!(&m[24..32], &0x1000u64.to_le_bytes());
    assert_eq!(&m[32..40], &0x2000u64.to_le_bytes());
    assert_eq!(request_offers_msg(), vec![3, 0, 0, 0, 0, 0, 0, 0]);
}

#[test]
fn version_negotiation_falls_back_then_fails() {
    assert_eq!(connect_version(0), VERSION_WIN10);
    assert_eq!(connect_version(1), VERSION_WIN8_1);
    assert_eq!(connect_step(0, Ok(())), ConnectStep::Accepted(VERSION_WIN10));
    assert_eq!(connect_step(0, Err(HvError::VersionRejected)), ConnectStep::TryNext(1));
    assert_eq!(connect_step(1, Err(HvError::VersionRejected)), ConnectStep::Fail(HvError::VersionRejected));
    assert_eq!(connect_step(0, Err(HvError::Timeout)), ConnectStep::Fail(HvError::Timeout));
}

#[test]
fn version_response_matching() {
    let mut p = vec![0u8; 12];
    p[0..4].copy_from_slice(&15u32.to_le_bytes());
    p[8] = 1;
    assert_eq!(match_version_response(&p), Some(Ok(())));
    p[8] = 0;
    assert_eq!(match_version_response(&p), Some(Err(HvError::VersionRejected)));
    p[0] = 16;
    assert_eq!(match_version_response(&p), None);
    assert_eq!(match_version_response(&p[..8]), None);
}

#[test]
fn offers_are_collected_until_all_delivered() {
    let p = offer_payload(&guid_netvsc(), 14, 0x2001);
    let o = parse_offer(&p).unwrap();
    assert_eq!(o.child_relid, 14);
    assert_eq!(o.connection_id, 0x2001);
    assert_eq!(o.monitor_id, 3);
    assert!(o.monitor_allocated);
    assert!(o.is_dedicated_interrupt);
    assert!(o.device_type.same_as(&guid_netvsc()));
    assert!(parse_offer(&p[..195]).is_none());

    let mut offers = Vec::new();
    assert!(!collect_offer(&mut offers, &p));
    assert!(!collect_offer(&mut offers, &offer_payload(&guid_synthvid(), 15, 0x2002)));
    assert!(!collect_offer(&mut offers, &[9, 0, 0, 0]));
    assert!(collect_offer(&mut offers, &[4, 0, 0, 0, 0, 0, 0, 0]));
    assert_eq!(offers.len(), 2);
    assert_eq!(offers[1].child_relid, 15);
    assert_eq!(finish_offers(Ok(()), offers).unwrap().len(), 2);
    assert_eq!(finish_offers(Err(HvError::Timeout), Vec::new()).err(), Some(HvError::Timeout));
}

#[test]
fn gpadl_handles_count_up() {
    let mut next = 1u32;
    assert_eq!(alloc_gpadl_handle(&mut next), 1);
    assert_eq!(alloc_gpadl_handle(&mut next), 2);
    assert_eq!(next, 3);
}

#[test]
fn gpadl_handles_of_a_boot_are_distinct_and_increasing() {
    let mut next = FIRST_GPADL_HANDLE;
    let handles: Vec<u32> = (0..5).map(|_| alloc_gpadl_handle(&mut next)).collect();
    assert_eq!(handles, vec![1, 2, 3, 4, 5]);
    assert!(handles.windows(2).all(|w| w[0] < w[1]));
}

#[test]
fn pfn_list_is_page_numbers() {
    let r = DmaRegion { vaddr: 0, paddr: 0x20_0000, size: 3 * 4096 };
    assert_eq!(build_pfn_list(&r, 3), vec![0x200, 0x201, 0x202]);
}

#[test]
fn gpadl_splits_into_header_and_bodies() {
    let pfns: Vec<u64> = (0..64u64).map(|i| 0x1000 + i).collect();
    let msgs = gpadl_messages(7, 0xE1E10, 64 * 4096, &pfns);
    // 26 PFNs in the header, then bodies of up to 28: 28 + 10.
    assert_eq!(msgs.len(), 3);
    let h = &msgs[0];
    assert_eq!(le32(h, 0), 8);
    assert_eq!(le32(h, 8), 7);
    assert_eq!(le32(h, 12), 0xE1E10);
    assert_eq!(&h[16..18], &((8 + 64 * 8) as u16).to_le_bytes());
    assert_eq!(&h[18..20], &1u16.to_le_bytes());
    assert_eq!(le32(h, 20), 64 * 4096);
    assert_eq!(h.len(), 28 + 26 * 8);
    assert_eq!(&h[28..36], &0x1000u64.to_le_bytes());
    let b1 = &msgs[1];
    assert_eq!((le32(b1, 0), le32(b1, 8), le32(b1, 12)), (9, 0, 0xE1E10));
    assert_eq!(b1.len(), 16 + 28 * 8);
    assert_eq!(&b1[16..24], &(0x1000u64 + 26).to_le_bytes());
    assert_eq!(msgs[2].len(), 16 + 10 * 8);
    assert_eq!(le32(&msgs[2], 8), 1);
}

#[test]
fn small_gpadl_fits_in_header() {
    let pfns = vec![5u64, 6, 7];
    let msgs = gpadl_messages(1, 2, 3 * 4096, &pfns);
    assert_eq!(msgs.len(), 1);
    assert_eq!(msgs[0].len(), 28 + 3 * 8);
}

#[test]
fn channel_results() {
    let mut p = vec![0u8; 20];
    p[0..4].copy_from_slice(&10u32.to_le_bytes());
    p[16..20].copy_from_slice(&0u32.to_le_bytes());
    assert_eq!(match_gpadl_created(&p), Some(0));
    assert_eq!(match_open_channel_result(&p), None);
    p[0..4].copy_from_slice(&6u32.to_le_bytes());
    p[16..20].copy_from_slice(&0xC000_0001u32.to_le_bytes());
    assert_eq!(match_open_channel_result(&p), Some(0xC000_0001));
    assert_eq!(channel_status_result(0), Ok(()));
    assert_eq!(channel_status_result(0xC000_0001), Err(HvError::HypercallFailed(0x0001)));
}

#[test]
fn open_channel_message_layout() {
    let m = open_channel_msg(14, 0xE1E10, 16);
    assert_eq!(m.len(), 148);
    assert_eq!((le32(&m, 0), le32(&m, 8), le32(&m, 12), le32(&m, 16)), (5, 14, 14, 0xE1E10));
    assert_eq!(le32(&m, 24), 16);
    assert_eq!(m[28], 1);
    assert!(m[29..].iter().all(|&b| b == 0));
}

#[test]
fn open_channel_plan_splits_ring() {
    let region = DmaRegion { vaddr: 0x10_0000, paddr: 0x80_0000, size: 16 * 4096 };
    let plan = open_channel(14, 0x2001, &region, 16 * 4096, 0xE1E10);
    assert_eq!(plan.pfns.len(), 16);
    assert_eq!(plan.gpadl_messages.len(), 1);
    assert_eq!(plan.channel.send.base, 0x10_0000);
    assert_eq!(plan.channel.recv.base, 0x10_0000 + 8 * 4096);
    assert_eq!(plan.channel.send.data_size, 8 * 4096 - 4096);
    assert_eq!(le32(&plan.open_message, 24), 8);
    assert_eq!(plan.channel.gpadl_handle(), 0xE1E10);

    // The channel's rings carry packets both ways.
    let ch = &plan.channel;
    let mut send = vec![0u8; ch.send.data_size];
    let mut idx = RingIndices { write_index: 0, read_index: 0 };
    assert!(ch.send(&mut send, &mut idx, &[1, 2, 3], 5).is_ok());
    let mut buf = [0u8; 16];
    // Read the send ring back as if it were the peer's receive ring.
    let peer = embclox::ring::RingHalf::new(0, ch.send.data_size + 4096);
    let mut pidx = RingIndices { write_index: idx.write_index, read_index: 0 };
    let got = peer.recv_packet(&send, &mut pidx, &mut buf).unwrap().unwrap();
    assert_eq!(got.0.flags, 1);
    assert_eq!(&buf[..3], &[1, 2, 3]);
}

#[test]
fn find_offer_picks_first_of_type() {
    let mut offers = Vec::new();
    assert!(!collect_offer(&mut offers, &offer_payload(&guid_heartbeat(), 1, 11)));
    assert!(!collect_offer(&mut offers, &offer_payload(&guid_netvsc(), 2, 12)));
    assert!(!collect_offer(&mut offers, &offer_payload(&guid_netvsc(), 3, 13)));
    let o = find_offer(&offers, &guid_netvsc()).unwrap();
    assert_eq!((o.child_relid, o.connection_id), (2, 12));
    assert!(find_offer(&offers, &guid_synthvid()).is_none());
    assert!(find_offer(&[], &guid_netvsc()).is_none());
}

#[test]
fn gpadl_handles_wrap_without_repeating_early() {
    let mut next = u32::MAX;
    assert_eq!(alloc_gpadl_handle(&mut next), u32::MAX);
    assert_eq!(alloc_gpadl_handle(&mut next), 0);
    assert_eq!(alloc_gpadl_handle(&mut next), 1);
}
