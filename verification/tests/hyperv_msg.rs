use embclox::nvsp_msg::{
    build_nvsp_init, build_nvsp_send_ndis_config, build_nvsp_send_ndis_version, build_nvsp_send_recv_buf,
    build_nvsp_send_rndis_pkt, build_nvsp_send_send_buf, build_rndis_halt, build_rndis_init, build_rndis_keepalive,
    build_rndis_query, build_rndis_set, nvsp_message_padded, parse_nvsp_response, parse_rndis_response, NvspResponse,
    RndisResponse,
};
use embclox::nvsp_types::{
    NdisOid, NdisPacketFilter, NvspMessageType, NvspStatus, NvspVersion, RndisMessageType, RndisStatus,
    VmbusPacketType, NDIS_PACKET_FILTER_STANDARD,
};

fn le32(b: &[u8], off: usize) -> u32 {
    u32::from_le_bytes([b[off], b[off + 1], b[off + 2], b[off + 3]])
}

#[test]
fn nvsp_init_layout() {
    let m = build_nvsp_init(NvspVersion::V61.as_u32());
    assert_eq!(m.len(), 32);
    assert_eq!(le32(&m, 0), 1);
    assert_eq!(le32(&m, 4), 0x60001);
    assert_eq!(le32(&m, 8), 0x60001);
    assert!(m[12..].iter().all(|&b| b == 0));
    let p = nvsp_message_padded(&m);
    assert_eq!(&p[..32], &m[..]);
    assert_eq!(&p[32..], &[0u8; 8]);
}

#[test]
fn nvsp_builders() {
    let v = build_nvsp_send_ndis_version(6, 30);
    assert_eq!((le32(&v, 0), le32(&v, 4), le32(&v, 8)), (100, 6, 30));
    let c = build_nvsp_send_ndis_config(1528, 1);
    assert_eq!((le32(&c, 0), le32(&c, 4), le32(&c, 8), le32(&c, 12)), (125, 1528, 0, 1));
    let r = build_nvsp_send_recv_buf(5, 0xCAFE);
    assert_eq!((le32(&r, 0), le32(&r, 4)), (101, 5));
    assert_eq!(&r[8..10], &[0xFE, 0xCA]);
    let s = build_nvsp_send_send_buf(6, 0);
    assert_eq!((le32(&s, 0), le32(&s, 4)), (104, 6));
    let p = build_nvsp_send_rndis_pkt(1, 0xFFFF_FFFF, 0);
    assert_eq!((le32(&p, 0), le32(&p, 4), le32(&p, 8), le32(&p, 12)), (107, 1, 0xFFFF_FFFF, 0));
}

#[test]
fn nvsp_init_complete_parses() {
    let mut b = vec![0u8; 16];
    b[0..4].copy_from_slice(&2u32.to_le_bytes());
    b[4..8].copy_from_slice(&0x60001u32.to_le_bytes());
    b[8..12].copy_from_slice(&0u32.to_le_bytes());
    b[12..16].copy_from_slice(&1u32.to_le_bytes());
    match parse_nvsp_response(&b) {
        Some(NvspResponse::InitComplete { negotiated_version, status, .. }) => {
            assert_eq!(negotiated_version, 0x60001);
            assert_eq!(status, 1);
        }
        _ => panic!("expected InitComplete"),
    }
    assert!(parse_nvsp_response(&b[..3]).is_none());
    assert!(parse_nvsp_response(&b[..12]).is_none());
}

#[test]
fn nvsp_send_buf_complete_parses() {
    let mut b = vec![0u8; 12];
    b[0..4].copy_from_slice(&105u32.to_le_bytes());
    b[4..8].copy_from_slice(&1u32.to_le_bytes());
    b[8..12].copy_from_slice(&6144u32.to_le_bytes());
    assert!(matches!(
        parse_nvsp_response(&b),
        Some(NvspResponse::SendBufComplete { status: 1, section_size: 6144 })
    ));
    let mut u = vec![0u8; 4];
    u[0..4].copy_from_slice(&999u32.to_le_bytes());
    assert!(matches!(parse_nvsp_response(&u), Some(NvspResponse::Unknown(999))));
}

#[test]
fn rndis_builders() {
    let i = build_rndis_init(1, 0x4000);
    assert_eq!(i.len(), 24);
    assert_eq!((le32(&i, 0), le32(&i, 4), le32(&i, 8)), (2, 24, 1));
    assert_eq!((le32(&i, 12), le32(&i, 16), le32(&i, 20)), (1, 0, 0x4000));
    let h = build_rndis_halt(9);
    assert_eq!((le32(&h, 0), le32(&h, 4), le32(&h, 8)), (3, 12, 9));
    let k = build_rndis_keepalive(4);
    assert_eq!((le32(&k, 0), le32(&k, 4), le32(&k, 8)), (8, 12, 4));
    let mut buf = [0u8; 64];
    let n = build_rndis_query(2, NdisOid(0x0101_0102), &[], &mut buf);
    assert_eq!(n, 28);
    assert_eq!((le32(&buf, 0), le32(&buf, 4), le32(&buf, 8), le32(&buf, 12)), (4, 28, 2, 0x0101_0102));
    assert_eq!((le32(&buf, 16), le32(&buf, 20), le32(&buf, 24)), (0, 20, 0));
    let n = build_rndis_set(3, NdisOid(0x0001_010E), &NDIS_PACKET_FILTER_STANDARD.to_le_bytes(), &mut buf);
    assert_eq!(n, 32);
    assert_eq!((le32(&buf, 0), le32(&buf, 4), le32(&buf, 16)), (5, 32, 4));
    assert_eq!(le32(&buf, 28), NDIS_PACKET_FILTER_STANDARD);
}

#[test]
fn rndis_query_complete_parses_info() {
    let mut b = vec![0u8; 30];
    b[0..4].copy_from_slice(&0x8000_0004u32.to_le_bytes());
    b[4..8].copy_from_slice(&30u32.to_le_bytes());
    b[8..12].copy_from_slice(&7u32.to_le_bytes());
    b[12..16].copy_from_slice(&0u32.to_le_bytes());
    b[16..20].copy_from_slice(&6u32.to_le_bytes());
    b[20..24].copy_from_slice(&16u32.to_le_bytes());
    b[24..30].copy_from_slice(&[0x00, 0x15, 0x5D, 0x01, 0x02, 0x03]);
    match parse_rndis_response(&b) {
        Some(RndisResponse::QueryComplete { req_id, status, info }) => {
            assert_eq!(req_id, 7);
            assert!(status.is_success());
            assert_eq!(info, vec![0x00, 0x15, 0x5D, 0x01, 0x02, 0x03]);
        }
        _ => panic!("expected QueryComplete"),
    }
}

#[test]
fn rndis_info_out_of_range_is_empty() {
    let mut b = vec![0u8; 24];
    b[0..4].copy_from_slice(&0x8000_0004u32.to_le_bytes());
    b[4..8].copy_from_slice(&24u32.to_le_bytes());
    b[16..20].copy_from_slice(&100u32.to_le_bytes());
    b[20..24].copy_from_slice(&16u32.to_le_bytes());
    match parse_rndis_response(&b) {
        Some(RndisResponse::QueryComplete { info, .. }) => assert!(info.is_empty()),
        _ => panic!("expected QueryComplete"),
    }
}

#[test]
fn rndis_short_or_unknown() {
    assert!(parse_rndis_response(&[1, 2, 3]).is_none());
    let mut b = vec![0u8; 8];
    b[0..4].copy_from_slice(&0x1234u32.to_le_bytes());
    b[4..8].copy_from_slice(&8u32.to_le_bytes());
    assert!(matches!(parse_rndis_response(&b), Some(RndisResponse::Unknown(0x1234))));
    // A set-complete body shorter than its structure does not parse.
    let mut s = vec![0u8; 12];
    s[0..4].copy_from_slice(&0x8000_0005u32.to_le_bytes());
    s[4..8].copy_from_slice(&12u32.to_le_bytes());
    assert!(parse_rndis_response(&s).is_none());
}

#[test]
fn type_conversions_roundtrip() {
    for v in [1u32, 2, 100, 101, 102, 104, 105, 107, 108, 125] {
        let t = NvspMessageType::from_u32(v).unwrap();
        assert_eq!(t.as_u32(), v);
    }
    assert!(NvspMessageType::from_u32(55).is_none());
    for v in [1u32, 2, 3, 4, 5, 6, 7, 8, 0x8000_0002, 0x8000_0004, 0x8000_0005, 0x8000_0008] {
        let t = RndisMessageType::from_u32(v).unwrap();
        assert_eq!(t.as_u32(), v);
        assert_eq!(t.is_completion(), v & 0x8000_0000 != 0);
    }
    assert!(NvspStatus::from_u32(1).unwrap().is_success());
    assert!(!NvspStatus::from_u32(2).unwrap().is_success());
    assert!(RndisStatus(0).is_success());
    assert!(RndisStatus(0xC000_0001).is_error());
    assert!(!RndisStatus(0x4001_000B).is_error());
    assert!(matches!(VmbusPacketType::from_u16(7), Some(VmbusPacketType::DataUsingXferPages)));
    assert!(VmbusPacketType::from_u16(3).is_none());
}

#[test]
fn negotiation_order_newest_first() {
    let order: Vec<u32> = NvspVersion::negotiate_order().iter().map(|v| v.as_u32()).collect();
    assert_eq!(order, vec![0x60001, 0x60000, 0x50000, 0x40000, 0x30002, 0x2]);
}

#[test]
fn packet_filter_bits() {
    let f = NdisPacketFilter(1).bitor(NdisPacketFilter(4));
    assert_eq!(f.0, 5);
    assert_eq!(f.bitand(NdisPacketFilter(4)).0, 4);
    assert_eq!(NDIS_PACKET_FILTER_STANDARD, 0x1 | 0x2 | 0x8);
}
