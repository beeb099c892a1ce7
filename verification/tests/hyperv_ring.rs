use embclox::ring::{RingError, RingHalf, RingIndices, VmPacketDescriptor, VM_PKT_COMP, VM_PKT_DATA_INBAND};
use embclox::wire::align8;

fn ring(data_size: usize) -> (RingHalf, Vec<u8>, RingIndices) {
    let r = RingHalf::new(0x1000_0000, data_size + 4096);
    (r, vec![0u8; data_size], RingIndices { write_index: 0, read_index: 0 })
}

#[test]
fn align8_rounds_up() {
    assert_eq!(align8(0), 0);
    assert_eq!(align8(1), 8);
    assert_eq!(align8(8), 8);
    assert_eq!(align8(21), 24);
}

#[test]
fn ring_half_geometry() {
    let r = RingHalf::new(0x2000_0000, 128 * 1024);
    assert_eq!(r.data_size, 128 * 1024 - 4096);
    assert_eq!(r.data_ptr(), 0x2000_0000 + 4096);
}

#[test]
fn descriptor_roundtrip() {
    let d = VmPacketDescriptor { packet_type: 6, offset8: 2, len8: 3, flags: 1, transaction_id: 0x1122_3344_5566_7788 };
    let b = d.to_bytes();
    assert_eq!(b.len(), 16);
    assert_eq!(&b[0..2], &[6, 0]);
    assert_eq!(&b[8..16], &[0x88, 0x77, 0x66, 0x55, 0x44, 0x33, 0x22, 0x11]);
    let e = VmPacketDescriptor::from_bytes(&b);
    assert_eq!(
        (e.packet_type, e.offset8, e.len8, e.flags, e.transaction_id),
        (d.packet_type, d.offset8, d.len8, d.flags, d.transaction_id)
    );
}

#[test]
fn send_then_receive_returns_payload() {
    let (r, mut data, mut idx) = ring(4096);
    let payload = [1u8, 2, 3, 4, 5];
    assert!(r.send_packet(&mut data, &mut idx, &payload, 7, 1).is_ok());
    // 16-byte descriptor + 5 bytes rounded up to 24, plus 8 trailing bytes.
    assert_eq!(idx.write_index, 32);
    let mut buf = [0u8; 64];
    let got = r.recv_packet(&data, &mut idx, &mut buf).unwrap().unwrap();
    // The payload comes back with its padding to 8 bytes.
    assert_eq!(got.1, 8);
    assert_eq!(&buf[..5], &payload);
    assert_eq!(&buf[5..8], &[0, 0, 0]);
    assert_eq!(got.0.packet_type, VM_PKT_DATA_INBAND);
    assert_eq!(got.0.offset8, 2);
    assert_eq!(got.0.len8, 3);
    assert_eq!(got.0.flags, 1);
    assert_eq!(got.0.transaction_id, 7);
    assert_eq!(idx.read_index, 32);
    assert!(r.recv_packet(&data, &mut idx, &mut buf).unwrap().is_none());
}

#[test]
fn receive_from_empty_ring_is_none() {
    let (r, data, mut idx) = ring(4096);
    let mut buf = [0u8; 16];
    assert!(r.recv_packet(&data, &mut idx, &mut buf).unwrap().is_none());
}

#[test]
fn send_wraps_around_the_end() {
    let (r, mut data, _) = ring(4096);
    let mut idx = RingIndices { write_index: 4080, read_index: 4080 };
    let payload = [9u8; 20];
    assert!(r.send_packet(&mut data, &mut idx, &payload, 3, 0).is_ok());
    assert_eq!(idx.write_index, (4080 + 48) % 4096);
    let mut buf = [0u8; 32];
    let got = r.recv_packet(&data, &mut idx, &mut buf).unwrap().unwrap();
    assert_eq!(got.1, 24);
    assert_eq!(&buf[..20], &payload);
    assert_eq!(idx.read_index, idx.write_index);
}

#[test]
fn full_ring_refuses() {
    let (r, mut data, mut idx) = ring(64);
    let payload = [0u8; 60];
    assert!(matches!(r.send_packet(&mut data, &mut idx, &payload, 1, 0), Err(RingError::Full)));
    assert_eq!(idx.write_index, 0);
}

#[test]
fn out_of_range_index_is_corrupt() {
    let (r, mut data, _) = ring(4096);
    let mut idx = RingIndices { write_index: 5000, read_index: 0 };
    assert!(matches!(r.send_packet(&mut data, &mut idx, &[1, 2], 1, 0), Err(RingError::Corrupt)));
    let mut buf = [0u8; 8];
    assert!(matches!(r.recv_packet(&data, &mut idx, &mut buf), Err(RingError::Corrupt)));
}

#[test]
fn completion_packet_has_type_11() {
    let (r, mut data, mut idx) = ring(4096);
    assert!(r.send_comp(&mut data, &mut idx, &[0xAA; 8], 42).is_ok());
    let mut raw = [0u8; 64];
    let got = r.recv_packet_raw(&data, &mut idx, &mut raw).unwrap().unwrap();
    assert_eq!(got.0.packet_type, VM_PKT_COMP);
    assert_eq!(got.0.transaction_id, 42);
    assert_eq!(got.1, 8);
    assert_eq!(&raw[..8], &[0xAA; 8]);
}

#[test]
fn page_buffer_packet_carries_range() {
    let (r, mut data, mut idx) = ring(4096);
    assert!(r.send_packet_with_page_buffer(&mut data, &mut idx, &[7u8; 4], 0x1234, 16, 100, 9, 1).is_ok());
    let mut raw = [0u8; 128];
    let got = r.recv_packet_raw(&data, &mut idx, &mut raw).unwrap().unwrap();
    assert_eq!(got.0.packet_type, 8);
    // 16-byte descriptor + 24-byte range header.
    assert_eq!(got.0.offset8, 5);
    // rangecount = 1 at offset 4 of the range header, then length and offset.
    assert_eq!(&raw[4..8], &[1, 0, 0, 0]);
    assert_eq!(&raw[8..12], &[100, 0, 0, 0]);
    assert_eq!(&raw[12..16], &[16, 0, 0, 0]);
    assert_eq!(&raw[16..24], &0x1234u64.to_le_bytes());
    assert_eq!(&raw[24..28], &[7u8; 4]);
}
