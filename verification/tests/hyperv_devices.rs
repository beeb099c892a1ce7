use embclox::channel::{Channel, HvError};
use embclox::dma::DmaRegion;
use embclox::hypercall::{HypercallPage, HV_HYPERCALL_FAST, HV_SIGNAL_EVENT};
use embclox::memory::MmioMapping;
use embclox::ring::{RingHalf, RingIndices};
use embclox::synic::{MsrWrite, SynIC};
use embclox::synthvid::{
    build_msg, existing_vram, parse_vid_type, version_step, vram_alloc_size, vram_location_outcome, SynthvidDevice, VersionStep,
};

fn region(vaddr: usize, paddr: usize, size: usize) -> DmaRegion {
    DmaRegion { vaddr, paddr, size }
}

fn channel() -> Channel {
    Channel {
        child_relid: 4,
        connection_id: 5,
        gpadl_handle: 6,
        send: RingHalf::new(0x1000_0000, 8192),
        recv: RingHalf::new(0x2000_0000, 8192),
    }
}

#[test]
fn synthvid_message_layout() {
    let mut buf = [0xFFu8; 24];
    assert_eq!(build_msg(3, &[1, 2, 3, 4], &mut buf), 20);
    assert_eq!(&buf[0..4], &[1, 0, 0, 0]);
    assert_eq!(&buf[4..8], &[12, 0, 0, 0]);
    assert_eq!(&buf[8..12], &[3, 0, 0, 0]);
    assert_eq!(&buf[12..16], &[12, 0, 0, 0]);
    assert_eq!(&buf[16..20], &[1, 2, 3, 4]);
    assert_eq!(&buf[20..24], &[0xFF; 4]);
    assert_eq!(parse_vid_type(&buf), Some(3));
    assert_eq!(parse_vid_type(&buf[..15]), None);
}

fn version_response(accepted: u8) -> Vec<u8> {
    let mut r = vec![0u8; 24];
    r[8] = 2;
    r[20] = accepted;
    r
}

#[test]
fn synthvid_version_negotiation() {
    assert_eq!(version_step(0, &version_response(1)), VersionStep::Accepted);
    assert_eq!(version_step(0, &version_response(0)), VersionStep::TryNext);
    assert_eq!(version_step(1, &version_response(0)), VersionStep::Rejected);
    assert_eq!(version_step(1, &version_response(1)[..21]), VersionStep::Rejected);
}

#[test]
fn synthvid_vram_ack() {
    let mut ack = vec![0u8; 16];
    ack[8] = 4;
    assert_eq!(vram_location_outcome(&ack), Ok(()));
    ack[8] = 2;
    assert_eq!(vram_location_outcome(&ack), Err(HvError::Timeout));
    assert_eq!(vram_location_outcome(&[4u8; 8]), Err(HvError::Timeout));
}

#[test]
fn synthvid_vram_size_rounds_to_pages() {
    assert_eq!(vram_alloc_size(1024, 768), 1024 * 768 * 4);
    assert_eq!(vram_alloc_size(10, 10), 4096);
    assert_eq!(vram_alloc_size(1025, 1), 8192);
}

#[test]
fn synthvid_messages_go_out_on_the_ring() {
    let mut dev = SynthvidDevice::new(channel(), 1024, 768, region(0x5000_0000, 0x8000_0000, 4 << 20));
    assert_eq!(dev.framebuffer(), 0x5000_0000);
    assert_eq!(dev.vram_paddr(), 0x8000_0000);
    assert_eq!((dev.width(), dev.height(), dev.stride()), (1024, 768, 1024));
    let mut ring = vec![0u8; 4096];
    let mut idx = RingIndices { write_index: 0, read_index: 0 };
    assert_eq!(dev.send_version_request(0, &mut ring, &mut idx), Ok(()));
    assert_eq!(dev.send_vram_location(&mut ring, &mut idx), Ok(()));
    assert_eq!(dev.set_situation(&mut ring, &mut idx), Ok(()));
    assert_eq!(dev.dirt_full(&mut ring, &mut idx), Ok(()));
    assert_eq!(dev.next_txid, 5);
    let mut read = RingIndices { write_index: idx.write_index, read_index: 0 };
    let mut buf = [0u8; 64];
    let (d, _) = dev.channel.send.recv_packet(&ring, &mut read, &mut buf).unwrap().unwrap();
    assert_eq!((d.packet_type, d.flags, d.transaction_id), (6, 0, 1));
    assert_eq!(&buf[8..12], &[1, 0, 0, 0]);
    assert_eq!(&buf[16..20], &0x0005_0003u32.to_le_bytes());
    let (d, _) = dev.channel.send.recv_packet(&ring, &mut read, &mut buf).unwrap().unwrap();
    assert_eq!(d.transaction_id, 2);
    assert_eq!(&buf[8..12], &[3, 0, 0, 0]);
    assert_eq!(buf[24], 1);
    assert_eq!(&buf[25..33], &0x8000_0000u64.to_le_bytes());
    let (_, _) = dev.channel.send.recv_packet(&ring, &mut read, &mut buf).unwrap().unwrap();
    assert_eq!(&buf[8..12], &[5, 0, 0, 0]);
    assert_eq!(&buf[31..35], &1024u32.to_le_bytes());
    assert_eq!(&buf[35..39], &768u32.to_le_bytes());
    assert_eq!(&buf[39..43], &4096u32.to_le_bytes());
    let (_, _) = dev.channel.send.recv_packet(&ring, &mut read, &mut buf).unwrap().unwrap();
    assert_eq!(&buf[8..12], &[10, 0, 0, 0]);
    assert_eq!(&buf[16..18], &[0, 1]);
    assert_eq!(&buf[26..30], &1024u32.to_le_bytes());
    assert_eq!(&buf[30..34], &768u32.to_le_bytes());
}

#[test]
fn synthvid_dirty_rect_corners() {
    let mut dev = SynthvidDevice::new(channel(), 640, 480, region(0, 0, 640 * 480 * 4));
    let mut ring = vec![0u8; 4096];
    let mut idx = RingIndices { write_index: 0, read_index: 0 };
    assert_eq!(dev.dirty_rect(10, 20, 30, 40, &mut ring, &mut idx), Ok(()));
    let mut read = RingIndices { write_index: idx.write_index, read_index: 0 };
    let mut buf = [0u8; 64];
    dev.channel.send.recv_packet(&ring, &mut read, &mut buf).unwrap().unwrap();
    assert_eq!(&buf[18..22], &10u32.to_le_bytes());
    assert_eq!(&buf[22..26], &20u32.to_le_bytes());
    assert_eq!(&buf[26..30], &40u32.to_le_bytes());
    assert_eq!(&buf[30..34], &60u32.to_le_bytes());
}

#[test]
fn synthvid_send_on_full_ring_fails() {
    let mut dev = SynthvidDevice::new(channel(), 640, 480, region(0, 0, 0));
    let mut ring = vec![0u8; 4096];
    let mut idx = RingIndices { write_index: 16, read_index: 40 };
    assert_eq!(dev.dirt_full(&mut ring, &mut idx), Err(HvError::HypercallFailed(0xFFFF)));
    assert_eq!(idx.write_index, 16);
}

#[test]
fn synthvid_put_pixel_bgrx() {
    let dev = SynthvidDevice::new(channel(), 4, 2, region(0, 0, 32));
    let mut fb = vec![0xAAu8; 32];
    dev.put_pixel(&mut fb, 1, 1, 0x11, 0x22, 0x33);
    assert_eq!(&fb[20..24], &[0x33, 0x22, 0x11, 0]);
    assert_eq!(fb.iter().filter(|b| **b != 0xAA).count(), 4);
    let before = fb.clone();
    dev.put_pixel(&mut fb, 4, 0, 1, 2, 3);
    dev.put_pixel(&mut fb, 0, 2, 1, 2, 3);
    assert_eq!(fb, before);
}

#[test]
fn synic_enable_program() {
    let s = SynIC::new(region(0x7000, 0x1_0000, 4096), region(0x8000, 0x2_0000, 4096));
    let p = s.enable_program(0x22);
    assert_eq!(
        p,
        vec![
            MsrWrite { msr: 0x4000_0080, value: 1 },
            MsrWrite { msr: 0x4000_0083, value: 0x1_0001 },
            MsrWrite { msr: 0x4000_0082, value: 0x2_0001 },
            MsrWrite { msr: 0x4000_0092, value: 0x2_0022 },
        ]
    );
    assert_eq!(s.message_slot(), 0x7000 + 512);
}

#[test]
fn synic_poll_and_ack() {
    let s = SynIC::new(region(0, 0, 4096), region(0, 0, 4096));
    let mut slot = vec![0u8; 256];
    assert_eq!(s.poll_message(&slot), None);
    slot[0] = 1;
    slot[4] = 4;
    slot[5] = 1;
    slot[16..20].copy_from_slice(&[9, 8, 7, 6]);
    assert_eq!(s.poll_message(&slot), Some(vec![9, 8, 7, 6]));
    assert!(s.ack_message(&mut slot));
    assert_eq!(&slot[0..4], &[0, 0, 0, 0]);
    assert_eq!(slot[4], 4);
    assert_eq!(s.poll_message(&slot), None);
    slot[0] = 1;
    slot[4] = 250;
    slot[5] = 0;
    assert_eq!(s.poll_message(&slot).map(|m| m.len()), Some(240));
    assert!(!s.ack_message(&mut slot));
}

fn hypercall() -> HypercallPage {
    let code = MmioMapping { vaddr: 0xFFFF_8000_0000_0000, size: 4096 };
    HypercallPage::new(region(0x9000, 0x3_0000, 4096), code, region(0xA000, 0x4_0000, 4096))
}

#[test]
fn hypercall_page_values() {
    let h = hypercall();
    assert_eq!(h.call_addr, 0xFFFF_8000_0000_0000);
    assert_eq!(h.enable_value(), 0x3_0001);
    assert_eq!(h.signal_event(7), (HV_SIGNAL_EVENT | HV_HYPERCALL_FAST, 7));
    assert_eq!(h.signal_event(7).0, 0x1_005D);
}

#[test]
fn hypercall_post_message_input() {
    let h = hypercall();
    let mut buf = vec![0xFFu8; 260];
    assert_eq!(h.post_message(&mut buf, 1, 2, &[5, 6, 7]), 0x4_0000);
    assert_eq!(&buf[0..16], &[1, 0, 0, 0, 0, 0, 0, 0, 2, 0, 0, 0, 3, 0, 0, 0]);
    assert_eq!(&buf[16..19], &[5, 6, 7]);
    assert!(buf[19..256].iter().all(|b| *b == 0));
    assert_eq!(&buf[256..], &[0xFF; 4]);
}

#[test]
fn hypercall_post_status_retries() {
    assert_eq!(HypercallPage::post_status(0, 0), Some(Ok(())));
    assert_eq!(HypercallPage::post_status(0, 0x13), None);
    assert_eq!(HypercallPage::post_status(8, 0x13), None);
    assert_eq!(HypercallPage::post_status(9, 0x13), Some(Err(HvError::HypercallRetryExhausted)));
    assert_eq!(HypercallPage::post_status(0, 0x5), Some(Err(HvError::HypercallFailed(5))));
    assert_eq!(HypercallPage::post_status(0, 0x1_0000), Some(Ok(())));
}

#[test]
fn synthvid_existing_framebuffer() {
    assert_eq!(existing_vram(Some(0xF800_0000), Some(0xFFFF_8000_F800_0000), 4096), Some(region(0xFFFF_8000_F800_0000, 0xF800_0000, 4096)));
    assert_eq!(existing_vram(Some(0xF800_0000), None, 4096), None);
    assert_eq!(existing_vram(None, Some(1), 4096), None);
}

#[test]
fn channel_page_buffer_send_carries_range_and_data() {
    let ch = channel();
    let mut ring = vec![0u8; 8192 - 4096];
    let mut idx = RingIndices { write_index: 0, read_index: 0 };
    assert_eq!(ch.send_with_page_buffer(&mut ring, &mut idx, &[5u8; 8], 0x4321, 0, 64, 17), Ok(()));
    let mut raw = [0u8; 64];
    let (desc, n) = ch.send.recv_packet_raw(&ring, &mut idx.clone(), &mut raw).unwrap().unwrap();
    assert_eq!(desc.packet_type, 8);
    assert_eq!(desc.transaction_id, 17);
    assert_eq!(desc.offset8, 5);
    assert_eq!(n, 32);
    assert_eq!(&raw[4..8], &[1, 0, 0, 0]);
    assert_eq!(&raw[8..12], &[64, 0, 0, 0]);
    assert_eq!(&raw[12..16], &[0, 0, 0, 0]);
    assert_eq!(&raw[16..24], &0x4321u64.to_le_bytes());
    assert_eq!(&raw[24..32], &[5u8; 8]);
    // A ring without room for the packet refuses it and stays as it was.
    let mut small = vec![0u8; 8192 - 4096];
    let mut full = RingIndices { write_index: 10, read_index: 40 };
    assert_eq!(
        ch.send_with_page_buffer(&mut small, &mut full, &[5u8; 8], 0x4321, 0, 64, 17),
        Err(HvError::HypercallFailed(0xFFFF))
    );
    assert_eq!(full.write_index, 10);
}
