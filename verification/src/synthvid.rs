//! Synthvid (Hyper-V synthetic video) protocol.
//!
//! Negotiates the synthvid version, maps VRAM, sets resolution,
//! and triggers display updates via dirty rectangles.
//!
//! All structures are packed. Every message has: pipe_msg_hdr(8) +
//! synthvid_msg_hdr(8) + body. Messages are posted on the channel's send
//! ring; waiting for the host's answers is left to the caller, which
//! hands each answer to the decision functions here.
use vstd::prelude::*;
use vstd::bytes::*;
use crate::wire::{append_bytes, append_zeros, copy_into, push_u32_le, push_u64_le, read_u32_le, u32_at, zeros};
use crate::channel::{Channel, HvError};
use crate::dma::DmaRegion;
use crate::ring::{RingIndices, pending, frame_bytes, VM_PKT_DATA_INBAND};

verus! {

// Synthvid message types
pub const SYNTHVID_VERSION_REQUEST: u32 = 1;
pub const SYNTHVID_VERSION_RESPONSE: u32 = 2;
pub const SYNTHVID_VRAM_LOCATION: u32 = 3;
pub const SYNTHVID_VRAM_LOCATION_ACK: u32 = 4;
pub const SYNTHVID_SITUATION_UPDATE: u32 = 5;
pub const SYNTHVID_DIRT: u32 = 10;

// Pipe message type
pub const PIPE_MSG_DATA: u32 = 1;

// Synthvid versions: (minor << 16) | major — opposite of VMBus!
pub const SYNTHVID_VERSION_WIN10: u32 = 0x0005_0003;
pub const SYNTHVID_VERSION_WIN8: u32 = 0x0002_0003;

/// Bits per pixel of the framebuffer (BGRX).
pub const SYNTHVID_BPP: u32 = 32;

/// A synthvid message: pipe header (data, size of the rest), synthvid
/// header (type, size of header and body), body.
pub open spec fn synthvid_msg_bytes(vid_type: u32, body: Seq<u8>) -> Seq<u8> {
    let vid_size = (8 + body.len()) as u32;
    spec_u32_to_le_bytes(PIPE_MSG_DATA) + spec_u32_to_le_bytes(vid_size) + spec_u32_to_le_bytes(vid_type)
        + spec_u32_to_le_bytes(vid_size) + body
}

/// Build a synthvid message into `buf`: pipe_hdr(8) + vid_hdr(8) + body.
/// Returns the message length.
pub fn build_msg(vid_type: u32, body: &[u8], buf: &mut [u8]) -> (total: usize)
    requires
        16 + body@.len() <= old(buf)@.len(),
    ensures
        total == 16 + body@.len(),
        final(buf)@ == synthvid_msg_bytes(vid_type, body@) + old(buf)@.subrange(
            total as int,
            old(buf)@.len() as int,
        ),
{
    assert(buf@.len() == buf.len());
    let vid_hdr_size = 8 + body.len();
    let total = 8 + vid_hdr_size;
    let mut m: Vec<u8> = Vec::new();
    push_u32_le(&mut m, PIPE_MSG_DATA);
    push_u32_le(&mut m, #[verifier::truncate] (vid_hdr_size as u32));
    push_u32_le(&mut m, vid_type);
    push_u32_le(&mut m, #[verifier::truncate] (vid_hdr_size as u32));
    append_bytes(&mut m, body);
    proof {
        lemma_auto_spec_u32_to_from_le_bytes();
        assert(m@ =~= synthvid_msg_bytes(vid_type, body@));
    }
    copy_into(buf, m.as_slice());
    total
}

/// Message type of a received synthvid message: the synthvid header's
/// type word after the pipe header.
pub open spec fn vid_type_spec(buf: Seq<u8>) -> Option<u32> {
    if buf.len() < 16 {
        None
    } else {
        Some(u32_at(buf, 8))
    }
}

/// Parse a received synthvid message type from ring buffer payload.
/// Skips pipe_hdr(8), reads vid_hdr.type at offset 8.
pub fn parse_vid_type(buf: &[u8]) -> (t: Option<u32>)
    ensures
        t == vid_type_spec(buf@),
{
    if buf.len() < 16 {
        return None;
    }
    Some(read_u32_le(buf, 8))
}

/// Versions offered, newest first.
pub open spec fn synthvid_versions() -> Seq<u32> {
    seq![SYNTHVID_VERSION_WIN10, SYNTHVID_VERSION_WIN8]
}

/// Body of a VERSION_REQUEST: the version word.
pub open spec fn version_request_body(version: u32) -> Seq<u8> {
    spec_u32_to_le_bytes(version)
}

/// Body of a VRAM_LOCATION: user context 0, "GPA specified", the GPA.
pub open spec fn vram_location_body(vram_gpa: u64) -> Seq<u8> {
    zeros(8) + seq![1u8] + spec_u64_to_le_bytes(vram_gpa)
}

/// Body of a SITUATION_UPDATE for one active output at VRAM offset 0 with
/// 32-bit depth, the given size and a pitch of four bytes per pixel.
pub open spec fn situation_body(width: u32, height: u32) -> Seq<u8> {
    zeros(8) + seq![1u8, 1u8] + spec_u32_to_le_bytes(0) + seq![32u8] + spec_u32_to_le_bytes(width)
        + spec_u32_to_le_bytes(height) + spec_u32_to_le_bytes((width * 4) as u32)
}

/// The SITUATION_UPDATE body follows the packed wire layout: user context
/// 0 (bytes 0..8), one output (byte 8), active (byte 9), VRAM offset 0
/// (10..14), a depth equal to the framebuffer's bits per pixel (byte 14),
/// width (15..19), height (19..23), and a pitch of one row of such pixels
/// (23..27).
pub proof fn lemma_situation_layout(width: u32, height: u32)
    requires
        width * 4 <= u32::MAX,
    ensures
        ({
            let b = situation_body(width, height);
            &&& b.len() == 27
            &&& b.subrange(0, 8) == zeros(8)
            &&& b[8] == 1
            &&& b[9] == 1
            &&& b.subrange(10, 14) == spec_u32_to_le_bytes(0)
            &&& b[14] as u32 == SYNTHVID_BPP
            &&& b.subrange(15, 19) == spec_u32_to_le_bytes(width)
            &&& b.subrange(19, 23) == spec_u32_to_le_bytes(height)
            &&& b.subrange(23, 27) == spec_u32_to_le_bytes((width * (b[14] as u32 / 8)) as u32)
        }),
{
    lemma_auto_spec_u32_to_from_le_bytes();
    let b = situation_body(width, height);
    assert(b.subrange(0, 8) =~= zeros(8));
    assert(b.subrange(10, 14) =~= spec_u32_to_le_bytes(0));
    assert(b.subrange(15, 19) =~= spec_u32_to_le_bytes(width));
    assert(b.subrange(19, 23) =~= spec_u32_to_le_bytes(height));
    assert(b.subrange(23, 27) =~= spec_u32_to_le_bytes((width * 4) as u32));
}

/// Body of a DIRT message for the rectangle from (x1, y1) to (x2, y2) on output 0.
pub open spec fn dirt_body(x1: i32, y1: i32, x2: i32, y2: i32) -> Seq<u8> {
    seq![0u8, 1u8] + spec_u32_to_le_bytes(x1 as u32) + spec_u32_to_le_bytes(y1 as u32) + spec_u32_to_le_bytes(
        x2 as u32,
    ) + spec_u32_to_le_bytes(y2 as u32)
}

/// The VRAM_LOCATION body follows the packed wire layout: user context 0
/// (bytes 0..8), the "GPA specified" flag set (byte 8), and the VRAM's
/// guest physical address (9..17).
pub proof fn lemma_vram_location_layout(vram_gpa: u64)
    ensures
        ({
            let b = vram_location_body(vram_gpa);
            &&& b.len() == 17
            &&& b.subrange(0, 8) == zeros(8)
            &&& b[8] == 1
            &&& b.subrange(9, 17) == spec_u64_to_le_bytes(vram_gpa)
        }),
{
    lemma_auto_spec_u64_to_from_le_bytes();
    let b = vram_location_body(vram_gpa);
    assert(b.subrange(0, 8) =~= zeros(8));
    assert(b.subrange(9, 17) =~= spec_u64_to_le_bytes(vram_gpa));
}

/// The DIRT body follows the packed wire layout: output 0 (byte 0), one
/// rectangle (byte 1), then its left, top, right and bottom edges
/// (2..6, 6..10, 10..14, 14..18).
pub proof fn lemma_dirt_layout(x1: i32, y1: i32, x2: i32, y2: i32)
    ensures
        ({
            let b = dirt_body(x1, y1, x2, y2);
            &&& b.len() == 18
            &&& b[0] == 0
            &&& b[1] == 1
            &&& b.subrange(2, 6) == spec_u32_to_le_bytes(x1 as u32)
            &&& b.subrange(6, 10) == spec_u32_to_le_bytes(y1 as u32)
            &&& b.subrange(10, 14) == spec_u32_to_le_bytes(x2 as u32)
            &&& b.subrange(14, 18) == spec_u32_to_le_bytes(y2 as u32)
        }),
{
    lemma_auto_spec_u32_to_from_le_bytes();
    let b = dirt_body(x1, y1, x2, y2);
    assert(b.subrange(2, 6) =~= spec_u32_to_le_bytes(x1 as u32));
    assert(b.subrange(6, 10) =~= spec_u32_to_le_bytes(y1 as u32));
    assert(b.subrange(10, 14) =~= spec_u32_to_le_bytes(x2 as u32));
    assert(b.subrange(14, 18) =~= spec_u32_to_le_bytes(y2 as u32));
}

/// What to do after offering one synthvid version.
#[derive(Debug, Clone, Copy, PartialEq, Eq, Structural)]
pub enum VersionStep {
    Accepted,
    TryNext,
    Rejected,
}

/// The answer accepts the offered version: a VERSION_RESPONSE of at least
/// 22 bytes whose `is_accepted` byte (offset 20) is non-zero.
pub open spec fn version_accepted(resp: Seq<u8>) -> bool {
    resp.len() >= 22 && vid_type_spec(resp) == Some(SYNTHVID_VERSION_RESPONSE) && resp[20] != 0
}

/// Decides on the answer to the offer of `synthvid_versions()[attempt]`.
pub fn version_step(attempt: usize, resp: &[u8]) -> (s: VersionStep)
    requires
        attempt < 2,
    ensures
        version_accepted(resp@) ==> s == VersionStep::Accepted,
        !version_accepted(resp@) && attempt + 1 < 2 ==> s == VersionStep::TryNext,
        !version_accepted(resp@) && attempt + 1 >= 2 ==> s == VersionStep::Rejected,
{
    if resp.len() >= 22 {
        match parse_vid_type(resp) {
            Some(t) => {
                if t == SYNTHVID_VERSION_RESPONSE && resp[20] != 0 {
                    return VersionStep::Accepted;
                }
            },
            None => {},
        }
    }
    if attempt + 1 < 2 {
        VersionStep::TryNext
    } else {
        VersionStep::Rejected
    }
}

/// Outcome of the VRAM_LOCATION exchange.
pub open spec fn vram_location_spec(resp: Seq<u8>) -> Result<(), HvError> {
    if resp.len() >= 16 && vid_type_spec(resp) == Some(SYNTHVID_VRAM_LOCATION_ACK) {
        Ok(())
    } else {
        Err(HvError::Timeout)
    }
}

/// Checks the host's answer to VRAM_LOCATION.
pub fn vram_location_outcome(resp: &[u8]) -> (r: Result<(), HvError>)
    ensures
        r == vram_location_spec(resp@),
{
    if resp.len() >= 16 {
        match parse_vid_type(resp) {
            Some(t) => {
                if t == SYNTHVID_VRAM_LOCATION_ACK {
                    return Ok(());
                }
            },
            None => {},
        }
    }
    Err(HvError::Timeout)
}

/// Bytes of VRAM needed for a `width` × `height` display at 32 bpp,
/// rounded up to whole pages.
pub open spec fn vram_alloc_size_spec(width: u32, height: u32) -> int {
    let size = width * height * 4;
    ((size + 4095) / 4096) * 4096
}

/// Bytes of VRAM to allocate for the display.
pub fn vram_alloc_size(width: u32, height: u32) -> (n: usize)
    requires
        width * height * 4 <= u32::MAX,
        vram_alloc_size_spec(width, height) <= usize::MAX,
    ensures
        n == vram_alloc_size_spec(width, height),
{
    let size = width * height * (SYNTHVID_BPP / 8);
    let n: u64 = (size as u64 + 4095) / 4096 * 4096;
    n as usize
}

/// VRAM on the framebuffer the firmware already set up, when both its
/// physical and virtual addresses are known: `size` bytes at them.
pub fn existing_vram(fb_phys: Option<u64>, fb_vaddr: Option<usize>, size: usize) -> (r: Option<DmaRegion>)
    ensures
        match (fb_phys, fb_vaddr) {
            (Some(p), Some(v)) => r == Some(DmaRegion { vaddr: v, paddr: p as usize, size }),
            _ => r is None,
        },
{
    match (fb_phys, fb_vaddr) {
        (Some(p), Some(v)) => Some(DmaRegion { vaddr: v, paddr: p as usize, size }),
        _ => None,
    }
}

/// Synthvid display device over a VMBus channel.
pub struct SynthvidDevice {
    pub channel: Channel,
    pub vram: DmaRegion,
    pub width: u32,
    pub height: u32,
    pub bpp: u32,
    pub stride: u32,
    pub next_txid: u64,
}

impl SynthvidDevice {
    /// Device for a display of `width` × `height` at 32 bpp whose VRAM is
    /// `vram`; the stride equals the width and transaction ids start at 1.
    pub fn new(channel: Channel, width: u32, height: u32, vram: DmaRegion) -> (d: Self)
        ensures
            d.channel == channel,
            d.vram == vram,
            d.width == width,
            d.height == height,
            d.bpp == SYNTHVID_BPP,
            d.stride == width,
            d.next_txid == 1,
    {
        SynthvidDevice { channel, vram, width, height, bpp: SYNTHVID_BPP, stride: width, next_txid: 1 }
    }

    /// Virtual address of the VRAM framebuffer (BGRX 32bpp).
    pub fn framebuffer(&self) -> (a: usize)
        ensures
            a == self.vram.vaddr,
    {
        self.vram.vaddr
    }

    pub fn width(&self) -> (w: u32)
        ensures
            w == self.width,
    {
        self.width
    }

    pub fn height(&self) -> (h: u32)
        ensures
            h == self.height,
    {
        self.height
    }

    pub fn stride(&self) -> (s: u32)
        ensures
            s == self.stride,
    {
        self.stride
    }

    /// Physical address of the VRAM allocation.
    pub fn vram_paddr(&self) -> (p: usize)
        ensures
            p == self.vram.paddr,
    {
        self.vram.paddr
    }

    /// Posting `body` as a message of type `vid_type` with the next
    /// transaction id (no completion requested).
    pub open spec fn sent(
        &self,
        old_ring: Seq<u8>,
        old_idx: RingIndices,
        new_ring: Seq<u8>,
        new_idx: RingIndices,
        vid_type: u32,
        body: Seq<u8>,
        res: Result<(), HvError>,
    ) -> bool {
        let payload = synthvid_msg_bytes(vid_type, body);
        &&& new_ring.len() == old_ring.len()
        &&& if self.channel.send_accepts(old_ring, old_idx, 0, payload.len() as int) {
            &&& res is Ok
            &&& pending(new_ring, new_idx) == pending(old_ring, old_idx) + frame_bytes(
                VM_PKT_DATA_INBAND,
                0,
                self.next_txid,
                Seq::empty(),
                payload,
                old_idx,
            )
        } else {
            &&& res == Err::<(), HvError>(crate::channel::ring_failure())
            &&& new_ring == old_ring
            &&& new_idx == old_idx
        }
    }

    /// Posts a synthvid message with the next transaction id. After `Ok`
    /// the caller signals the host.
    fn send_msg(&mut self, vid_type: u32, body: &[u8], ring: &mut [u8], idx: &mut RingIndices) -> (res: Result<
        (),
        HvError,
    >)
        requires
            old(self).channel.wf(),
            old(ring)@.len() == old(self).channel.send.data_size,
            body@.len() <= 48,
            old(self).next_txid < u64::MAX,
        ensures
            old(self).sent(old(ring)@, *old(idx), final(ring)@, *final(idx), vid_type, body@, res),
            final(self).next_txid == old(self).next_txid + 1,
            final(self).channel == old(self).channel,
            final(self).vram == old(self).vram,
            final(self).width == old(self).width,
            final(self).height == old(self).height,
            final(self).stride == old(self).stride,
            final(self).bpp == old(self).bpp,
    {
        let mut msg: Vec<u8> = Vec::new();
        append_zeros(&mut msg, 64);
        proof {
            lemma_auto_spec_u32_to_from_le_bytes();
        }
        let len = build_msg(vid_type, body, msg.as_mut_slice());
        let m = crate::wire::sub_vec(msg.as_slice(), 0, len);
        assert(m@ =~= synthvid_msg_bytes(vid_type, body@));
        let txid = self.next_txid;
        self.next_txid = self.next_txid + 1;
        self.channel.send_raw(ring, idx, m.as_slice(), txid)
    }

    /// Offers `synthvid_versions()[attempt]`.
    pub fn send_version_request(&mut self, attempt: usize, ring: &mut [u8], idx: &mut RingIndices) -> (res: Result<
        (),
        HvError,
    >)
        requires
            attempt < 2,
            old(self).channel.wf(),
            old(ring)@.len() == old(self).channel.send.data_size,
            old(self).next_txid < u64::MAX,
        ensures
            old(self).sent(
                old(ring)@,
                *old(idx),
                final(ring)@,
                *final(idx),
                SYNTHVID_VERSION_REQUEST,
                version_request_body(synthvid_versions()[attempt as int]),
                res,
            ),
            final(self).next_txid == old(self).next_txid + 1,
            final(self).channel == old(self).channel,
            final(self).vram == old(self).vram,
            final(self).width == old(self).width,
            final(self).height == old(self).height,
            final(self).stride == old(self).stride,
    {
        let version = if attempt == 0 {
            SYNTHVID_VERSION_WIN10
        } else {
            SYNTHVID_VERSION_WIN8
        };
        let mut body: Vec<u8> = Vec::new();
        push_u32_le(&mut body, version);
        proof {
            lemma_auto_spec_u32_to_from_le_bytes();
        }
        self.send_msg(SYNTHVID_VERSION_REQUEST, body.as_slice(), ring, idx)
    }

    /// Tells the host where the VRAM lives.
    pub fn send_vram_location(&mut self, ring: &mut [u8], idx: &mut RingIndices) -> (res: Result<(), HvError>)
        requires
            old(self).channel.wf(),
            old(ring)@.len() == old(self).channel.send.data_size,
            old(self).next_txid < u64::MAX,
        ensures
            old(self).sent(
                old(ring)@,
                *old(idx),
                final(ring)@,
                *final(idx),
                SYNTHVID_VRAM_LOCATION,
                vram_location_body(old(self).vram.paddr as u64),
                res,
            ),
            final(self).next_txid == old(self).next_txid + 1,
            final(self).channel == old(self).channel,
            final(self).vram == old(self).vram,
            final(self).width == old(self).width,
            final(self).height == old(self).height,
            final(self).stride == old(self).stride,
    {
        let mut body: Vec<u8> = Vec::new();
        append_zeros(&mut body, 8);
        body.push(1u8);
        push_u64_le(&mut body, self.vram.paddr as u64);
        proof {
            lemma_auto_spec_u64_to_from_le_bytes();
            assert(body@ =~= vram_location_body(self.vram.paddr as u64));
        }
        self.send_msg(SYNTHVID_VRAM_LOCATION, body.as_slice(), ring, idx)
    }

    /// Sets the display mode: one active output of the device's size.
    pub fn set_situation(&mut self, ring: &mut [u8], idx: &mut RingIndices) -> (res: Result<(), HvError>)
        requires
            old(self).channel.wf(),
            old(ring)@.len() == old(self).channel.send.data_size,
            old(self).next_txid < u64::MAX,
            old(self).width * 4 <= u32::MAX,
        ensures
            old(self).sent(
                old(ring)@,
                *old(idx),
                final(ring)@,
                *final(idx),
                SYNTHVID_SITUATION_UPDATE,
                situation_body(old(self).width, old(self).height),
                res,
            ),
            final(self).next_txid == old(self).next_txid + 1,
            final(self).channel == old(self).channel,
            final(self).vram == old(self).vram,
            final(self).width == old(self).width,
            final(self).height == old(self).height,
            final(self).stride == old(self).stride,
    {
        let mut body: Vec<u8> = Vec::new();
        append_zeros(&mut body, 8);
        body.push(1u8);
        body.push(1u8);
        push_u32_le(&mut body, 0);
        body.push(32u8);
        push_u32_le(&mut body, self.width);
        push_u32_le(&mut body, self.height);
        push_u32_le(&mut body, self.width * 4);
        proof {
            lemma_auto_spec_u32_to_from_le_bytes();
            assert(body@ =~= situation_body(self.width, self.height));
        }
        self.send_msg(SYNTHVID_SITUATION_UPDATE, body.as_slice(), ring, idx)
    }

    /// Notify the host that the rectangle at (x, y) of size w × h has been
    /// updated.
    pub fn dirty_rect(&mut self, x: i32, y: i32, w: i32, h: i32, ring: &mut [u8], idx: &mut RingIndices) -> (res:
        Result<(), HvError>)
        requires
            old(self).channel.wf(),
            old(ring)@.len() == old(self).channel.send.data_size,
            old(self).next_txid < u64::MAX,
            i32::MIN <= x + w <= i32::MAX,
            i32::MIN <= y + h <= i32::MAX,
        ensures
            old(self).sent(
                old(ring)@,
                *old(idx),
                final(ring)@,
                *final(idx),
                SYNTHVID_DIRT,
                dirt_body(x, y, (x + w) as i32, (y + h) as i32),
                res,
            ),
            final(self).next_txid == old(self).next_txid + 1,
            final(self).channel == old(self).channel,
            final(self).vram == old(self).vram,
            final(self).width == old(self).width,
            final(self).height == old(self).height,
            final(self).stride == old(self).stride,
    {
        let mut body: Vec<u8> = Vec::new();
        body.push(0u8);
        body.push(1u8);
        push_u32_le(&mut body, x as u32);
        push_u32_le(&mut body, y as u32);
        push_u32_le(&mut body, (x + w) as u32);
        push_u32_le(&mut body, (y + h) as u32);
        proof {
            lemma_auto_spec_u32_to_from_le_bytes();
            assert(body@ =~= dirt_body(x, y, (x + w) as i32, (y + h) as i32));
        }
        self.send_msg(SYNTHVID_DIRT, body.as_slice(), ring, idx)
    }

    /// Send a full-screen dirty rectangle.
    pub fn dirt_full(&mut self, ring: &mut [u8], idx: &mut RingIndices) -> (res: Result<(), HvError>)
        requires
            old(self).channel.wf(),
            old(ring)@.len() == old(self).channel.send.data_size,
            old(self).next_txid < u64::MAX,
            old(self).width <= i32::MAX,
            old(self).height <= i32::MAX,
        ensures
            old(self).sent(
                old(ring)@,
                *old(idx),
                final(ring)@,
                *final(idx),
                SYNTHVID_DIRT,
                dirt_body(0, 0, old(self).width as i32, old(self).height as i32),
                res,
            ),
            final(self).next_txid == old(self).next_txid + 1,
            final(self).width == old(self).width,
            final(self).height == old(self).height,
    {
        let w = self.width as i32;
        let h = self.height as i32;
        self.dirty_rect(0, 0, w, h, ring, idx)
    }

    /// Byte offset of pixel (x, y) in the framebuffer, or `None` when it
    /// lies outside the display.
    pub open spec fn pixel_offset_spec(&self, x: u32, y: u32) -> Option<int> {
        if x >= self.width || y >= self.height {
            None
        } else {
            Some((y * self.stride + x) * 4)
        }
    }

    /// Write a pixel at (x, y) in BGRX format into the framebuffer `fb`;
    /// pixels outside the display are ignored.
    pub fn put_pixel(&self, fb: &mut [u8], x: u32, y: u32, r: u8, g: u8, b: u8)
        requires
            (self.height as int) * (self.stride as int) * 4 <= old(fb)@.len(),
            self.width <= self.stride,
            old(fb)@.len() <= usize::MAX,
        ensures
            final(fb)@.len() == old(fb)@.len(),
            self.pixel_offset_spec(x, y) is None ==> final(fb)@ == old(fb)@,
            self.pixel_offset_spec(x, y) matches Some(o) ==> final(fb)@ == old(fb)@.update(o, b).update(
                o + 1,
                g,
            ).update(o + 2, r).update(o + 3, 0u8),
    {
        if x >= self.width || y >= self.height {
            return;
        }
        proof {
            assert((y as int) * (self.stride as int) + (x as int) < (self.height as int) * (self.stride as int))
                by (nonlinear_arith)
                requires
                    y < self.height,
                    x < self.width,
                    self.width <= self.stride,
            ;
        }
        let offset = ((y as usize) * (self.stride as usize) + (x as usize)) * 4;
        fb[offset] = b;
        fb[offset + 1] = g;
        fb[offset + 2] = r;
        fb[offset + 3] = 0;
    }
}

} // verus!
