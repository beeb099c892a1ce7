//! VMBus ring buffer operations.
//!
//! Each VMBus channel has two ring buffers (send + receive), each consisting
//! of a 4KB control page followed by a circular data buffer. Messages are
//! wrapped in `VmPacketDescriptor` headers and padded to 8-byte boundaries.
//!
//! The functions here operate on the circular data area handed in as a byte
//! slice and on the two ring indices of the control page, which the caller
//! reads before and publishes after each operation.
use vstd::prelude::*;
use vstd::bytes::*;
use crate::wire::{align8, align8_spec, lemma_align8, append_bytes, append_zeros, push_u16_le, push_u32_le, push_u64_le, read_u16_le, read_u64_le};

verus! {

/// VMBus packet descriptor (16 bytes on the wire).
#[derive(Clone, Copy, Debug)]
pub struct VmPacketDescriptor {
    pub packet_type: u16,
    /// Offset from packet start to payload, in 8-byte units.
    pub offset8: u16,
    /// Total packet length in 8-byte units.
    pub len8: u16,
    pub flags: u16,
    pub transaction_id: u64,
}

pub const VM_PKT_DATA_INBAND: u16 = 6;
pub const VM_PKT_DATA_USING_XFER_PAGES: u16 = 7;
pub const VM_PKT_DATA_USING_GPA_DIRECT: u16 = 8;
pub const VM_PKT_COMP: u16 = 11;
pub const VMBUS_DATA_PACKET_FLAG_COMPLETION_REQUESTED: u16 = 1;

/// Size of an encoded descriptor.
pub const DESCRIPTOR_SIZE: usize = 16;

/// Wire encoding of a descriptor.
pub open spec fn descriptor_bytes(d: VmPacketDescriptor) -> Seq<u8> {
    spec_u16_to_le_bytes(d.packet_type) + spec_u16_to_le_bytes(d.offset8) + spec_u16_to_le_bytes(
        d.len8,
    ) + spec_u16_to_le_bytes(d.flags) + spec_u64_to_le_bytes(d.transaction_id)
}

/// Decoding of the first 16 bytes of `s` as a descriptor.
pub open spec fn descriptor_from_bytes(s: Seq<u8>) -> VmPacketDescriptor {
    VmPacketDescriptor {
        packet_type: spec_u16_from_le_bytes(s.subrange(0, 2)),
        offset8: spec_u16_from_le_bytes(s.subrange(2, 4)),
        len8: spec_u16_from_le_bytes(s.subrange(4, 6)),
        flags: spec_u16_from_le_bytes(s.subrange(6, 8)),
        transaction_id: spec_u64_from_le_bytes(s.subrange(8, 16)),
    }
}

/// Decoding a descriptor's encoding gives the descriptor back.
pub proof fn lemma_descriptor_roundtrip(d: VmPacketDescriptor)
    ensures
        descriptor_bytes(d).len() == 16,
        descriptor_from_bytes(descriptor_bytes(d)) == d,
{
    lemma_auto_spec_u16_to_from_le_bytes();
    lemma_auto_spec_u64_to_from_le_bytes();
    let b = descriptor_bytes(d);
    assert(b.subrange(0, 2) =~= spec_u16_to_le_bytes(d.packet_type));
    assert(b.subrange(2, 4) =~= spec_u16_to_le_bytes(d.offset8));
    assert(b.subrange(4, 6) =~= spec_u16_to_le_bytes(d.len8));
    assert(b.subrange(6, 8) =~= spec_u16_to_le_bytes(d.flags));
    assert(b.subrange(8, 16) =~= spec_u64_to_le_bytes(d.transaction_id));
}

impl VmPacketDescriptor {
    /// Encodes the descriptor into its 16 wire bytes.
    pub fn to_bytes(&self) -> (out: Vec<u8>)
        ensures
            out@ == descriptor_bytes(*self),
            out@.len() == 16,
    {
        let mut v: Vec<u8> = Vec::new();
        push_u16_le(&mut v, self.packet_type);
        push_u16_le(&mut v, self.offset8);
        push_u16_le(&mut v, self.len8);
        push_u16_le(&mut v, self.flags);
        push_u64_le(&mut v, self.transaction_id);
        proof {
            lemma_descriptor_roundtrip(*self);
        }
        v
    }

    /// Decodes a descriptor from the first 16 bytes of `b`.
    pub fn from_bytes(b: &[u8]) -> (d: VmPacketDescriptor)
        requires
            b@.len() >= 16,
        ensures
            d == descriptor_from_bytes(b@),
    {
        VmPacketDescriptor {
            packet_type: read_u16_le(b, 0),
            offset8: read_u16_le(b, 2),
            len8: read_u16_le(b, 4),
            flags: read_u16_le(b, 6),
            transaction_id: read_u64_le(b, 8),
        }
    }
}

/// Error from ring buffer operations.
#[derive(Debug)]
pub enum RingError {
    /// Send ring is full.
    Full,
    /// Ring indices or packet header are invalid.
    Corrupt,
}

/// The write and read indices held in a ring's control page.
#[derive(Clone, Copy, Debug)]
pub struct RingIndices {
    pub write_index: u32,
    pub read_index: u32,
}

/// One half of a VMBus ring buffer (send or receive).
pub struct RingHalf {
    /// Virtual address of the ring (control page + data).
    pub base: usize,
    /// Size of the data area in bytes (total_size - 4096).
    pub data_size: usize,
}

// ── position arithmetic on the circular data area ─────────────────────

/// Position `x` (with `0 <= x < 2n`) folded into `0..n`.
pub open spec fn wrap(n: int, x: int) -> int {
    if x < n {
        x
    } else {
        x - n
    }
}

/// `len` bytes read circularly from `d` starting at `off`.
pub open spec fn ring_read(d: Seq<u8>, off: int, len: int) -> Seq<u8> {
    Seq::new(len as nat, |i: int| d[wrap(d.len() as int, off + i)])
}

/// `d` after writing `s` circularly starting at `off`.
pub open spec fn ring_write(d: Seq<u8>, off: int, s: Seq<u8>) -> Seq<u8> {
    Seq::new(
        d.len(),
        |j: int|
            {
                let k = if j >= off {
                    j - off
                } else {
                    j + d.len() - off
                };
                if k < s.len() {
                    s[k]
                } else {
                    d[j]
                }
            },
    )
}

/// Number of bytes between the read index and the write index.
pub open spec fn used_bytes(n: int, r: int, w: int) -> int {
    if w >= r {
        w - r
    } else {
        w + n - r
    }
}

/// Bytes that the writer has published and the reader has not consumed yet.
pub open spec fn pending(d: Seq<u8>, idx: RingIndices) -> Seq<u8> {
    ring_read(d, idx.read_index as int, used_bytes(d.len() as int, idx.read_index as int, idx.write_index as int))
}

/// Both indices lie inside the data area.
pub open spec fn indices_in_range(n: int, idx: RingIndices) -> bool {
    idx.write_index < n && idx.read_index < n
}

/// Bytes following the descriptor of a packet: the extra header bytes,
/// the user data and the zero padding up to an 8-byte boundary.
pub open spec fn padding(header: int, user_len: int) -> Seq<u8> {
    Seq::new((align8_spec(header + user_len) - header - user_len) as nat, |i: int| 0u8)
}

/// Descriptor of a packet with `extra_len` bytes between the descriptor and the user data.
pub open spec fn frame_descriptor(
    packet_type: u16,
    flags: u16,
    transaction_id: u64,
    extra_len: int,
    user_len: int,
) -> VmPacketDescriptor {
    let header = 16 + extra_len;
    VmPacketDescriptor {
        packet_type,
        offset8: (header / 8) as u16,
        len8: (align8_spec(header + user_len) / 8) as u16,
        flags,
        transaction_id,
    }
}

/// Trailing eight bytes of a packet: the previous write index and the read index.
pub open spec fn prev_indices(idx: RingIndices) -> u64 {
    ((idx.write_index as u64) << 32u64) | (idx.read_index as u64)
}

/// Complete bytes written for one packet.
pub open spec fn frame_bytes(
    packet_type: u16,
    flags: u16,
    transaction_id: u64,
    extra: Seq<u8>,
    user: Seq<u8>,
    idx: RingIndices,
) -> Seq<u8> {
    descriptor_bytes(frame_descriptor(packet_type, flags, transaction_id, extra.len() as int, user.len() as int))
        + extra + user + padding(16 + extra.len() as int, user.len() as int) + spec_u64_to_le_bytes(
        prev_indices(idx),
    )
}

/// Number of ring bytes consumed by one packet with the given lengths.
pub open spec fn frame_total(extra_len: int, user_len: int) -> int {
    align8_spec(16 + extra_len + user_len) + 8
}

impl RingHalf {
    /// The ring's data area is usable.
    pub open spec fn wf(&self) -> bool {
        &&& 16 <= self.data_size <= 0x7FFF_FFFF
    }

    /// Create a ring half. `base` is the vaddr of the region; first 4096 bytes
    /// are the control page, remainder is the circular data buffer.
    ///
    /// The caller then sets bit 0 of the control page's `feature_bits`
    /// word (offset 64) to enable flow control.
    pub fn new(base: usize, total_size: usize) -> (r: RingHalf)
        requires
            total_size > 4096,
            total_size % 4096 == 0,
            total_size - 4096 <= 0x7FFF_FFFF,
        ensures
            r.base == base,
            r.data_size == total_size - 4096,
            r.wf(),
    {
        RingHalf { base, data_size: total_size - 4096 }
    }

    /// Address of the data area.
    pub fn data_ptr(&self) -> (a: usize)
        requires
            self.base + 4096 <= usize::MAX,
        ensures
            a == self.base + 4096,
    {
        self.base + 4096
    }

    /// Copy `src` into the ring data buffer at `offset`, wrapping around.
    /// Returns the new offset after the copy.
    fn copy_to(&self, data: &mut [u8], offset: usize, src: &[u8]) -> (pos: usize)
        requires
            self.wf(),
            old(data)@.len() == self.data_size,
            offset < self.data_size,
            src@.len() <= self.data_size,
        ensures
            final(data)@ == ring_write(old(data)@, offset as int, src@),
            pos == wrap(self.data_size as int, offset + src@.len()),
    {
        let n = self.data_size;
        let ghost d0 = data@;
        let mut pos = offset;
        let mut i: usize = 0;
        while i < src.len()
            invariant
                n == self.data_size,
                n == data@.len(),
                d0.len() == n,
                offset < n,
                src@.len() <= n,
                i <= src@.len(),
                pos == wrap(n as int, offset + i),
                pos < n,
                data@ == ring_write(d0, offset as int, src@.subrange(0, i as int)),
            decreases src@.len() - i,
        {
            let ghost before = data@;
            data[pos] = src[i];
            proof {
                assert(data@ =~= ring_write(d0, offset as int, src@.subrange(0, i + 1)));
            }
            pos = if pos + 1 == n {
                0
            } else {
                pos + 1
            };
            i = i + 1;
        }
        assert(src@.subrange(0, src@.len() as int) =~= src@);
        pos
    }

    /// Copy `len` bytes from the ring data buffer at `offset` into the start of `dst`,
    /// wrapping around. Returns the new offset after the copy.
    fn copy_from(&self, data: &[u8], offset: usize, dst: &mut [u8], len: usize) -> (pos: usize)
        requires
            self.wf(),
            data@.len() == self.data_size,
            offset < self.data_size,
            len <= self.data_size,
            len <= old(dst)@.len(),
        ensures
            final(dst)@.len() == old(dst)@.len(),
            final(dst)@.subrange(0, len as int) == ring_read(data@, offset as int, len as int),
            final(dst)@.subrange(len as int, old(dst)@.len() as int) == old(dst)@.subrange(
                len as int,
                old(dst)@.len() as int,
            ),
            pos == wrap(self.data_size as int, offset + len),
    {
        let n = self.data_size;
        let ghost d0 = dst@;
        let mut pos = offset;
        let mut i: usize = 0;
        while i < len
            invariant
                n == self.data_size,
                n == data@.len(),
                offset < n,
                len <= n,
                len <= d0.len(),
                dst@.len() == d0.len(),
                i <= len,
                pos == wrap(n as int, offset + i),
                pos < n,
                forall|k: int| 0 <= k < i ==> dst@[k] == data@[wrap(n as int, offset + k)],
                forall|k: int| i <= k < d0.len() ==> dst@[k] == d0[k],
            decreases len - i,
        {
            dst[i] = data[pos];
            pos = if pos + 1 == n {
                0
            } else {
                pos + 1
            };
            i = i + 1;
        }
        assert(dst@.subrange(0, len as int) =~= ring_read(data@, offset as int, len as int));
        assert(dst@.subrange(len as int, d0.len() as int) =~= d0.subrange(len as int, d0.len() as int));
        pos
    }
}


// ── ring-level lemmas ─────────────────────────────────────────────────

/// Writing a frame at the write index appends it to the pending bytes.
pub proof fn lemma_write_appends(d: Seq<u8>, idx: RingIndices, f: Seq<u8>)
    requires
        16 <= d.len() <= u32::MAX,
        indices_in_range(d.len() as int, idx),
        f.len() < d.len() - used_bytes(d.len() as int, idx.read_index as int, idx.write_index as int),
    ensures
        ({
            let n = d.len() as int;
            let new_idx = RingIndices {
                write_index: wrap(n, idx.write_index + f.len()) as u32,
                read_index: idx.read_index,
            };
            &&& used_bytes(n, idx.read_index as int, new_idx.write_index as int) == used_bytes(
                n,
                idx.read_index as int,
                idx.write_index as int,
            ) + f.len()
            &&& pending(ring_write(d, idx.write_index as int, f), new_idx) == pending(d, idx) + f
        }),
{
    let n = d.len() as int;
    let r = idx.read_index as int;
    let w = idx.write_index as int;
    let used = used_bytes(n, r, w);
    let new_idx = RingIndices { write_index: wrap(n, w + f.len()) as u32, read_index: idx.read_index };
    let nd = ring_write(d, w, f);
    assert(used_bytes(n, r, new_idx.write_index as int) == used + f.len());
    let lhs = pending(nd, new_idx);
    let rhs = pending(d, idx) + f;
    assert forall|i: int| 0 <= i < lhs.len() implies lhs[i] == rhs[i] by {
        let p = wrap(n, r + i);
        if i < used {
            assert(rhs[i] == pending(d, idx)[i]);
        } else {
            assert(rhs[i] == f[i - used]);
        }
    }
    assert(lhs =~= rhs);
}

/// Advancing the read index by `t` consumed bytes drops them from the pending bytes.
pub proof fn lemma_consume(d: Seq<u8>, idx: RingIndices, t: int)
    requires
        16 <= d.len() <= u32::MAX,
        indices_in_range(d.len() as int, idx),
        0 <= t <= used_bytes(d.len() as int, idx.read_index as int, idx.write_index as int),
    ensures
        ({
            let n = d.len() as int;
            let new_idx = RingIndices {
                write_index: idx.write_index,
                read_index: wrap(n, idx.read_index + t) as u32,
            };
            pending(d, new_idx) == pending(d, idx).subrange(t, pending(d, idx).len() as int)
        }),
{
    let n = d.len() as int;
    let r = idx.read_index as int;
    let w = idx.write_index as int;
    let new_idx = RingIndices { write_index: idx.write_index, read_index: wrap(n, r + t) as u32 };
    let used = used_bytes(n, r, w);
    assert(used_bytes(n, new_idx.read_index as int, w) == used - t);
    let lhs = pending(d, new_idx);
    let rhs = pending(d, idx).subrange(t, used);
    assert forall|i: int| 0 <= i < lhs.len() implies lhs[i] == rhs[i] by {
        assert(rhs[i] == pending(d, idx)[i + t]);
    }
    assert(lhs =~= rhs);
}

/// Reading at an offset into the pending bytes yields that part of them.
pub proof fn lemma_read_pending(d: Seq<u8>, idx: RingIndices, a: int, len: int)
    requires
        16 <= d.len() <= u32::MAX,
        indices_in_range(d.len() as int, idx),
        0 <= a,
        0 <= len,
        a + len <= used_bytes(d.len() as int, idx.read_index as int, idx.write_index as int),
    ensures
        a < d.len(),
        ring_read(d, wrap(d.len() as int, idx.read_index + a), len) == pending(d, idx).subrange(
            a,
            a + len,
        ),
{
    let n = d.len() as int;
    let r = idx.read_index as int;
    let lhs = ring_read(d, wrap(n, r + a), len);
    let rhs = pending(d, idx).subrange(a, a + len);
    assert forall|i: int| 0 <= i < len implies lhs[i] == rhs[i] by {
        assert(rhs[i] == pending(d, idx)[a + i]);
    }
    assert(lhs =~= rhs);
}

// ── receive outcome over the pending bytes ────────────────────────────

/// The pending bytes do not start with a well-formed packet.
pub open spec fn recv_corrupt(p: Seq<u8>) -> bool {
    let d = descriptor_from_bytes(p);
    ||| p.len() < 16
    ||| d.len8 * 8 < 16
    ||| d.len8 * 8 + 8 > p.len()
    ||| d.offset8 * 8 > d.len8 * 8
}

/// The pending bytes do not start with a packet whose length is consistent.
pub open spec fn recv_raw_corrupt(p: Seq<u8>) -> bool {
    let d = descriptor_from_bytes(p);
    ||| p.len() < 16
    ||| d.len8 * 8 < 16
    ||| d.len8 * 8 + 8 > p.len()
}

/// Bytes of the ring consumed by the packet at the front of `p`.
pub open spec fn recv_consumed(p: Seq<u8>) -> int {
    descriptor_from_bytes(p).len8 * 8 + 8
}

/// Number of payload bytes copied out by `recv_packet` into a buffer of `buf_len` bytes.
pub open spec fn recv_copy_len(p: Seq<u8>, buf_len: int) -> int {
    let d = descriptor_from_bytes(p);
    let payload_len = d.len8 * 8 - d.offset8 * 8;
    if payload_len < buf_len {
        payload_len
    } else {
        buf_len
    }
}

/// Payload bytes copied out by `recv_packet`.
pub open spec fn recv_payload(p: Seq<u8>, buf_len: int) -> Seq<u8> {
    let off = descriptor_from_bytes(p).offset8 * 8;
    p.subrange(off, off + recv_copy_len(p, buf_len))
}

/// Number of bytes after the descriptor copied out by `recv_packet_raw`.
pub open spec fn recv_raw_copy_len(p: Seq<u8>, buf_len: int) -> int {
    let raw_len = descriptor_from_bytes(p).len8 * 8 - 16;
    if raw_len < buf_len {
        raw_len
    } else {
        buf_len
    }
}

impl RingHalf {
    /// Writes one packet: descriptor, `extra`, `user`, zero padding and
    /// the trailing previous indices, then advances the write index.
    fn send_framed(
        &self,
        data: &mut [u8],
        idx: &mut RingIndices,
        packet_type: u16,
        flags: u16,
        transaction_id: u64,
        extra: &[u8],
        user: &[u8],
    ) -> (res: Result<(), RingError>)
        requires
            self.wf(),
            old(data)@.len() == self.data_size,
            extra@.len() <= 64,
        ensures
            ({
                let n = self.data_size as int;
                let i0 = *old(idx);
                let used = used_bytes(n, i0.read_index as int, i0.write_index as int);
                let total = frame_total(extra@.len() as int, user@.len() as int);
                let f = frame_bytes(packet_type, flags, transaction_id, extra@, user@, i0);
                if !indices_in_range(n, i0) {
                    &&& res matches Err(RingError::Corrupt)
                    &&& final(data)@ == old(data)@
                    &&& *final(idx) == i0
                } else if n - used <= total {
                    &&& res matches Err(RingError::Full)
                    &&& final(data)@ == old(data)@
                    &&& *final(idx) == i0
                } else {
                    &&& res is Ok
                    &&& f.len() == total
                    &&& final(data)@ == ring_write(old(data)@, i0.write_index as int, f)
                    &&& final(idx).read_index == i0.read_index
                    &&& final(idx).write_index == wrap(n, i0.write_index + total)
                    &&& pending(final(data)@, *final(idx)) == pending(old(data)@, i0) + f
                }
            }),
    {
        let n = self.data_size;
        let w = idx.write_index as usize;
        let r = idx.read_index as usize;
        if w >= n || r >= n {
            return Err(RingError::Corrupt);
        }
        let avail = if w >= r {
            n - (w - r)
        } else {
            r - w
        };
        if user.len() >= n {
            proof {
                lemma_align8((16 + extra@.len() + user@.len()) as int);
            }
            return Err(RingError::Full);
        }
        let header_size = 16 + extra.len();
        let packet_len = align8(header_size + user.len());
        let total_write = packet_len + 8;
        if avail <= total_write {
            return Err(RingError::Full);
        }
        let desc = VmPacketDescriptor {
            packet_type,
            offset8: (header_size / 8) as u16,
            len8: #[verifier::truncate] ((packet_len / 8) as u16),
            flags,
            transaction_id,
        };
        let mut frame = desc.to_bytes();
        append_bytes(&mut frame, extra);
        append_bytes(&mut frame, user);
        append_zeros(&mut frame, packet_len - header_size - user.len());
        let prev: u64 = ((idx.write_index as u64) << 32u64) | (idx.read_index as u64);
        push_u64_le(&mut frame, prev);
        proof {
            lemma_auto_spec_u64_to_from_le_bytes();
            let f = frame_bytes(packet_type, flags, transaction_id, extra@, user@, *idx);
            assert(frame@ =~= f);
            lemma_write_appends(data@, *idx, f);
        }
        self.copy_to(data, w, frame.as_slice());
        let nw = if w + total_write >= n {
            w + total_write - n
        } else {
            w + total_write
        };
        idx.write_index = nw as u32;
        Ok(())
    }

    /// Write a VMBus in-band data packet to the send ring.
    ///
    /// Builds a `VmPacketDescriptor` header, writes header + payload + padding
    /// + 8-byte trailing indices, then advances the write index.
    pub fn send_packet(
        &self,
        data: &mut [u8],
        idx: &mut RingIndices,
        payload: &[u8],
        transaction_id: u64,
        flags: u16,
    ) -> (res: Result<(), RingError>)
        requires
            self.wf(),
            old(data)@.len() == self.data_size,
        ensures
            ({
                let n = self.data_size as int;
                let i0 = *old(idx);
                let used = used_bytes(n, i0.read_index as int, i0.write_index as int);
                let total = frame_total(0, payload@.len() as int);
                let f = frame_bytes(VM_PKT_DATA_INBAND, flags, transaction_id, Seq::empty(), payload@, i0);
                if !indices_in_range(n, i0) {
                    &&& res matches Err(RingError::Corrupt)
                    &&& final(data)@ == old(data)@
                    &&& *final(idx) == i0
                } else if n - used <= total {
                    &&& res matches Err(RingError::Full)
                    &&& final(data)@ == old(data)@
                    &&& *final(idx) == i0
                } else {
                    &&& res is Ok
                    &&& f.len() == total
                    &&& final(data)@ == ring_write(old(data)@, i0.write_index as int, f)
                    &&& final(idx).read_index == i0.read_index
                    &&& final(idx).write_index == wrap(n, i0.write_index + total)
                    &&& pending(final(data)@, *final(idx)) == pending(old(data)@, i0) + f
                }
            }),
    {
        let empty: Vec<u8> = Vec::new();
        self.send_framed(data, idx, VM_PKT_DATA_INBAND, flags, transaction_id, empty.as_slice(), payload)
    }
}


/// A descriptor is decoded from the first sixteen bytes only.
pub proof fn lemma_descriptor_prefix(s: Seq<u8>, t: Seq<u8>)
    requires
        s.len() >= 16,
        t.len() >= 16,
        s.subrange(0, 16) == t.subrange(0, 16),
    ensures
        descriptor_from_bytes(s) == descriptor_from_bytes(t),
{
    assert(s.subrange(0, 2) =~= s.subrange(0, 16).subrange(0, 2));
    assert(t.subrange(0, 2) =~= t.subrange(0, 16).subrange(0, 2));
    assert(s.subrange(2, 4) =~= s.subrange(0, 16).subrange(2, 4));
    assert(t.subrange(2, 4) =~= t.subrange(0, 16).subrange(2, 4));
    assert(s.subrange(4, 6) =~= s.subrange(0, 16).subrange(4, 6));
    assert(t.subrange(4, 6) =~= t.subrange(0, 16).subrange(4, 6));
    assert(s.subrange(6, 8) =~= s.subrange(0, 16).subrange(6, 8));
    assert(t.subrange(6, 8) =~= t.subrange(0, 16).subrange(6, 8));
    assert(s.subrange(8, 16) =~= s.subrange(0, 16).subrange(8, 16));
    assert(t.subrange(8, 16) =~= t.subrange(0, 16).subrange(8, 16));
}

impl RingHalf {
    /// Write a VMBus completion packet (VM_PKT_COMP, type 11) to the send ring.
    /// Used to acknowledge receipt of xfer page packets from the host.
    pub fn send_comp(
        &self,
        data: &mut [u8],
        idx: &mut RingIndices,
        payload: &[u8],
        transaction_id: u64,
    ) -> (res: Result<(), RingError>)
        requires
            self.wf(),
            old(data)@.len() == self.data_size,
        ensures
            ({
                let n = self.data_size as int;
                let i0 = *old(idx);
                let used = used_bytes(n, i0.read_index as int, i0.write_index as int);
                let total = frame_total(0, payload@.len() as int);
                let f = frame_bytes(VM_PKT_COMP, 0, transaction_id, Seq::empty(), payload@, i0);
                if !indices_in_range(n, i0) {
                    &&& res matches Err(RingError::Corrupt)
                    &&& final(data)@ == old(data)@
                    &&& *final(idx) == i0
                } else if n - used <= total {
                    &&& res matches Err(RingError::Full)
                    &&& final(data)@ == old(data)@
                    &&& *final(idx) == i0
                } else {
                    &&& res is Ok
                    &&& f.len() == total
                    &&& final(data)@ == ring_write(old(data)@, i0.write_index as int, f)
                    &&& final(idx).read_index == i0.read_index
                    &&& final(idx).write_index == wrap(n, i0.write_index + total)
                    &&& pending(final(data)@, *final(idx)) == pending(old(data)@, i0) + f
                }
            }),
    {
        let empty: Vec<u8> = Vec::new();
        self.send_framed(data, idx, VM_PKT_COMP, 0, transaction_id, empty.as_slice(), payload)
    }

    /// Write a packet of type `VM_PKT_DATA_USING_GPA_DIRECT` whose single page
    /// buffer range points at physical memory holding the data. The range
    /// header (reserved, rangecount = 1, length, offset, pfn) follows the
    /// descriptor; `user_data` (e.g. an NVSP header) follows the range.
    pub fn send_packet_with_page_buffer(
        &self,
        data: &mut [u8],
        idx: &mut RingIndices,
        user_data: &[u8],
        page_pfn: u64,
        page_offset: u32,
        page_len: u32,
        transaction_id: u64,
        flags: u16,
    ) -> (res: Result<(), RingError>)
        requires
            self.wf(),
            old(data)@.len() == self.data_size,
        ensures
            ({
                let n = self.data_size as int;
                let i0 = *old(idx);
                let used = used_bytes(n, i0.read_index as int, i0.write_index as int);
                let range = page_range_bytes(page_pfn, page_offset, page_len);
                let total = frame_total(24, user_data@.len() as int);
                let f = frame_bytes(VM_PKT_DATA_USING_GPA_DIRECT, flags, transaction_id, range, user_data@, i0);
                if !indices_in_range(n, i0) {
                    &&& res matches Err(RingError::Corrupt)
                    &&& final(data)@ == old(data)@
                    &&& *final(idx) == i0
                } else if n - used <= total {
                    &&& res matches Err(RingError::Full)
                    &&& final(data)@ == old(data)@
                    &&& *final(idx) == i0
                } else {
                    &&& res is Ok
                    &&& f.len() == total
                    &&& final(data)@ == ring_write(old(data)@, i0.write_index as int, f)
                    &&& final(idx).read_index == i0.read_index
                    &&& final(idx).write_index == wrap(n, i0.write_index + total)
                    &&& pending(final(data)@, *final(idx)) == pending(old(data)@, i0) + f
                }
            }),
    {
        let mut range: Vec<u8> = Vec::new();
        push_u32_le(&mut range, 0);
        push_u32_le(&mut range, 1);
        push_u32_le(&mut range, page_len);
        push_u32_le(&mut range, page_offset);
        push_u64_le(&mut range, page_pfn);
        proof {
            lemma_auto_spec_u32_to_from_le_bytes();
            lemma_auto_spec_u64_to_from_le_bytes();
            assert(range@ =~= page_range_bytes(page_pfn, page_offset, page_len));
        }
        self.send_framed(
            data,
            idx,
            VM_PKT_DATA_USING_GPA_DIRECT,
            flags,
            transaction_id,
            range.as_slice(),
            user_data,
        )
    }

    /// Read a packet from the receive ring.
    ///
    /// Copies the payload into `buf` and returns `(descriptor, payload_len)`,
    /// advancing the read index past the packet and its trailing indices.
    /// Returns `Ok(None)` if no packet is available.
    pub fn recv_packet(&self, data: &[u8], idx: &mut RingIndices, buf: &mut [u8]) -> (res: Result<
        Option<(VmPacketDescriptor, usize)>,
        RingError,
    >)
        requires
            self.wf(),
            data@.len() == self.data_size,
        ensures
            ({
                let n = self.data_size as int;
                let i0 = *old(idx);
                let p = pending(data@, i0);
                let bl = old(buf)@.len() as int;
                if !indices_in_range(n, i0) {
                    &&& res matches Err(RingError::Corrupt)
                    &&& final(buf)@ == old(buf)@
                    &&& *final(idx) == i0
                } else if p.len() == 0 {
                    &&& res == Ok::<Option<(VmPacketDescriptor, usize)>, RingError>(None)
                    &&& final(buf)@ == old(buf)@
                    &&& *final(idx) == i0
                } else if recv_corrupt(p) {
                    &&& res matches Err(RingError::Corrupt)
                    &&& final(buf)@ == old(buf)@
                    &&& *final(idx) == i0
                } else {
                    let c = recv_copy_len(p, bl);
                    &&& res == Ok::<Option<(VmPacketDescriptor, usize)>, RingError>(
                        Some((descriptor_from_bytes(p), c as usize)),
                    )
                    &&& final(buf)@.len() == bl
                    &&& final(buf)@.subrange(0, c) == recv_payload(p, bl)
                    &&& final(buf)@.subrange(c, bl) == old(buf)@.subrange(c, bl)
                    &&& final(idx).write_index == i0.write_index
                    &&& final(idx).read_index == wrap(n, i0.read_index + recv_consumed(p))
                    &&& pending(data@, *final(idx)) == p.subrange(recv_consumed(p), p.len() as int)
                }
            }),
    {
        let n = self.data_size;
        let w = idx.write_index as usize;
        let r = idx.read_index as usize;
        if w >= n || r >= n {
            return Err(RingError::Corrupt);
        }
        let avail = if w >= r {
            w - r
        } else {
            n - (r - w)
        };
        if avail == 0 {
            return Ok(None);
        }
        if avail < 16 {
            return Err(RingError::Corrupt);
        }
        let ghost p = pending(data@, *idx);
        let mut desc_bytes: Vec<u8> = Vec::new();
        append_zeros(&mut desc_bytes, 16);
        self.copy_from(data, r, desc_bytes.as_mut_slice(), 16);
        proof {
            lemma_read_pending(data@, *idx, 0, 16);
            assert(desc_bytes@.subrange(0, 16) =~= desc_bytes@);
            assert(p.subrange(0, 16) =~= desc_bytes@.subrange(0, 16));
            lemma_descriptor_prefix(p, desc_bytes@);
        }
        let desc = VmPacketDescriptor::from_bytes(desc_bytes.as_slice());
        let packet_len = (desc.len8 as usize) * 8;
        let total_read = packet_len + 8;
        if packet_len < 16 || total_read > avail {
            return Err(RingError::Corrupt);
        }
        let data_offset = (desc.offset8 as usize) * 8;
        if data_offset > packet_len {
            return Err(RingError::Corrupt);
        }
        let payload_len = packet_len - data_offset;
        let copy_len = if payload_len < buf.len() {
            payload_len
        } else {
            buf.len()
        };
        let start = if r + data_offset >= n {
            r + data_offset - n
        } else {
            r + data_offset
        };
        proof {
            lemma_read_pending(data@, *idx, data_offset as int, copy_len as int);
            lemma_consume(data@, *idx, total_read as int);
        }
        self.copy_from(data, start, buf, copy_len);
        let nr = if r + total_read >= n {
            r + total_read - n
        } else {
            r + total_read
        };
        idx.read_index = nr as u32;
        Ok(Some((desc, copy_len)))
    }

    /// Read a raw packet from the receive ring, returning ALL bytes after
    /// the 16-byte descriptor (including transfer page headers for type 7).
    /// The caller uses `desc.offset8` to find the payload within the returned data.
    pub fn recv_packet_raw(&self, data: &[u8], idx: &mut RingIndices, buf: &mut [u8]) -> (res:
        Result<Option<(VmPacketDescriptor, usize)>, RingError>)
        requires
            self.wf(),
            data@.len() == self.data_size,
        ensures
            ({
                let n = self.data_size as int;
                let i0 = *old(idx);
                let p = pending(data@, i0);
                let bl = old(buf)@.len() as int;
                if !indices_in_range(n, i0) {
                    &&& res matches Err(RingError::Corrupt)
                    &&& final(buf)@ == old(buf)@
                    &&& *final(idx) == i0
                } else if p.len() == 0 {
                    &&& res == Ok::<Option<(VmPacketDescriptor, usize)>, RingError>(None)
                    &&& final(buf)@ == old(buf)@
                    &&& *final(idx) == i0
                } else if recv_raw_corrupt(p) {
                    &&& res matches Err(RingError::Corrupt)
                    &&& final(buf)@ == old(buf)@
                    &&& *final(idx) == i0
                } else {
                    let c = recv_raw_copy_len(p, bl);
                    &&& res == Ok::<Option<(VmPacketDescriptor, usize)>, RingError>(
                        Some((descriptor_from_bytes(p), c as usize)),
                    )
                    &&& final(buf)@.len() == bl
                    &&& final(buf)@.subrange(0, c) == p.subrange(16, 16 + c)
                    &&& final(buf)@.subrange(c, bl) == old(buf)@.subrange(c, bl)
                    &&& final(idx).write_index == i0.write_index
                    &&& final(idx).read_index == wrap(n, i0.read_index + recv_consumed(p))
                    &&& pending(data@, *final(idx)) == p.subrange(recv_consumed(p), p.len() as int)
                }
            }),
    {
        let n = self.data_size;
        let w = idx.write_index as usize;
        let r = idx.read_index as usize;
        if w >= n || r >= n {
            return Err(RingError::Corrupt);
        }
        let avail = if w >= r {
            w - r
        } else {
            n - (r - w)
        };
        if avail == 0 {
            return Ok(None);
        }
        if avail < 16 {
            return Err(RingError::Corrupt);
        }
        let ghost p = pending(data@, *idx);
        let mut desc_bytes: Vec<u8> = Vec::new();
        append_zeros(&mut desc_bytes, 16);
        let pos = self.copy_from(data, r, desc_bytes.as_mut_slice(), 16);
        proof {
            lemma_read_pending(data@, *idx, 0, 16);
            assert(desc_bytes@.subrange(0, 16) =~= desc_bytes@);
            assert(p.subrange(0, 16) =~= desc_bytes@.subrange(0, 16));
            lemma_descriptor_prefix(p, desc_bytes@);
        }
        let desc = VmPacketDescriptor::from_bytes(desc_bytes.as_slice());
        let packet_len = (desc.len8 as usize) * 8;
        let total_read = packet_len + 8;
        if packet_len < 16 || total_read > avail {
            return Err(RingError::Corrupt);
        }
        let raw_len = packet_len - 16;
        let copy_len = if raw_len < buf.len() {
            raw_len
        } else {
            buf.len()
        };
        proof {
            lemma_read_pending(data@, *idx, 16, copy_len as int);
            lemma_consume(data@, *idx, total_read as int);
        }
        self.copy_from(data, pos, buf, copy_len);
        let nr = if r + total_read >= n {
            r + total_read - n
        } else {
            r + total_read
        };
        idx.read_index = nr as u32;
        Ok(Some((desc, copy_len)))
    }
}

/// Page buffer range header of a GPA-direct packet: reserved, range count
/// (1), then the range itself: byte count, byte offset, page frame number.
pub open spec fn page_range_bytes(page_pfn: u64, page_offset: u32, page_len: u32) -> Seq<u8> {
    spec_u32_to_le_bytes(0) + spec_u32_to_le_bytes(1) + spec_u32_to_le_bytes(page_len)
        + spec_u32_to_le_bytes(page_offset) + spec_u64_to_le_bytes(page_pfn)
}

/// A packet sent into an empty ring is received back unchanged: the
/// receiver decodes the descriptor that the sender built, copies the
/// sender's payload (followed by padding) and consumes exactly the bytes
/// that the sender wrote, leaving the ring empty again.
pub proof fn lemma_ring_send_then_receive(
    flags: u16,
    transaction_id: u64,
    payload: Seq<u8>,
    idx: RingIndices,
    buf_len: int,
)
    requires
        buf_len >= 0,
        align8_spec(16 + payload.len() as int) / 8 < 0x10000,
    ensures
        ({
            let f = frame_bytes(VM_PKT_DATA_INBAND, flags, transaction_id, Seq::empty(), payload, idx);
            let plen = align8_spec(16 + payload.len() as int);
            &&& !recv_corrupt(f)
            &&& descriptor_from_bytes(f) == frame_descriptor(
                VM_PKT_DATA_INBAND,
                flags,
                transaction_id,
                0,
                payload.len() as int,
            )
            &&& descriptor_from_bytes(f).transaction_id == transaction_id
            &&& descriptor_from_bytes(f).flags == flags
            &&& recv_consumed(f) == f.len()
            &&& recv_copy_len(f, buf_len) == if plen - 16 < buf_len {
                plen - 16
            } else {
                buf_len
            }
            &&& buf_len >= payload.len() ==> recv_payload(f, buf_len).subrange(0, payload.len() as int)
                == payload
        }),
{
    let f = frame_bytes(VM_PKT_DATA_INBAND, flags, transaction_id, Seq::empty(), payload, idx);
    let d = frame_descriptor(VM_PKT_DATA_INBAND, flags, transaction_id, 0, payload.len() as int);
    lemma_descriptor_roundtrip(d);
    lemma_auto_spec_u64_to_from_le_bytes();
    lemma_align8(16 + payload.len() as int);
    let plen = align8_spec(16 + payload.len() as int);
    assert(f.subrange(0, 16) =~= descriptor_bytes(d));
    assert(descriptor_bytes(d).subrange(0, 16) =~= descriptor_bytes(d));
    lemma_descriptor_prefix(f, descriptor_bytes(d));
    assert(d.offset8 == 2);
    assert(d.len8 * 8 == plen);
    assert(f.len() == plen + 8);
    if buf_len >= payload.len() {
        let c = recv_copy_len(f, buf_len);
        assert(recv_payload(f, buf_len).subrange(0, payload.len() as int) =~= payload);
    }
}

} // verus!
