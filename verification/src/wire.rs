//! Little-endian field access on byte buffers.
use vstd::prelude::*;
use vstd::bytes::*;
use vstd::slice::*;

verus! {

/// Rounds `n` up to the next multiple of eight.
pub open spec fn align8_spec(n: int) -> int {
    ((n + 7) / 8) * 8
}

/// Rounding up to a multiple of eight adds less than eight.
pub proof fn lemma_align8(n: int)
    requires
        n >= 0,
    ensures
        n <= align8_spec(n) < n + 8,
        align8_spec(n) % 8 == 0,
{
    assert(((n + 7) / 8) * 8 <= n + 7 && ((n + 7) / 8) * 8 > n - 1 && (((n + 7) / 8) * 8) % 8 == 0)
        by (nonlinear_arith);
}

/// Round up to 8-byte alignment.
pub fn align8(n: usize) -> (r: usize)
    requires
        n + 7 <= usize::MAX,
    ensures
        r == align8_spec(n as int),
        r >= n,
        r < n + 8,
        r % 8 == 0,
{
    (n + 7) / 8 * 8
}

/// Reads a little-endian `u16` at byte offset `off`.
pub fn read_u16_le(data: &[u8], off: usize) -> (v: u16)
    requires
        off + 2 <= data.len(),
    ensures
        v == spec_u16_from_le_bytes(data@.subrange(off as int, off + 2)),
{
    u16_from_le_bytes(slice_subrange(data, off, off + 2))
}

/// Reads a little-endian `u32` at byte offset `off`.
pub fn read_u32_le(data: &[u8], off: usize) -> (v: u32)
    requires
        off + 4 <= data.len(),
    ensures
        v == spec_u32_from_le_bytes(data@.subrange(off as int, off + 4)),
{
    u32_from_le_bytes(slice_subrange(data, off, off + 4))
}

/// Reads a little-endian `u64` at byte offset `off`.
pub fn read_u64_le(data: &[u8], off: usize) -> (v: u64)
    requires
        off + 8 <= data.len(),
    ensures
        v == spec_u64_from_le_bytes(data@.subrange(off as int, off + 8)),
{
    u64_from_le_bytes(slice_subrange(data, off, off + 8))
}

/// Appends every byte of `s` to `v`.
pub fn append_bytes(v: &mut Vec<u8>, s: &[u8])
    ensures
        final(v)@ == old(v)@ + s@,
{
    let ghost start = v@;
    let mut i: usize = 0;
    while i < s.len()
        invariant
            i <= s@.len(),
            v@ == start + s@.subrange(0, i as int),
        decreases s@.len() - i,
    {
        v.push(s[i]);
        i = i + 1;
        assert(v@ =~= start + s@.subrange(0, i as int));
    }
    assert(s@.subrange(0, s@.len() as int) =~= s@);
}

/// Appends `count` zero bytes to `v`.
pub fn append_zeros(v: &mut Vec<u8>, count: usize)
    ensures
        final(v)@ == old(v)@ + Seq::new(count as nat, |i: int| 0u8),
{
    let ghost start = v@;
    let mut i: usize = 0;
    while i < count
        invariant
            i <= count,
            v@ == start + Seq::new(i as nat, |j: int| 0u8),
        decreases count - i,
    {
        v.push(0u8);
        i = i + 1;
        assert(v@ =~= start + Seq::new(i as nat, |j: int| 0u8));
    }
}

/// Appends the little-endian encoding of a `u16`.
pub fn push_u16_le(v: &mut Vec<u8>, x: u16)
    ensures
        final(v)@ == old(v)@ + spec_u16_to_le_bytes(x),
{
    let b = u16_to_le_bytes(x);
    append_bytes(v, b.as_slice());
}

/// Appends the little-endian encoding of a `u32`.
pub fn push_u32_le(v: &mut Vec<u8>, x: u32)
    ensures
        final(v)@ == old(v)@ + spec_u32_to_le_bytes(x),
{
    let b = u32_to_le_bytes(x);
    append_bytes(v, b.as_slice());
}

/// Appends the little-endian encoding of a `u64`.
pub fn push_u64_le(v: &mut Vec<u8>, x: u64)
    ensures
        final(v)@ == old(v)@ + spec_u64_to_le_bytes(x),
{
    let b = u64_to_le_bytes(x);
    append_bytes(v, b.as_slice());
}

} // verus!

verus! {

/// Little-endian `u32` stored at byte offset `a` of `s`.
pub open spec fn u32_at(s: Seq<u8>, a: int) -> u32 {
    spec_u32_from_le_bytes(s.subrange(a, a + 4))
}

/// Little-endian `u16` stored at byte offset `a` of `s`.
pub open spec fn u16_at(s: Seq<u8>, a: int) -> u16 {
    spec_u16_from_le_bytes(s.subrange(a, a + 2))
}

/// Little-endian `u64` stored at byte offset `a` of `s`.
pub open spec fn u64_at(s: Seq<u8>, a: int) -> u64 {
    spec_u64_from_le_bytes(s.subrange(a, a + 8))
}

/// `count` zero bytes.
pub open spec fn zeros(count: int) -> Seq<u8> {
    Seq::new(count as nat, |i: int| 0u8)
}

/// Copies `src` into the start of `dst`.
pub fn copy_into(dst: &mut [u8], src: &[u8])
    requires
        src@.len() <= old(dst)@.len(),
    ensures
        final(dst)@ == src@ + old(dst)@.subrange(src@.len() as int, old(dst)@.len() as int),
{
    let ghost d0 = dst@;
    let mut i: usize = 0;
    while i < src.len()
        invariant
            src@.len() <= d0.len(),
            dst@.len() == d0.len(),
            i <= src@.len(),
            forall|k: int| 0 <= k < i ==> dst@[k] == src@[k],
            forall|k: int| i <= k < d0.len() ==> dst@[k] == d0[k],
        decreases src@.len() - i,
    {
        dst[i] = src[i];
        i = i + 1;
    }
    assert(dst@ =~= src@ + d0.subrange(src@.len() as int, d0.len() as int));
}

/// Copies `src[from..from + len]` into a new vector.
pub fn sub_vec(src: &[u8], from: usize, len: usize) -> (v: Vec<u8>)
    requires
        from + len <= src.len(),
    ensures
        v@ == src@.subrange(from as int, from + len),
{
    let mut v: Vec<u8> = Vec::new();
    let mut i: usize = 0;
    while i < len
        invariant
            from + len <= src.len(),
            i <= len,
            v@ == src@.subrange(from as int, from + i),
        decreases len - i,
    {
        v.push(src[from + i]);
        i = i + 1;
        assert(v@ =~= src@.subrange(from as int, from + i));
    }
    v
}

/// `d` with the bytes at `off` replaced by `s`.
pub open spec fn splice(d: Seq<u8>, off: int, s: Seq<u8>) -> Seq<u8> {
    d.subrange(0, off) + s + d.subrange(off + s.len(), d.len() as int)
}

/// `bufs` once the `len` bytes at `off`, handed to a closure as `b`, are
/// copied back (a slice keeps its length, so this is the copy of `b`).
pub open spec fn copied_back(bufs: Seq<u8>, off: int, len: int, b: Seq<u8>) -> Seq<u8> {
    if b.len() == len {
        splice(bufs, off, b)
    } else {
        bufs
    }
}

/// Copies `src` into `dst` at byte offset `off`.
pub fn copy_at(dst: &mut [u8], off: usize, src: &[u8])
    requires
        off + src@.len() <= old(dst)@.len(),
    ensures
        final(dst)@ == splice(old(dst)@, off as int, src@),
{
    let ghost d0 = dst@;
    assert(dst@.len() == dst.len());
    let mut i: usize = 0;
    while i < src.len()
        invariant
            off + src@.len() <= d0.len(),
            d0.len() <= usize::MAX,
            dst@.len() == d0.len(),
            i <= src@.len(),
            forall|k: int| 0 <= k < off ==> dst@[k] == d0[k],
            forall|k: int| 0 <= k < i ==> dst@[off + k] == src@[k],
            forall|k: int| off + i <= k < d0.len() ==> dst@[k] == d0[k],
        decreases src@.len() - i,
    {
        dst[off + i] = src[i];
        i = i + 1;
    }
    assert(dst@ =~= splice(d0, off as int, src@));
}

} // verus!
