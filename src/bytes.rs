//! Little-endian fields and byte ranges of in-memory structures.
use vstd::prelude::*;

verus! {

/// The `n` little-endian bytes of the low part of `v`.
pub open spec fn le_bytes(v: u64, n: nat) -> Seq<u8> {
    Seq::new(n, |k: int| ((v >> (8 * k) as u64) & 0xFFu64) as u8)
}

/// The little-endian 16-bit value at `off`.
pub open spec fn spec_le16(b: Seq<u8>, off: int) -> u16 {
    ((b[off] as u16) | ((b[off + 1] as u16) << 8u16)) as u16
}

/// The little-endian 32-bit value at `off`.
pub open spec fn spec_le32(b: Seq<u8>, off: int) -> u32 {
    ((b[off] as u32) | ((b[off + 1] as u32) << 8u32) | ((b[off + 2] as u32) << 16u32) | ((b[off + 3] as u32) << 24u32)) as u32
}

/// Appends the `n` low bytes of `v`, least significant first.
pub fn push_le(out: &mut Vec<u8>, v: u64, n: usize)
    requires
        n <= 8,
    ensures
        final(out)@ == old(out)@ + le_bytes(v, n as nat),
{
    let mut k: usize = 0;
    while k < n
        invariant
            k <= n <= 8,
            out@ == old(out)@ + le_bytes(v, k as nat),
        decreases n - k,
    {
        let byte = ((v >> (8 * k as u64)) & 0xFFu64) as u8;
        out.push(byte);
        k = k + 1;
        assert(out@ =~= old(out)@ + le_bytes(v, k as nat));
    }
}

/// Reads the little-endian 16-bit value at `off`.
pub fn read_le16(b: &[u8], off: usize) -> (r: u16)
    requires
        off + 2 <= b@.len(),
    ensures
        r == spec_le16(b@, off as int),
{
    ((b[off] as u16) | ((b[off + 1] as u16) << 8u16)) as u16
}

/// Reads the little-endian 32-bit value at `off`.
pub fn read_le32(b: &[u8], off: usize) -> (r: u32)
    requires
        off + 4 <= b@.len(),
    ensures
        r == spec_le32(b@, off as int),
{
    ((b[off] as u32) | ((b[off + 1] as u32) << 8u32) | ((b[off + 2] as u32) << 16u32) | ((b[off + 3] as u32) << 24u32)) as u32
}

/// The little-endian 64-bit value at `off`.
pub open spec fn spec_le64(b: Seq<u8>, off: int) -> u64 {
    (spec_le32(b, off) as u64) | ((spec_le32(b, off + 4) as u64) << 32u64)
}

pub fn read_le64(b: &[u8], off: usize) -> (r: u64)
    requires
        off + 8 <= b@.len(),
    ensures
        r == spec_le64(b@, off as int),
{
    assert(off + 8 <= b.len());
    (read_le32(b, off) as u64) | ((read_le32(b, off + 4) as u64) << 32u64)
}

/// Whether `b` holds `sig` at `off`.
pub open spec fn holds_at(b: Seq<u8>, off: int, sig: Seq<u8>) -> bool {
    off + sig.len() <= b.len() && b.subrange(off, off + sig.len()) == sig
}

pub fn bytes_match(b: &[u8], off: usize, sig: &[u8]) -> (r: bool)
    requires
        off + sig@.len() <= b@.len(),
    ensures
        r == holds_at(b@, off as int, sig@),
{
    let mut i: usize = 0;
    while i < sig.len()
        invariant
            off + sig@.len() <= b.len(),
            i <= sig@.len(),
            b@.subrange(off as int, off + i) == sig@.subrange(0, i as int),
        decreases sig@.len() - i,
    {
        if b[off + i] != sig[i] {
            assert(b@.subrange(off as int, off + sig@.len())[i as int] != sig@[i as int]);
            return false;
        }
        i = i + 1;
        assert(b@.subrange(off as int, off + i) =~= sig@.subrange(0, i as int));
    }
    assert(sig@.subrange(0, sig@.len() as int) =~= sig@);
    true
}

/// Copies `b[start..end]`.
pub fn copy_range(b: &[u8], start: usize, end: usize) -> (r: Vec<u8>)
    requires
        start <= end <= b@.len(),
    ensures
        r@ == b@.subrange(start as int, end as int),
{
    let mut out: Vec<u8> = Vec::new();
    let mut i: usize = start;
    while i < end
        invariant
            start <= i <= end <= b@.len(),
            out@ == b@.subrange(start as int, i as int),
        decreases end - i,
    {
        out.push(b[i]);
        i = i + 1;
        assert(out@ =~= b@.subrange(start as int, i as int));
    }
    out
}

} // verus!
