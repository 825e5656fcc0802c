//! Checked integer codecs for the fixed binary layouts.
//!
//! The dump layouts store multi-byte fields either big-endian (the
//! tag's own wire order) or little-endian; each codec here states the
//! exact byte image of the value it reads or writes.

use vstd::prelude::*;

verus! {

/// The two big-endian bytes of a `u16`.
pub open spec fn spec_u16_be(v: u16) -> Seq<u8> {
    seq![(v >> 8) as u8, v as u8]
}

/// The two little-endian bytes of a `u16`.
pub open spec fn spec_u16_le(v: u16) -> Seq<u8> {
    seq![v as u8, (v >> 8) as u8]
}

/// The four big-endian bytes of a `u32`.
pub open spec fn spec_u32_be(v: u32) -> Seq<u8> {
    seq![(v >> 24) as u8, (v >> 16) as u8, (v >> 8) as u8, v as u8]
}

/// The eight big-endian bytes of a `u64`.
pub open spec fn spec_u64_be(v: u64) -> Seq<u8> {
    seq![
        (v >> 56) as u8,
        (v >> 48) as u8,
        (v >> 40) as u8,
        (v >> 32) as u8,
        (v >> 24) as u8,
        (v >> 16) as u8,
        (v >> 8) as u8,
        v as u8,
    ]
}

/// Reads a big-endian `u16` at `off`.
pub fn read_u16_be(data: &[u8], off: usize) -> (r: u16)
    requires
        off + 2 <= data@.len(),
    ensures
        spec_u16_be(r) == data@.subrange(off as int, off + 2),
{
    let b0 = data[off];
    let b1 = data[off + 1];
    let v: u16 = ((b0 as u16) << 8) | (b1 as u16);
    proof {
        assert((v >> 8) as u8 == b0 && v as u8 == b1) by (bit_vector)
            requires
                v == ((b0 as u16) << 8) | (b1 as u16),
        ;
        assert(spec_u16_be(v) =~= data@.subrange(off as int, off + 2));
    }
    v
}

/// Reads a little-endian `u16` at `off`.
pub fn read_u16_le(data: &[u8], off: usize) -> (r: u16)
    requires
        off + 2 <= data@.len(),
    ensures
        spec_u16_le(r) == data@.subrange(off as int, off + 2),
{
    let b0 = data[off];
    let b1 = data[off + 1];
    let v: u16 = (b0 as u16) | ((b1 as u16) << 8);
    proof {
        assert(v as u8 == b0 && (v >> 8) as u8 == b1) by (bit_vector)
            requires
                v == (b0 as u16) | ((b1 as u16) << 8),
        ;
        assert(spec_u16_le(v) =~= data@.subrange(off as int, off + 2));
    }
    v
}

/// Reads a big-endian `u32` at `off`.
pub fn read_u32_be(data: &[u8], off: usize) -> (r: u32)
    requires
        off + 4 <= data@.len(),
    ensures
        spec_u32_be(r) == data@.subrange(off as int, off + 4),
{
    let b0 = data[off];
    let b1 = data[off + 1];
    let b2 = data[off + 2];
    let b3 = data[off + 3];
    let v: u32 = ((b0 as u32) << 24) | ((b1 as u32) << 16) | ((b2 as u32) << 8) | (b3 as u32);
    proof {
        assert((v >> 24) as u8 == b0 && (v >> 16) as u8 == b1 && (v >> 8) as u8 == b2 && v as u8
            == b3) by (bit_vector)
            requires
                v == ((b0 as u32) << 24) | ((b1 as u32) << 16) | ((b2 as u32) << 8) | (b3 as u32),
        ;
        assert(spec_u32_be(v) =~= data@.subrange(off as int, off + 4));
    }
    v
}

/// Reads a big-endian `u64` at `off`.
pub fn read_u64_be(data: &[u8], off: usize) -> (r: u64)
    requires
        off + 8 <= data@.len(),
    ensures
        spec_u64_be(r) == data@.subrange(off as int, off + 8),
{
    let n = data.len();
    let hi = read_u32_be(data, off);
    let lo = read_u32_be(data, off + 4);
    let v: u64 = ((hi as u64) << 32) | (lo as u64);
    proof {
        assert((v >> 56) as u8 == (hi >> 24) as u8 && (v >> 48) as u8 == (hi >> 16) as u8 && (v
            >> 40) as u8 == (hi >> 8) as u8 && (v >> 32) as u8 == hi as u8 && (v >> 24) as u8 == (
        lo >> 24) as u8 && (v >> 16) as u8 == (lo >> 16) as u8 && (v >> 8) as u8 == (lo >> 8) as u8
            && v as u8 == lo as u8) by (bit_vector)
            requires
                v == ((hi as u64) << 32) | (lo as u64),
        ;
        assert(spec_u64_be(v) =~= data@.subrange(off as int, off + 8));
    }
    v
}

/// Appends the big-endian bytes of a `u16`.
pub fn push_u16_be(out: &mut Vec<u8>, v: u16)
    ensures
        final(out)@ == old(out)@ + spec_u16_be(v),
{
    out.push((v >> 8) as u8);
    out.push(v as u8);
    proof {
        assert(final(out)@ =~= old(out)@ + spec_u16_be(v));
    }
}

/// Appends the little-endian bytes of a `u16`.
pub fn push_u16_le(out: &mut Vec<u8>, v: u16)
    ensures
        final(out)@ == old(out)@ + spec_u16_le(v),
{
    out.push(v as u8);
    out.push((v >> 8) as u8);
    proof {
        assert(final(out)@ =~= old(out)@ + spec_u16_le(v));
    }
}

/// Appends the big-endian bytes of a `u32`.
pub fn push_u32_be(out: &mut Vec<u8>, v: u32)
    ensures
        final(out)@ == old(out)@ + spec_u32_be(v),
{
    out.push((v >> 24) as u8);
    out.push((v >> 16) as u8);
    out.push((v >> 8) as u8);
    out.push(v as u8);
    proof {
        assert(final(out)@ =~= old(out)@ + spec_u32_be(v));
    }
}

/// Appends the big-endian bytes of a `u64`.
pub fn push_u64_be(out: &mut Vec<u8>, v: u64)
    ensures
        final(out)@ == old(out)@ + spec_u64_be(v),
{
    out.push((v >> 56) as u8);
    out.push((v >> 48) as u8);
    out.push((v >> 40) as u8);
    out.push((v >> 32) as u8);
    out.push((v >> 24) as u8);
    out.push((v >> 16) as u8);
    out.push((v >> 8) as u8);
    out.push(v as u8);
    proof {
        assert(final(out)@ =~= old(out)@ + spec_u64_be(v));
    }
}

/// Swaps the two bytes of a `u16`: the big-endian image of the result
/// is the little-endian image of the argument.
pub fn swap_u16(v: u16) -> (r: u16)
    ensures
        spec_u16_be(r) == spec_u16_le(v),
{
    let r: u16 = (v >> 8) | (v << 8);
    proof {
        assert((r >> 8) as u8 == v as u8 && r as u8 == (v >> 8) as u8) by (bit_vector)
            requires
                r == (v >> 8) | (v << 8),
        ;
        assert(spec_u16_be(r) =~= spec_u16_le(v));
    }
    r
}

/// Whether two byte vectors hold the same bytes.
pub fn bytes_eq(a: &Vec<u8>, b: &Vec<u8>) -> (r: bool)
    ensures
        r == (a@ == b@),
{
    if a.len() != b.len() {
        return false;
    }
    let mut i: usize = 0;
    while i < a.len()
        invariant
            i <= a@.len(),
            a@.len() == b@.len(),
            forall|j: int| 0 <= j < i ==> a@[j] == b@[j],
        decreases a@.len() - i,
    {
        if a[i] != b[i] {
            return false;
        }
        i = i + 1;
    }
    proof {
        assert(a@ =~= b@);
    }
    true
}

/// Copies `len` bytes at `off` into a fresh vector.
pub fn read_bytes(data: &[u8], off: usize, len: usize) -> (r: Vec<u8>)
    requires
        off + len <= data@.len(),
    ensures
        r@ == data@.subrange(off as int, off + len),
{
    let n = data.len();
    let mut out: Vec<u8> = Vec::new();
    out.extend_from_slice(&data[off..off + len]);
    out
}

} // verus!
