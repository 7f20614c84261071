use vstd::prelude::*;
use vstd::bytes::{
    spec_u16_from_le_bytes, spec_u32_from_le_bytes, spec_u64_from_le_bytes, u16_from_le_bytes,
    u32_from_le_bytes, u64_from_le_bytes,
};

verus! {

/// Copies `len` bytes of `b` starting at `at` into a fresh vector.
pub fn copy_range(b: &[u8], at: usize, len: usize) -> (r: Vec<u8>)
    requires
        at + len <= b@.len(),
    ensures
        r@ == b@.subrange(at as int, at + len),
{
    let n: usize = b.len();
    let mut r: Vec<u8> = Vec::with_capacity(len);
    let mut i: usize = 0;
    while i < len
        invariant
            n == b@.len(),
            at + len <= b@.len(),
            i <= len,
            r@ == b@.subrange(at as int, at + i),
        decreases len - i,
    {
        r.push(b[at + i]);
        i = i + 1;
        assert(r@ =~= b@.subrange(at as int, at + i));
    }
    r
}

/// Appends every byte of `src` to `dst`.
pub fn append_bytes(dst: &mut Vec<u8>, src: &[u8])
    ensures
        final(dst)@ == old(dst)@ + src@,
{
    let mut i: usize = 0;
    while i < src.len()
        invariant
            i <= src@.len(),
            dst@ == old(dst)@ + src@.subrange(0, i as int),
        decreases src@.len() - i,
    {
        dst.push(src[i]);
        i = i + 1;
        assert(dst@ =~= old(dst)@ + src@.subrange(0, i as int));
    }
    assert(src@.subrange(0, src@.len() as int) =~= src@);
}

/// Reads a little-endian `u16` at offset `at`.
pub fn read_u16_le(b: &[u8], at: usize) -> (r: u16)
    requires
        at + 2 <= b@.len(),
    ensures
        r == spec_u16_from_le_bytes(b@.subrange(at as int, at + 2)),
{
    let v = copy_range(b, at, 2);
    u16_from_le_bytes(v.as_slice())
}

/// Reads a little-endian `u32` at offset `at`.
pub fn read_u32_le(b: &[u8], at: usize) -> (r: u32)
    requires
        at + 4 <= b@.len(),
    ensures
        r == spec_u32_from_le_bytes(b@.subrange(at as int, at + 4)),
{
    let v = copy_range(b, at, 4);
    u32_from_le_bytes(v.as_slice())
}

/// Reads a little-endian `u64` at offset `at`.
pub fn read_u64_le(b: &[u8], at: usize) -> (r: u64)
    requires
        at + 8 <= b@.len(),
    ensures
        r == spec_u64_from_le_bytes(b@.subrange(at as int, at + 8)),
{
    let v = copy_range(b, at, 8);
    u64_from_le_bytes(v.as_slice())
}

} // verus!
