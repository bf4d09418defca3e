//! Little-endian field readers and writers shared by the record and
//! instruction codecs.

use vstd::prelude::*;

use crate::pubkey::Pubkey;

verus! {

broadcast use vstd::array::group_array_axioms;

/// Appends a 16-bit value in little-endian order.
pub fn push_u16_le(dst: &mut Vec<u8>, x: u16)
    ensures
        final(dst)@ == old(dst)@ + vstd::bytes::spec_u16_to_le_bytes(x),
{
    let b = vstd::bytes::u16_to_le_bytes(x);
    dst.push(b[0]);
    dst.push(b[1]);
    proof {
        assert(dst@ =~= old(dst)@ + vstd::bytes::spec_u16_to_le_bytes(x));
    }
}

/// Appends a 64-bit value in little-endian order.
pub fn push_u64_le(dst: &mut Vec<u8>, x: u64)
    ensures
        final(dst)@ == old(dst)@ + vstd::bytes::spec_u64_to_le_bytes(x),
{
    let b = vstd::bytes::u64_to_le_bytes(x);
    let mut i: usize = 0;
    while i < 8
        invariant
            b@ == vstd::bytes::spec_u64_to_le_bytes(x),
            b@.len() == 8,
            0 <= i <= 8,
            dst@ == old(dst)@ + b@.subrange(0, i as int),
        decreases 8 - i,
    {
        dst.push(b[i]);
        proof {
            assert(dst@ =~= old(dst)@ + b@.subrange(0, i + 1));
        }
        i += 1;
    }
    proof {
        assert(b@.subrange(0, 8) =~= b@);
    }
}

/// Appends a 32-bit value in little-endian order.
pub fn push_u32_le(dst: &mut Vec<u8>, x: u32)
    ensures
        final(dst)@ == old(dst)@ + vstd::bytes::spec_u32_to_le_bytes(x),
{
    let b = vstd::bytes::u32_to_le_bytes(x);
    let mut i: usize = 0;
    while i < 4
        invariant
            b@ == vstd::bytes::spec_u32_to_le_bytes(x),
            b@.len() == 4,
            0 <= i <= 4,
            dst@ == old(dst)@ + b@.subrange(0, i as int),
        decreases 4 - i,
    {
        dst.push(b[i]);
        proof {
            assert(dst@ =~= old(dst)@ + b@.subrange(0, i + 1));
        }
        i += 1;
    }
    proof {
        assert(b@.subrange(0, 4) =~= b@);
    }
}

/// Appends the 32 bytes of an identifier.
pub fn push_pubkey(dst: &mut Vec<u8>, key: &Pubkey)
    ensures
        final(dst)@ == old(dst)@ + key@,
{
    let mut i: usize = 0;
    while i < 32
        invariant
            0 <= i <= 32,
            dst@ == old(dst)@ + key@.subrange(0, i as int),
        decreases 32 - i,
    {
        dst.push(key.bytes[i]);
        proof {
            assert(dst@ =~= old(dst)@ + key@.subrange(0, i + 1));
        }
        i += 1;
    }
    proof {
        assert(key@.subrange(0, 32) =~= key@);
    }
}

/// Appends every byte of `src`.
pub fn push_bytes(dst: &mut Vec<u8>, src: &[u8])
    ensures
        final(dst)@ == old(dst)@ + src@,
{
    let n = src.len();
    let mut i: usize = 0;
    while i < n
        invariant
            n == src@.len(),
            0 <= i <= n,
            dst@ == old(dst)@ + src@.subrange(0, i as int),
        decreases n - i,
    {
        dst.push(src[i]);
        proof {
            assert(dst@ =~= old(dst)@ + src@.subrange(0, i + 1));
        }
        i += 1;
    }
    proof {
        assert(src@.subrange(0, n as int) =~= src@);
    }
}

/// Reads a 16-bit little-endian value at `offset`.
pub fn read_u16_le(src: &[u8], offset: usize) -> (x: u16)
    requires
        offset + 2 <= src@.len(),
    ensures
        x == vstd::bytes::spec_u16_from_le_bytes(src@.subrange(offset as int, offset + 2)),
{
    let n = src.len();
    let part = vstd::slice::slice_subrange(src, offset, offset + 2);
    vstd::bytes::u16_from_le_bytes(part)
}

/// Reads a 32-bit little-endian value at `offset`.
pub fn read_u32_le(src: &[u8], offset: usize) -> (x: u32)
    requires
        offset + 4 <= src@.len(),
    ensures
        x == vstd::bytes::spec_u32_from_le_bytes(src@.subrange(offset as int, offset + 4)),
{
    let n = src.len();
    let part = vstd::slice::slice_subrange(src, offset, offset + 4);
    vstd::bytes::u32_from_le_bytes(part)
}

/// Reads a 64-bit little-endian value at `offset`.
pub fn read_u64_le(src: &[u8], offset: usize) -> (x: u64)
    requires
        offset + 8 <= src@.len(),
    ensures
        x == vstd::bytes::spec_u64_from_le_bytes(src@.subrange(offset as int, offset + 8)),
{
    let n = src.len();
    let part = vstd::slice::slice_subrange(src, offset, offset + 8);
    vstd::bytes::u64_from_le_bytes(part)
}

/// Reads a 32-byte identifier at `offset`.
pub fn read_pubkey(src: &[u8], offset: usize) -> (key: Pubkey)
    requires
        offset + 32 <= src@.len(),
    ensures
        key@ == src@.subrange(offset as int, offset + 32),
{
    let n = src.len();
    let part = vstd::slice::slice_subrange(src, offset, offset + 32);
    Pubkey::from_slice(part)
}

} // verus!
