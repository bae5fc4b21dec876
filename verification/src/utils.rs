//! Byte-level utilities shared by every part of the codec: little-endian
//! integer reads and writes over byte buffers, and the four-byte alignment
//! helper used by the attribute framing.

use vstd::prelude::*;

verus! {

use vstd::bytes::lemma_auto_spec_u16_to_from_le_bytes;
use vstd::bytes::lemma_auto_spec_u32_to_from_le_bytes;
use vstd::bytes::lemma_auto_spec_u64_to_from_le_bytes;
use vstd::bytes::spec_u16_from_le_bytes;
use vstd::bytes::spec_u16_to_le_bytes;
use vstd::bytes::spec_u32_from_le_bytes;
use vstd::bytes::spec_u32_to_le_bytes;
use vstd::bytes::spec_u64_from_le_bytes;
use vstd::bytes::spec_u64_to_le_bytes;
use vstd::bytes::u16_from_le_bytes;
use vstd::bytes::u16_to_le_bytes;
use vstd::bytes::u32_from_le_bytes;
use vstd::bytes::u32_to_le_bytes;
use vstd::bytes::u64_from_le_bytes;
use vstd::bytes::u64_to_le_bytes;
use vstd::slice::slice_subrange;

/// The next multiple of four at or above `n`.
pub open spec fn spec_align4(n: int) -> int {
    ((n + 3) / 4) * 4
}

/// A sequence of `n` zero bytes, the shape of all structural padding.
pub open spec fn zeros(n: int) -> Seq<u8> {
    Seq::new(n as nat, |i: int| 0u8)
}

pub proof fn lemma_align4(n: int)
    requires
        n >= 0,
    ensures
        n <= spec_align4(n) < n + 4,
        spec_align4(n) % 4 == 0,
{
    assert(n <= ((n + 3) / 4) * 4 < n + 4 && (((n + 3) / 4) * 4) % 4 == 0)
        by (nonlinear_arith)
        requires n >= 0;
}

/// Calculates the space an attribute of length `len` occupies on the wire:
/// the length rounded up to the next multiple of four.
pub fn align_attribute_len(len: i32) -> (r: i32)
    requires
        0 <= len <= i32::MAX - 3,
    ensures
        r == spec_align4(len as int),
{
    ((len + 3) / 4) * 4
}

/// Reads 2 bytes at `offset` as a little-endian u16, or `None` if fewer
/// than 2 bytes are available there.
pub fn read_u16(bytes: &[u8], offset: usize) -> (r: Option<u16>)
    ensures
        match r {
            Some(x) => offset + 2 <= bytes@.len() && x == spec_u16_from_le_bytes(
                bytes@.subrange(offset as int, offset as int + 2),
            ),
            None => offset + 2 > bytes@.len(),
        },
{
    if bytes.len() >= 2 && offset <= bytes.len() - 2 {
        let s = slice_subrange(bytes, offset, offset + 2);
        Some(u16_from_le_bytes(s))
    } else {
        None
    }
}

/// Reads 4 bytes at `offset` as a little-endian u32, or `None` if fewer
/// than 4 bytes are available there.
pub fn read_u32(bytes: &[u8], offset: usize) -> (r: Option<u32>)
    ensures
        match r {
            Some(x) => offset + 4 <= bytes@.len() && x == spec_u32_from_le_bytes(
                bytes@.subrange(offset as int, offset as int + 4),
            ),
            None => offset + 4 > bytes@.len(),
        },
{
    if bytes.len() >= 4 && offset <= bytes.len() - 4 {
        let s = slice_subrange(bytes, offset, offset + 4);
        Some(u32_from_le_bytes(s))
    } else {
        None
    }
}

/// Reads 8 bytes at `offset` as a little-endian u64, or `None` if fewer
/// than 8 bytes are available there.
pub fn read_u64(bytes: &[u8], offset: usize) -> (r: Option<u64>)
    ensures
        match r {
            Some(x) => offset + 8 <= bytes@.len() && x == spec_u64_from_le_bytes(
                bytes@.subrange(offset as int, offset as int + 8),
            ),
            None => offset + 8 > bytes@.len(),
        },
{
    if bytes.len() >= 8 && offset <= bytes.len() - 8 {
        let s = slice_subrange(bytes, offset, offset + 8);
        Some(u64_from_le_bytes(s))
    } else {
        None
    }
}

/// Appends the two little-endian bytes of `x` to `buffer`.
pub fn push_u16(buffer: &mut Vec<u8>, x: u16)
    ensures
        final(buffer)@ == old(buffer)@ + spec_u16_to_le_bytes(x),
{
    proof {
        lemma_auto_spec_u16_to_from_le_bytes();
    }
    let bs = u16_to_le_bytes(x);
    buffer.push(bs[0]);
    buffer.push(bs[1]);
    assert(buffer@ =~= old(buffer)@ + spec_u16_to_le_bytes(x));
}

/// Appends the four little-endian bytes of `x` to `buffer`.
pub fn push_u32(buffer: &mut Vec<u8>, x: u32)
    ensures
        final(buffer)@ == old(buffer)@ + spec_u32_to_le_bytes(x),
{
    proof {
        lemma_auto_spec_u32_to_from_le_bytes();
    }
    let bs = u32_to_le_bytes(x);
    buffer.push(bs[0]);
    buffer.push(bs[1]);
    buffer.push(bs[2]);
    buffer.push(bs[3]);
    assert(buffer@ =~= old(buffer)@ + spec_u32_to_le_bytes(x));
}

/// Appends the eight little-endian bytes of `x` to `buffer`.
pub fn push_u64(buffer: &mut Vec<u8>, x: u64)
    ensures
        final(buffer)@ == old(buffer)@ + spec_u64_to_le_bytes(x),
{
    proof {
        lemma_auto_spec_u64_to_from_le_bytes();
    }
    let bs = u64_to_le_bytes(x);
    buffer.push(bs[0]);
    buffer.push(bs[1]);
    buffer.push(bs[2]);
    buffer.push(bs[3]);
    buffer.push(bs[4]);
    buffer.push(bs[5]);
    buffer.push(bs[6]);
    buffer.push(bs[7]);
    assert(buffer@ =~= old(buffer)@ + spec_u64_to_le_bytes(x));
}

/// Appends `n` zero bytes to `buffer`.
pub fn push_zeros(buffer: &mut Vec<u8>, n: usize)
    ensures
        final(buffer)@ == old(buffer)@ + zeros(n as int),
{
    let mut i: usize = 0;
    while i < n
        invariant
            i <= n,
            buffer@ == old(buffer)@ + zeros(i as int),
        decreases n - i,
    {
        buffer.push(0u8);
        assert(buffer@ =~= old(buffer)@ + zeros(i as int + 1));
        i = i + 1;
    }
}

/// Appends every byte of `bytes` to `buffer`.
pub fn push_bytes(buffer: &mut Vec<u8>, bytes: &[u8])
    ensures
        final(buffer)@ == old(buffer)@ + bytes@,
{
    let mut i: usize = 0;
    while i < bytes.len()
        invariant
            i <= bytes@.len(),
            buffer@ == old(buffer)@ + bytes@.subrange(0, i as int),
        decreases bytes@.len() - i,
    {
        buffer.push(bytes[i]);
        assert(buffer@ =~= old(buffer)@ + bytes@.subrange(0, i as int + 1));
        i = i + 1;
    }
    assert(bytes@.subrange(0, bytes@.len() as int) =~= bytes@);
}

/// Casting an i32 through u32 and back gives the value unchanged.
pub proof fn lemma_cast_u32_i32(x: i32)
    ensures
        ((x as u32) as i32) == x,
{
    assert(((x as u32) as i32) == x) by (bit_vector);
}

/// Casting an i16 through u16 and back gives the value unchanged.
pub proof fn lemma_cast_u16_i16(x: i16)
    ensures
        ((x as u16) as i16) == x,
{
    assert(((x as u16) as i16) == x) by (bit_vector);
}

/// Casting a u32 that fits in a byte through u8 and back keeps it.
pub proof fn lemma_cast_u8_u32(x: u32)
    requires
        x <= 0xFF,
    ensures
        ((x as u8) as u32) == x,
{
    assert(x <= 0xFF ==> ((x as u8) as u32) == x) by (bit_vector);
}

/// Masking a value that already fits in the low byte keeps it.
pub proof fn lemma_mask_low_byte(x: u16)
    requires
        x <= 0xFF,
    ensures
        (x & 0xFF) == x,
{
    assert(x <= 0xFF ==> (x & 0xFF) == x) by (bit_vector);
}

/// Decodes bytes as UTF-8.
///
/// Relies on `String::from_utf8`: it returns the decoded string exactly
/// when the bytes are valid UTF-8, and fails exactly when they are not.
#[verifier::external_body]
pub(crate) fn string_from_utf8(bytes: Vec<u8>) -> (r: Option<String>)
    ensures
        match r {
            Some(s) => vstd::utf8::valid_utf8(bytes@) && s@ == vstd::utf8::decode_utf8(bytes@),
            None => !vstd::utf8::valid_utf8(bytes@),
        },
{
    match String::from_utf8(bytes) {
        Ok(s) => Some(s),
        Err(_) => None,
    }
}

} // verus!
