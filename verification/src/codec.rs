//! Fixed-width byte encoding of the values a payload signature covers.
//!
//! A payload's detachable signature is made over a byte string assembled
//! here: the numeric fields in little-endian order followed by the
//! submitter's raw public key. The encoding is fully specified, so the
//! admission validator and the submitter agree on every byte.

use vstd::prelude::*;

verus! {

/// Little-endian byte `i` of a 64-bit word.
pub open spec fn le_byte64(x: u64, i: int) -> u8 {
    ((x >> (8 * i) as u64) & 0xff) as u8
}

/// The eight little-endian bytes of a 64-bit word.
pub open spec fn u64_le_bytes(x: u64) -> Seq<u8> {
    Seq::new(8, |i: int| le_byte64(x, i))
}

/// Little-endian byte `i` of a 32-bit word.
pub open spec fn le_byte32(x: u32, i: int) -> u8 {
    ((x >> (8 * i) as u32) & 0xff) as u8
}

/// The four little-endian bytes of a 32-bit word.
pub open spec fn u32_le_bytes(x: u32) -> Seq<u8> {
    Seq::new(4, |i: int| le_byte32(x, i))
}

/// The bytes a number payload's signature covers: the number, then the
/// submitter's public key.
pub open spec fn number_payload_message(number: u64, public: Seq<u8>) -> Seq<u8> {
    u64_le_bytes(number) + public
}

/// The bytes a price payload's signature covers: integer part, fraction,
/// then the submitter's public key.
pub open spec fn price_payload_message(integer: u64, fraction: u32, public: Seq<u8>) -> Seq<u8> {
    u64_le_bytes(integer) + u32_le_bytes(fraction) + public
}

/// Append the eight little-endian bytes of `x`.
pub fn push_u64_le(out: &mut Vec<u8>, x: u64)
    ensures
        final(out)@ == old(out)@ + u64_le_bytes(x),
{
    out.push((x & 0xff) as u8);
    out.push(((x >> 8u64) & 0xff) as u8);
    out.push(((x >> 16u64) & 0xff) as u8);
    out.push(((x >> 24u64) & 0xff) as u8);
    out.push(((x >> 32u64) & 0xff) as u8);
    out.push(((x >> 40u64) & 0xff) as u8);
    out.push(((x >> 48u64) & 0xff) as u8);
    out.push(((x >> 56u64) & 0xff) as u8);
    proof {
        assert(x >> 0u64 == x) by (bit_vector);
        assert(out@ =~= old(out)@ + u64_le_bytes(x));
    }
}

/// Append the four little-endian bytes of `x`.
pub fn push_u32_le(out: &mut Vec<u8>, x: u32)
    ensures
        final(out)@ == old(out)@ + u32_le_bytes(x),
{
    out.push((x & 0xff) as u8);
    out.push(((x >> 8u32) & 0xff) as u8);
    out.push(((x >> 16u32) & 0xff) as u8);
    out.push(((x >> 24u32) & 0xff) as u8);
    proof {
        assert(x >> 0u32 == x) by (bit_vector);
        assert(out@ =~= old(out)@ + u32_le_bytes(x));
    }
}

/// Append a byte string.
pub fn append_bytes(out: &mut Vec<u8>, src: &Vec<u8>)
    ensures
        final(out)@ == old(out)@ + src@,
{
    let mut i: usize = 0;
    proof {
        assert(out@ =~= out@ + src@.take(0));
    }
    while i < src.len()
        invariant
            0 <= i <= src@.len(),
            out@ == old(out)@ + src@.take(i as int),
        decreases src@.len() - i,
    {
        out.push(src[i]);
        proof {
            assert(old(out)@ + src@.take(i as int) + seq![src@[i as int]] =~= old(out)@ + src@.take(
                i + 1,
            ));
        }
        i += 1;
    }
    proof {
        assert(src@.take(src@.len() as int) =~= src@);
    }
}

/// Byte-for-byte copy.
pub fn clone_bytes(v: &Vec<u8>) -> (r: Vec<u8>)
    ensures
        r@ == v@,
{
    let mut out: Vec<u8> = Vec::new();
    append_bytes(&mut out, v);
    proof {
        assert(Seq::<u8>::empty() + v@ =~= v@);
    }
    out
}

} // verus!
