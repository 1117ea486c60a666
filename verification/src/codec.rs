//! Little-endian encoding of the integers and addresses that make up stored records.
use vstd::prelude::*;

use crate::pubkey::Pubkey;

verus! {

/// Little-endian bytes of a 64-bit value.
pub open spec fn le_bytes_u64(x: u64) -> Seq<u8> {
    Seq::new(8, |i: int| ((x >> (8 * i as u64)) & 0xff) as u8)
}

/// Little-endian bytes of a 32-bit value.
pub open spec fn le_bytes_u32(x: u32) -> Seq<u8> {
    Seq::new(4, |i: int| ((x >> (8 * i as u32)) & 0xff) as u8)
}

/// The 64-bit value whose little-endian bytes are the first eight of `s`.
pub open spec fn le_value_u64(s: Seq<u8>) -> u64 {
    (s[0] as u64) | ((s[1] as u64) << 8u64) | ((s[2] as u64) << 16u64) | ((s[3] as u64) << 24u64)
        | ((s[4] as u64) << 32u64) | ((s[5] as u64) << 40u64) | ((s[6] as u64) << 48u64) | ((s[7] as u64) << 56u64)
}

/// The 32-bit value whose little-endian bytes are the first four of `s`.
pub open spec fn le_value_u32(s: Seq<u8>) -> u32 {
    (s[0] as u32) | ((s[1] as u32) << 8u32) | ((s[2] as u32) << 16u32) | ((s[3] as u32) << 24u32)
}

/// Decoding the encoding of a 64-bit value gives the value back.
pub proof fn lemma_u64_round_trip(x: u64)
    ensures
        le_value_u64(le_bytes_u64(x)) == x,
        le_bytes_u64(x).len() == 8,
{
    let b = le_bytes_u64(x);
    assert(x >> 0u64 == x) by (bit_vector);
    assert(b[0] == (x & 0xff) as u8);
    assert(b[1] == ((x >> 8u64) & 0xff) as u8);
    assert(b[2] == ((x >> 16u64) & 0xff) as u8);
    assert(b[3] == ((x >> 24u64) & 0xff) as u8);
    assert(b[4] == ((x >> 32u64) & 0xff) as u8);
    assert(b[5] == ((x >> 40u64) & 0xff) as u8);
    assert(b[6] == ((x >> 48u64) & 0xff) as u8);
    assert(b[7] == ((x >> 56u64) & 0xff) as u8);
    assert(((((x & 0xff) as u8) as u64) | (((((x >> 8u64) & 0xff) as u8) as u64) << 8u64)
        | (((((x >> 16u64) & 0xff) as u8) as u64) << 16u64) | (((((x >> 24u64) & 0xff) as u8) as u64) << 24u64)
        | (((((x >> 32u64) & 0xff) as u8) as u64) << 32u64) | (((((x >> 40u64) & 0xff) as u8) as u64) << 40u64)
        | (((((x >> 48u64) & 0xff) as u8) as u64) << 48u64) | (((((x >> 56u64) & 0xff) as u8) as u64) << 56u64))
        == x) by (bit_vector);
}

/// Decoding the encoding of a 32-bit value gives the value back.
pub proof fn lemma_u32_round_trip(x: u32)
    ensures
        le_value_u32(le_bytes_u32(x)) == x,
        le_bytes_u32(x).len() == 4,
{
    let b = le_bytes_u32(x);
    assert(x >> 0u32 == x) by (bit_vector);
    assert(b[0] == (x & 0xff) as u8);
    assert(b[1] == ((x >> 8u32) & 0xff) as u8);
    assert(b[2] == ((x >> 16u32) & 0xff) as u8);
    assert(b[3] == ((x >> 24u32) & 0xff) as u8);
    assert(((((x & 0xff) as u8) as u32) | (((((x >> 8u32) & 0xff) as u8) as u32) << 8u32)
        | (((((x >> 16u32) & 0xff) as u8) as u32) << 16u32) | (((((x >> 24u32) & 0xff) as u8) as u32) << 24u32))
        == x) by (bit_vector);
}

/// Encoding the value read from eight bytes gives those bytes back.
pub proof fn lemma_bytes_of_u64_value(s: Seq<u8>)
    requires
        s.len() == 8,
    ensures
        le_bytes_u64(le_value_u64(s)) == s,
{
    let b0 = s[0];
    let b1 = s[1];
    let b2 = s[2];
    let b3 = s[3];
    let b4 = s[4];
    let b5 = s[5];
    let b6 = s[6];
    let b7 = s[7];
    let v = le_value_u64(s);
    assert(v == (b0 as u64) | ((b1 as u64) << 8u64) | ((b2 as u64) << 16u64) | ((b3 as u64) << 24u64)
        | ((b4 as u64) << 32u64) | ((b5 as u64) << 40u64) | ((b6 as u64) << 48u64) | ((b7 as u64) << 56u64));
    assert({
        &&& ((v >> 0u64) & 0xff) as u8 == b0
        &&& ((v >> 8u64) & 0xff) as u8 == b1
        &&& ((v >> 16u64) & 0xff) as u8 == b2
        &&& ((v >> 24u64) & 0xff) as u8 == b3
        &&& ((v >> 32u64) & 0xff) as u8 == b4
        &&& ((v >> 40u64) & 0xff) as u8 == b5
        &&& ((v >> 48u64) & 0xff) as u8 == b6
        &&& ((v >> 56u64) & 0xff) as u8 == b7
    }) by (bit_vector)
        requires
            v == (b0 as u64) | ((b1 as u64) << 8u64) | ((b2 as u64) << 16u64) | ((b3 as u64) << 24u64)
                | ((b4 as u64) << 32u64) | ((b5 as u64) << 40u64) | ((b6 as u64) << 48u64) | ((b7 as u64) << 56u64),
    ;
    assert(le_bytes_u64(v) =~= s);
}

/// Encoding the value read from four bytes gives those bytes back.
pub proof fn lemma_bytes_of_u32_value(s: Seq<u8>)
    requires
        s.len() == 4,
    ensures
        le_bytes_u32(le_value_u32(s)) == s,
{
    let b0 = s[0];
    let b1 = s[1];
    let b2 = s[2];
    let b3 = s[3];
    let v = le_value_u32(s);
    assert(v == (b0 as u32) | ((b1 as u32) << 8u32) | ((b2 as u32) << 16u32) | ((b3 as u32) << 24u32));
    assert({
        &&& ((v >> 0u32) & 0xff) as u8 == b0
        &&& ((v >> 8u32) & 0xff) as u8 == b1
        &&& ((v >> 16u32) & 0xff) as u8 == b2
        &&& ((v >> 24u32) & 0xff) as u8 == b3
    }) by (bit_vector)
        requires
            v == (b0 as u32) | ((b1 as u32) << 8u32) | ((b2 as u32) << 16u32) | ((b3 as u32) << 24u32),
    ;
    assert(le_bytes_u32(v) =~= s);
}

/// Appends the little-endian bytes of `x`.
pub fn put_u64(out: &mut Vec<u8>, x: u64)
    ensures
        final(out)@ == old(out)@ + le_bytes_u64(x),
{
    let mut i: u64 = 0;
    let ghost start = out@;
    while i < 8
        invariant
            i <= 8,
            out@ == start + le_bytes_u64(x).subrange(0, i as int),
        decreases 8 - i,
    {
        let b: u8 = ((x >> (8 * i)) & 0xff) as u8;
        out.push(b);
        assert(le_bytes_u64(x).subrange(0, i + 1) =~= le_bytes_u64(x).subrange(0, i as int).push(b));
        i = i + 1;
    }
    assert(le_bytes_u64(x).subrange(0, 8) =~= le_bytes_u64(x));
}

/// Appends the little-endian bytes of `x`.
pub fn put_u32(out: &mut Vec<u8>, x: u32)
    ensures
        final(out)@ == old(out)@ + le_bytes_u32(x),
{
    let mut i: u32 = 0;
    let ghost start = out@;
    while i < 4
        invariant
            i <= 4,
            out@ == start + le_bytes_u32(x).subrange(0, i as int),
        decreases 4 - i,
    {
        let b: u8 = ((x >> (8 * i)) & 0xff) as u8;
        out.push(b);
        assert(le_bytes_u32(x).subrange(0, i + 1) =~= le_bytes_u32(x).subrange(0, i as int).push(b));
        i = i + 1;
    }
    assert(le_bytes_u32(x).subrange(0, 4) =~= le_bytes_u32(x));
}

/// Appends the 32 bytes of an address.
pub fn put_pubkey(out: &mut Vec<u8>, key: &Pubkey)
    ensures
        final(out)@ == old(out)@ + key@,
{
    let mut i: usize = 0;
    let ghost start = out@;
    while i < 32
        invariant
            i <= 32,
            key@.len() == 32,
            out@ == start + key@.subrange(0, i as int),
        decreases 32 - i,
    {
        out.push(key.bytes[i]);
        assert(key@.subrange(0, i + 1) =~= key@.subrange(0, i as int).push(key.bytes[i as int]));
        i = i + 1;
    }
    assert(key@.subrange(0, 32) =~= key@);
}

/// Reads a little-endian 64-bit value at `pos`.
pub fn get_u64(data: &[u8], pos: usize) -> (r: u64)
    requires
        pos + 8 <= data@.len(),
    ensures
        r == le_value_u64(data@.subrange(pos as int, pos + 8)),
{
    (data[pos] as u64) | ((data[pos + 1] as u64) << 8u64) | ((data[pos + 2] as u64) << 16u64)
        | ((data[pos + 3] as u64) << 24u64) | ((data[pos + 4] as u64) << 32u64)
        | ((data[pos + 5] as u64) << 40u64) | ((data[pos + 6] as u64) << 48u64)
        | ((data[pos + 7] as u64) << 56u64)
}

/// Reads a little-endian 32-bit value at `pos`.
pub fn get_u32(data: &[u8], pos: usize) -> (r: u32)
    requires
        pos + 4 <= data@.len(),
    ensures
        r == le_value_u32(data@.subrange(pos as int, pos + 4)),
{
    (data[pos] as u32) | ((data[pos + 1] as u32) << 8u32) | ((data[pos + 2] as u32) << 16u32)
        | ((data[pos + 3] as u32) << 24u32)
}

/// Reads the 32 bytes of an address at `pos`.
pub fn get_pubkey(data: &[u8], pos: usize) -> (k: Pubkey)
    requires
        pos + 32 <= data@.len(),
    ensures
        k@ == data@.subrange(pos as int, pos + 32),
{
    let mut bytes: [u8; 32] = [0u8; 32];
    let n: usize = data.len();
    let mut i: usize = 0;
    while i < 32
        invariant
            i <= 32,
            data@.len() == n,
            pos + 32 <= data@.len(),
            bytes@.len() == 32,
            forall|j: int| 0 <= j < i ==> bytes@[j] == data@[pos + j],
        decreases 32 - i,
    {
        bytes[i] = data[pos + i];
        i = i + 1;
    }
    let k = Pubkey { bytes };
    assert(k@ =~= data@.subrange(pos as int, pos + 32));
    k
}

} // verus!
