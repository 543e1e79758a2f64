//! Wire framing for the point-to-point transport: every message is a 4-byte
//! little-endian length prefix followed by exactly that many payload bytes.
//! The encoder and decoder are verified inverses; the streams they feed are
//! outside this library.

use vstd::prelude::*;

verus! {

/// The four little-endian bytes of a 32-bit length.
pub open spec fn spec_u32_le(n: u32) -> Seq<u8> {
    Seq::new(4, |i: int| ((n >> ((8 * i) as u32)) & 0xff) as u8)
}

/// The 32-bit value four little-endian bytes stand for.
pub open spec fn spec_le_u32(b: Seq<u8>) -> u32
    recommends
        b.len() == 4,
{
    (b[0] as u32) | ((b[1] as u32) << 8) | ((b[2] as u32) << 16) | ((b[3] as u32) << 24)
}

/// A framed message: length prefix, then the payload.
pub open spec fn spec_frame(data: Seq<u8>) -> Seq<u8>
    recommends
        data.len() <= u32::MAX,
{
    spec_u32_le(data.len() as u32) + data
}

/// The payload a framed byte sequence declares and carries, if the sequence
/// is long enough to hold it.
pub open spec fn spec_unframe(buf: Seq<u8>) -> Option<Seq<u8>> {
    if buf.len() >= 4 {
        let n = spec_le_u32(buf.take(4)) as int;
        if 4 + n <= buf.len() {
            Some(buf.subrange(4, 4 + n))
        } else {
            None
        }
    } else {
        None
    }
}

/// Frames `data` for the wire: 4-byte little-endian length prefix, then the
/// payload.
pub fn encode_frame(data: &Vec<u8>) -> (r: Vec<u8>)
    requires
        data@.len() <= u32::MAX,
    ensures
        r@ == spec_frame(data@),
{
    let n: u32 = data.len() as u32;
    let mut out: Vec<u8> = Vec::new();
    proof {
        assert(n >> 0u32 == n) by (bit_vector);
    }
    out.push((n & 0xff) as u8);
    out.push(((n >> 8) & 0xff) as u8);
    out.push(((n >> 16) & 0xff) as u8);
    out.push(((n >> 24) & 0xff) as u8);
    let mut i: usize = 0;
    while i < data.len()
        invariant
            i <= data@.len(),
            out@ == spec_u32_le(data@.len() as u32) + data@.take(i as int),
        decreases data@.len() - i,
    {
        out.push(data[i]);
        proof {
            assert(spec_u32_le(data@.len() as u32) + data@.take(i + 1) =~= (spec_u32_le(
                data@.len() as u32,
            ) + data@.take(i as int)).push(data@[i as int]));
        }
        i = i + 1;
    }
    proof {
        assert(out@ =~= spec_frame(data@));
        assert(spec_u32_le(data@.len() as u32) + data@.take(i as int) =~= spec_frame(data@));
    }
    out
}

/// Reads the length a 4-byte header declares.
pub fn frame_len(header: &[u8]) -> (r: u32)
    requires
        header@.len() == 4,
    ensures
        r == spec_le_u32(header@),
{
    (header[0] as u32) | ((header[1] as u32) << 8) | ((header[2] as u32) << 16) | ((
    header[3] as u32) << 24)
}

/// Recovers the payload from a framed byte sequence, or nothing when the
/// sequence is shorter than the length its prefix declares.
pub fn decode_frame(buf: &[u8]) -> (r: Option<Vec<u8>>)
    ensures
        match r {
            Some(payload) => spec_unframe(buf@) == Some(payload@),
            None => spec_unframe(buf@) is None,
        },
{
    if buf.len() < 4 {
        return None;
    }
    let header = vstd::slice::slice_subrange(buf, 0, 4);
    proof {
        assert(buf@.subrange(0, 4) =~= buf@.take(4));
    }
    let n = frame_len(header) as usize;
    if n > buf.len() - 4 {
        return None;
    }
    let payload = vstd::slice::slice_to_vec(vstd::slice::slice_subrange(buf, 4, 4 + n));
    Some(payload)
}

/// Framing round trip: a message framed by `encode_frame` and read back by
/// `decode_frame` delivers the exact byte sequence and length sent.
pub proof fn lemma_frame_round_trip(data: Seq<u8>)
    requires
        data.len() <= u32::MAX,
    ensures
        spec_unframe(spec_frame(data)) == Some(data),
{
    let n = data.len() as u32;
    lemma_le_u32_round_trip(n);
    assert(spec_frame(data).take(4) =~= spec_u32_le(n));
    assert(spec_frame(data).subrange(4, 4 + n as int) =~= data);
}

/// The little-endian length prefix decodes to the length it encodes.
proof fn lemma_le_u32_round_trip(n: u32)
    ensures
        spec_le_u32(spec_u32_le(n)) == n,
{
    assert((((((n >> 0) & 0xff) as u8) as u32) | (((((n >> 8) & 0xff) as u8) as u32) << 8) | ((
    (((n >> 16) & 0xff) as u8) as u32) << 16) | (((((n >> 24) & 0xff) as u8) as u32) << 24)) == n)
        by (bit_vector);
}

} // verus!
