//! How messages travel between the clients and the attestation manager over
//! TCP: each message is preceded by its length in bytes, as a big-endian
//! 32-bit unsigned integer.
use vstd::prelude::*;
use vstd::string::StringSliceAdditionalSpecFns;

verus! {

/// The big-endian bytes of `n`.
pub open spec fn be_bytes_u32(n: u32) -> Seq<u8> {
    seq![(n >> 24u32) as u8, (n >> 16u32) as u8, (n >> 8u32) as u8, n as u8]
}

/// The number whose big-endian bytes are `b0 b1 b2 b3`.
pub open spec fn be_value_u32(b0: u8, b1: u8, b2: u8, b3: u8) -> int {
    b0 * 0x100_0000 + b1 * 0x1_0000 + b2 * 0x100 + b3
}

/// The frame of a payload: its length, then the payload.
pub open spec fn spec_encode_frame(payload: Seq<u8>) -> Seq<u8> {
    be_bytes_u32(payload.len() as u32) + payload
}

/// The length that the first four bytes of a frame announce.
pub open spec fn spec_frame_size(buf: Seq<u8>) -> int {
    be_value_u32(buf[0], buf[1], buf[2], buf[3])
}

/// The payload of the frame at the start of `buf`, when `buf` holds a whole frame.
pub open spec fn spec_decode_frame(buf: Seq<u8>) -> Option<Seq<u8>> {
    if buf.len() >= 4 && buf.len() - 4 >= spec_frame_size(buf) {
        Some(buf.subrange(4, 4 + spec_frame_size(buf)))
    } else {
        None
    }
}

/// What follows the length of a frame, when `buf` holds a length.
pub open spec fn spec_strip_frame_header(buf: Seq<u8>) -> Option<Seq<u8>> {
    if buf.len() >= 4 {
        Some(buf.subrange(4, buf.len() as int))
    } else {
        None
    }
}

/// Reading a length back from its big-endian bytes gives the length.
pub proof fn law_be_bytes_roundtrip(n: u32)
    ensures
        be_value_u32(be_bytes_u32(n)[0], be_bytes_u32(n)[1], be_bytes_u32(n)[2], be_bytes_u32(n)[3])
            == n,
{
    let b0 = (n >> 24u32) as u8;
    let b1 = (n >> 16u32) as u8;
    let b2 = (n >> 8u32) as u8;
    let b3 = n as u8;
    assert(b0 * 0x100_0000 + b1 * 0x1_0000 + b2 * 0x100 + b3 == n) by (bit_vector)
        requires
            b0 == (n >> 24u32) as u8,
            b1 == (n >> 16u32) as u8,
            b2 == (n >> 8u32) as u8,
            b3 == n as u8,
    ;
}

/// A receiver that reads a whole frame gets back the payload that was sent.
pub proof fn law_frame_roundtrip(payload: Seq<u8>)
    requires
        payload.len() <= u32::MAX,
    ensures
        spec_decode_frame(spec_encode_frame(payload)) == Some(payload),
{
    let n = payload.len() as u32;
    let buf = spec_encode_frame(payload);
    law_be_bytes_roundtrip(n);
    assert(spec_frame_size(buf) == n);
    assert(buf.subrange(4, 4 + n) =~= payload);
}

/// A receiver that reads one frame gets back the payload that was sent,
/// whatever bytes follow the frame.
pub proof fn law_frame_roundtrip_with_trailing(payload: Seq<u8>, rest: Seq<u8>)
    requires
        payload.len() <= u32::MAX,
    ensures
        spec_decode_frame(spec_encode_frame(payload) + rest) == Some(payload),
{
    let n = payload.len() as u32;
    let buf = spec_encode_frame(payload) + rest;
    law_be_bytes_roundtrip(n);
    assert(spec_frame_size(buf) == n);
    assert(buf.subrange(4, 4 + n) =~= payload);
}

/// A receiver that skips the length and reads to the end gets back the
/// payload that was sent.
pub proof fn law_frame_strip_roundtrip(payload: Seq<u8>)
    requires
        payload.len() <= u32::MAX,
    ensures
        spec_strip_frame_header(spec_encode_frame(payload)) == Some(payload),
{
    let buf = spec_encode_frame(payload);
    assert(buf.subrange(4, buf.len() as int) =~= payload);
}

/// The frame of `payload`: its length as four big-endian bytes, then the payload.
pub fn encode_frame(payload: &[u8]) -> (frame: Vec<u8>)
    requires
        payload@.len() <= u32::MAX,
    ensures
        frame@ == spec_encode_frame(payload@),
{
    let n = payload.len() as u32;
    let mut frame: Vec<u8> = Vec::new();
    frame.push((n >> 24u32) as u8);
    frame.push((n >> 16u32) as u8);
    frame.push((n >> 8u32) as u8);
    frame.push(n as u8);
    let len = payload.len();
    let mut i: usize = 0;
    while i < len
        invariant
            len == payload@.len(),
            n == len,
            i <= len,
            frame@ == be_bytes_u32(n) + payload@.subrange(0, i as int),
        decreases len - i,
    {
        frame.push(payload[i]);
        proof {
            assert(payload@.subrange(0, i + 1) =~= payload@.subrange(0, i as int).push(payload@[i as int]));
        }
        i = i + 1;
    }
    proof {
        assert(payload@.subrange(0, len as int) =~= payload@);
    }
    frame
}

/// The frame of the text `s`: the length of its UTF-8 bytes, then the bytes.
pub fn encode_message(s: &str) -> (frame: Vec<u8>)
    requires
        s.spec_bytes().len() <= u32::MAX,
    ensures
        frame@ == spec_encode_frame(s.spec_bytes()),
{
    encode_frame(s.as_bytes())
}

/// The length that the first four bytes of `buf` announce.
pub fn frame_size(buf: &[u8]) -> (size: u32)
    requires
        buf@.len() >= 4,
    ensures
        size == spec_frame_size(buf@),
{
    let b0 = buf[0];
    let b1 = buf[1];
    let b2 = buf[2];
    let b3 = buf[3];
    assert(b0 * 0x100_0000 + b1 * 0x1_0000 + b2 * 0x100 + b3 <= u32::MAX) by (nonlinear_arith)
        requires
            b0 <= 255,
            b1 <= 255,
            b2 <= 255,
            b3 <= 255,
    ;
    (b0 as u32) * 0x100_0000 + (b1 as u32) * 0x1_0000 + (b2 as u32) * 0x100 + (b3 as u32)
}

/// The payload of the frame at the start of `buf`, or `None` when `buf`
/// does not hold the whole frame.
pub fn decode_frame(buf: &[u8]) -> (payload: Option<Vec<u8>>)
    ensures
        match payload {
            Some(p) => spec_decode_frame(buf@) == Some(p@),
            None => spec_decode_frame(buf@) is None,
        },
{
    if buf.len() < 4 {
        return None;
    }
    let size = frame_size(buf);
    if buf.len() - 4 < size as usize {
        return None;
    }
    Some(copy_range(buf, 4, 4 + size as usize))
}

/// What follows the length at the start of `buf`, or `None` when `buf` is
/// shorter than a length.
pub fn strip_frame_header(buf: &[u8]) -> (payload: Option<Vec<u8>>)
    ensures
        match payload {
            Some(p) => spec_strip_frame_header(buf@) == Some(p@),
            None => spec_strip_frame_header(buf@) is None,
        },
{
    if buf.len() < 4 {
        return None;
    }
    Some(copy_range(buf, 4, buf.len()))
}

/// The bytes of `buf` from `start` up to `end`.
fn copy_range(buf: &[u8], start: usize, end: usize) -> (out: Vec<u8>)
    requires
        start <= end <= buf@.len(),
    ensures
        out@ == buf@.subrange(start as int, end as int),
{
    let mut out: Vec<u8> = Vec::new();
    let mut i = start;
    while i < end
        invariant
            start <= i <= end <= buf@.len(),
            out@ == buf@.subrange(start as int, i as int),
        decreases end - i,
    {
        out.push(buf[i]);
        proof {
            assert(buf@.subrange(start as int, i + 1) =~= buf@.subrange(start as int, i as int).push(
                buf@[i as int],
            ));
        }
        i = i + 1;
    }
    out
}

} // verus!
