//! Framing layer: turns an opaque byte payload into a length-prefixed wire
//! unit and back. A frame is a 4-byte little-endian unsigned length followed
//! by exactly that many payload bytes. No payload-content validation happens
//! here.

use vstd::prelude::*;
use vstd::bytes::lemma_auto_spec_u32_to_from_le_bytes;
use vstd::bytes::spec_u32_from_le_bytes;
use vstd::bytes::spec_u32_to_le_bytes;
use vstd::bytes::u32_from_le_bytes;
use vstd::bytes::u32_to_le_bytes;
use vstd::slice::slice_subrange;
use vstd::slice::slice_to_vec;

use crate::messages::ProtocolError;

verus! {

/// A frame's length prefix can describe at most this many payload bytes.
pub open spec fn frame_payload_fits(len: nat) -> bool {
    len <= u32::MAX
}

/// The bytes a frame puts on the wire for `payload`.
pub open spec fn spec_encode_frame(payload: Seq<u8>) -> Seq<u8>
    recommends
        frame_payload_fits(payload.len()),
{
    spec_u32_to_le_bytes(payload.len() as u32) + payload
}

/// What reading one frame from the front of `buf` yields: the payload and
/// the number of bytes consumed, or nothing while `buf` does not yet hold a
/// whole frame.
pub open spec fn spec_read_frame(buf: Seq<u8>) -> Option<(Seq<u8>, int)> {
    if buf.len() < 4 {
        None
    } else {
        let len = spec_u32_from_le_bytes(buf.subrange(0, 4)) as int;
        if buf.len() < 4 + len {
            None
        } else {
            Some((buf.subrange(4, 4 + len), 4 + len))
        }
    }
}

/// Framing round-trip: a frame followed by any further stream content reads
/// back as exactly the payload it was written from, consuming exactly the
/// frame's bytes.
pub proof fn lemma_frame_round_trip(payload: Seq<u8>, rest: Seq<u8>)
    requires
        frame_payload_fits(payload.len()),
    ensures
        spec_read_frame(spec_encode_frame(payload) + rest) == Some(
            (payload, 4 + payload.len() as int),
        ),
{
    lemma_auto_spec_u32_to_from_le_bytes();
    let buf = spec_encode_frame(payload) + rest;
    assert(buf.subrange(0, 4) =~= spec_u32_to_le_bytes(payload.len() as u32));
    assert(buf.subrange(4, 4 + payload.len() as int) =~= payload);
}

/// Builds the wire frame for `payload`: the 4-byte little-endian length,
/// then the payload. Fails if and only if the payload is longer than the
/// length prefix can describe.
pub fn write_frame(payload: &[u8]) -> (r: Result<Vec<u8>, ProtocolError>)
    ensures
        match r {
            Ok(frame) => frame_payload_fits(payload@.len()) && frame@ == spec_encode_frame(
                payload@,
            ),
            Err(e) => e == ProtocolError::FrameTooLarge && !frame_payload_fits(payload@.len()),
        },
{
    if payload.len() as u64 > u32::MAX as u64 {
        return Err(ProtocolError::FrameTooLarge);
    }
    let mut frame = u32_to_le_bytes(payload.len() as u32);
    let mut body = slice_to_vec(payload);
    frame.append(&mut body);
    Ok(frame)
}

/// The payload byte count that a frame's 4 header bytes declare: how much a
/// stream reader must take off the wire after the header.
pub fn frame_header_len(header: &[u8]) -> (n: u32)
    requires
        header@.len() == 4,
    ensures
        n == spec_u32_from_le_bytes(header@),
{
    u32_from_le_bytes(header)
}

/// Reads one frame from the front of `buf`: exactly 4 length bytes, then
/// exactly that many payload bytes. Returns the payload and the bytes
/// consumed, or `None` while `buf` holds no complete frame yet (the caller
/// decides whether that means waiting for more bytes or a closed stream).
pub fn read_frame(buf: &[u8]) -> (r: Option<(Vec<u8>, usize)>)
    ensures
        match r {
            Some((payload, used)) => spec_read_frame(buf@) == Some((payload@, used as int)),
            None => spec_read_frame(buf@) is None,
        },
{
    if buf.len() < 4 {
        return None;
    }
    let len32 = u32_from_le_bytes(slice_subrange(buf, 0, 4));
    let len = len32 as usize;
    if buf.len() - 4 < len {
        return None;
    }
    let payload = slice_to_vec(slice_subrange(buf, 4, 4 + len));
    Some((payload, 4 + len))
}

} // verus!
