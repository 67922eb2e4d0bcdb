//! Connection abstraction: the typed operations a connection offers, built
//! as the composition encode-then-frame on the send side and
//! read-frame-then-decode on the receive side.
//!
//! The byte stream itself is owned by the caller; these functions produce
//! the exact bytes to write for each typed message, and recover one typed
//! message from the front of received bytes.

use vstd::prelude::*;

use crate::codec::decode_job;
use crate::codec::decode_packet;
use crate::codec::encode_job;
use crate::codec::encode_packet;
use crate::codec::spec_decode_job;
use crate::codec::spec_decode_packet;
use crate::codec::spec_encode_job;
use crate::codec::spec_encode_packet;
use crate::framing::frame_payload_fits;
use crate::framing::read_frame;
use crate::framing::spec_encode_frame;
use crate::framing::spec_read_frame;
use crate::framing::write_frame;
use crate::messages::BuildJob;
use crate::messages::BuildResponse;
use crate::messages::ConnectPacket;
use crate::messages::Job;
use crate::messages::JobKind;
use crate::messages::JobView;
use crate::messages::ProtocolError;

verus! {

/// The framed wire bytes for a connect packet: what the client writes first
/// on every connection.
pub fn connect_packet_frame(p: &ConnectPacket) -> (r: Result<Vec<u8>, ProtocolError>)
    ensures
        match r {
            Ok(f) => frame_payload_fits(spec_encode_packet(p@).len()) && f@ == spec_encode_frame(
                spec_encode_packet(p@),
            ),
            Err(e) => e == ProtocolError::FrameTooLarge && !frame_payload_fits(
                spec_encode_packet(p@).len(),
            ),
        },
{
    let payload = encode_packet(p);
    write_frame(payload.as_slice())
}

/// The framed wire bytes for a build job: what the client sends after the
/// handshake.
pub fn build_job_frame(job: BuildJob) -> (r: Result<Vec<u8>, ProtocolError>)
    ensures
        ({
            let payload = spec_encode_job(JobView::Build { diff: job@ });
            match r {
                Ok(f) => frame_payload_fits(payload.len()) && f@ == spec_encode_frame(payload),
                Err(e) => e == ProtocolError::FrameTooLarge && !frame_payload_fits(payload.len()),
            }
        }),
{
    let j = Job { kind: JobKind::Build(job) };
    let payload = encode_job(&j);
    write_frame(payload.as_slice())
}

/// The framed wire bytes for a build response: what the server sends back
/// on success.
pub fn build_response_frame(resp: BuildResponse) -> (r: Result<Vec<u8>, ProtocolError>)
    ensures
        ({
            let payload = spec_encode_job(
                JobView::Response { checksum: resp.checksum, binary: resp.binary@ },
            );
            match r {
                Ok(f) => frame_payload_fits(payload.len()) && f@ == spec_encode_frame(payload),
                Err(e) => e == ProtocolError::FrameTooLarge && !frame_payload_fits(payload.len()),
            }
        }),
{
    let j = Job { kind: JobKind::BuildResponse(resp) };
    let payload = encode_job(&j);
    write_frame(payload.as_slice())
}

/// One connect packet from the front of `buf`, with the bytes consumed:
/// `Ok(None)` while `buf` holds no complete frame yet, an error when the
/// frame's payload is no packet encoding.
pub fn recv_connect_packet(buf: &[u8]) -> (r: Result<Option<(ConnectPacket, usize)>, ProtocolError>)
    ensures
        match r {
            Ok(Some((p, used))) => (spec_read_frame(buf@) matches Some((payload, n))
                && spec_decode_packet(payload) == Some(p@) && used == n),
            Ok(None) => spec_read_frame(buf@) is None,
            Err(e) => e == ProtocolError::MalformedMessage && (spec_read_frame(buf@) matches Some(
                (payload, n),
            ) && spec_decode_packet(payload) is None),
        },
{
    match read_frame(buf) {
        None => Ok(None),
        Some((payload, used)) => match decode_packet(payload.as_slice()) {
            Ok(p) => Ok(Some((p, used))),
            Err(e) => Err(e),
        },
    }
}

/// One job from the front of `buf`, with the bytes consumed: `Ok(None)`
/// while `buf` holds no complete frame yet, an error when the frame's
/// payload is no job encoding.
pub fn recv_job(buf: &[u8]) -> (r: Result<Option<(Job, usize)>, ProtocolError>)
    ensures
        match r {
            Ok(Some((j, used))) => (spec_read_frame(buf@) matches Some((payload, n))
                && spec_decode_job(payload) == Some(j@) && used == n),
            Ok(None) => spec_read_frame(buf@) is None,
            Err(e) => e == ProtocolError::MalformedMessage && (spec_read_frame(buf@) matches Some(
                (payload, n),
            ) && spec_decode_job(payload) is None),
        },
{
    match read_frame(buf) {
        None => Ok(None),
        Some((payload, used)) => match decode_job(payload.as_slice()) {
            Ok(j) => Ok(Some((j, used))),
            Err(e) => Err(e),
        },
    }
}

} // verus!
