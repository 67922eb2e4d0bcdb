//! Message codec: a deterministic, self-describing binary serialization of
//! the typed protocol messages, and its inverse.
//!
//! A connect packet is a presence tag, then — when the secret is present —
//! its byte length as a little-endian `u64` followed by its UTF-8 bytes.
//! A job is a variant tag, then the variant's fields: the diff (or artifact)
//! bytes behind a little-endian `u64` length, and, for a response, the
//! checksum as a little-endian `u32` before them. Decoding consumes the
//! whole payload and fails on anything that no message encodes to.

use vstd::prelude::*;
use vstd::bytes::lemma_auto_spec_u32_to_from_le_bytes;
use vstd::bytes::lemma_auto_spec_u64_to_from_le_bytes;
use vstd::bytes::spec_u32_from_le_bytes;
use vstd::bytes::spec_u32_to_le_bytes;
use vstd::bytes::spec_u64_from_le_bytes;
use vstd::bytes::spec_u64_to_le_bytes;
use vstd::bytes::u32_from_le_bytes;
use vstd::bytes::u32_to_le_bytes;
use vstd::bytes::u64_from_le_bytes;
use vstd::bytes::u64_to_le_bytes;
use vstd::slice::slice_subrange;
use vstd::slice::slice_to_vec;
use vstd::string::StrSliceExecFns;
use vstd::utf8::decode_utf8;
use vstd::utf8::encode_utf8;
use vstd::utf8::encode_utf8_decode_utf8;
use vstd::utf8::encode_utf8_valid_utf8;
use vstd::utf8::valid_utf8;

use crate::messages::ConnectPacket;
use crate::messages::Job;
use crate::messages::JobKind;
use crate::messages::JobView;
use crate::messages::ProtocolError;

verus! {

/// The payload bytes a connect packet encodes to.
pub open spec fn spec_encode_packet(p: Option<Seq<char>>) -> Seq<u8> {
    match p {
        None => seq![0u8],
        Some(s) => seq![1u8] + spec_u64_to_le_bytes(encode_utf8(s).len() as u64) + encode_utf8(s),
    }
}

/// The connect packet a payload decodes to, or nothing when the payload is
/// truncated or structurally invalid.
pub open spec fn spec_decode_packet(b: Seq<u8>) -> Option<Option<Seq<char>>> {
    if b.len() == 1 && b[0] == 0 {
        Some(None)
    } else if b.len() >= 9 && b[0] == 1 && spec_u64_from_le_bytes(b.subrange(1, 9)) == b.len() - 9
        && valid_utf8(b.subrange(9, b.len() as int)) {
        Some(Some(decode_utf8(b.subrange(9, b.len() as int))))
    } else {
        None
    }
}

/// The payload bytes a job encodes to.
pub open spec fn spec_encode_job(j: JobView) -> Seq<u8> {
    match j {
        JobView::Build { diff } => seq![0u8] + spec_u64_to_le_bytes(diff.len() as u64) + diff,
        JobView::Response { checksum, binary } => seq![1u8] + spec_u32_to_le_bytes(checksum)
            + spec_u64_to_le_bytes(binary.len() as u64) + binary,
    }
}

/// The job a payload decodes to, or nothing when the payload is truncated
/// or structurally invalid.
pub open spec fn spec_decode_job(b: Seq<u8>) -> Option<JobView> {
    if b.len() >= 9 && b[0] == 0 && spec_u64_from_le_bytes(b.subrange(1, 9)) == b.len() - 9 {
        Some(JobView::Build { diff: b.subrange(9, b.len() as int) })
    } else if b.len() >= 13 && b[0] == 1 && spec_u64_from_le_bytes(b.subrange(5, 13)) == b.len()
        - 13 {
        Some(
            JobView::Response {
                checksum: spec_u32_from_le_bytes(b.subrange(1, 5)),
                binary: b.subrange(13, b.len() as int),
            },
        )
    } else {
        None
    }
}

/// Codec round-trip for connect packets: decoding any encoding of `p`
/// yields exactly `p`, for every representable packet.
pub proof fn lemma_packet_round_trip(p: Option<Seq<char>>)
    requires
        p matches Some(s) ==> encode_utf8(s).len() <= u64::MAX,
    ensures
        spec_decode_packet(spec_encode_packet(p)) == Some(p),
{
    lemma_auto_spec_u64_to_from_le_bytes();
    match p {
        None => {
            assert(spec_encode_packet(p).len() == 1);
        },
        Some(s) => {
            let u = encode_utf8(s);
            let b = spec_encode_packet(p);
            encode_utf8_valid_utf8(s);
            encode_utf8_decode_utf8(s);
            assert(b.len() == 9 + u.len());
            assert(b[0] == 1);
            assert(b.subrange(1, 9) =~= spec_u64_to_le_bytes(u.len() as u64));
            assert(b.subrange(9, b.len() as int) =~= u);
        },
    }
}

/// Codec round-trip for jobs: decoding any encoding of `j` yields exactly
/// `j`, for every representable job.
pub proof fn lemma_job_round_trip(j: JobView)
    requires
        j matches JobView::Build { diff } ==> diff.len() <= u64::MAX,
        j matches JobView::Response { binary, .. } ==> binary.len() <= u64::MAX,
    ensures
        spec_decode_job(spec_encode_job(j)) == Some(j),
{
    lemma_auto_spec_u32_to_from_le_bytes();
    lemma_auto_spec_u64_to_from_le_bytes();
    let b = spec_encode_job(j);
    match j {
        JobView::Build { diff } => {
            assert(b.len() == 9 + diff.len());
            assert(b[0] == 0);
            assert(b.subrange(1, 9) =~= spec_u64_to_le_bytes(diff.len() as u64));
            assert(b.subrange(9, b.len() as int) =~= diff);
            assert(spec_decode_job(b) matches Some(d) && d =~= j);
        },
        JobView::Response { checksum, binary } => {
            assert(b.len() == 13 + binary.len());
            assert(b[0] == 1);
            assert(b.subrange(1, 5) =~= spec_u32_to_le_bytes(checksum));
            assert(b.subrange(5, 13) =~= spec_u64_to_le_bytes(binary.len() as u64));
            assert(b.subrange(13, b.len() as int) =~= binary);
            assert(spec_decode_job(b) matches Some(d) && d =~= j);
        },
    }
}

/// Relies on `String::from_utf8`: it succeeds exactly on valid UTF-8 input
/// and returns the string whose UTF-8 encoding is that input.
#[verifier::external_body]
fn string_from_utf8(bytes: Vec<u8>) -> (r: Option<String>)
    ensures
        r matches Some(s) ==> bytes@ == encode_utf8(s@),
        valid_utf8(bytes@) ==> r is Some,
{
    String::from_utf8(bytes).ok()
}

/// Serializes a connect packet into a frame payload.
pub fn encode_packet(p: &ConnectPacket) -> (r: Vec<u8>)
    ensures
        r@ == spec_encode_packet(p@),
{
    match &p.auth {
        None => {
            let mut v: Vec<u8> = Vec::new();
            v.push(0u8);
            proof {
                assert(v@ =~= spec_encode_packet(p@));
            }
            v
        },
        Some(s) => {
            let mut bytes = s.as_str().as_bytes_vec();
            let mut v: Vec<u8> = Vec::new();
            v.push(1u8);
            let mut lenb = u64_to_le_bytes(bytes.len() as u64);
            v.append(&mut lenb);
            v.append(&mut bytes);
            proof {
                assert(v@ =~= spec_encode_packet(p@));
            }
            v
        },
    }
}

/// Deserializes a connect packet from a frame payload. Fails — with
/// `MalformedMessage`, never a panic — if and only if the payload is no
/// packet encoding.
pub fn decode_packet(b: &[u8]) -> (r: Result<ConnectPacket, ProtocolError>)
    ensures
        match r {
            Ok(p) => spec_decode_packet(b@) == Some(p@),
            Err(e) => e == ProtocolError::MalformedMessage && spec_decode_packet(b@) is None,
        },
{
    if b.len() == 1 && *vstd::slice::slice_index_get(b, 0) == 0u8 {
        Ok(ConnectPacket { auth: None })
    } else if b.len() >= 9 && *vstd::slice::slice_index_get(b, 0) == 1u8 {
        let n = u64_from_le_bytes(slice_subrange(b, 1, 9));
        if n == (b.len() - 9) as u64 {
            let body = slice_to_vec(slice_subrange(b, 9, b.len()));
            match string_from_utf8(body) {
                Some(s) => {
                    proof {
                        encode_utf8_valid_utf8(s@);
                        encode_utf8_decode_utf8(s@);
                    }
                    Ok(ConnectPacket { auth: Some(s) })
                },
                None => Err(ProtocolError::MalformedMessage),
            }
        } else {
            Err(ProtocolError::MalformedMessage)
        }
    } else {
        Err(ProtocolError::MalformedMessage)
    }
}

/// Serializes a job into a frame payload.
pub fn encode_job(j: &Job) -> (r: Vec<u8>)
    ensures
        r@ == spec_encode_job(j@),
{
    match &j.kind {
        JobKind::Build(job) => {
            let mut v: Vec<u8> = Vec::new();
            v.push(0u8);
            let mut lenb = u64_to_le_bytes(job.diff.len() as u64);
            v.append(&mut lenb);
            let mut body = slice_to_vec(job.diff.as_slice());
            v.append(&mut body);
            proof {
                assert(v@ =~= spec_encode_job(j@));
            }
            v
        },
        JobKind::BuildResponse(resp) => {
            let mut v: Vec<u8> = Vec::new();
            v.push(1u8);
            let mut csumb = u32_to_le_bytes(resp.checksum);
            v.append(&mut csumb);
            let mut lenb = u64_to_le_bytes(resp.binary.len() as u64);
            v.append(&mut lenb);
            let mut body = slice_to_vec(resp.binary.as_slice());
            v.append(&mut body);
            proof {
                assert(v@ =~= spec_encode_job(j@));
            }
            v
        },
    }
}

/// Deserializes a job from a frame payload. Fails — with
/// `MalformedMessage`, never a panic — if and only if the payload is no job
/// encoding.
pub fn decode_job(b: &[u8]) -> (r: Result<Job, ProtocolError>)
    ensures
        match r {
            Ok(j) => spec_decode_job(b@) == Some(j@),
            Err(e) => e == ProtocolError::MalformedMessage && spec_decode_job(b@) is None,
        },
{
    if b.len() >= 9 && *vstd::slice::slice_index_get(b, 0) == 0u8 {
        let n = u64_from_le_bytes(slice_subrange(b, 1, 9));
        if n == (b.len() - 9) as u64 {
            let diff = slice_to_vec(slice_subrange(b, 9, b.len()));
            let job = Job { kind: JobKind::Build(crate::messages::BuildJob { diff }) };
            proof {
                assert(spec_decode_job(b@) matches Some(d) && d =~= job@);
            }
            Ok(job)
        } else {
            Err(ProtocolError::MalformedMessage)
        }
    } else if b.len() >= 13 && *vstd::slice::slice_index_get(b, 0) == 1u8 {
        let n = u64_from_le_bytes(slice_subrange(b, 5, 13));
        if n == (b.len() - 13) as u64 {
            let checksum = u32_from_le_bytes(slice_subrange(b, 1, 5));
            let binary = slice_to_vec(slice_subrange(b, 13, b.len()));
            let job = Job {
                kind: JobKind::BuildResponse(crate::messages::BuildResponse { checksum, binary }),
            };
            proof {
                assert(spec_decode_job(b@) matches Some(d) && d =~= job@);
            }
            Ok(job)
        } else {
            Err(ProtocolError::MalformedMessage)
        }
    } else {
        Err(ProtocolError::MalformedMessage)
    }
}

} // verus!
