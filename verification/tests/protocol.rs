use remcmp::checksum::matches_checksum;
use remcmp::client::{ClientSession, ClientState};
use remcmp::codec::{decode_job, decode_packet, encode_job, encode_packet};
use remcmp::connection::{
    build_job_frame, build_response_frame, connect_packet_frame, recv_connect_packet, recv_job,
};
use remcmp::framing::{read_frame, write_frame};
use remcmp::messages::{
    BuildJob, BuildResponse, ConnectPacket, Job, JobKind, ProtocolError,
};
use remcmp::server::{BuildStep, ServerSession, ServerState};

fn packet(auth: Option<&str>) -> ConnectPacket {
    ConnectPacket {
        auth: auth.map(|s| s.to_string()),
    }
}

fn build_job(diff: &[u8]) -> Job {
    Job {
        kind: JobKind::Build(BuildJob {
            diff: diff.to_vec(),
        }),
    }
}

fn response_job(checksum: u32, binary: &[u8]) -> Job {
    Job {
        kind: JobKind::BuildResponse(BuildResponse {
            checksum,
            binary: binary.to_vec(),
        }),
    }
}

// Codec round-trip: decode(encode(v)) == v for representable values.

#[test]
fn packet_round_trip_absent_auth() {
    let bytes = encode_packet(&packet(None));
    let decoded = decode_packet(&bytes).unwrap();
    assert_eq!(decoded.auth, None);
}

#[test]
fn packet_round_trip_present_auth() {
    let bytes = encode_packet(&packet(Some("hunter2")));
    let decoded = decode_packet(&bytes).unwrap();
    assert_eq!(decoded.auth.as_deref(), Some("hunter2"));
}

#[test]
fn packet_round_trip_empty_auth() {
    let bytes = encode_packet(&packet(Some("")));
    let decoded = decode_packet(&bytes).unwrap();
    assert_eq!(decoded.auth.as_deref(), Some(""));
}

#[test]
fn packet_round_trip_multibyte_auth() {
    let bytes = encode_packet(&packet(Some("pa\u{df}w\u{f6}rd \u{2713}")));
    let decoded = decode_packet(&bytes).unwrap();
    assert_eq!(decoded.auth.as_deref(), Some("pa\u{df}w\u{f6}rd \u{2713}"));
}

#[test]
fn job_round_trip_build() {
    let job = build_job(b"--- a/x\n+++ b/x\n");
    let bytes = encode_job(&job);
    let decoded = decode_job(&bytes).unwrap();
    assert_eq!(decoded, job);
}

#[test]
fn job_round_trip_build_empty_diff() {
    let job = build_job(b"");
    let bytes = encode_job(&job);
    let decoded = decode_job(&bytes).unwrap();
    assert_eq!(decoded, job);
}

#[test]
fn job_round_trip_response() {
    let job = response_job(0xDEADBEEF, &[0, 1, 2, 255]);
    let bytes = encode_job(&job);
    let decoded = decode_job(&bytes).unwrap();
    assert_eq!(decoded, job);
}

// Malformed payloads fail with MalformedMessage, never panic.

#[test]
fn decode_packet_rejects_empty() {
    assert_eq!(decode_packet(&[]), Err(ProtocolError::MalformedMessage));
}

#[test]
fn decode_packet_rejects_bad_tag() {
    assert_eq!(decode_packet(&[7]), Err(ProtocolError::MalformedMessage));
}

#[test]
fn decode_packet_rejects_trailing_bytes_after_none() {
    assert_eq!(
        decode_packet(&[0, 0]),
        Err(ProtocolError::MalformedMessage)
    );
}

#[test]
fn decode_packet_rejects_length_mismatch() {
    // Tag "present", declared length 2, but only one byte of secret follows.
    let bytes = [1, 2, 0, 0, 0, 0, 0, 0, 0, b'a'];
    assert_eq!(decode_packet(&bytes), Err(ProtocolError::MalformedMessage));
}

#[test]
fn decode_packet_rejects_invalid_utf8() {
    // Tag "present", declared length 1, followed by a lone continuation byte.
    let bytes = [1, 1, 0, 0, 0, 0, 0, 0, 0, 0xFF];
    assert_eq!(decode_packet(&bytes), Err(ProtocolError::MalformedMessage));
}

#[test]
fn decode_job_rejects_truncated() {
    let job = build_job(b"abc");
    let bytes = encode_job(&job);
    assert_eq!(
        decode_job(&bytes[..bytes.len() - 1]),
        Err(ProtocolError::MalformedMessage)
    );
}

#[test]
fn decode_job_rejects_bad_tag() {
    let bytes = [9, 0, 0, 0, 0, 0, 0, 0, 0];
    assert_eq!(decode_job(&bytes), Err(ProtocolError::MalformedMessage));
}

// Framing: read_frame(write_frame(p)) yields exactly p.

#[test]
fn frame_round_trip() {
    let payload = b"some bytes".to_vec();
    let frame = write_frame(&payload).unwrap();
    let (read, used) = read_frame(&frame).unwrap();
    assert_eq!(read, payload);
    assert_eq!(used, frame.len());
}

#[test]
fn frame_round_trip_empty_payload() {
    let frame = write_frame(&[]).unwrap();
    assert_eq!(frame, vec![0, 0, 0, 0]);
    let (read, used) = read_frame(&frame).unwrap();
    assert_eq!(read, Vec::<u8>::new());
    assert_eq!(used, 4);
}

#[test]
fn frame_layout_is_length_prefix_little_endian() {
    let frame = write_frame(&[0xAB; 300]).unwrap();
    assert_eq!(&frame[..4], &[44, 1, 0, 0]);
    assert_eq!(frame.len(), 304);
}

#[test]
fn read_frame_waits_for_missing_bytes() {
    // A header declaring the largest possible payload, with none of it here.
    assert_eq!(read_frame(&[0xFF, 0xFF, 0xFF, 0xFF]), None);
    assert_eq!(read_frame(&[5, 0, 0]), None);
    let frame = write_frame(b"abcdef").unwrap();
    assert_eq!(read_frame(&frame[..frame.len() - 1]), None);
}

#[test]
fn read_frame_leaves_following_bytes() {
    let mut stream = write_frame(b"first").unwrap();
    stream.extend_from_slice(&write_frame(b"second").unwrap());
    let (one, used) = read_frame(&stream).unwrap();
    assert_eq!(one, b"first".to_vec());
    let (two, used2) = read_frame(&stream[used..]).unwrap();
    assert_eq!(two, b"second".to_vec());
    assert_eq!(used + used2, stream.len());
}

// Auth: exact equality, both-absent matches, anything else is rejected
// before any job is exchanged.

#[test]
fn handshake_succeeds_authless() {
    let mut server = ServerSession::new(None);
    assert_eq!(server.on_connect_packet(&packet(None)), Ok(()));
    assert_eq!(server.state, ServerState::AwaitingJob);
}

#[test]
fn handshake_succeeds_matching_secret() {
    let mut server = ServerSession::new(Some("hunter2".to_string()));
    assert_eq!(server.on_connect_packet(&packet(Some("hunter2"))), Ok(()));
    assert_eq!(server.state, ServerState::AwaitingJob);
}

#[test]
fn handshake_rejects_wrong_secret() {
    let mut server = ServerSession::new(Some("hunter2".to_string()));
    assert_eq!(
        server.on_connect_packet(&packet(Some("hunter3"))),
        Err(ProtocolError::AuthRejected)
    );
    assert_eq!(server.state, ServerState::Failed);
}

#[test]
fn handshake_rejects_missing_secret() {
    let mut server = ServerSession::new(Some("hunter2".to_string()));
    assert_eq!(
        server.on_connect_packet(&packet(None)),
        Err(ProtocolError::AuthRejected)
    );
    assert_eq!(server.state, ServerState::Failed);
}

#[test]
fn handshake_rejects_unexpected_secret() {
    let mut server = ServerSession::new(None);
    assert_eq!(
        server.on_connect_packet(&packet(Some("hunter2"))),
        Err(ProtocolError::AuthRejected)
    );
    assert_eq!(server.state, ServerState::Failed);
}

// Direction invariant: a server receiving a response-variant job fails with
// the protocol-direction error and never starts a build; same for a client
// receiving a build-variant job.

#[test]
fn server_rejects_response_variant_job() {
    let mut server = ServerSession::new(None);
    server.on_connect_packet(&packet(None)).unwrap();
    let r = server.on_job(response_job(1, &[2]));
    assert_eq!(r, Err(ProtocolError::DirectionViolation));
    assert_eq!(server.state, ServerState::Failed);
}

#[test]
fn client_rejects_build_variant_job() {
    let mut client = ClientSession::new(None);
    let _ = client.connect_packet();
    let _ = client.build_job(b"diff".to_vec());
    let r = client.on_response(build_job(b"diff"));
    assert_eq!(r, Err(ProtocolError::DirectionViolation));
    assert_eq!(client.state, ClientState::Failed);
}

// Checksum verification.

#[test]
fn checksum_of_hello_matches() {
    let checksum = crc32fast::hash(b"hello");
    assert_eq!(checksum, 0x3610A686);
    assert!(matches_checksum(checksum, b"hello"));
}

#[test]
fn checksum_mismatch_is_detected() {
    let checksum = crc32fast::hash(b"hello");
    assert!(!matches_checksum(checksum.wrapping_add(1), b"hello"));
    assert!(!matches_checksum(checksum, b"hello world"));
    assert!(!matches_checksum(0, b"hello"));
}

#[test]
fn client_accepts_artifact_with_matching_checksum() {
    let mut client = ClientSession::new(None);
    let _ = client.connect_packet();
    let _ = client.build_job(b"diff".to_vec());
    let r = client.on_response(response_job(crc32fast::hash(b"hello"), b"hello"));
    assert_eq!(r, Ok(b"hello".to_vec()));
    assert_eq!(client.state, ClientState::Done);
}

#[test]
fn client_discards_artifact_with_wrong_checksum() {
    let mut client = ClientSession::new(None);
    let _ = client.connect_packet();
    let _ = client.build_job(b"diff".to_vec());
    let r = client.on_response(response_job(0x12345678, b"hello"));
    assert_eq!(r, Err(ProtocolError::ChecksumMismatch));
    assert_eq!(client.state, ClientState::Failed);
}

// Build executor step sequencing: reset and apply failures are fatal, a
// compile command's exit status is observed but non-fatal, a missing
// artifact is fatal.

#[test]
fn build_steps_run_in_order_on_success() {
    let mut step = BuildStep::first();
    assert_eq!(step, BuildStep::ResetTree);
    step = step.next(true);
    assert_eq!(step, BuildStep::ApplyDiff);
    step = step.next(true);
    assert_eq!(step, BuildStep::RunCompile);
    step = step.next(true);
    assert_eq!(step, BuildStep::ReadArtifact);
    step = step.next(true);
    assert_eq!(step, BuildStep::Done);
}

#[test]
fn build_apply_failure_is_fatal() {
    let step = BuildStep::first().next(true);
    assert_eq!(step.next(false), BuildStep::Failed);
}

#[test]
fn build_compile_failure_is_not_fatal() {
    let step = BuildStep::RunCompile;
    assert_eq!(step.next(false), BuildStep::ReadArtifact);
    assert_eq!(step.next(true), BuildStep::ReadArtifact);
}

// End-to-end scenario over an in-memory wire: authless client and server,
// the diff applies, the compile step writes [1, 2, 3], the client verifies
// and accepts exactly those bytes.

#[test]
fn end_to_end_build_succeeds() {
    let diff = b"--- a/x\n+++ b/x\n@@ -1 +1 @@\n-a\n+b\n";
    let mut client = ClientSession::new(None);
    let mut server = ServerSession::new(None);

    // Client sends the connect packet and the build job as two frames.
    let mut wire = connect_packet_frame(&client.connect_packet()).unwrap();
    let job = client.build_job(diff.to_vec());
    let Job { kind } = job;
    let JobKind::Build(build) = kind else {
        panic!("client sends a build job");
    };
    wire.extend_from_slice(&build_job_frame(build).unwrap());

    // Server reads both, checks auth, dispatches the job.
    let (pkt, used) = recv_connect_packet(&wire).unwrap().unwrap();
    server.on_connect_packet(&pkt).unwrap();
    let (job, used2) = recv_job(&wire[used..]).unwrap().unwrap();
    assert_eq!(used + used2, wire.len());
    let received = server.on_job(job).unwrap();
    assert_eq!(received.diff, diff.to_vec());

    // The external build steps all succeed and the artifact is [1, 2, 3].
    let mut step = BuildStep::first();
    while step != BuildStep::Done {
        step = step.next(true);
    }
    let artifact = vec![1, 2, 3];
    let resp = server.on_artifact(artifact.clone());
    assert_eq!(resp.checksum, crc32fast::hash(&[1, 2, 3]));

    // The response travels back and the client verifies it.
    let reply_wire = build_response_frame(resp).unwrap();
    server.on_response_sent();
    assert_eq!(server.state, ServerState::Closed);
    let (reply, reply_used) = recv_job(&reply_wire).unwrap().unwrap();
    assert_eq!(reply_used, reply_wire.len());
    let installed = client.on_response(reply).unwrap();
    assert_eq!(installed, artifact);
    assert_eq!(client.state, ClientState::Done);
}

// Failure scenario: the compile step leaves no file at the output path, so
// the server job fails without a response and the client run ends failed
// once its connection drops.

#[test]
fn end_to_end_build_fails_on_missing_artifact() {
    let mut client = ClientSession::new(None);
    let mut server = ServerSession::new(None);

    let mut wire = connect_packet_frame(&client.connect_packet()).unwrap();
    let job = client.build_job(b"--- a/x\n+++ b/x\n".to_vec());
    let Job { kind } = job;
    let JobKind::Build(build) = kind else {
        panic!("client sends a build job");
    };
    wire.extend_from_slice(&build_job_frame(build).unwrap());

    let (pkt, used) = recv_connect_packet(&wire).unwrap().unwrap();
    server.on_connect_packet(&pkt).unwrap();
    let (job, _) = recv_job(&wire[used..]).unwrap().unwrap();
    server.on_job(job).unwrap();

    // Reset and apply succeed, the compile step's status is ignored, but
    // there is nothing to read at the output path.
    let step = BuildStep::first().next(true).next(true).next(false);
    assert_eq!(step, BuildStep::ReadArtifact);
    let step = step.next(false);
    assert_eq!(step, BuildStep::Failed);
    server.on_failure();
    assert_eq!(server.state, ServerState::Failed);

    // No response was sent; the client sees its connection close.
    client.on_failure();
    assert_eq!(client.state, ClientState::Failed);
}
