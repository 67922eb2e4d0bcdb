//! Typed protocol messages and the protocol error taxonomy.
//!
//! A connection carries exactly one handshake packet followed by one job.
//! `Job` is a tagged union whose two variants belong to opposite directions:
//! `Build` is client-to-server only, `BuildResponse` server-to-client only.

use vstd::prelude::*;

verus! {

/// First message on every connection: the claimed shared secret
/// (absent = authless mode).
#[derive(Debug, PartialEq, Eq)]
pub struct ConnectPacket {
    pub auth: Option<String>,
}

/// A build request: the raw diff bytes to apply before compiling.
#[derive(Debug, PartialEq, Eq)]
pub struct BuildJob {
    /// The diff as produced by a source-control diff, an opaque byte blob.
    pub diff: Vec<u8>,
}

/// A build result: the artifact bytes and their CRC32 checksum.
#[derive(Debug, PartialEq, Eq)]
pub struct BuildResponse {
    /// CRC32 of `binary`.
    pub checksum: u32,
    pub binary: Vec<u8>,
}

/// The two job variants. Directionality is a protocol invariant checked at
/// the driver boundary, not by the type itself.
#[derive(Debug, PartialEq, Eq)]
pub enum JobKind {
    Build(BuildJob),
    BuildResponse(BuildResponse),
}

/// The message exchanged after the handshake.
#[derive(Debug, PartialEq, Eq)]
pub struct Job {
    pub kind: JobKind,
}

/// Mathematical model of a `Job`.
#[verifier::ext_equal]
pub enum JobView {
    Build { diff: Seq<u8> },
    Response { checksum: u32, binary: Seq<u8> },
}

/// Mathematical model of an optional secret: the character sequence it
/// holds, if any.
pub open spec fn opt_auth_view(auth: Option<String>) -> Option<Seq<char>> {
    match auth {
        Some(s) => Some(s@),
        None => None,
    }
}

impl View for ConnectPacket {
    type V = Option<Seq<char>>;

    open spec fn view(&self) -> Option<Seq<char>> {
        opt_auth_view(self.auth)
    }
}

impl View for BuildJob {
    type V = Seq<u8>;

    open spec fn view(&self) -> Seq<u8> {
        self.diff@
    }
}

impl View for Job {
    type V = JobView;

    open spec fn view(&self) -> JobView {
        match self.kind {
            JobKind::Build(b) => JobView::Build { diff: b.diff@ },
            JobKind::BuildResponse(r) => JobView::Response {
                checksum: r.checksum,
                binary: r.binary@,
            },
        }
    }
}

/// Every way a connection or run can fail inside the protocol core.
/// Transport and build-step failures happen outside the core and are
/// surfaced by the caller.
#[derive(Debug, PartialEq, Eq, Clone, Copy)]
pub enum ProtocolError {
    /// A payload longer than a frame's length prefix can describe.
    FrameTooLarge,
    /// A payload that decodes into no message.
    MalformedMessage,
    /// A job variant that only the other side may send.
    DirectionViolation,
    /// A connect packet whose credential does not match the server's.
    AuthRejected,
    /// A build artifact whose recomputed CRC32 disagrees with the declared one.
    ChecksumMismatch,
}

impl ConnectPacket {
    /// Exact-equality credential check: both absent counts as a match
    /// (authless mode).
    pub fn auth_matches(&self, expected: &Option<String>) -> (r: bool)
        ensures
            r == (self@ == opt_auth_view(*expected)),
    {
        match (&self.auth, expected) {
            (None, None) => true,
            (Some(a), Some(b)) => a.eq(b),
            _ => false,
        }
    }
}

} // verus!
