//! Client protocol driver: one run's state machine.
//!
//! The caller opens the transport, collects the diff, and moves the bytes;
//! the session builds each message to send and verifies what comes back. A
//! received artifact is handed out only when its recomputed CRC32 equals the
//! declared checksum; otherwise it is discarded.

use vstd::prelude::*;

use crate::checksum::crc32_of;
use crate::checksum::matches_checksum;
use crate::messages::BuildJob;
use crate::messages::ConnectPacket;
use crate::messages::Job;
use crate::messages::JobKind;
use crate::messages::JobView;
use crate::messages::ProtocolError;
use crate::messages::opt_auth_view;

verus! {

/// Where a client run stands in its lifecycle.
#[derive(Debug, PartialEq, Eq, Clone, Copy)]
pub enum ClientState {
    Idle,
    ConnectSent,
    JobSent,
    Done,
    Failed,
}

/// One run's protocol state, together with the configured shared secret to
/// claim (absent = authless mode).
pub struct ClientSession {
    pub auth: Option<String>,
    pub state: ClientState,
}

impl ClientSession {
    /// A fresh session for one run.
    pub fn new(auth: Option<String>) -> (s: Self)
        ensures
            s.state is Idle,
            s.auth == auth,
    {
        ClientSession { auth, state: ClientState::Idle }
    }

    /// The handshake message: the first message on the connection, carrying
    /// the configured credential.
    pub fn connect_packet(&mut self) -> (p: ConnectPacket)
        requires
            old(self).state is Idle,
        ensures
            final(self).auth == old(self).auth,
            final(self).state is ConnectSent,
            p@ == opt_auth_view(old(self).auth),
    {
        let auth = match &self.auth {
            None => None,
            Some(s) => Some(s.clone()),
        };
        self.state = ClientState::ConnectSent;
        ConnectPacket { auth }
    }

    /// The build request carrying the collected diff: the one job this run
    /// sends.
    pub fn build_job(&mut self, diff: Vec<u8>) -> (j: Job)
        requires
            old(self).state is ConnectSent,
        ensures
            final(self).auth == old(self).auth,
            final(self).state is JobSent,
            j@ == (JobView::Build { diff: diff@ }),
    {
        self.state = ClientState::JobSent;
        Job { kind: JobKind::Build(BuildJob { diff }) }
    }

    /// Verifies the job received in answer. A `Build` variant is one only
    /// the client itself may send: the run fails with the protocol-direction
    /// error. On a `BuildResponse`, the artifact is handed out exactly when
    /// its recomputed CRC32 equals the declared checksum; on a disagreement
    /// the run fails with `ChecksumMismatch` and the artifact is discarded.
    pub fn on_response(&mut self, j: Job) -> (r: Result<Vec<u8>, ProtocolError>)
        requires
            old(self).state is JobSent,
        ensures
            final(self).auth == old(self).auth,
            j@ matches JobView::Build { .. } ==> (r matches Err(e) && e is DirectionViolation
                && final(self).state is Failed),
            j@ matches JobView::Response { checksum, binary } ==> {
                &&& checksum == crc32_of(binary) ==> (r matches Ok(bin) && bin@ == binary
                    && final(self).state is Done)
                &&& checksum != crc32_of(binary) ==> (r matches Err(e)
                    && e is ChecksumMismatch && final(self).state is Failed)
            },
    {
        match j.kind {
            JobKind::Build(_) => {
                self.state = ClientState::Failed;
                Err(ProtocolError::DirectionViolation)
            },
            JobKind::BuildResponse(resp) => {
                if matches_checksum(resp.checksum, resp.binary.as_slice()) {
                    self.state = ClientState::Done;
                    Ok(resp.binary)
                } else {
                    self.state = ClientState::Failed;
                    Err(ProtocolError::ChecksumMismatch)
                }
            },
        }
    }

    /// A transport failure or a closed connection at any point: the run is
    /// over without an artifact.
    pub fn on_failure(&mut self)
        ensures
            final(self).auth == old(self).auth,
            final(self).state is Failed,
    {
        self.state = ClientState::Failed;
    }
}

} // verus!
