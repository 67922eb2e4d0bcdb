//! Server protocol driver: a per-connection state machine and the
//! build-executor step sequencing.
//!
//! The caller performs the transport reads and writes and the external build
//! steps; the session decides, from each received message or step outcome,
//! what happens next. Any step failure moves the session to `Failed`: no
//! partial response is ever sent.

use vstd::prelude::*;

use crate::checksum::artifact_checksum;
use crate::checksum::crc32_of;
use crate::messages::BuildJob;
use crate::messages::BuildResponse;
use crate::messages::ConnectPacket;
use crate::messages::Job;
use crate::messages::JobKind;
use crate::messages::JobView;
use crate::messages::ProtocolError;
use crate::messages::opt_auth_view;

verus! {

/// Where a connection stands in its lifecycle.
#[derive(Debug, PartialEq, Eq, Clone, Copy)]
pub enum ServerState {
    AwaitingConnect,
    AwaitingJob,
    Executing,
    Responding,
    Closed,
    Failed,
}

/// One accepted connection's protocol state, together with the server's
/// configured shared secret (absent = authless mode).
pub struct ServerSession {
    pub auth: Option<String>,
    pub state: ServerState,
}

impl ServerSession {
    /// A fresh session for one accepted connection.
    pub fn new(auth: Option<String>) -> (s: Self)
        ensures
            s.state is AwaitingConnect,
            s.auth == auth,
    {
        ServerSession { auth, state: ServerState::AwaitingConnect }
    }

    /// Handshake: the packet's credential must equal the configured secret
    /// exactly, both absent counting as a match. On a mismatch the
    /// connection fails with `AuthRejected` and no response is ever sent.
    pub fn on_connect_packet(&mut self, p: &ConnectPacket) -> (r: Result<(), ProtocolError>)
        requires
            old(self).state is AwaitingConnect,
        ensures
            final(self).auth == old(self).auth,
            p@ == opt_auth_view(old(self).auth) ==> r is Ok && final(self).state is AwaitingJob,
            p@ != opt_auth_view(old(self).auth) ==> (r matches Err(e) && e is AuthRejected
                && final(self).state is Failed),
    {
        if p.auth_matches(&self.auth) {
            self.state = ServerState::AwaitingJob;
            Ok(())
        } else {
            self.state = ServerState::Failed;
            Err(ProtocolError::AuthRejected)
        }
    }

    /// Job dispatch. A `Build` job moves the session to `Executing` and
    /// hands the diff to the caller. A `BuildResponse` job is a variant only
    /// the server itself may send: the session fails with the
    /// protocol-direction error and no build is ever attempted.
    pub fn on_job(&mut self, j: Job) -> (r: Result<BuildJob, ProtocolError>)
        requires
            old(self).state is AwaitingJob,
        ensures
            final(self).auth == old(self).auth,
            j@ matches JobView::Build { diff } ==> (r matches Ok(b) && b@ == diff
                && final(self).state is Executing),
            j@ matches JobView::Response { .. } ==> (r matches Err(e)
                && e is DirectionViolation && final(self).state is Failed),
    {
        match j.kind {
            JobKind::Build(job) => {
                self.state = ServerState::Executing;
                Ok(job)
            },
            JobKind::BuildResponse(_) => {
                self.state = ServerState::Failed;
                Err(ProtocolError::DirectionViolation)
            },
        }
    }

    /// The executor read the built artifact: declare its CRC32 and package
    /// the response to send.
    pub fn on_artifact(&mut self, binary: Vec<u8>) -> (resp: BuildResponse)
        requires
            old(self).state is Executing,
        ensures
            final(self).auth == old(self).auth,
            final(self).state is Responding,
            resp.checksum == crc32_of(binary@),
            resp.binary@ == binary@,
    {
        let checksum = artifact_checksum(binary.as_slice());
        self.state = ServerState::Responding;
        BuildResponse { checksum, binary }
    }

    /// The response went out: the connection is done and closes.
    pub fn on_response_sent(&mut self)
        requires
            old(self).state is Responding,
        ensures
            final(self).auth == old(self).auth,
            final(self).state is Closed,
    {
        self.state = ServerState::Closed;
    }

    /// A transport or build-step failure at any point: the connection is
    /// dropped without a response.
    pub fn on_failure(&mut self)
        ensures
            final(self).auth == old(self).auth,
            final(self).state is Failed,
    {
        self.state = ServerState::Failed;
    }
}

/// The build executor's steps, in order. The non-terminal variants name the
/// external action the caller performs next; `Done` and `Failed` end the
/// job.
#[derive(Debug, PartialEq, Eq, Clone, Copy)]
pub enum BuildStep {
    /// Reset the working tree to a clean state.
    ResetTree,
    /// Apply the received diff as a patch.
    ApplyDiff,
    /// Run the configured compile command.
    RunCompile,
    /// Read the configured output artifact path.
    ReadArtifact,
    Done,
    Failed,
}

impl BuildStep {
    /// Where every build starts: a clean working tree.
    pub fn first() -> (s: Self)
        ensures
            s is ResetTree,
    {
        BuildStep::ResetTree
    }

    /// The step after this one, given whether the external action succeeded.
    /// Failure to reset, apply, or read the artifact is fatal; a compile
    /// command's non-zero exit is observed but only logged, so the executor
    /// reads the declared output path regardless.
    pub fn next(&self, ok: bool) -> (n: Self)
        requires
            !(*self is Done),
            !(*self is Failed),
        ensures
            *self is ResetTree && ok ==> n is ApplyDiff,
            *self is ApplyDiff && ok ==> n is RunCompile,
            *self is RunCompile ==> n is ReadArtifact,
            *self is ReadArtifact && ok ==> n is Done,
            *self is ResetTree && !ok ==> n is Failed,
            *self is ApplyDiff && !ok ==> n is Failed,
            *self is ReadArtifact && !ok ==> n is Failed,
    {
        match self {
            BuildStep::ResetTree => if ok {
                BuildStep::ApplyDiff
            } else {
                BuildStep::Failed
            },
            BuildStep::ApplyDiff => if ok {
                BuildStep::RunCompile
            } else {
                BuildStep::Failed
            },
            BuildStep::RunCompile => BuildStep::ReadArtifact,
            BuildStep::ReadArtifact => if ok {
                BuildStep::Done
            } else {
                BuildStep::Failed
            },
            BuildStep::Done => BuildStep::Done,
            BuildStep::Failed => BuildStep::Failed,
        }
    }
}

} // verus!
