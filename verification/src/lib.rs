//! Remote build protocol: framed message transport, a binary message codec,
//! the connection handshake with optional shared-secret auth, the server's
//! build-execution state machine, and checksum-based integrity verification
//! on the client.

pub mod checksum;
pub mod client;
pub mod codec;
pub mod connection;
pub mod framing;
pub mod messages;
pub mod server;

pub use checksum::matches_checksum;

pub use messages::BuildJob;
pub use messages::BuildResponse;
pub use messages::ConnectPacket;
pub use messages::Job;
pub use messages::JobKind;
pub use messages::JobView;
pub use messages::ProtocolError;
