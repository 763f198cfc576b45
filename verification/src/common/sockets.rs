//! Where the runtime's sockets live, and the state of a connection.
use vstd::prelude::*;

verus! {

/// The socket the daemon listens on.
pub const DAEMON_SOCKET: &'static str = "/tmp/rust.sock";

/// The socket a client listens on for feedback.
pub const CLIENT_SOCKET: &'static str = "/tmp/rust_client.sock";

/// The directory of the per-client feedback sockets.
pub const SOCKETS_PATH: &'static str = "/tmp";

/// Whether a connection goes on after a message.
#[derive(Debug, Clone, Copy, PartialEq, Eq, Structural)]
pub enum ConnectionStatus {
    /// Keep listening.
    Running,
    /// The exchange is over.
    Finished,
}

} // verus!
