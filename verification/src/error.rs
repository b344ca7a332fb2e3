//! Error taxonomy of the tunnel core.
//!
//! Setup failures are fatal to startup; negotiation failures are fatal to a
//! single connection attempt; transport failures terminate one relay
//! direction; cleanup failures are only reported, never escalated.

use vstd::prelude::*;

verus! {

/// Failure while preparing the process: interface creation, socket bind, or
/// the application of an OS redirection rule.  Fatal to startup.
#[derive(Clone, Copy, Debug, PartialEq, Eq, Structural)]
pub enum SetupError {
    /// The redirection command at this index of the command plan failed;
    /// no later command of the plan was issued.
    CommandFailed { index: usize },
    /// The virtual network interface could not be created, addressed or
    /// activated.
    InterfaceUnavailable,
}

/// Failure while establishing the attested secure channel.  Fatal to the
/// connection attempt, not to the process.
#[derive(Clone, Copy, Debug, PartialEq, Eq, Structural)]
pub enum NegotiationError {
    /// The attestation provider refused to initialize a session, with the
    /// provider's error code.
    InitFailed { code: u64 },
    /// The handshake against the peer failed.
    HandshakeFailed,
}

/// Per-packet failure on the framed tunnel stream.  Terminates only the
/// affected relay direction.
#[derive(Clone, Copy, Debug, PartialEq, Eq, Structural)]
pub enum TransportError {
    /// A frame announced (or a payload had) a length above the configured
    /// maximum frame size.
    FrameTooLong { len: usize },
    /// The peer closed the stream in the middle of a frame.
    TruncatedFrame { buffered: usize },
}

/// Failure while reverting OS redirection rules at shutdown.  Reported as a
/// warning; every removal is still attempted.
#[derive(Clone, Copy, Debug, PartialEq, Eq, Structural)]
pub enum CleanupError {
    /// The last removal command that failed, by its index in the plan.
    CommandFailed { index: usize },
}

/// Rejected process configuration.
#[derive(Clone, Copy, Debug, PartialEq, Eq, Structural)]
pub enum ConfigError {
    /// Neither a peer address to dial nor a port to listen on was given.
    PeerSourceMissing,
    /// Both a peer address to dial and a port to listen on were given.
    PeerSourceConflict,
}

} // verus!
