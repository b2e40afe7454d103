//! A verified core for an SSH port-forwarding tunnel.
//!
//! The library holds the logic of the tunnel: configuration validation,
//! endpoint parsing, the setup state machine, and the per-connection
//! relay state machine. The surrounding runtime performs the network
//! I/O and feeds its outcomes back into these verified decisions.

use vstd::prelude::*;

pub mod auth;
pub mod config;
pub mod endpoint;
pub mod forwarding;
pub mod publications;
pub mod relay;

verus! {

/// The failure taxonomy of the tunnel.
///
/// Each setup stage and each serving step maps its failures onto exactly
/// one of these kinds, so a caller can attribute a failure to a stage.
#[derive(Clone, Copy, Debug, PartialEq, Eq, Structural)]
pub enum TunnelError {
    /// The SSH endpoint does not parse, or resolves to no socket address.
    InvalidEndpoint,
    /// The local port to bind is zero.
    InvalidPort,
    /// The private key does not parse, or the bastion rejected authentication.
    InvalidCredential,
    /// A bind, accept, read, write or flush failed.
    IoError,
    /// The SSH transport failed: handshake, key exchange, or channel open.
    ProtocolError,
}

} // verus!
