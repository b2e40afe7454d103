//! Tunnel configuration: the six fields a forwarding tunnel needs, and
//! the validity condition on them that setup checks before any I/O.

use vstd::prelude::*;

verus! {

/// Configuration of an SSH forwarding tunnel.
///
/// Immutable once constructed. A valid configuration has a non-zero
/// `local_port`; the endpoint is checked separately during setup, since
/// whether it resolves depends on the network.
#[derive(Clone, Debug, PartialEq)]
pub struct SshForwardingConfig {
    /// Endpoint of the remote SSH server that supports tunneling, in the
    /// form `ssh://hostname[:port]`.
    pub ssh_endpoint: String,
    /// User name to connect to the remote SSH server.
    pub user: String,
    /// PEM-encoded RSA private key to connect to the remote SSH server.
    pub private_key: String,
    /// Host to connect to from the remote SSH server, over its internal
    /// network.
    pub forward_host: String,
    /// Port of the remote destination.
    pub forward_port: u16,
    /// Local port on which the tunnel listens.
    pub local_port: u16,
}

/// Mathematical shadow of a configuration: every string as a sequence of
/// characters, every port as itself.
pub struct ConfigModel {
    pub ssh_endpoint: Seq<char>,
    pub user: Seq<char>,
    pub private_key: Seq<char>,
    pub forward_host: Seq<char>,
    pub forward_port: u16,
    pub local_port: u16,
}

impl View for SshForwardingConfig {
    type V = ConfigModel;

    open spec fn view(&self) -> ConfigModel {
        ConfigModel {
            ssh_endpoint: self.ssh_endpoint@,
            user: self.user@,
            private_key: self.private_key@,
            forward_host: self.forward_host@,
            forward_port: self.forward_port,
            local_port: self.local_port,
        }
    }
}

impl ConfigModel {
    /// A configuration may start a tunnel only if the local port is not zero.
    pub open spec fn valid_local_port(self) -> bool {
        self.local_port != 0
    }
}

impl SshForwardingConfig {
    /// True when the local port may be bound at all.
    pub fn has_valid_local_port(&self) -> (b: bool)
        ensures
            b == self@.valid_local_port(),
    {
        self.local_port != 0
    }
}

} // verus!
