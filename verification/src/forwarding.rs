//! The lifecycle of one SSH forwarding tunnel.
//!
//! Setup runs in a fixed order — validate the local port, open the SSH
//! session, bind the local listener, authenticate — and each stage has its
//! own failure kind, so a failure names its stage. The network calls
//! themselves belong to the runtime; this machine makes every decision:
//! what to attempt next, what each outcome means, and which error a
//! failure carries. A tunnel that failed holds no resource: in particular,
//! no local listener stays bound behind a failed setup.

use vstd::prelude::*;

use vstd::string::StrSliceExecFns;

use crate::TunnelError;
use crate::auth::PEM_CHAR_LIMIT;
use crate::auth::parse_rsa_private_key;
use crate::auth::pem_parses_as_rsa;
use crate::config::ConfigModel;
use crate::config::SshForwardingConfig;
use crate::endpoint::EndpointTarget;
use crate::endpoint::endpoint_target;
use crate::endpoint::spec_endpoint_target;

verus! {

/// Where a tunnel stands in its lifecycle.
#[derive(Clone, Copy, Debug, PartialEq, Eq, Structural)]
pub enum TunnelPhase {
    /// Nothing attempted yet.
    Uninitialized,
    /// The SSH session to the bastion is open.
    SessionEstablished,
    /// The local listener is bound.
    ListenerBound,
    /// The bastion accepted the public-key authentication.
    Authenticated,
    /// The tunnel accepts and forwards connections.
    Serving,
    /// A stage failed; the tunnel holds no resource any more.
    Failed,
}

/// Which phases own a bound local listener.
pub open spec fn phase_holds_listener(p: TunnelPhase) -> bool {
    p == TunnelPhase::ListenerBound || p == TunnelPhase::Authenticated || p
        == TunnelPhase::Serving
}

/// The abstract state of a tunnel: its configuration and its phase.
pub struct ForwardingModel {
    pub config: ConfigModel,
    pub phase: TunnelPhase,
}

impl ForwardingModel {
    /// Past the first check, the local port is known to be non-zero.
    pub open spec fn wf(self) -> bool {
        (self.phase != TunnelPhase::Uninitialized && self.phase != TunnelPhase::Failed)
            ==> self.config.local_port != 0
    }
}

/// How the attempt to open the SSH session ended.
#[derive(Clone, Copy, Debug, PartialEq, Eq, Structural)]
pub enum ConnectOutcome {
    /// The session is open.
    Connected,
    /// The endpoint resolved to no usable socket address.
    NoAddress,
    /// The SSH library failed to connect or to complete its handshake.
    SshFailed,
}

/// How the public-key authentication ended.
#[derive(Clone, Copy, Debug, PartialEq, Eq, Structural)]
pub enum AuthOutcome {
    /// The bastion accepted the key.
    Accepted,
    /// The bastion rejected the key.
    Rejected,
    /// The SSH transport failed while authenticating.
    SshFailed,
}

/// What failed while serving, outside any one relay.
#[derive(Clone, Copy, Debug, PartialEq, Eq, Structural)]
pub enum ServeFailure {
    /// Accepting a local connection failed.
    AcceptFailed,
    /// Opening the forwarding channel for a connection failed.
    ChannelOpenFailed,
}

/// The first decision of setup: reject a zero local port before anything
/// else, then turn the endpoint string into a connect target.
pub open spec fn spec_connect_decision(c: ConfigModel) -> Result<(Seq<char>, u16), TunnelError> {
    if c.local_port == 0 {
        Err(TunnelError::InvalidPort)
    } else {
        spec_endpoint_target(c.ssh_endpoint)
    }
}

/// What each connect outcome means.
pub open spec fn spec_connect_transition(o: ConnectOutcome) -> (TunnelPhase, Result<
    (),
    TunnelError,
>) {
    match o {
        ConnectOutcome::Connected => (TunnelPhase::SessionEstablished, Ok(())),
        ConnectOutcome::NoAddress => (TunnelPhase::Failed, Err(TunnelError::InvalidEndpoint)),
        ConnectOutcome::SshFailed => (TunnelPhase::Failed, Err(TunnelError::ProtocolError)),
    }
}

/// What each bind outcome means.
pub open spec fn spec_bind_transition(ok: bool) -> (TunnelPhase, Result<(), TunnelError>) {
    if ok {
        (TunnelPhase::ListenerBound, Ok(()))
    } else {
        (TunnelPhase::Failed, Err(TunnelError::IoError))
    }
}

/// What each authentication outcome means.
pub open spec fn spec_auth_transition(o: AuthOutcome) -> (TunnelPhase, Result<(), TunnelError>) {
    match o {
        AuthOutcome::Accepted => (TunnelPhase::Authenticated, Ok(())),
        AuthOutcome::Rejected => (TunnelPhase::Failed, Err(TunnelError::InvalidCredential)),
        AuthOutcome::SshFailed => (TunnelPhase::Failed, Err(TunnelError::ProtocolError)),
    }
}

/// Which error a serving failure carries.
pub open spec fn spec_serve_failure_error(f: ServeFailure) -> TunnelError {
    match f {
        ServeFailure::AcceptFailed => TunnelError::IoError,
        ServeFailure::ChannelOpenFailed => TunnelError::ProtocolError,
    }
}

/// What `auth_request` hands the runtime: the user to authenticate as and
/// the parsed RSA keypair.
pub struct AuthRequest {
    pub user: String,
    pub key: openssl::rsa::Rsa<openssl::pkey::Private>,
}

/// What a forwarding channel is opened with: the fixed remote destination
/// and the placeholder originator address.
pub struct ChannelOpenRequest {
    pub host: String,
    pub port: u32,
    pub originator: String,
    pub originator_port: u32,
}

/// One SSH forwarding tunnel: its configuration and its lifecycle state.
///
/// The runtime owns the SSH session and the listener; it consults this
/// machine before every step of setup and serving, and reports every
/// outcome back.
pub struct SshForwarding {
    config: SshForwardingConfig,
    phase: TunnelPhase,
}

impl View for SshForwarding {
    type V = ForwardingModel;

    closed spec fn view(&self) -> ForwardingModel {
        ForwardingModel { config: self.config@, phase: self.phase }
    }
}

impl SshForwarding {
    /// A tunnel that has attempted nothing yet.
    pub fn new(config: SshForwardingConfig) -> (r: Self)
        ensures
            r@.config == config@,
            r@.phase == TunnelPhase::Uninitialized,
            r@.wf(),
    {
        SshForwarding { config, phase: TunnelPhase::Uninitialized }
    }

    /// The current phase.
    pub fn phase(&self) -> (p: TunnelPhase)
        ensures
            p == self@.phase,
    {
        self.phase
    }

    /// The configuration the tunnel was built with.
    pub fn config(&self) -> (c: &SshForwardingConfig)
        ensures
            c@ == self@.config,
    {
        &self.config
    }

    /// First stage of setup: decide where to open the SSH session.
    ///
    /// A zero local port is rejected here as `InvalidPort`, before any
    /// network I/O; an endpoint that is not an `ssh://host[:port]` URL is
    /// rejected as `InvalidEndpoint`.
    pub fn connect_target(&mut self) -> (r: Result<EndpointTarget, TunnelError>)
        requires
            old(self)@.phase == TunnelPhase::Uninitialized,
        ensures
            final(self)@.config == old(self)@.config,
            (match (r, spec_connect_decision(old(self)@.config)) {
                (Ok(t), Ok(m)) => t@ == m && final(self)@.phase == TunnelPhase::Uninitialized,
                (Err(e), Err(m)) => e == m && final(self)@.phase == TunnelPhase::Failed,
                _ => false,
            }),
            old(self)@.config.local_port == 0 ==> r == Err::<EndpointTarget, TunnelError>(
                TunnelError::InvalidPort,
            ),
            r is Ok ==> old(self)@.config.local_port != 0,
            final(self)@.wf(),
    {
        if self.config.local_port == 0 {
            self.phase = TunnelPhase::Failed;
            Err(TunnelError::InvalidPort)
        } else {
            match endpoint_target(self.config.ssh_endpoint.as_str()) {
                Ok(t) => Ok(t),
                Err(e) => {
                    self.phase = TunnelPhase::Failed;
                    Err(e)
                },
            }
        }
    }

    /// Record how opening the SSH session ended.
    pub fn on_connect(&mut self, outcome: ConnectOutcome) -> (r: Result<(), TunnelError>)
        requires
            old(self)@.phase == TunnelPhase::Uninitialized,
            old(self)@.config.local_port != 0,
        ensures
            final(self)@.config == old(self)@.config,
            (final(self)@.phase, r) == spec_connect_transition(outcome),
            final(self)@.wf(),
    {
        match outcome {
            ConnectOutcome::Connected => {
                self.phase = TunnelPhase::SessionEstablished;
                Ok(())
            },
            ConnectOutcome::NoAddress => {
                self.phase = TunnelPhase::Failed;
                Err(TunnelError::InvalidEndpoint)
            },
            ConnectOutcome::SshFailed => {
                self.phase = TunnelPhase::Failed;
                Err(TunnelError::ProtocolError)
            },
        }
    }

    /// Second stage of setup: the local port to bind, known non-zero.
    pub fn local_bind_port(&self) -> (p: u16)
        requires
            self@.phase == TunnelPhase::SessionEstablished,
            self@.wf(),
        ensures
            p == self@.config.local_port,
            p != 0,
    {
        self.config.local_port
    }

    /// Record how binding the local listener ended.
    pub fn on_bind(&mut self, ok: bool) -> (r: Result<(), TunnelError>)
        requires
            old(self)@.phase == TunnelPhase::SessionEstablished,
            old(self)@.wf(),
        ensures
            final(self)@.config == old(self)@.config,
            (final(self)@.phase, r) == spec_bind_transition(ok),
            final(self)@.wf(),
    {
        if ok {
            self.phase = TunnelPhase::ListenerBound;
            Ok(())
        } else {
            self.phase = TunnelPhase::Failed;
            Err(TunnelError::IoError)
        }
    }

    /// Third stage of setup: parse the configured private key.
    ///
    /// A key that does not parse is a credential failure, and the tunnel
    /// fails — holding its listener no longer. A key string too long for
    /// the parser's foreign interface is likewise a credential failure.
    pub fn auth_request(&mut self) -> (r: Result<AuthRequest, TunnelError>)
        requires
            old(self)@.phase == TunnelPhase::ListenerBound,
            old(self)@.wf(),
        ensures
            final(self)@.config == old(self)@.config,
            r is Ok <==> (old(self)@.config.private_key.len() <= PEM_CHAR_LIMIT
                && pem_parses_as_rsa(old(self)@.config.private_key)),
            (match r {
                Ok(req) => req.user@ == old(self)@.config.user && final(self)@.phase
                    == TunnelPhase::ListenerBound,
                Err(e) => e == TunnelError::InvalidCredential && final(self)@.phase
                    == TunnelPhase::Failed,
            }),
            r is Err ==> !phase_holds_listener(final(self)@.phase),
            final(self)@.wf(),
    {
        let too_long: bool = self.config.private_key.as_str().unicode_len() > PEM_CHAR_LIMIT;
        if too_long {
            self.phase = TunnelPhase::Failed;
            return Err(TunnelError::InvalidCredential);
        }
        match parse_rsa_private_key(self.config.private_key.as_str()) {
            Ok(key) => Ok(AuthRequest { user: self.config.user.clone(), key }),
            Err(_) => {
                self.phase = TunnelPhase::Failed;
                Err(TunnelError::InvalidCredential)
            },
        }
    }

    /// Record how the public-key authentication ended.
    ///
    /// A rejected key is a credential failure, and the tunnel fails —
    /// holding its listener no longer.
    pub fn on_auth(&mut self, outcome: AuthOutcome) -> (r: Result<(), TunnelError>)
        requires
            old(self)@.phase == TunnelPhase::ListenerBound,
            old(self)@.wf(),
        ensures
            final(self)@.config == old(self)@.config,
            (final(self)@.phase, r) == spec_auth_transition(outcome),
            r is Err ==> !phase_holds_listener(final(self)@.phase),
            final(self)@.wf(),
    {
        match outcome {
            AuthOutcome::Accepted => {
                self.phase = TunnelPhase::Authenticated;
                Ok(())
            },
            AuthOutcome::Rejected => {
                self.phase = TunnelPhase::Failed;
                Err(TunnelError::InvalidCredential)
            },
            AuthOutcome::SshFailed => {
                self.phase = TunnelPhase::Failed;
                Err(TunnelError::ProtocolError)
            },
        }
    }

    /// Setup is complete; the tunnel now accepts connections.
    pub fn begin_serving(&mut self)
        requires
            old(self)@.phase == TunnelPhase::Authenticated,
            old(self)@.wf(),
        ensures
            final(self)@.config == old(self)@.config,
            final(self)@.phase == TunnelPhase::Serving,
            final(self)@.wf(),
    {
        self.phase = TunnelPhase::Serving;
    }

    /// What to open the forwarding channel of one accepted connection
    /// with: the configured destination, and the fixed placeholder
    /// originator `127.0.0.1:0`.
    pub fn channel_open_request(&self) -> (r: ChannelOpenRequest)
        requires
            self@.phase == TunnelPhase::Serving,
        ensures
            r.host@ == self@.config.forward_host,
            r.port == self@.config.forward_port as u32,
            r.originator@ == ("127.0.0.1")@,
            r.originator_port == 0,
    {
        ChannelOpenRequest {
            host: self.config.forward_host.clone(),
            port: self.config.forward_port as u32,
            originator: "127.0.0.1".to_owned(),
            originator_port: 0,
        }
    }

    /// Record a failure of the serving loop itself. Such a failure is
    /// unrecoverable: the tunnel fails, and the process is expected to
    /// terminate.
    pub fn on_serve_failure(&mut self, f: ServeFailure) -> (e: TunnelError)
        requires
            old(self)@.phase == TunnelPhase::Serving,
        ensures
            final(self)@.config == old(self)@.config,
            e == spec_serve_failure_error(f),
            final(self)@.phase == TunnelPhase::Failed,
            final(self)@.wf(),
    {
        self.phase = TunnelPhase::Failed;
        match f {
            ServeFailure::AcceptFailed => TunnelError::IoError,
            ServeFailure::ChannelOpenFailed => TunnelError::ProtocolError,
        }
    }
}

/// The SSH client callbacks that need a decision rather than plumbing.
pub struct ClientHandler {}

impl ClientHandler {
    pub fn new() -> (r: Self) {
        ClientHandler {  }
    }

    /// The tunnel accepts whatever host key the bastion presents: trust is
    /// carried by the client's credential, not by pinning the server key.
    pub fn accepts_server_key(&self) -> (b: bool)
        ensures
            b,
    {
        true
    }
}

/// Law: a configuration with a zero local port is rejected as
/// `InvalidPort` by the very first decision of setup, before any network
/// I/O is requested.
pub proof fn lemma_zero_port_rejected(c: ConfigModel)
    requires
        c.local_port == 0,
    ensures
        spec_connect_decision(c) == Err::<(Seq<char>, u16), TunnelError>(TunnelError::InvalidPort),
{
}

/// Law: an endpoint that cannot be used fails setup as `InvalidEndpoint`,
/// whichever way it fails — a string that is not an `ssh://host[:port]`
/// URL fails the connect decision, and one that resolves to no address
/// fails the connect outcome.
pub proof fn lemma_unresolvable_endpoint_rejected(c: ConfigModel)
    requires
        c.local_port != 0,
    ensures
        spec_endpoint_target(c.ssh_endpoint) is Err ==> spec_connect_decision(c) == Err::<
            (Seq<char>, u16),
            TunnelError,
        >(TunnelError::InvalidEndpoint),
        spec_connect_transition(ConnectOutcome::NoAddress) == (
            TunnelPhase::Failed,
            Err::<(), TunnelError>(TunnelError::InvalidEndpoint),
        ),
{
}

/// Law: a rejected credential fails setup as `InvalidCredential`, and the
/// tunnel then stands in a phase that holds no local listener.
pub proof fn lemma_credential_rejection()
    ensures
        spec_auth_transition(AuthOutcome::Rejected) == (
            TunnelPhase::Failed,
            Err::<(), TunnelError>(TunnelError::InvalidCredential),
        ),
        !phase_holds_listener(spec_auth_transition(AuthOutcome::Rejected).0),
{
}

} // verus!
