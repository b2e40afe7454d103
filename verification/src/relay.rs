//! The per-connection relay: one local TCP stream paired with one SSH
//! forwarding channel, pumped in both directions until either side ends
//! its stream.
//!
//! The relay is modelled as a state machine. Each wakeup of the relay task
//! is an event — a completed local read, or the next message from the
//! remote channel — and the machine answers with the single action the
//! task must perform. The machine carries a ghost trace of every byte it
//! ordered forwarded, which is what the byte-preservation law is stated
//! over.

use vstd::prelude::*;

use crate::TunnelError;

verus! {

/// Size in bytes of the reusable read buffer of the local-to-remote
/// direction.
pub const RELAY_BUFFER_LEN: usize = 262144;

/// A message from the remote forwarding channel, as the relay reads it.
#[derive(Debug, PartialEq)]
pub enum RemoteEvent {
    /// A payload to write verbatim to the local stream.
    Data(Vec<u8>),
    /// The remote side ended its stream.
    Eof,
    /// Any other control message; logged by the runtime and ignored here.
    Other,
}

/// One wakeup of the relay task.
#[derive(Debug, PartialEq)]
pub enum RelayEvent {
    /// A read from the local stream completed with these bytes; an empty
    /// read means the local client closed its write side.
    LocalRead(Vec<u8>),
    /// The next message from the remote channel, or `None` when the
    /// channel yielded nothing this time.
    Remote(Option<RemoteEvent>),
}

/// The single action the relay task must perform after an event.
#[derive(Debug, PartialEq)]
pub enum RelayAction {
    /// Write these bytes verbatim to the remote channel, then re-arm the
    /// local read.
    SendData(Vec<u8>),
    /// Signal end-of-stream on the remote channel; the relay is done.
    SendEof,
    /// Write these bytes verbatim to the local stream, then keep polling.
    WriteLocal(Vec<u8>),
    /// Flush the local stream's outgoing buffer; the relay is done.
    FlushLocal,
    /// Do nothing and keep polling.
    Ignore,
}

/// Ghost counterpart of `RemoteEvent`.
pub enum RemoteEventModel {
    Data(Seq<u8>),
    Eof,
    Other,
}

/// Ghost counterpart of `RelayEvent`.
pub enum RelayEventModel {
    LocalRead(Seq<u8>),
    Remote(Option<RemoteEventModel>),
}

/// Ghost counterpart of `RelayAction`.
pub enum RelayActionModel {
    SendData(Seq<u8>),
    SendEof,
    WriteLocal(Seq<u8>),
    FlushLocal,
    Ignore,
}

impl View for RemoteEvent {
    type V = RemoteEventModel;

    open spec fn view(&self) -> RemoteEventModel {
        match self {
            RemoteEvent::Data(d) => RemoteEventModel::Data(d@),
            RemoteEvent::Eof => RemoteEventModel::Eof,
            RemoteEvent::Other => RemoteEventModel::Other,
        }
    }
}

impl View for RelayEvent {
    type V = RelayEventModel;

    open spec fn view(&self) -> RelayEventModel {
        match self {
            RelayEvent::LocalRead(b) => RelayEventModel::LocalRead(b@),
            RelayEvent::Remote(Some(e)) => RelayEventModel::Remote(Some(e@)),
            RelayEvent::Remote(None) => RelayEventModel::Remote(None),
        }
    }
}

impl View for RelayAction {
    type V = RelayActionModel;

    open spec fn view(&self) -> RelayActionModel {
        match self {
            RelayAction::SendData(d) => RelayActionModel::SendData(d@),
            RelayAction::SendEof => RelayActionModel::SendEof,
            RelayAction::WriteLocal(d) => RelayActionModel::WriteLocal(d@),
            RelayAction::FlushLocal => RelayActionModel::FlushLocal,
            RelayAction::Ignore => RelayActionModel::Ignore,
        }
    }
}

/// The abstract state of one relay: whether it still runs, what it has
/// ordered sent in each direction, and which end-of-stream signals it has
/// ordered.
pub struct ChannelModel {
    /// The relay loop has not yet reached either end-of-stream condition.
    pub running: bool,
    /// Every byte ordered written to the remote channel, in order.
    pub sent_to_remote: Seq<u8>,
    /// Every byte ordered written to the local stream, in order.
    pub written_to_local: Seq<u8>,
    /// End-of-stream was ordered on the remote channel.
    pub remote_eof_sent: bool,
    /// A flush of the local stream was ordered.
    pub local_flushed: bool,
}

/// The state of a relay before its first event.
pub open spec fn init_channel() -> ChannelModel {
    ChannelModel {
        running: true,
        sent_to_remote: Seq::empty(),
        written_to_local: Seq::empty(),
        remote_eof_sent: false,
        local_flushed: false,
    }
}

/// How one event changes the relay state.
pub open spec fn model_step(m: ChannelModel, e: RelayEventModel) -> ChannelModel {
    match e {
        RelayEventModel::LocalRead(b) => {
            if b.len() == 0 {
                ChannelModel {
                    running: false,
                    sent_to_remote: m.sent_to_remote,
                    written_to_local: m.written_to_local,
                    remote_eof_sent: true,
                    local_flushed: m.local_flushed,
                }
            } else {
                ChannelModel {
                    running: m.running,
                    sent_to_remote: m.sent_to_remote + b,
                    written_to_local: m.written_to_local,
                    remote_eof_sent: m.remote_eof_sent,
                    local_flushed: m.local_flushed,
                }
            }
        },
        RelayEventModel::Remote(None) => m,
        RelayEventModel::Remote(Some(RemoteEventModel::Data(d))) => ChannelModel {
            running: m.running,
            sent_to_remote: m.sent_to_remote,
            written_to_local: m.written_to_local + d,
            remote_eof_sent: m.remote_eof_sent,
            local_flushed: m.local_flushed,
        },
        RelayEventModel::Remote(Some(RemoteEventModel::Eof)) => ChannelModel {
            running: false,
            sent_to_remote: m.sent_to_remote,
            written_to_local: m.written_to_local,
            remote_eof_sent: m.remote_eof_sent,
            local_flushed: true,
        },
        RelayEventModel::Remote(Some(RemoteEventModel::Other)) => m,
    }
}

/// Which action one event demands.
pub open spec fn model_action(m: ChannelModel, e: RelayEventModel) -> RelayActionModel {
    match e {
        RelayEventModel::LocalRead(b) => {
            if b.len() == 0 {
                RelayActionModel::SendEof
            } else {
                RelayActionModel::SendData(b)
            }
        },
        RelayEventModel::Remote(None) => RelayActionModel::Ignore,
        RelayEventModel::Remote(Some(RemoteEventModel::Data(d))) => RelayActionModel::WriteLocal(d),
        RelayEventModel::Remote(Some(RemoteEventModel::Eof)) => RelayActionModel::FlushLocal,
        RelayEventModel::Remote(Some(RemoteEventModel::Other)) => RelayActionModel::Ignore,
    }
}

/// The state after a whole sequence of events.
pub open spec fn model_run(m: ChannelModel, es: Seq<RelayEventModel>) -> ChannelModel
    decreases es.len(),
{
    if es.len() == 0 {
        m
    } else {
        model_step(model_run(m, es.drop_last()), es.last())
    }
}

/// The bytes the local client sent, in order: the concatenation of every
/// local read in the event sequence.
pub open spec fn local_bytes(es: Seq<RelayEventModel>) -> Seq<u8>
    decreases es.len(),
{
    if es.len() == 0 {
        Seq::empty()
    } else {
        local_bytes(es.drop_last()) + (match es.last() {
            RelayEventModel::LocalRead(b) => b,
            _ => Seq::empty(),
        })
    }
}

/// The bytes the remote side sent, in order: the concatenation of every
/// remote data event in the event sequence.
pub open spec fn remote_bytes(es: Seq<RelayEventModel>) -> Seq<u8>
    decreases es.len(),
{
    if es.len() == 0 {
        Seq::empty()
    } else {
        remote_bytes(es.drop_last()) + (match es.last() {
            RelayEventModel::Remote(Some(RemoteEventModel::Data(d))) => d,
            _ => Seq::empty(),
        })
    }
}

/// Law: the relay forwards byte streams verbatim. After any sequence of
/// events, the bytes ordered onto the remote channel are exactly the bytes
/// the local client sent, in order, without loss or duplication — and the
/// bytes ordered onto the local stream are exactly the bytes the remote
/// side sent.
pub proof fn lemma_relay_preserves_bytes(es: Seq<RelayEventModel>)
    ensures
        model_run(init_channel(), es).sent_to_remote == local_bytes(es),
        model_run(init_channel(), es).written_to_local == remote_bytes(es),
    decreases es.len(),
{
    if es.len() > 0 {
        lemma_relay_preserves_bytes(es.drop_last());
    }
}

/// Law: half-closes propagate. A zero-length local read orders the
/// end-of-stream signal on the remote channel and ends the relay; a remote
/// end-of-stream orders a flush of the local stream and ends the relay.
pub proof fn lemma_half_close(m: ChannelModel)
    ensures
        model_action(m, RelayEventModel::LocalRead(Seq::empty())) == RelayActionModel::SendEof,
        model_step(m, RelayEventModel::LocalRead(Seq::empty())).remote_eof_sent,
        !model_step(m, RelayEventModel::LocalRead(Seq::empty())).running,
        model_action(m, RelayEventModel::Remote(Some(RemoteEventModel::Eof)))
            == RelayActionModel::FlushLocal,
        model_step(m, RelayEventModel::Remote(Some(RemoteEventModel::Eof))).local_flushed,
        !model_step(m, RelayEventModel::Remote(Some(RemoteEventModel::Eof))).running,
{
}

/// Law: control messages other than data and end-of-stream, and empty
/// polls, change nothing and demand nothing.
pub proof fn lemma_control_messages_ignored(m: ChannelModel)
    ensures
        model_step(m, RelayEventModel::Remote(Some(RemoteEventModel::Other))) == m,
        model_action(m, RelayEventModel::Remote(Some(RemoteEventModel::Other)))
            == RelayActionModel::Ignore,
        model_step(m, RelayEventModel::Remote(None)) == m,
        model_action(m, RelayEventModel::Remote(None)) == RelayActionModel::Ignore,
{
}

/// One relay: the live pairing of a local stream and a remote channel.
///
/// The runtime owns the two halves of the connection; this machine owns
/// every decision about them. The trace fields are ghost: they record what
/// was ordered, and cost nothing at runtime.
pub struct TunnelChannel {
    running: bool,
    sent_to_remote: Ghost<Seq<u8>>,
    written_to_local: Ghost<Seq<u8>>,
    remote_eof_sent: Ghost<bool>,
    local_flushed: Ghost<bool>,
}

impl View for TunnelChannel {
    type V = ChannelModel;

    closed spec fn view(&self) -> ChannelModel {
        ChannelModel {
            running: self.running,
            sent_to_remote: self.sent_to_remote@,
            written_to_local: self.written_to_local@,
            remote_eof_sent: self.remote_eof_sent@,
            local_flushed: self.local_flushed@,
        }
    }
}

impl TunnelChannel {
    /// A relay that has processed no event yet.
    pub fn new() -> (r: Self)
        ensures
            r@ == init_channel(),
    {
        TunnelChannel {
            running: true,
            sent_to_remote: Ghost(Seq::empty()),
            written_to_local: Ghost(Seq::empty()),
            remote_eof_sent: Ghost(false),
            local_flushed: Ghost(false),
        }
    }

    /// Whether the relay loop must keep waiting for events.
    pub fn is_running(&self) -> (b: bool)
        ensures
            b == self@.running,
    {
        self.running
    }

    /// Process one event and answer with the action to perform.
    pub fn step(&mut self, event: RelayEvent) -> (action: RelayAction)
        requires
            old(self)@.running,
        ensures
            final(self)@ == model_step(old(self)@, event@),
            action@ == model_action(old(self)@, event@),
    {
        match event {
            RelayEvent::LocalRead(b) => {
                if b.len() == 0 {
                    self.running = false;
                    self.remote_eof_sent = Ghost(true);
                    RelayAction::SendEof
                } else {
                    self.sent_to_remote = Ghost(self.sent_to_remote@ + b@);
                    RelayAction::SendData(b)
                }
            },
            RelayEvent::Remote(None) => RelayAction::Ignore,
            RelayEvent::Remote(Some(RemoteEvent::Data(d))) => {
                self.written_to_local = Ghost(self.written_to_local@ + d@);
                RelayAction::WriteLocal(d)
            },
            RelayEvent::Remote(Some(RemoteEvent::Eof)) => {
                self.running = false;
                self.local_flushed = Ghost(true);
                RelayAction::FlushLocal
            },
            RelayEvent::Remote(Some(RemoteEvent::Other)) => RelayAction::Ignore,
        }
    }
}

/// Where in the relay an I/O call failed.
#[derive(Clone, Copy, Debug, PartialEq, Eq, Structural)]
pub enum RelayFailure {
    /// Reading from the local stream failed.
    LocalRead,
    /// Writing to the local stream failed.
    LocalWrite,
    /// Flushing the local stream failed.
    LocalFlush,
    /// Writing data to the remote channel failed.
    RemoteData,
    /// Signalling end-of-stream on the remote channel failed.
    RemoteEof,
}

/// The error a relay failure carries: local stream failures are I/O
/// failures, remote channel failures are protocol failures. Any such error
/// is fatal to the whole process, not only to this connection.
pub fn relay_failure_error(f: RelayFailure) -> (e: TunnelError)
    ensures
        (f == RelayFailure::LocalRead || f == RelayFailure::LocalWrite || f
            == RelayFailure::LocalFlush) ==> e == TunnelError::IoError,
        (f == RelayFailure::RemoteData || f == RelayFailure::RemoteEof) ==> e
            == TunnelError::ProtocolError,
{
    match f {
        RelayFailure::LocalRead => TunnelError::IoError,
        RelayFailure::LocalWrite => TunnelError::IoError,
        RelayFailure::LocalFlush => TunnelError::IoError,
        RelayFailure::RemoteData => TunnelError::ProtocolError,
        RelayFailure::RemoteEof => TunnelError::ProtocolError,
    }
}

/// The reusable read buffer of one direction of one relay.
pub struct RelayBuffer {
    data: Vec<u8>,
}

impl View for RelayBuffer {
    type V = Seq<u8>;

    closed spec fn view(&self) -> Seq<u8> {
        self.data@
    }
}

impl RelayBuffer {
    /// A zeroed buffer of the fixed relay size.
    pub fn new() -> (r: Self)
        ensures
            r@.len() == RELAY_BUFFER_LEN,
    {
        let mut data: Vec<u8> = Vec::new();
        while data.len() < RELAY_BUFFER_LEN
            invariant
                data@.len() <= RELAY_BUFFER_LEN,
            decreases RELAY_BUFFER_LEN - data@.len(),
        {
            data.push(0u8);
        }
        RelayBuffer { data }
    }

    /// How many bytes the buffer holds.
    pub fn len(&self) -> (n: usize)
        ensures
            n == self@.len(),
    {
        self.data.len()
    }

    /// The backing storage, for the runtime to read into.
    pub fn storage_mut(&mut self) -> (r: &mut Vec<u8>)
        ensures
            r@ == old(self)@,
            final(self)@ == final(r)@,
    {
        &mut self.data
    }

    /// A copy of the first `n` bytes: the payload of a read that filled
    /// that many.
    pub fn chunk(&self, n: usize) -> (r: Vec<u8>)
        requires
            n <= self@.len(),
        ensures
            r@ == self@.subrange(0, n as int),
    {
        let mut r: Vec<u8> = Vec::new();
        let mut i: usize = 0;
        while i < n
            invariant
                i <= n,
                n <= self@.len(),
                r@ == self@.subrange(0, i as int),
            decreases n - i,
        {
            r.push(self.data[i]);
            i += 1;
        }
        r
    }
}

} // verus!
