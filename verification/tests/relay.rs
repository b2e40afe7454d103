use network_tunnel::TunnelError;
use network_tunnel::relay::RELAY_BUFFER_LEN;
use network_tunnel::relay::RelayAction;
use network_tunnel::relay::RelayBuffer;
use network_tunnel::relay::RelayEvent;
use network_tunnel::relay::RelayFailure;
use network_tunnel::relay::RemoteEvent;
use network_tunnel::relay::TunnelChannel;
use network_tunnel::relay::relay_failure_error;

#[test]
fn local_bytes_are_forwarded_verbatim() {
    let mut channel = TunnelChannel::new();
    let action = channel.step(RelayEvent::LocalRead(b"PING".to_vec()));
    assert_eq!(action, RelayAction::SendData(b"PING".to_vec()));
    assert!(channel.is_running());
}

#[test]
fn remote_data_is_written_verbatim() {
    let mut channel = TunnelChannel::new();
    channel.step(RelayEvent::LocalRead(b"PING".to_vec()));
    let action = channel.step(RelayEvent::Remote(Some(RemoteEvent::Data(b"PONG".to_vec()))));
    assert_eq!(action, RelayAction::WriteLocal(b"PONG".to_vec()));
    assert!(channel.is_running());
}

#[test]
fn chunks_are_forwarded_in_order() {
    let mut channel = TunnelChannel::new();
    assert_eq!(
        channel.step(RelayEvent::LocalRead(b"PI".to_vec())),
        RelayAction::SendData(b"PI".to_vec())
    );
    assert_eq!(
        channel.step(RelayEvent::LocalRead(b"NG".to_vec())),
        RelayAction::SendData(b"NG".to_vec())
    );
    assert!(channel.is_running());
}

#[test]
fn local_end_of_stream_sends_eof_and_stops() {
    let mut channel = TunnelChannel::new();
    let action = channel.step(RelayEvent::LocalRead(Vec::new()));
    assert_eq!(action, RelayAction::SendEof);
    assert!(!channel.is_running());
}

#[test]
fn remote_end_of_stream_flushes_and_stops() {
    let mut channel = TunnelChannel::new();
    let action = channel.step(RelayEvent::Remote(Some(RemoteEvent::Eof)));
    assert_eq!(action, RelayAction::FlushLocal);
    assert!(!channel.is_running());
}

#[test]
fn empty_polls_and_control_messages_are_ignored() {
    let mut channel = TunnelChannel::new();
    assert_eq!(channel.step(RelayEvent::Remote(None)), RelayAction::Ignore);
    assert_eq!(
        channel.step(RelayEvent::Remote(Some(RemoteEvent::Other))),
        RelayAction::Ignore
    );
    assert!(channel.is_running());
}

#[test]
fn ping_pong_round_trip() {
    let mut channel = TunnelChannel::new();
    assert_eq!(
        channel.step(RelayEvent::LocalRead(b"PING".to_vec())),
        RelayAction::SendData(b"PING".to_vec())
    );
    assert_eq!(
        channel.step(RelayEvent::Remote(Some(RemoteEvent::Data(b"PONG".to_vec())))),
        RelayAction::WriteLocal(b"PONG".to_vec())
    );
    assert_eq!(
        channel.step(RelayEvent::LocalRead(Vec::new())),
        RelayAction::SendEof
    );
    assert!(!channel.is_running());
}

#[test]
fn local_failures_are_io_errors() {
    assert_eq!(relay_failure_error(RelayFailure::LocalRead), TunnelError::IoError);
    assert_eq!(relay_failure_error(RelayFailure::LocalWrite), TunnelError::IoError);
    assert_eq!(relay_failure_error(RelayFailure::LocalFlush), TunnelError::IoError);
}

#[test]
fn remote_failures_are_protocol_errors() {
    assert_eq!(relay_failure_error(RelayFailure::RemoteData), TunnelError::ProtocolError);
    assert_eq!(relay_failure_error(RelayFailure::RemoteEof), TunnelError::ProtocolError);
}

#[test]
fn relay_buffer_has_the_fixed_size() {
    let buffer = RelayBuffer::new();
    assert_eq!(buffer.len(), RELAY_BUFFER_LEN);
    assert_eq!(RELAY_BUFFER_LEN, 262144);
}

#[test]
fn relay_buffer_chunk_is_the_filled_prefix() {
    let mut buffer = RelayBuffer::new();
    let storage = buffer.storage_mut();
    storage[0] = b'P';
    storage[1] = b'I';
    storage[2] = b'N';
    storage[3] = b'G';
    assert_eq!(buffer.chunk(4), b"PING".to_vec());
    assert_eq!(buffer.chunk(0), Vec::<u8>::new());
}
