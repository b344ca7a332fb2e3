use entunnel::error::NegotiationError;
use entunnel::session::ChannelState;
use entunnel::session::PROFILE_NAME_LEN;
use entunnel::session::RatsTls;
use entunnel::session::ReaderTaskAction;
use entunnel::session::ReaderTaskState;
use entunnel::session::SecureReaderTask;
use entunnel::session::SecureWriterTask;
use entunnel::session::SESSION_FLAG_MUTUAL;
use entunnel::session::SESSION_FLAG_SERVER;
use entunnel::session::TransmitDrain;
use entunnel::session::UpgradeAction;
use entunnel::session::UpgradeEvent;
use entunnel::session::Upgrader;
use entunnel::session::WriterTaskAction;
use entunnel::session::WriterTaskState;

fn padded(name: &[u8]) -> Vec<u8> {
    let mut v = name.to_vec();
    v.resize(PROFILE_NAME_LEN, 0);
    v
}

#[test]
fn client_session_conf_layout() {
    let tls = RatsTls::new(
        false,
        0,
        Some(b"openssl"),
        Some(b"openssl"),
        Some(b"nullattester"),
        Some(b"sgx_ecdsa"),
        false,
    );
    assert_eq!(tls.conf.tls_type, padded(b"openssl"));
    assert_eq!(tls.conf.crypto_type, padded(b"openssl"));
    assert_eq!(tls.conf.attester_type, padded(b"nullattester"));
    assert_eq!(tls.conf.verifier_type, padded(b"sgx_ecdsa"));
    assert_eq!(tls.conf.enclave_id, 0);
    assert_eq!(tls.conf.flags, 0);
}

#[test]
fn server_session_conf_flags() {
    let tls = RatsTls::new(
        true,
        7,
        Some(b"openssl"),
        Some(b"openssl"),
        Some(b"sgx_ecdsa"),
        Some(b"nullverifier"),
        true,
    );
    assert_eq!(tls.conf.enclave_id, 7);
    assert_eq!(tls.conf.flags, SESSION_FLAG_MUTUAL | SESSION_FLAG_SERVER);
    assert_eq!(tls.conf.attester_type, padded(b"sgx_ecdsa"));
    assert_eq!(tls.conf.verifier_type, padded(b"nullverifier"));
}

#[test]
fn absent_names_leave_zeroed_buffers() {
    let tls = RatsTls::new(true, 0, None, None, None, None, false);
    assert_eq!(tls.conf.tls_type, vec![0u8; PROFILE_NAME_LEN]);
    assert_eq!(tls.conf.attester_type, vec![0u8; PROFILE_NAME_LEN]);
    assert_eq!(tls.conf.flags, SESSION_FLAG_SERVER);
}

#[test]
fn successful_upgrade_spawns_workers() {
    let mut up = Upgrader::new();
    assert_eq!(up.state, ChannelState::Raw);
    assert_eq!(up.on_event(UpgradeEvent::InitOk), UpgradeAction::RunHandshake);
    assert_eq!(up.state, ChannelState::Negotiating);
    assert_eq!(up.on_event(UpgradeEvent::HandshakeOk), UpgradeAction::SpawnWorkers);
    assert_eq!(up.state, ChannelState::Secured);
    assert!(up.outcome().is_ok());
}

#[test]
fn invalid_attester_profile_fails_without_spawning() {
    // The provider refuses the session: the upgrade reports a negotiation
    // error, the only action is to close the raw socket, and no worker task
    // is ever spawned.
    let mut up = Upgrader::new();
    let action = up.on_event(UpgradeEvent::InitFailed { code: 0x2f });
    assert_eq!(action, UpgradeAction::CloseSocket);
    assert_eq!(up.state, ChannelState::Failed);
    assert_eq!(
        up.outcome(),
        Err(NegotiationError::InitFailed { code: 0x2f })
    );
}

#[test]
fn handshake_failure_closes_the_socket() {
    let mut up = Upgrader::new();
    assert_eq!(up.on_event(UpgradeEvent::InitOk), UpgradeAction::RunHandshake);
    assert_eq!(up.on_event(UpgradeEvent::HandshakeFailed), UpgradeAction::CloseSocket);
    assert_eq!(up.state, ChannelState::Failed);
    assert_eq!(up.outcome(), Err(NegotiationError::HandshakeFailed));
}

#[test]
fn connection_without_upgrade_is_usable_at_once() {
    let mut up = Upgrader::new();
    assert_eq!(
        up.on_event(UpgradeEvent::UpgradeNotRequested),
        UpgradeAction::UseRawStream
    );
    assert_eq!(up.state, ChannelState::Secured);
    assert!(up.outcome().is_ok());
}

#[test]
fn transmit_drain_resumes_after_partial_writes() {
    let mut d = TransmitDrain::new(10);
    assert_eq!(d.next_chunk(), Some((0, 10)));
    d.on_transmit(4);
    assert_eq!(d.next_chunk(), Some((4, 10)));
    d.on_transmit(6);
    assert_eq!(d.next_chunk(), None);
    assert_eq!(d.off, 10);
    assert!(!d.failed);
}

#[test]
fn transmit_drain_stops_on_error() {
    let mut d = TransmitDrain::new(10);
    d.on_transmit(3);
    d.on_transmit_error();
    assert_eq!(d.next_chunk(), None);
    assert!(d.failed);
    assert_eq!(d.off, 3);
}

#[test]
fn writer_task_drains_then_reads_again() {
    let mut t = SecureWriterTask::new();
    assert_eq!(t.on_pipe_data(5), WriterTaskAction::TransmitChunk);
    assert_eq!(t.state, WriterTaskState::Draining);
    let mut d = TransmitDrain::new(5);
    d.on_transmit(5);
    assert_eq!(t.on_drain_done(&d), WriterTaskAction::ReadPipe);
    assert_eq!(t.state, WriterTaskState::ReadingPipe);
}

#[test]
fn writer_task_half_closes_on_end_of_input() {
    let mut t = SecureWriterTask::new();
    assert_eq!(t.on_pipe_data(0), WriterTaskAction::HalfCloseWrite);
    assert_eq!(t.state, WriterTaskState::Finished);
}

#[test]
fn writer_task_half_closes_on_transmit_failure() {
    let mut t = SecureWriterTask::new();
    assert_eq!(t.on_pipe_data(3), WriterTaskAction::TransmitChunk);
    let mut d = TransmitDrain::new(3);
    d.on_transmit_error();
    assert_eq!(t.on_drain_failed(&d), WriterTaskAction::HalfCloseWrite);
    assert_eq!(t.state, WriterTaskState::Finished);
}

#[test]
fn reader_task_forwards_until_peer_is_done() {
    let mut t = SecureReaderTask::new();
    assert_eq!(t.on_receive(10), ReaderTaskAction::WriteToPipe);
    assert_eq!(t.state, ReaderTaskState::Receiving);
    // Zero bytes: the peer shut down its write side; the pipe is ended so
    // waiting callers see end-of-stream instead of stalling.
    assert_eq!(t.on_receive(0), ReaderTaskAction::HalfCloseReadAndEndPipe);
    assert_eq!(t.state, ReaderTaskState::Finished);
}

#[test]
fn reader_task_winds_down_on_receive_failure() {
    let mut t = SecureReaderTask::new();
    assert_eq!(t.on_receive_error(), ReaderTaskAction::HalfCloseReadAndEndPipe);
    assert_eq!(t.state, ReaderTaskState::Finished);
}

#[test]
fn reader_task_winds_down_when_pipe_consumer_is_gone() {
    let mut t = SecureReaderTask::new();
    assert_eq!(t.on_receive(4), ReaderTaskAction::WriteToPipe);
    assert_eq!(t.on_pipe_write_failed(), ReaderTaskAction::HalfCloseReadAndEndPipe);
    assert_eq!(t.state, ReaderTaskState::Finished);
}
