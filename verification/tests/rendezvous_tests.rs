use entunnel::adapter::IfaceAddr;
use entunnel::adapter::InterfaceConfig;
use entunnel::adapter::interface_config;
use entunnel::error::ConfigError;
use entunnel::relay::PumpAction;
use entunnel::relay::ReadEvent;
use entunnel::relay::ReaderPump;
use entunnel::relay::SourceKind;
use entunnel::rendezvous::AttesterProfile;
use entunnel::rendezvous::DEFAULT_AGENT_PORT;
use entunnel::rendezvous::DEFAULT_PEER_PORT;
use entunnel::rendezvous::GatewayConfig;
use entunnel::rendezvous::PeerSource;
use entunnel::rendezvous::Rendezvous;
use entunnel::rendezvous::RendezvousEvent;
use entunnel::rendezvous::RendezvousState;
use entunnel::rendezvous::VerifierProfile;
use entunnel::rendezvous::peer_role_is_server;
use entunnel::rendezvous::peer_source;
use entunnel::rendezvous::side_profiles;
use entunnel::rendezvous::validate_gateway;

fn listen_config() -> GatewayConfig {
    GatewayConfig {
        peer_connect: None,
        peer_listen: Some(DEFAULT_PEER_PORT),
        agent_listen: DEFAULT_AGENT_PORT,
        peer_attested: false,
        agent_attested: false,
    }
}

#[test]
fn config_needs_exactly_one_peer_source() {
    let mut cfg = listen_config();
    assert!(validate_gateway(&cfg).is_ok());

    cfg.peer_connect = Some(b"172.17.0.1:6979".to_vec());
    assert_eq!(validate_gateway(&cfg), Err(ConfigError::PeerSourceConflict));

    cfg.peer_listen = None;
    assert!(validate_gateway(&cfg).is_ok());

    cfg.peer_connect = None;
    assert_eq!(validate_gateway(&cfg), Err(ConfigError::PeerSourceMissing));
}

#[test]
fn peer_side_dials_or_listens_by_configuration() {
    let cfg = listen_config();
    assert_eq!(peer_source(&cfg), PeerSource::Listen { port: 6979 });
    // The listening gateway is the attestation responder.
    assert!(peer_role_is_server(&cfg));

    let cfg = GatewayConfig {
        peer_connect: Some(b"172.17.0.1:6979".to_vec()),
        peer_listen: None,
        ..listen_config()
    };
    assert_eq!(peer_source(&cfg), PeerSource::Dial);
    assert!(!peer_role_is_server(&cfg));
}

#[test]
fn responder_and_initiator_profiles() {
    let server = side_profiles(true);
    assert_eq!(server.attester, AttesterProfile::SgxEcdsa);
    assert_eq!(server.verifier, VerifierProfile::NullVerifier);

    let client = side_profiles(false);
    assert_eq!(client.attester, AttesterProfile::NullAttester);
    assert_eq!(client.verifier, VerifierProfile::SgxEcdsa);
}

#[test]
fn relay_starts_only_after_both_sides_are_ready() {
    // Listening gateway, agent connects first, the peer only later: no
    // relaying until the peer is there too.
    let mut rv = Rendezvous::new();
    rv.on_event(RendezvousEvent::AgentSecured);
    assert!(!rv.relaying());
    rv.on_event(RendezvousEvent::PeerSecured);
    assert!(rv.relaying());
}

#[test]
fn arrival_order_does_not_matter() {
    let mut agent_first = Rendezvous::new();
    agent_first.on_event(RendezvousEvent::AgentSecured);
    agent_first.on_event(RendezvousEvent::PeerSecured);

    let mut peer_first = Rendezvous::new();
    peer_first.on_event(RendezvousEvent::PeerSecured);
    peer_first.on_event(RendezvousEvent::AgentSecured);

    assert_eq!(agent_first.state, RendezvousState::Relaying);
    assert_eq!(peer_first.state, RendezvousState::Relaying);
}

#[test]
fn bytes_relayed_after_start_are_unmodified() {
    // Once relaying, a chunk sent by the agent reaches the peer byte for
    // byte: the pump hands it on exactly as read.
    let mut rv = Rendezvous::new();
    rv.on_event(RendezvousEvent::AgentSecured);
    rv.on_event(RendezvousEvent::PeerSecured);
    assert!(rv.relaying());
    let mut pump = ReaderPump::new(SourceKind::Transport);
    let chunk = b"GET / HTTP/1.1\r\n".to_vec();
    match pump.on_event(ReadEvent::Packet(chunk.clone())) {
        PumpAction::Deliver(out) => assert_eq!(out, chunk),
        _ => panic!("expected Deliver"),
    }
}

#[test]
fn copy_finishing_closes_the_gateway() {
    let mut rv = Rendezvous::new();
    rv.on_event(RendezvousEvent::AgentSecured);
    rv.on_event(RendezvousEvent::PeerSecured);
    rv.on_event(RendezvousEvent::CopyFinished);
    assert_eq!(rv.state, RendezvousState::Closed);
}

#[test]
fn setup_failure_ends_the_run() {
    let mut rv = Rendezvous::new();
    rv.on_event(RendezvousEvent::AgentSecured);
    rv.on_event(RendezvousEvent::SetupFailed);
    assert_eq!(rv.state, RendezvousState::Failed);
    assert!(!rv.relaying());
}

#[test]
fn capture_interface_configuration() {
    let c = interface_config(
        IfaceAddr { o0: 192, o1: 168, o2: 0, o3: 1 },
        IfaceAddr { o0: 255, o1: 255, o2: 255, o3: 0 },
    );
    assert_eq!(
        c,
        InterfaceConfig {
            address: IfaceAddr { o0: 192, o1: 168, o2: 0, o3: 1 },
            netmask: IfaceAddr { o0: 255, o1: 255, o2: 255, o3: 0 },
            layer3: true,
            packet_info: true,
            up: true,
        }
    );
}
