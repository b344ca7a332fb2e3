//! Gateway rendezvous: two connection sources raced to readiness, then a
//! symmetric byte relay.
//!
//! A gateway waits for two independent streams — one toward the agent
//! (always accepted), one toward a peer gateway (dialed or accepted,
//! selected by configuration).  Each is optionally upgraded through the
//! secure channel.  The rendezvous holds whichever side arrives first and
//! keeps racing for the other; only when both are secured does it hand the
//! two streams to a full-duplex byte copy.  The copy's joint termination
//! follows the relay rule of [`crate::relay`]: the gateway is done as soon
//! as either direction's copy finishes.

use vstd::prelude::*;

use crate::error::ConfigError;

verus! {

/// Default port on which a gateway listens for its peer gateway.
pub const DEFAULT_PEER_PORT: u16 = 6979;

/// Default port on which a gateway listens for the agent.
pub const DEFAULT_AGENT_PORT: u16 = 6980;

/// A gateway's resolved startup configuration.  The peer side either dials
/// `peer_connect` (an address the process resolves) or listens on
/// `peer_listen`; exactly one of the two must be set.
pub struct GatewayConfig {
    /// Address of the peer gateway to dial, as the raw text given at
    /// startup; `None` in listening mode.
    pub peer_connect: Option<Vec<u8>>,
    /// Port to await the peer gateway on; `None` in dialing mode.
    pub peer_listen: Option<u16>,
    /// Port to await the agent on.
    pub agent_listen: u16,
    /// Whether the peer-facing stream must be attested.
    pub peer_attested: bool,
    /// Whether the agent-facing stream must be attested.
    pub agent_attested: bool,
}

/// A configuration is valid exactly when one and only one peer source is
/// set.
pub open spec fn spec_valid_gateway(cfg: GatewayConfig) -> bool {
    cfg.peer_connect is Some <==> cfg.peer_listen is None
}

/// Checks the one configuration rule: dialing and listening for the peer
/// are mutually exclusive, and one of them is required.
pub fn validate_gateway(cfg: &GatewayConfig) -> (r: Result<(), ConfigError>)
    ensures
        r == Ok::<(), ConfigError>(()) <==> spec_valid_gateway(*cfg),
        cfg.peer_connect is Some && cfg.peer_listen is Some ==> r == Err::<(), ConfigError>(
            ConfigError::PeerSourceConflict,
        ),
        cfg.peer_connect is None && cfg.peer_listen is None ==> r == Err::<(), ConfigError>(
            ConfigError::PeerSourceMissing,
        ),
{
    match (&cfg.peer_connect, &cfg.peer_listen) {
        (Some(_), Some(_)) => Err(ConfigError::PeerSourceConflict),
        (None, None) => Err(ConfigError::PeerSourceMissing),
        _ => Ok(()),
    }
}

/// How the peer-facing connection is acquired.
#[derive(Clone, Copy, Debug, PartialEq, Eq, Structural)]
pub enum PeerSource {
    /// Dial the configured peer address.
    Dial,
    /// Accept one inbound connection on this port.
    Listen { port: u16 },
}

/// Decides how to acquire the peer-facing connection.
pub fn peer_source(cfg: &GatewayConfig) -> (r: PeerSource)
    requires
        spec_valid_gateway(*cfg),
    ensures
        cfg.peer_connect is Some ==> r == PeerSource::Dial,
        cfg.peer_connect is None ==> (cfg.peer_listen matches Some(p) && r == (PeerSource::Listen {
            port: p,
        })),
{
    match &cfg.peer_listen {
        Some(port) => PeerSource::Listen { port: *port },
        None => PeerSource::Dial,
    }
}

/// On the peer-facing side, the gateway that listens acts as the
/// attestation responder; the one that dials acts as initiator.
pub fn peer_role_is_server(cfg: &GatewayConfig) -> (b: bool)
    ensures
        b == (cfg.peer_connect is None),
{
    cfg.peer_connect.is_none()
}

/// Evidence-generation strategy named to the attestation provider.
#[derive(Clone, Copy, Debug, PartialEq, Eq, Structural)]
pub enum AttesterProfile {
    /// Produce no evidence (the side that only checks the peer).
    NullAttester,
    /// Produce SGX ECDSA evidence.
    SgxEcdsa,
}

/// Evidence-checking strategy named to the attestation provider.
#[derive(Clone, Copy, Debug, PartialEq, Eq, Structural)]
pub enum VerifierProfile {
    /// Accept any peer (the side that only presents evidence).
    NullVerifier,
    /// Check SGX ECDSA evidence.
    SgxEcdsa,
}

/// The attester/verifier pair one side hands to the provider.
#[derive(Clone, Copy, Debug, PartialEq, Eq, Structural)]
pub struct SideProfiles {
    pub attester: AttesterProfile,
    pub verifier: VerifierProfile,
}

/// Selects the attestation profiles for one end of a connection: the
/// responder presents SGX ECDSA evidence and checks none, the initiator
/// presents none and checks the responder's SGX ECDSA evidence.
pub fn side_profiles(server: bool) -> (p: SideProfiles)
    ensures
        server ==> p == (SideProfiles {
            attester: AttesterProfile::SgxEcdsa,
            verifier: VerifierProfile::NullVerifier,
        }),
        !server ==> p == (SideProfiles {
            attester: AttesterProfile::NullAttester,
            verifier: VerifierProfile::SgxEcdsa,
        }),
{
    if server {
        SideProfiles {
            attester: AttesterProfile::SgxEcdsa,
            verifier: VerifierProfile::NullVerifier,
        }
    } else {
        SideProfiles {
            attester: AttesterProfile::NullAttester,
            verifier: VerifierProfile::SgxEcdsa,
        }
    }
}

/// Where the gateway stands between startup and exit.
#[derive(Clone, Copy, Debug, PartialEq, Eq, Structural)]
pub enum RendezvousState {
    /// Racing the two acquisition procedures; each flag records a side
    /// whose stream is already secured.
    Waiting { agent_ready: bool, peer_ready: bool },
    /// Both streams secured and handed to the byte copy.
    Relaying,
    /// The copy finished (either direction); the gateway exits cleanly.
    Closed,
    /// A side failed to connect or to secure; the gateway gives up.
    Failed,
}

/// What the gateway's driver reports.
#[derive(Clone, Copy, Debug, PartialEq, Eq, Structural)]
pub enum RendezvousEvent {
    /// The agent-facing stream is connected and (where demanded) attested.
    AgentSecured,
    /// The peer-facing stream is connected and (where demanded) attested.
    PeerSecured,
    /// Acquiring or upgrading either stream failed.
    SetupFailed,
    /// One direction of the byte copy finished.
    CopyFinished,
}

/// The state every gateway starts in.
pub open spec fn rendezvous_init() -> RendezvousState {
    RendezvousState::Waiting { agent_ready: false, peer_ready: false }
}

/// The rendezvous transition.  A side's readiness is recorded once; the
/// second readiness starts the relay.  Events that cannot occur in a state
/// (a side reported ready twice, a copy finishing before it started) are
/// ignored.
pub open spec fn rendezvous_step(s: RendezvousState, ev: RendezvousEvent) -> RendezvousState {
    match s {
        RendezvousState::Waiting { agent_ready, peer_ready } => match ev {
            RendezvousEvent::AgentSecured => if peer_ready {
                RendezvousState::Relaying
            } else {
                RendezvousState::Waiting { agent_ready: true, peer_ready }
            },
            RendezvousEvent::PeerSecured => if agent_ready {
                RendezvousState::Relaying
            } else {
                RendezvousState::Waiting { agent_ready, peer_ready: true }
            },
            RendezvousEvent::SetupFailed => RendezvousState::Failed,
            RendezvousEvent::CopyFinished => s,
        },
        RendezvousState::Relaying => match ev {
            RendezvousEvent::CopyFinished => RendezvousState::Closed,
            _ => s,
        },
        RendezvousState::Closed => s,
        RendezvousState::Failed => s,
    }
}

/// The state after a whole trace of events.
pub open spec fn rendezvous_run(s: RendezvousState, evs: Seq<RendezvousEvent>) -> RendezvousState
    decreases evs.len(),
{
    if evs.len() == 0 {
        s
    } else {
        rendezvous_run(rendezvous_step(s, evs[0]), evs.drop_first())
    }
}

/// Tracks one gateway run.
pub struct Rendezvous {
    /// Where the gateway stands.
    pub state: RendezvousState,
}

impl Rendezvous {
    /// A gateway that has not heard from either side.
    pub fn new() -> (r: Rendezvous)
        ensures
            r.state == rendezvous_init(),
    {
        Rendezvous { state: RendezvousState::Waiting { agent_ready: false, peer_ready: false } }
    }

    /// Feeds the rendezvous one event, following [`rendezvous_step`]
    /// exactly.
    pub fn on_event(&mut self, ev: RendezvousEvent)
        ensures
            final(self).state == rendezvous_step(old(self).state, ev),
    {
        match self.state {
            RendezvousState::Waiting { agent_ready, peer_ready } => match ev {
                RendezvousEvent::AgentSecured => {
                    if peer_ready {
                        self.state = RendezvousState::Relaying;
                    } else {
                        self.state = RendezvousState::Waiting { agent_ready: true, peer_ready };
                    }
                },
                RendezvousEvent::PeerSecured => {
                    if agent_ready {
                        self.state = RendezvousState::Relaying;
                    } else {
                        self.state = RendezvousState::Waiting { agent_ready, peer_ready: true };
                    }
                },
                RendezvousEvent::SetupFailed => {
                    self.state = RendezvousState::Failed;
                },
                RendezvousEvent::CopyFinished => {},
            },
            RendezvousState::Relaying => {
                if ev == RendezvousEvent::CopyFinished {
                    self.state = RendezvousState::Closed;
                }
            },
            RendezvousState::Closed => {},
            RendezvousState::Failed => {},
        }
    }

    /// Whether the byte copy may run: true only in `Relaying`.
    pub fn relaying(&self) -> (b: bool)
        ensures
            b == (self.state is Relaying),
    {
        matches!(self.state, RendezvousState::Relaying)
    }
}

/// A readiness flag is only ever set by the matching secured event, and the
/// relay only ever starts with both flags accounted for.
spec fn secured_seen(s: RendezvousState, agent_seen: bool, peer_seen: bool) -> bool {
    match s {
        RendezvousState::Waiting { agent_ready, peer_ready } => (agent_ready ==> agent_seen) && (
        peer_ready ==> peer_seen),
        RendezvousState::Relaying => agent_seen && peer_seen,
        RendezvousState::Closed => agent_seen && peer_seen,
        RendezvousState::Failed => true,
    }
}

/// A non-empty trace contains an event exactly when its head is that event
/// or its tail contains it.
proof fn lemma_contains_unfold(evs: Seq<RendezvousEvent>, x: RendezvousEvent)
    requires
        evs.len() > 0,
    ensures
        evs.contains(x) == (evs[0] == x || evs.drop_first().contains(x)),
{
    if evs[0] == x {
        assert(evs.contains(x));
    }
    if evs.drop_first().contains(x) {
        let i = choose|i: int| 0 <= i < evs.drop_first().len() && evs.drop_first()[i] == x;
        assert(evs[i + 1] == x);
        assert(evs.contains(x));
    }
    if evs.contains(x) && evs[0] != x {
        let i = choose|i: int| 0 <= i < evs.len() && evs[i] == x;
        assert(evs.drop_first()[i - 1] == x);
        assert(evs.drop_first().contains(x));
    }
}

proof fn lemma_gating_run(s: RendezvousState, evs: Seq<RendezvousEvent>, a0: bool, p0: bool)
    requires
        secured_seen(s, a0, p0),
    ensures
        secured_seen(
            rendezvous_run(s, evs),
            a0 || evs.contains(RendezvousEvent::AgentSecured),
            p0 || evs.contains(RendezvousEvent::PeerSecured),
        ),
    decreases evs.len(),
{
    if evs.len() > 0 {
        let s1 = rendezvous_step(s, evs[0]);
        let a1 = a0 || evs[0] == RendezvousEvent::AgentSecured;
        let p1 = p0 || evs[0] == RendezvousEvent::PeerSecured;
        assert(secured_seen(s1, a1, p1));
        lemma_gating_run(s1, evs.drop_first(), a1, p1);
        lemma_contains_unfold(evs, RendezvousEvent::AgentSecured);
        lemma_contains_unfold(evs, RendezvousEvent::PeerSecured);
    }
}

/// Rendezvous gating: under any trace of events from startup, the gateway
/// is relaying (or has finished relaying) only if both the agent-facing and
/// the peer-facing stream were reported secured beforehand.
pub proof fn lemma_rendezvous_gating(evs: Seq<RendezvousEvent>)
    ensures
        rendezvous_run(rendezvous_init(), evs) is Relaying ==> evs.contains(
            RendezvousEvent::AgentSecured,
        ) && evs.contains(RendezvousEvent::PeerSecured),
        rendezvous_run(rendezvous_init(), evs) is Closed ==> evs.contains(
            RendezvousEvent::AgentSecured,
        ) && evs.contains(RendezvousEvent::PeerSecured),
{
    lemma_gating_run(rendezvous_init(), evs, false, false);
}

/// Arrival order does not matter: whichever side becomes ready first, once
/// the other follows the gateway is relaying, and the state reached is the
/// same.
pub proof fn lemma_arrival_order_irrelevant()
    ensures
        rendezvous_run(
            rendezvous_init(),
            seq![RendezvousEvent::AgentSecured, RendezvousEvent::PeerSecured],
        ) == RendezvousState::Relaying,
        rendezvous_run(
            rendezvous_init(),
            seq![RendezvousEvent::PeerSecured, RendezvousEvent::AgentSecured],
        ) == RendezvousState::Relaying,
{
    reveal_with_fuel(rendezvous_run, 3);
}

} // verus!
