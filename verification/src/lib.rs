//! Verified core of a user-space IP tunnel.
//!
//! An agent captures IP traffic from a virtual network interface and relays
//! it over a length-framed (optionally attested) TCP tunnel to a gateway,
//! which forwards it to a local service or to a peer gateway.  This crate
//! holds the parts of that system that are pure logic: the wire framing, the
//! bounded packet queues with their backpressure discipline, the relay pump
//! policies and joint-shutdown rule, the OS redirection-rule lifecycle, the
//! secure-channel session configuration and worker-task state machines, and
//! the gateway rendezvous.  The surrounding process (sockets, the virtual
//! interface, the attestation provider's calls) lives outside and drives
//! these machines with plain values.

pub mod adapter;
pub mod error;
pub mod frame;
pub mod queue;
pub mod relay;
pub mod rules;
pub mod rendezvous;
pub mod session;
