//! Virtual interface adapter: the configuration a capture device is opened
//! with.
//!
//! The process asks the OS for a layer-3 virtual network interface carrying
//! whole IP packets, addressed and activated before any rule is applied.
//! Opening can fail — that is a fatal setup error — and once open the
//! device's read side absorbs per-packet errors while its write side
//! terminates on failure; those policies live with the relay pumps
//! ([`crate::relay::SourceKind::Device`]).  Here stands what is decided
//! from plain values: the exact configuration the device is created with.

use vstd::prelude::*;

verus! {

/// An IPv4 address or netmask, by its four octets.
#[derive(Clone, Copy, Debug, PartialEq, Eq, Structural)]
pub struct IfaceAddr {
    pub o0: u8,
    pub o1: u8,
    pub o2: u8,
    pub o3: u8,
}

/// Everything the OS is told when the capture interface is created.
#[derive(Clone, Copy, Debug, PartialEq, Eq, Structural)]
pub struct InterfaceConfig {
    /// Address the interface answers on.
    pub address: IfaceAddr,
    /// Netmask of the interface's subnet.
    pub netmask: IfaceAddr,
    /// The device exchanges whole IP packets (layer 3), not frames.
    pub layer3: bool,
    /// Each packet carries the platform's packet-information header.
    pub packet_info: bool,
    /// The interface is activated as part of creation.
    pub up: bool,
}

/// Lays out the configuration for the capture interface: layer 3, the given
/// address and netmask, packet information on, activated immediately.
pub fn interface_config(address: IfaceAddr, netmask: IfaceAddr) -> (c: InterfaceConfig)
    ensures
        c == (InterfaceConfig { address, netmask, layer3: true, packet_info: true, up: true }),
{
    InterfaceConfig { address, netmask, layer3: true, packet_info: true, up: true }
}

} // verus!
