//! The address of an endpoint, as plain numbers.

use vstd::prelude::*;

verus! {

/// Where datagrams come from and go to: an internet address and a port.
///
/// Two addresses are the same endpoint when all their fields agree. For an
/// IPv6 address that includes the flow label and the scope.
#[derive(Debug, Clone, Copy, PartialEq, Eq, Structural)]
#[allow(inconsistent_fields)]
pub enum Address {
    /// An IPv4 address, its four octets read as one big-endian number.
    V4 { ip: u32, port: u16 },
    /// An IPv6 address, its sixteen octets read as one big-endian number.
    V6 { ip: u128, port: u16, flowinfo: u32, scope_id: u32 },
}

impl Address {
    /// The port of the address.
    pub open spec fn spec_port(self) -> u16 {
        match self {
            Address::V4 { port, .. } => port,
            Address::V6 { port, .. } => port,
        }
    }

    /// The address of the port `port` on the same host.
    pub open spec fn spec_with_port(self, port: u16) -> Address {
        match self {
            Address::V4 { ip, .. } => Address::V4 { ip, port },
            Address::V6 { ip, flowinfo, scope_id, .. } => Address::V6 {
                ip,
                port,
                flowinfo,
                scope_id,
            },
        }
    }

    /// The port of the address.
    #[verifier::when_used_as_spec(spec_port)]
    pub fn port(self) -> (port: u16)
        ensures
            port == self.spec_port(),
    {
        match self {
            Address::V4 { port, .. } => port,
            Address::V6 { port, .. } => port,
        }
    }

    /// The address of the port `port` on the same host.
    #[verifier::when_used_as_spec(spec_with_port)]
    pub fn with_port(self, port: u16) -> (address: Address)
        ensures
            address == self.spec_with_port(port),
    {
        match self {
            Address::V4 { ip, .. } => Address::V4 { ip, port },
            Address::V6 { ip, flowinfo, scope_id, .. } => Address::V6 {
                ip,
                port,
                flowinfo,
                scope_id,
            },
        }
    }
}

} // verus!
