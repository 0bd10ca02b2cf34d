//! Transport addresses as plain values.

use vstd::prelude::*;

verus! {

/// An IP address, octets in network order.
#[derive(Clone, Copy, Debug, PartialEq, Eq)]
pub enum IpAddress {
    V4([u8; 4]),
    V6([u8; 16]),
}

/// An IP address and a port: where a datagram came from, or where a peer is
/// seen from.
#[derive(Clone, Copy, Debug, PartialEq, Eq)]
pub struct Address {
    pub ip: IpAddress,
    pub port: u16,
}

} // verus!
