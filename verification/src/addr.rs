//! Peer addresses as plain values.
//!
//! All peer identity in this crate is a network socket address: an IP address
//! together with a port. The IP part is kept as a single 128-bit integer,
//! which is wide enough for both address families; the rendezvous aggregate
//! reports only this IP portion of each participant's address.

use vstd::prelude::*;

verus! {

/// The IP portion of a socket address, wide enough for either family.
pub type IpAddr = u128;

/// A peer's identity: IP address plus port.
#[derive(Clone, Copy, PartialEq, Eq, Hash, Debug, Structural)]
pub struct SocketAddr {
    pub ip: IpAddr,
    pub port: u16,
}

impl SocketAddr {
    /// Builds an address from its IP and port.
    pub fn new(ip: IpAddr, port: u16) -> (r: SocketAddr)
        ensures
            r.ip == ip,
            r.port == port,
    {
        SocketAddr { ip, port }
    }

    /// The IP portion of this address.
    pub fn ip(&self) -> (r: IpAddr)
        ensures
            r == self.ip,
    {
        self.ip
    }
}

} // verus!
