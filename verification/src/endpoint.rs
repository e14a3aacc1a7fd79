//! Network endpoints as the balancer sees them.

use vstd::prelude::*;

verus! {

/// An immutable network endpoint: an IPv4 host and a port.
///
/// Configuration owns these at startup; the selector's pool copies them and
/// never mutates one afterwards.
#[derive(Clone, Copy, PartialEq, Eq, Structural, Debug, Hash)]
pub struct Endpoint {
    /// Host address, as the usual big-endian packing of the four octets.
    pub ip: u32,
    /// Port.
    pub port: u16,
}

impl Endpoint {
    /// Packs four dotted-quad octets and a port into an endpoint.
    pub fn from_octets(a: u8, b: u8, c: u8, d: u8, port: u16) -> (r: Endpoint)
        ensures
            r.ip == a * 0x100_0000 + b * 0x1_0000 + c * 0x100 + d,
            r.port == port,
    {
        let ip: u32 = (a as u32) * 0x100_0000 + (b as u32) * 0x1_0000 + (c as u32) * 0x100
            + (d as u32);
        Endpoint { ip, port }
    }
}

} // verus!
