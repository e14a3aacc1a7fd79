//! An in-memory model of a duplex byte stream.

use vstd::prelude::*;

use crate::endpoint::Endpoint;

verus! {

/// One end of a duplex connection, as the relay sees it.
///
/// `outgoing` is what this side still has to send before it half-closes its
/// write direction; `delivered` is what has been relayed to it so far;
/// `shut` records that the half-close of the opposite source has been
/// propagated to this side's write end.
pub struct Duplex {
    /// The address of the other side of this connection.
    pub peer: Endpoint,
    /// Bytes this side will send until its source is exhausted.
    pub outgoing: Vec<u8>,
    /// Bytes relayed to this side so far.
    pub delivered: Vec<u8>,
    /// Whether the half-close has been propagated to this side.
    pub shut: bool,
}

impl Duplex {
    /// A fresh, open connection to `peer` with nothing in flight.
    pub fn to(peer: Endpoint) -> (r: Duplex)
        ensures
            r.peer == peer,
            r.outgoing@ == Seq::<u8>::empty(),
            r.delivered@ == Seq::<u8>::empty(),
            !r.shut,
    {
        Duplex { peer, outgoing: Vec::new(), delivered: Vec::new(), shut: false }
    }

    /// A connection to `peer` whose side will send `outgoing` and then
    /// half-close.
    pub fn sending(peer: Endpoint, outgoing: Vec<u8>) -> (r: Duplex)
        ensures
            r.peer == peer,
            r.outgoing == outgoing,
            r.delivered@ == Seq::<u8>::empty(),
            !r.shut,
    {
        Duplex { peer, outgoing, delivered: Vec::new(), shut: false }
    }
}

} // verus!
