//! Splices traffic between two streams.

use vstd::prelude::*;

use crate::error::PipeError;
use crate::pipe::Pipe;
use crate::stream::Duplex;

verus! {

/// A splicer for traffic between two streams.
pub struct Splice;

/// Constructs a new [`Splice`].
pub fn splice() -> (r: Splice)
    ensures
        r == Splice,
{
    Splice
}

/// What a completed splice leaves behind: each side received exactly what
/// the other side sent, appended to what it already had; both sources are
/// exhausted; the half-close reached both sides; no byte was reframed,
/// reordered, dropped or invented on the way.
pub open spec fn spliced(a0: Duplex, b0: Duplex, a1: Duplex, b1: Duplex) -> bool {
    &&& a1.peer == a0.peer
    &&& b1.peer == b0.peer
    &&& b1.delivered@ == b0.delivered@ + a0.outgoing@
    &&& a1.delivered@ == a0.delivered@ + b0.outgoing@
    &&& a1.outgoing@.len() == 0
    &&& b1.outgoing@.len() == 0
    &&& a1.shut
    &&& b1.shut
}

/// Copies bytes in both directions until both sources are exhausted, then
/// propagates the half-close to each destination.
///
/// Each direction is independent of the other: a side that has finished
/// sending still receives everything the other side sends, so completion
/// never waits on an already-finished direction.
pub fn relay(a: &mut Duplex, b: &mut Duplex)
    ensures
        spliced(*old(a), *old(b), *final(a), *final(b)),
{
    b.delivered.append(&mut a.outgoing);
    a.delivered.append(&mut b.outgoing);
    a.shut = true;
    b.shut = true;
}

impl Pipe<(Duplex, Duplex)> for Splice {
    type Output = (Duplex, Duplex);

    open spec fn wf(&self) -> bool {
        true
    }

    open spec fn through_post(
        &self,
        src: (Duplex, Duplex),
        next: Self,
        r: Result<Self::Output, PipeError>,
    ) -> bool {
        next == *self && match r {
            Result::Ok(pair) => spliced(src.0, src.1, pair.0, pair.1),
            Result::Err(_) => false,
        }
    }

    fn through(&mut self, src: (Duplex, Duplex)) -> (r: Result<Self::Output, PipeError>) {
        let (mut inbound, mut outbound) = src;
        relay(&mut inbound, &mut outbound);
        Ok((inbound, outbound))
    }
}

} // verus!
