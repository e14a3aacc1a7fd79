//! Opens a client connection to a backend.
//!
//! The stage verified here establishes the connection value the rest of the
//! pipeline works with: a fresh duplex stream whose peer is exactly the
//! address it was given. The process-level connector performs the real dial
//! and reports a failure as [`PipeError::Connect`] carrying that address;
//! retry policy belongs to a calling layer, not to this stage.

use vstd::prelude::*;

use crate::endpoint::Endpoint;
use crate::error::PipeError;
use crate::pipe::Pipe;
use crate::stream::Duplex;

verus! {

/// A client connector.
pub struct Client;

/// Constructs a new [`Client`].
pub fn connect() -> (r: Client)
    ensures
        r == Client,
{
    Client
}

impl Pipe<Endpoint> for Client {
    type Output = Duplex;

    open spec fn wf(&self) -> bool {
        true
    }

    open spec fn through_post(
        &self,
        src: Endpoint,
        next: Self,
        r: Result<Self::Output, PipeError>,
    ) -> bool {
        next == *self && match r {
            Result::Ok(conn) => {
                &&& conn.peer == src
                &&& conn.outgoing@.len() == 0
                &&& conn.delivered@.len() == 0
                &&& !conn.shut
            },
            Result::Err(_) => false,
        }
    }

    fn through(&mut self, src: Endpoint) -> (r: Result<Self::Output, PipeError>) {
        Ok(Duplex::to(src))
    }
}

} // verus!
