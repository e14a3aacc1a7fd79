//! Handler for frontend connections.
//!
//! The server's decisions are verified here over the stream of connections
//! the listener accepts: every accepted connection is driven through the
//! one shared pipeline, connections are served in arrival order and
//! independently, and a failure while serving one connection never ends
//! the loop or touches another connection — only the listener itself going
//! away ends the loop. The surrounding process owns the real listening
//! socket and hands the accepted connections in; binding the socket either
//! succeeds or is a startup-fatal error, in which case no serving happens
//! at all.

use vstd::prelude::*;

use crate::endpoint::Endpoint;
use crate::error::PipeError;
use crate::pipe::Pipe;
use crate::stream::Duplex;

verus! {

/// A frontend server, bound to the local address it will listen on.
pub struct Server {
    /// Local address where the frontend listens.
    pub local_address: Endpoint,
}

/// The serve loop, one connection after the other: `pend` and `outcomes`
/// are a possible final pipeline state and outcome log after driving
/// `conns` through a pipeline that started as `p0`. Each connection's
/// outcome — success or error — is logged, never propagated: the loop goes
/// on to the next connection regardless.
pub open spec fn served<P: Pipe<Duplex>>(
    p0: P,
    conns: Seq<Duplex>,
    pend: P,
    outcomes: Seq<Result<P::Output, PipeError>>,
) -> bool
    decreases conns.len(),
{
    if conns.len() == 0 {
        pend == p0 && outcomes.len() == 0
    } else {
        exists|p1: P, r0: Result<P::Output, PipeError>|
            #[trigger] p0.through_post(conns[0], p1, r0) && outcomes.len() >= 1 && outcomes[0]
                == r0 && served(p1, conns.skip(1), pend, outcomes.skip(1))
    }
}

/// Serving is one connection at a time: a serve of `conns` followed by one
/// more pass over `c` is a serve of `conns` extended by `c`.
proof fn lemma_served_one_more<P: Pipe<Duplex>>(
    p0: P,
    conns: Seq<Duplex>,
    pmid: P,
    outcomes: Seq<Result<P::Output, PipeError>>,
    c: Duplex,
    pend: P,
    r: Result<P::Output, PipeError>,
)
    requires
        served(p0, conns, pmid, outcomes),
        pmid.through_post(c, pend, r),
    ensures
        served(p0, conns.push(c), pend, outcomes.push(r)),
    decreases conns.len(),
{
    if conns.len() == 0 {
        assert(conns.push(c)[0] == c);
        assert(conns.push(c).skip(1) =~= Seq::<Duplex>::empty());
        assert(outcomes.push(r).skip(1) =~= Seq::<Result<P::Output, PipeError>>::empty());
        assert(served(pend, conns.push(c).skip(1), pend, outcomes.push(r).skip(1)));
        assert(p0.through_post(conns.push(c)[0], pend, r));
        assert(outcomes.push(r)[0] == r);
    } else {
        let (p1, r0) = choose|p1: P, r0: Result<P::Output, PipeError>|
            #[trigger] p0.through_post(conns[0], p1, r0) && outcomes.len() >= 1 && outcomes[0]
                == r0 && served(p1, conns.skip(1), pmid, outcomes.skip(1));
        lemma_served_one_more(p1, conns.skip(1), pmid, outcomes.skip(1), c, pend, r);
        assert(conns.push(c).skip(1) =~= conns.skip(1).push(c));
        assert(outcomes.push(r).skip(1) =~= outcomes.skip(1).push(r));
        assert(conns.push(c)[0] == conns[0]);
        assert(served(p1, conns.push(c).skip(1), pend, outcomes.push(r).skip(1)));
        assert(p0.through_post(conns.push(c)[0], p1, r0));
        assert(outcomes.push(r)[0] == r0);
    }
}

/// A serve outcome log holds exactly one entry per connection: no
/// connection is dropped from the log and none is served twice.
pub proof fn lemma_served_len<P: Pipe<Duplex>>(
    p0: P,
    conns: Seq<Duplex>,
    pend: P,
    outcomes: Seq<Result<P::Output, PipeError>>,
)
    requires
        served(p0, conns, pend, outcomes),
    ensures
        outcomes.len() == conns.len(),
    decreases conns.len(),
{
    if conns.len() > 0 {
        let (p1, r0) = choose|p1: P, r0: Result<P::Output, PipeError>|
            #[trigger] p0.through_post(conns[0], p1, r0) && outcomes.len() >= 1 && outcomes[0]
                == r0 && served(p1, conns.skip(1), pend, outcomes.skip(1));
        lemma_served_len(p1, conns.skip(1), pend, outcomes.skip(1));
    }
}

impl Server {
    /// Constructs a new [`Server`] for the given local address.
    pub fn bind_on(local_address: Endpoint) -> (r: Server)
        ensures
            r.local_address == local_address,
    {
        Server { local_address }
    }

    /// Serves the accepted connections at `local_address`: drives each one
    /// through the shared `middleware` pipeline, in arrival order, and logs
    /// each connection's outcome without letting a failure of one
    /// connection end the loop — one outcome is handed back for every
    /// accepted connection.
    pub fn serve<P: Pipe<Duplex>>(self, middleware: P, inbound: Vec<Duplex>) -> (outcomes: Vec<
        Result<P::Output, PipeError>,
    >)
        requires
            middleware.wf(),
        ensures
            outcomes@.len() == inbound@.len(),
            exists|pend: P| #[trigger] served(middleware, inbound@, pend, outcomes@),
    {
        let ghost p0 = middleware;
        let ghost conns = inbound@;
        let mut pipeline = middleware;
        let mut queue = inbound;
        let mut outcomes: Vec<Result<P::Output, PipeError>> = Vec::new();
        let ghost i: int = 0;
        while queue.len() > 0
            invariant
                0 <= i <= conns.len(),
                queue@ =~= conns.skip(i),
                outcomes@.len() == i,
                pipeline.wf(),
                served(p0, conns.take(i), pipeline, outcomes@),
            decreases queue@.len(),
        {
            let ghost pipe_before = pipeline;
            let conn = queue.remove(0);
            assert(conn == conns[i]);
            let outcome = pipeline.through(conn);
            proof {
                lemma_served_one_more(
                    p0,
                    conns.take(i),
                    pipe_before,
                    outcomes@,
                    conn,
                    pipeline,
                    outcome,
                );
                assert(conns.take(i).push(conn) =~= conns.take(i + 1));
            }
            outcomes.push(outcome);
            proof {
                i = i + 1;
            }
        }
        proof {
            assert(conns.take(i) =~= conns);
        }
        outcomes
    }
}

} // verus!
