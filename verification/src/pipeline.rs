//! What one pass through the assembled pipeline does.
//!
//! The balancer composes `Chain(route(selector), snd(connect()))` and feeds
//! the result to the splicer: the router pairs the inbound stream with the
//! backend the selector handed out, and the projected connector turns that
//! address into the outbound connection while the inbound stream rides
//! along untouched. The proofs here state this end to end: against a
//! non-empty pool, pass number `k` hands the inbound stream back paired
//! with a connection to backend `k` of the cycled pool, and successive
//! passes move through distinct backends.

use vstd::arithmetic::div_mod::{lemma_add_mod_noop, lemma_mod_self_0, lemma_small_mod};
use vstd::prelude::*;

use crate::chain::Chain;
use crate::client::Client;
use crate::endpoint::Endpoint;
use crate::error::{PipeError, RoundRobinError};
use crate::pipe::Pipe;
use crate::proj::Second;
use crate::route::Router;
use crate::selector::{rotation, RoundRobin, Selector};
use crate::server::{lemma_served_len, served};
use crate::splice::{spliced, Splice};
use crate::stream::Duplex;

verus! {

/// One pass of the routing-and-connecting front of the pipeline: the
/// outcome is the untouched inbound stream paired with a fresh outbound
/// connection to the backend the selector handed out — selection number
/// `count` of the cycled pool — and the only state that moves is the
/// selector's cursor, one step.
pub proof fn lemma_route_then_connect(
    p0: Chain<Router<RoundRobin>, Second<Client>>,
    src: Duplex,
    next: Chain<Router<RoundRobin>, Second<Client>>,
    r: Result<(Duplex, Duplex), PipeError>,
)
    requires
        p0.left.selector.pool().len() > 0,
        p0.through_post(src, next, r),
    ensures
        r matches Ok(pair) && ({
            &&& pair.0 == src
            &&& pair.1.peer == rotation(p0.left.selector.pool(), p0.left.selector.count())
            &&& pair.1.outgoing@.len() == 0
            &&& pair.1.delivered@.len() == 0
            &&& !pair.1.shut
        }),
        next.left.selector.pool() == p0.left.selector.pool(),
        next.left.selector.count() == p0.left.selector.count() + 1,
        next.right == p0.right,
{
    let pool = p0.left.selector.pool();
    let count = p0.left.selector.count();
    let (lnext, lr) = choose|
        lnext: Router<RoundRobin>,
        lr: Result<(Duplex, Endpoint), PipeError>,
    |
        #[trigger] p0.left.through_post(src, lnext, lr) && match lr {
            Result::Ok(mid) => exists|rnext: Second<Client>|
                #[trigger] p0.right.through_post(mid, rnext, r) && next == (Chain {
                    left: lnext,
                    right: rnext,
                }),
            Result::Err(e) => r == Result::<(Duplex, Duplex), PipeError>::Err(e) && next
                == (Chain { left: lnext, right: p0.right }),
        };
    let (snext, sr) = choose|snext: RoundRobin, sr: Result<Endpoint, RoundRobinError>|
        #[trigger] p0.left.selector.select_post(snext, sr) && lnext == (Router {
            selector: snext,
        }) && match sr {
            Result::Ok(backend) => lr == Result::<(Duplex, Endpoint), PipeError>::Ok(
                (src, backend),
            ),
            Result::Err(e) => lr == Result::<(Duplex, Endpoint), PipeError>::Err(
                PipeError::Select(e),
            ),
        };
    let backend = rotation(pool, count);
    assert(sr == Result::<Endpoint, RoundRobinError>::Ok(backend));
    let mid = (src, backend);
    assert(lr == Result::<(Duplex, Endpoint), PipeError>::Ok(mid));
    let rnext = choose|rnext: Second<Client>|
        #[trigger] p0.right.through_post(mid, rnext, r) && next == (Chain {
            left: lnext,
            right: rnext,
        });
    let (pnext, pr) = choose|pnext: Client, pr: Result<Duplex, PipeError>|
        #[trigger] p0.right.inner.through_post(mid.1, pnext, pr) && rnext == (Second {
            inner: pnext,
        }) && match pr {
            Result::Ok(out) => r == Result::<(Duplex, Duplex), PipeError>::Ok((mid.0, out)),
            Result::Err(e) => r == Result::<(Duplex, Duplex), PipeError>::Err(e),
        };
    assert(pr is Ok);
}

/// One pass through the whole assembled pipeline — route, connect, splice:
/// the inbound stream is relayed byte for byte, in both directions and
/// with both half-closes delivered, over a fresh outbound connection to
/// the backend the selector handed out.
pub proof fn lemma_full_pass(
    p0: Chain<Chain<Router<RoundRobin>, Second<Client>>, Splice>,
    src: Duplex,
    next: Chain<Chain<Router<RoundRobin>, Second<Client>>, Splice>,
    r: Result<(Duplex, Duplex), PipeError>,
)
    requires
        p0.left.left.selector.pool().len() > 0,
        p0.through_post(src, next, r),
    ensures
        r matches Ok(pair) && ({
            &&& pair.0.peer == src.peer
            &&& pair.1.peer == rotation(
                p0.left.left.selector.pool(),
                p0.left.left.selector.count(),
            )
            &&& pair.1.delivered@ == src.outgoing@
            &&& pair.0.delivered@ == src.delivered@
            &&& pair.0.outgoing@.len() == 0 && pair.1.outgoing@.len() == 0
            &&& pair.0.shut && pair.1.shut
        }),
        next.left.left.selector.pool() == p0.left.left.selector.pool(),
        next.left.left.selector.count() == p0.left.left.selector.count() + 1,
{
    let (lnext, lr) = choose|
        lnext: Chain<Router<RoundRobin>, Second<Client>>,
        lr: Result<(Duplex, Duplex), PipeError>,
    |
        #[trigger] p0.left.through_post(src, lnext, lr) && match lr {
            Result::Ok(mid) => exists|rnext: Splice|
                #[trigger] p0.right.through_post(mid, rnext, r) && next == (Chain {
                    left: lnext,
                    right: rnext,
                }),
            Result::Err(e) => r == Result::<(Duplex, Duplex), PipeError>::Err(e) && next
                == (Chain { left: lnext, right: p0.right }),
        };
    lemma_route_then_connect(p0.left, src, lnext, lr);
    let mid = lr->Ok_0;
    let rnext = choose|rnext: Splice|
        #[trigger] p0.right.through_post(mid, rnext, r) && next == (Chain {
            left: lnext,
            right: rnext,
        });
    let pair = r->Ok_0;
    assert(spliced(mid.0, mid.1, pair.0, pair.1));
    assert(pair.1.delivered@ =~= src.outgoing@);
    assert(pair.0.delivered@ =~= src.delivered@);
}

/// Every connection of a serve run of the whole pipeline: connection
/// number `k` of the run is relayed byte for byte, with both half-closes
/// delivered, over a fresh outbound connection to backend `c + k` of the
/// cycled pool, where `c` counts the selections served before the run
/// began — the two-connection picture of one frontend with two backends,
/// stated for every run and every pool.
pub proof fn lemma_balancer_run(
    p0: Chain<Chain<Router<RoundRobin>, Second<Client>>, Splice>,
    conns: Seq<Duplex>,
    pend: Chain<Chain<Router<RoundRobin>, Second<Client>>, Splice>,
    outcomes: Seq<Result<(Duplex, Duplex), PipeError>>,
    k: int,
)
    requires
        p0.left.left.selector.pool().len() > 0,
        served(p0, conns, pend, outcomes),
        0 <= k < conns.len(),
    ensures
        outcomes[k] matches Ok(pair) && ({
            &&& pair.0.peer == conns[k].peer
            &&& pair.1.peer == rotation(
                p0.left.left.selector.pool(),
                (p0.left.left.selector.count() + k) as nat,
            )
            &&& pair.1.delivered@ == conns[k].outgoing@
            &&& pair.0.delivered@ == conns[k].delivered@
            &&& pair.0.shut && pair.1.shut
        }),
    decreases k,
{
    lemma_served_len(p0, conns, pend, outcomes);
    let (p1, r0) = choose|
        p1: Chain<Chain<Router<RoundRobin>, Second<Client>>, Splice>,
        r0: Result<(Duplex, Duplex), PipeError>,
    |
        #[trigger] p0.through_post(conns[0], p1, r0) && outcomes.len() >= 1 && outcomes[0] == r0
            && served(p1, conns.skip(1), pend, outcomes.skip(1));
    lemma_full_pass(p0, conns[0], p1, r0);
    if k > 0 {
        lemma_balancer_run(p1, conns.skip(1), pend, outcomes.skip(1), k - 1);
        assert(conns.skip(1)[k - 1] == conns[k]);
        assert(outcomes.skip(1)[k - 1] == outcomes[k]);
    }
}

/// Successive selections never repeat a backend out of cyclic order: when
/// the pool holds more than one pairwise-distinct backend, two passes in a
/// row connect to two different backends.
pub proof fn lemma_successive_passes_differ(
    p0: Chain<Router<RoundRobin>, Second<Client>>,
    src1: Duplex,
    p1: Chain<Router<RoundRobin>, Second<Client>>,
    r1: Result<(Duplex, Duplex), PipeError>,
    src2: Duplex,
    p2: Chain<Router<RoundRobin>, Second<Client>>,
    r2: Result<(Duplex, Duplex), PipeError>,
)
    requires
        p0.left.selector.pool().len() > 1,
        forall|i: int, j: int|
            0 <= i < j < p0.left.selector.pool().len() ==> p0.left.selector.pool()[i]
                != p0.left.selector.pool()[j],
        p0.through_post(src1, p1, r1),
        p1.through_post(src2, p2, r2),
    ensures
        r1 matches Ok(pair1) && r2 matches Ok(pair2) && pair1.1.peer != pair2.1.peer,
{
    lemma_route_then_connect(p0, src1, p1, r1);
    lemma_route_then_connect(p1, src2, p2, r2);
    let pool = p0.left.selector.pool();
    let n = pool.len() as int;
    let k = p0.left.selector.count() as int;
    let a = k % n;
    let b = (k + 1) % n;
    lemma_add_mod_noop(k, 1, n);
    lemma_small_mod(1, n as nat);
    if a + 1 == n {
        lemma_mod_self_0(n);
        assert(b == 0);
    } else {
        lemma_small_mod((a + 1) as nat, n as nat);
        assert(b == a + 1);
    }
    assert(a != b);
    assert(pool[a] != pool[b]);
}

} // verus!
