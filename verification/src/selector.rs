//! Routing of incoming connections to an appropriate backend.
//!
//! The round-robin selector is the only mutable state shared between
//! connections. Its whole behaviour is the small state machine verified
//! here: a fixed pool and a cursor that advances one position per request.
//! The surrounding process wires it to concurrent callers through a
//! request/response queue whose owning task serves one request at a time,
//! so the sequence of outcomes across all callers is exactly the sequence
//! this state machine hands out.

use vstd::arithmetic::div_mod::{
    lemma_add_mod_noop, lemma_fundamental_div_mod, lemma_mod_bound, lemma_mod_multiples_vanish,
    lemma_mod_self_0, lemma_small_mod,
};
use vstd::prelude::*;

use crate::endpoint::Endpoint;
use crate::error::RoundRobinError;

verus! {

/// Selector for a target backend to serve an incoming connection.
pub trait Selector: Sized {
    /// Error due to the selection operation.
    type Error;

    /// Well-formedness of the selector's internal state.
    spec fn wf(&self) -> bool;

    /// Relates the selector before one `select` call, the selector after
    /// it, and the outcome handed to the caller.
    spec fn select_post(&self, next: Self, r: Result<Endpoint, Self::Error>) -> bool;

    /// Selects an appropriate backend for one incoming connection.
    fn select(&mut self) -> (r: Result<Endpoint, Self::Error>)
        requires
            old(self).wf(),
        ensures
            final(self).wf(),
            old(self).select_post(*final(self), r),
    ;
}

/// The backend handed out for request number `k` against `pool`:
/// the pool cycled in declaration order.
pub open spec fn rotation(pool: Seq<Endpoint>, k: nat) -> Endpoint
    recommends
        pool.len() > 0,
{
    pool[(k % pool.len()) as int]
}

/// A round-robin selector: an ordered pool fixed at construction and a
/// cursor that cycles through it, one step per selection.
pub struct RoundRobin {
    backends: Vec<Endpoint>,
    cursor: usize,
    served: Ghost<nat>,
}

impl RoundRobin {
    /// The fixed pool, in declaration order.
    pub closed spec fn pool(&self) -> Seq<Endpoint> {
        self.backends@
    }

    /// How many selections this selector has served so far.
    pub closed spec fn count(&self) -> nat {
        self.served@
    }

    /// Creates a round-robin selector for a backend within the provided
    /// sequence.
    ///
    /// Backends are selected cyclically in-order. An empty sequence is
    /// accepted; every later selection then reports the no-backend error.
    pub fn with_backends(backends: Vec<Endpoint>) -> (r: RoundRobin)
        ensures
            r.wf(),
            r.pool() == backends@,
            r.count() == 0,
    {
        RoundRobin { backends, cursor: 0, served: Ghost(0) }
    }
}

impl Selector for RoundRobin {
    type Error = RoundRobinError;

    closed spec fn wf(&self) -> bool {
        if self.pool().len() == 0 {
            self.cursor == 0
        } else {
            self.cursor == self.count() % self.pool().len()
        }
    }

    /// One selection: the pool never changes, the count of served requests
    /// grows by one, and the outcome is the no-backend error on an empty
    /// pool and otherwise backend number `count` of the cycled pool.
    open spec fn select_post(&self, next: Self, r: Result<Endpoint, RoundRobinError>) -> bool {
        &&& next.pool() == self.pool()
        &&& next.count() == self.count() + 1
        &&& r == if self.pool().len() == 0 {
            Result::<Endpoint, RoundRobinError>::Err(RoundRobinError::NoBackend)
        } else {
            Result::<Endpoint, RoundRobinError>::Ok(rotation(self.pool(), self.count()))
        }
    }

    /// Selection number `k` (counting from zero) returns `pool[k % pool.len()]`,
    /// and an empty pool yields the no-backend error rather than blocking or
    /// panicking.
    fn select(&mut self) -> (r: Result<Endpoint, RoundRobinError>) {
        self.served = Ghost(self.served@ + 1);
        if self.backends.len() == 0 {
            Err(RoundRobinError::NoBackend)
        } else {
            let chosen: Endpoint = self.backends[self.cursor];
            self.cursor = self.cursor + 1;
            if self.cursor == self.backends.len() {
                self.cursor = 0;
            }
            proof {
                let n = self.backends@.len() as int;
                let s = old(self).served@ as int;
                lemma_add_mod_noop(s, 1, n);
                if n == 1 {
                    lemma_mod_self_0(n);
                } else {
                    lemma_small_mod(1, n as nat);
                    if old(self).cursor + 1 == n {
                        lemma_mod_self_0(n);
                    } else {
                        lemma_small_mod((old(self).cursor + 1) as nat, n as nat);
                    }
                }
            }
            Ok(chosen)
        }
    }
}

/// A run of selections: `states` holds the selector's state before each of
/// the `outcomes.len()` calls and after the last one, and every call meets
/// the selection contract. Concurrent callers interleave only on their way
/// into the owning task's queue; once enqueued, the calls are served
/// strictly one at a time, which is exactly such a run.
pub open spec fn selection_run(
    states: Seq<RoundRobin>,
    outcomes: Seq<Result<Endpoint, RoundRobinError>>,
) -> bool {
    &&& states.len() == outcomes.len() + 1
    &&& forall|k: int|
        0 <= k < outcomes.len() ==> #[trigger] states[k].select_post(states[k + 1], outcomes[k])
}

proof fn lemma_run_state(
    states: Seq<RoundRobin>,
    outcomes: Seq<Result<Endpoint, RoundRobinError>>,
    k: int,
)
    requires
        selection_run(states, outcomes),
        0 <= k < states.len(),
    ensures
        states[k].pool() == states[0].pool(),
        states[k].count() == states[0].count() + k,
    decreases k,
{
    if k > 0 {
        lemma_run_state(states, outcomes, k - 1);
        assert(states[k - 1].select_post(states[k - 1 + 1], outcomes[k - 1]));
    }
}

/// Round-robin is deterministic and cyclic: in any run that starts from a
/// fresh selector over a non-empty pool, selection number `k` returns
/// `pool[k % N]` — no entry skipped, none handed out twice out of cyclic
/// order, regardless of how many callers the run's requests came from.
pub proof fn lemma_run_is_cyclic(
    states: Seq<RoundRobin>,
    outcomes: Seq<Result<Endpoint, RoundRobinError>>,
    k: int,
)
    requires
        selection_run(states, outcomes),
        states[0].count() == 0,
        states[0].pool().len() > 0,
        0 <= k < outcomes.len(),
    ensures
        outcomes[k] == Result::<Endpoint, RoundRobinError>::Ok(
            rotation(states[0].pool(), k as nat),
        ),
{
    lemma_run_state(states, outcomes, k);
    assert(states[k].select_post(states[k + 1], outcomes[k]));
}

/// Against an empty pool, every selection of a run reports the no-backend
/// error: none blocks and none panics, however long the run goes on.
pub proof fn lemma_run_without_backends_always_fails(
    states: Seq<RoundRobin>,
    outcomes: Seq<Result<Endpoint, RoundRobinError>>,
    k: int,
)
    requires
        selection_run(states, outcomes),
        states[0].pool().len() == 0,
        0 <= k < outcomes.len(),
    ensures
        outcomes[k] == Result::<Endpoint, RoundRobinError>::Err(RoundRobinError::NoBackend),
{
    lemma_run_state(states, outcomes, k);
    assert(states[k].select_post(states[k + 1], outcomes[k]));
}

/// The first `c` backends a fresh selector over `pool` hands out, in order.
pub open spec fn handouts(pool: Seq<Endpoint>, c: nat) -> Seq<Endpoint> {
    Seq::new(c, |k: int| rotation(pool, k as nat))
}

/// The pool repeated `m` times, end to end.
pub open spec fn repeated(pool: Seq<Endpoint>, m: nat) -> Seq<Endpoint>
    decreases m,
{
    if m == 0 {
        Seq::empty()
    } else {
        repeated(pool, (m - 1) as nat) + pool
    }
}

/// Division rounding up.
pub open spec fn ceil_div(c: nat, n: nat) -> nat
    recommends
        n > 0,
{
    ((c + n - 1) / (n as int)) as nat
}

pub proof fn lemma_repeated_len(pool: Seq<Endpoint>, m: nat)
    ensures
        repeated(pool, m).len() == m * pool.len(),
    decreases m,
{
    if m == 0 {
        assert(m * pool.len() == 0) by (nonlinear_arith)
            requires
                m == 0,
        ;
    } else {
        lemma_repeated_len(pool, (m - 1) as nat);
        assert(((m - 1) as nat) * pool.len() + pool.len() == m * pool.len()) by (nonlinear_arith)
            requires
                m > 0,
        ;
    }
}

pub proof fn lemma_repeated_index(pool: Seq<Endpoint>, m: nat, i: int)
    requires
        pool.len() > 0,
        0 <= i < m * pool.len(),
    ensures
        repeated(pool, m)[i] == rotation(pool, i as nat),
    decreases m,
{
    let len = pool.len() as int;
    assert(m > 0) by (nonlinear_arith)
        requires
            0 <= i < m * pool.len(),
    ;
    lemma_repeated_len(pool, (m - 1) as nat);
    if i < (m - 1) * len {
        lemma_repeated_index(pool, (m - 1) as nat, i);
    } else {
        assert(m * len - (m - 1) * len == len) by (nonlinear_arith);
        let j = i - (m - 1) * len;
        assert(repeated(pool, m)[i] == pool[j]);
        assert(len * (m - 1) == (m - 1) * len) by (nonlinear_arith);
        lemma_mod_multiples_vanish(m - 1, j, len);
        lemma_small_mod(j as nat, len as nat);
        assert(i % len == j);
    }
}

/// The multiset law for concurrent callers: however `c` calls interleave on
/// their way into the selector's queue, the selector serves them one at a
/// time, so the results are the first `c` entries of the cycled pool — the
/// pool repeated enough times and truncated to `c`, with no slot handed to
/// two calls and no slot skipped.
pub proof fn lemma_handouts_are_cycled_pool(pool: Seq<Endpoint>, c: nat)
    requires
        pool.len() > 0,
    ensures
        handouts(pool, c) == repeated(pool, ceil_div(c, pool.len())).take(c as int),
        handouts(pool, c).to_multiset() == repeated(pool, ceil_div(c, pool.len())).take(
            c as int,
        ).to_multiset(),
{
    let len = pool.len() as int;
    let m = ceil_div(c, pool.len());
    lemma_repeated_len(pool, m);
    assert(c <= m * len) by {
        lemma_fundamental_div_mod(c + len - 1, len);
        lemma_mod_bound(c + len - 1, len);
        assert(len * ((c + len - 1) / len) == ((c + len - 1) / len) * len) by (nonlinear_arith);
    }
    assert forall|k: int| 0 <= k < c implies repeated(pool, m).take(c as int)[k] == rotation(
        pool,
        k as nat,
    ) by {
        lemma_repeated_index(pool, m, k);
    }
    assert(handouts(pool, c) =~= repeated(pool, m).take(c as int));
}

} // verus!
