//! Application configuration types.
//!
//! The configuration is parsed once at process start by the surrounding
//! process — the file format is its business — handed to the core in this
//! shape, consumed to construct the pool and the bind address, and then
//! discarded.

use vstd::prelude::*;

use crate::endpoint::Endpoint;

verus! {

/// A backend where local traffic is to be forwarded.
#[derive(Debug, PartialEq, Eq, Structural, Clone, Copy)]
pub struct Backend {
    /// Target address for local traffic.
    pub target_address: Endpoint,
}

/// A frontend where local traffic is received and then forwarded to
/// backends.
#[derive(Debug, PartialEq, Eq)]
pub struct Frontend {
    /// Local address where the frontend binds on.
    pub local_address: Endpoint,
    /// Collection of backends where traffic is forwarded to, in
    /// declaration order. An empty collection is accepted here; every
    /// selection against it then reports the no-backend error.
    pub backends: Vec<Backend>,
}

/// A central type for configuration.
#[derive(Debug, PartialEq, Eq)]
pub struct App {
    /// Tcp frontend.
    pub frontend: Frontend,
}

impl Frontend {
    /// The ordered pool of backend addresses, in declaration order.
    pub fn backend_pool(&self) -> (r: Vec<Endpoint>)
        ensures
            r@ == self.backends@.map_values(|b: Backend| b.target_address),
    {
        let mut pool: Vec<Endpoint> = Vec::new();
        let mut i: usize = 0;
        while i < self.backends.len()
            invariant
                0 <= i <= self.backends@.len(),
                pool@.len() == i,
                forall|k: int| 0 <= k < i ==> pool@[k] == self.backends@[k].target_address,
            decreases self.backends@.len() - i,
        {
            pool.push(self.backends[i].target_address);
            i = i + 1;
        }
        proof {
            assert(pool@ =~= self.backends@.map_values(|b: Backend| b.target_address));
        }
        pool
    }
}

} // verus!
