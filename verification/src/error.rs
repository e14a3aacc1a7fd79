//! Typed failures for each thing a stage may be doing.

use vstd::prelude::*;
use crate::endpoint::Endpoint;

verus! {

/// Failure of one round-robin selection.
#[derive(Clone, Copy, PartialEq, Eq, Structural, Debug)]
pub enum RoundRobinError {
    /// The pool holds no backend at all; every selection reports this.
    NoBackend,
    /// The selection request could not be submitted to the owning task.
    RequestBackendInfo,
    /// The owning task went away before replying.
    ReceiveBackendInfo,
}

impl RoundRobinError {
    /// A short account of what went wrong, for logs.
    pub fn describe(&self) -> (r: &'static str)
        ensures
            self is NoBackend ==> r@ == "no backend configured"@,
            self is RequestBackendInfo ==> r@ == "unable to request backend info"@,
            self is ReceiveBackendInfo ==> r@ == "unable to receive backend info"@,
    {
        match self {
            RoundRobinError::NoBackend => "no backend configured",
            RoundRobinError::RequestBackendInfo => "unable to request backend info",
            RoundRobinError::ReceiveBackendInfo => "unable to receive backend info",
        }
    }
}

/// Failure of one pass through the pipeline, naming the stage that failed
/// and the address it was working with where one is relevant.
#[derive(Clone, Copy, PartialEq, Eq, Structural, Debug)]
pub enum PipeError {
    /// The router could not obtain a backend.
    Select(RoundRobinError),
    /// The connector could not reach the named backend.
    Connect(Endpoint),
    /// The relay between the two streams broke.
    Splice,
}

impl PipeError {
    /// A short account of what went wrong, for logs.
    pub fn describe(&self) -> (r: &'static str)
        ensures
            self is Select ==> r@ == "unable to select a backend"@,
            self is Connect ==> r@ == "unable to open connection"@,
            self is Splice ==> r@ == "unable to splice streams"@,
    {
        match self {
            PipeError::Select(_) => "unable to select a backend",
            PipeError::Connect(_) => "unable to open connection",
            PipeError::Splice => "unable to splice streams",
        }
    }
}

} // verus!
