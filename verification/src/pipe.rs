//! A collection of middleware built for composability.
//!
//! A pipe is a single-operation transform: it consumes an input value and
//! produces either an output value or a [`PipeError`]. Stages compose with
//! [`crate::chain::Chain`] and the projections in [`crate::proj`] into one
//! pipeline value with a single coherent contract.

use core::marker::PhantomData;
use vstd::prelude::*;

use crate::error::PipeError;

verus! {

/// An abstraction over a middleware, where a source gets processed.
pub trait Pipe<Stream>: Sized {
    /// Return type.
    type Output;

    /// Well-formedness of the stage's state, established at construction
    /// and preserved by every pass.
    spec fn wf(&self) -> bool;

    /// What one pass through this stage does: relates the stage before the
    /// call, the consumed input, the stage after the call, and the outcome.
    spec fn through_post(
        &self,
        src: Stream,
        next: Self,
        r: Result<Self::Output, PipeError>,
    ) -> bool;

    /// Transform `src` into a fallible output.
    ///
    /// The input is consumed: no implementation retains it after returning.
    fn through(&mut self, src: Stream) -> (r: Result<Self::Output, PipeError>)
        requires
            old(self).wf(),
        ensures
            final(self).wf(),
            old(self).through_post(src, *final(self), r),
    ;
}

/// Fluent Api to build pipes.
pub struct PipeBuilder<P, S> {
    /// The pipe assembled so far.
    pub pipe: P,
    /// Marks the input type the assembled pipe consumes.
    pub source: PhantomData<S>,
}

impl<P, S> PipeBuilder<P, S> where P: Pipe<S> {
    /// Starts a pipeline from its first stage.
    pub fn with(pipe: P) -> (r: Self)
        ensures
            r.pipe == pipe,
    {
        Self::new(pipe)
    }

    /// Appends a stage that consumes the previous stage's whole output.
    pub fn chain<R>(self, then: R) -> (r: PipeBuilder<crate::chain::Chain<P, R>, S>)
        ensures
            r.pipe.left == self.pipe,
            r.pipe.right == then,
    {
        PipeBuilder::new(crate::chain::chain(self.pipe, then))
    }

    /// Appends a stage that is applied to the second component of the
    /// previous stage's paired output, preserving the first component.
    pub fn chain_snd<R>(self, then: R) -> (r: PipeBuilder<
        crate::chain::Chain<P, crate::proj::Second<R>>,
        S,
    >)
        ensures
            r.pipe.left == self.pipe,
            r.pipe.right.inner == then,
    {
        self.chain(crate::proj::snd(then))
    }

    /// Hands back the fully composed pipe.
    pub fn build(self) -> (r: P)
        ensures
            r == self.pipe,
    {
        self.pipe
    }
}

impl<P, S> PipeBuilder<P, S> {
    fn new(pipe: P) -> (r: Self)
        ensures
            r.pipe == pipe,
    {
        Self { pipe, source: PhantomData }
    }
}

} // verus!
