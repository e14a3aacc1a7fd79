//! Projections of a pipe of tuples into a pipe of a component.
//!
//! A projection lifts a stage over `T` to a stage over `(T, X)` or `(X, T)`:
//! the inner stage is applied to the designated component and the result is
//! re-paired with the untouched other component, preserving its value.

use vstd::prelude::*;

use crate::error::PipeError;
use crate::pipe::Pipe;

verus! {

/// A projection of a pipe (S, X) into a pipe of S.
pub struct First<P> {
    /// The stage applied to the first component.
    pub inner: P,
}

/// Constructs a new [`First`].
pub fn fst<P>(pipe: P) -> (r: First<P>)
    ensures
        r.inner == pipe,
{
    First { inner: pipe }
}

impl<P, S, X> Pipe<(S, X)> for First<P> where P: Pipe<S> {
    type Output = (P::Output, X);

    open spec fn wf(&self) -> bool {
        self.inner.wf()
    }

    open spec fn through_post(
        &self,
        src: (S, X),
        next: Self,
        r: Result<Self::Output, PipeError>,
    ) -> bool {
        exists|pnext: P, pr: Result<P::Output, PipeError>|
            #[trigger] self.inner.through_post(src.0, pnext, pr) && next == (First {
                inner: pnext,
            }) && match pr {
                Result::Ok(out) => r == Result::<Self::Output, PipeError>::Ok((out, src.1)),
                Result::Err(e) => r == Result::<Self::Output, PipeError>::Err(e),
            }
    }

    fn through(&mut self, src: (S, X)) -> (r: Result<Self::Output, PipeError>) {
        let (part, rest) = src;
        match self.inner.through(part) {
            Ok(out) => Ok((out, rest)),
            Err(e) => Err(e),
        }
    }
}

/// A projection of a pipe (X, S) into a pipe of S.
pub struct Second<P> {
    /// The stage applied to the second component.
    pub inner: P,
}

/// Constructs a new [`Second`].
pub fn snd<P>(pipe: P) -> (r: Second<P>)
    ensures
        r.inner == pipe,
{
    Second { inner: pipe }
}

impl<P, S, X> Pipe<(X, S)> for Second<P> where P: Pipe<S> {
    type Output = (X, P::Output);

    open spec fn wf(&self) -> bool {
        self.inner.wf()
    }

    open spec fn through_post(
        &self,
        src: (X, S),
        next: Self,
        r: Result<Self::Output, PipeError>,
    ) -> bool {
        exists|pnext: P, pr: Result<P::Output, PipeError>|
            #[trigger] self.inner.through_post(src.1, pnext, pr) && next == (Second {
                inner: pnext,
            }) && match pr {
                Result::Ok(out) => r == Result::<Self::Output, PipeError>::Ok((src.0, out)),
                Result::Err(e) => r == Result::<Self::Output, PipeError>::Err(e),
            }
    }

    fn through(&mut self, src: (X, S)) -> (r: Result<Self::Output, PipeError>) {
        let (rest, part) = src;
        match self.inner.through(part) {
            Ok(out) => Ok((rest, out)),
            Err(e) => Err(e),
        }
    }
}

} // verus!
