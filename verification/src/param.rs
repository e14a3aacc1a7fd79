//! Exposes a static parameter.

use vstd::prelude::*;

use crate::error::PipeError;
use crate::pipe::Pipe;

verus! {

/// A static parameter: a stage that pairs its input with a fixed value.
pub struct Param<T> {
    /// The value every pass exposes.
    pub value: T,
}

/// Constructs a new [`Param`].
pub fn param<T>(value: T) -> (r: Param<T>)
    ensures
        r.value == value,
{
    Param { value }
}

impl<T: Copy, S> Pipe<S> for Param<T> {
    type Output = (S, T);

    open spec fn wf(&self) -> bool {
        true
    }

    open spec fn through_post(
        &self,
        src: S,
        next: Self,
        r: Result<Self::Output, PipeError>,
    ) -> bool {
        next == *self && r == Result::<Self::Output, PipeError>::Ok((src, self.value))
    }

    fn through(&mut self, src: S) -> (r: Result<Self::Output, PipeError>) {
        Ok((src, self.value))
    }
}

} // verus!
