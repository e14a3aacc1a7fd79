//! Chains two pipes sequentially.

use vstd::prelude::*;

use crate::error::PipeError;
use crate::pipe::Pipe;

verus! {

/// A chain of two pipes: the left stage runs to completion and its output
/// feeds the right stage; an error from the left short-circuits without
/// invoking the right.
pub struct Chain<PipeL, PipeR> {
    /// The stage that runs first.
    pub left: PipeL,
    /// The stage the left stage's output feeds into.
    pub right: PipeR,
}

/// Constructs a new [`Chain`].
pub fn chain<PipeL, PipeR>(left: PipeL, right: PipeR) -> (r: Chain<PipeL, PipeR>)
    ensures
        r.left == left,
        r.right == right,
{
    Chain { left, right }
}

impl<PipeL, PipeR, S> Pipe<S> for Chain<PipeL, PipeR> where
    PipeL: Pipe<S>,
    PipeR: Pipe<PipeL::Output>,
 {
    type Output = PipeR::Output;

    open spec fn wf(&self) -> bool {
        self.left.wf() && self.right.wf()
    }

    open spec fn through_post(
        &self,
        src: S,
        next: Self,
        r: Result<Self::Output, PipeError>,
    ) -> bool {
        exists|lnext: PipeL, lr: Result<PipeL::Output, PipeError>|
            #[trigger] self.left.through_post(src, lnext, lr) && match lr {
                Result::Ok(mid) => exists|rnext: PipeR|
                    #[trigger] self.right.through_post(mid, rnext, r) && next == (Chain {
                        left: lnext,
                        right: rnext,
                    }),
                Result::Err(e) => r == Result::<Self::Output, PipeError>::Err(e) && next
                    == (Chain { left: lnext, right: self.right }),
            }
    }

    fn through(&mut self, src: S) -> (r: Result<Self::Output, PipeError>) {
        let mid = match self.left.through(src) {
            Ok(mid) => mid,
            Err(e) => {
                return Err(e);
            },
        };
        self.right.through(mid)
    }
}

} // verus!
