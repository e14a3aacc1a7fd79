//! Decides which backend should handle an incoming connection.

use vstd::prelude::*;

use crate::endpoint::Endpoint;
use crate::error::{PipeError, RoundRobinError};
use crate::pipe::Pipe;
use crate::selector::Selector;

verus! {

/// A backend selector stage: asks its selector for the next backend and
/// pairs the in-flight value with the selected address. On selection
/// failure it propagates the error, abandoning the connection before any
/// outbound attempt; it performs no work of its own beyond the selection.
pub struct Router<R> {
    /// The selector consulted for each pass.
    pub selector: R,
}

/// Constructs a new [`Router`].
pub fn route<R>(selector: R) -> (r: Router<R>)
    ensures
        r.selector == selector,
{
    Router { selector }
}

impl<R, S> Pipe<S> for Router<R> where R: Selector<Error = RoundRobinError> {
    type Output = (S, Endpoint);

    open spec fn wf(&self) -> bool {
        self.selector.wf()
    }

    open spec fn through_post(
        &self,
        src: S,
        next: Self,
        r: Result<Self::Output, PipeError>,
    ) -> bool {
        exists|snext: R, sr: Result<Endpoint, RoundRobinError>|
            #[trigger] self.selector.select_post(snext, sr) && next == (Router {
                selector: snext,
            }) && match sr {
                Result::Ok(backend) => r == Result::<Self::Output, PipeError>::Ok((src, backend)),
                Result::Err(e) => r == Result::<Self::Output, PipeError>::Err(
                    PipeError::Select(e),
                ),
            }
    }

    fn through(&mut self, src: S) -> (r: Result<Self::Output, PipeError>) {
        match self.selector.select() {
            Ok(backend) => Ok((src, backend)),
            Err(e) => Err(PipeError::Select(e)),
        }
    }
}

} // verus!
