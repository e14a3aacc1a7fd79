//! Verbosity levels for the process's logging.
//!
//! The core only maps a count of verbosity switches to a level; wiring the
//! level into a log subscriber is the surrounding process's business.

use vstd::prelude::*;

verus! {

/// A verbosity level.
#[derive(Debug, Clone, Copy, PartialEq, Eq, Structural)]
pub enum Verbosity {
    /// Minimal.
    Minimal,
    /// Informational.
    Informational,
    /// Debugging.
    Debugging,
    /// Tracing.
    Noisy,
}

/// The level a count of verbosity switches stands for: zero is minimal,
/// each further switch turns the logs up one step, and everything past
/// two is as noisy as it gets.
pub open spec fn verbosity_of(verbose: u8) -> Verbosity {
    if verbose == 0 {
        Verbosity::Minimal
    } else if verbose == 1 {
        Verbosity::Informational
    } else if verbose == 2 {
        Verbosity::Debugging
    } else {
        Verbosity::Noisy
    }
}

impl From<u8> for Verbosity {
    fn from(verbose: u8) -> (r: Self) {
        match verbose {
            0 => Self::Minimal,
            1 => Self::Informational,
            2 => Self::Debugging,
            _ => Self::Noisy,
        }
    }
}

impl vstd::std_specs::convert::FromSpecImpl<u8> for Verbosity {
    open spec fn obeys_from_spec() -> bool {
        true
    }

    open spec fn from_spec(verbose: u8) -> Self {
        verbosity_of(verbose)
    }
}

} // verus!
