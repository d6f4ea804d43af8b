//! Bus publishers that live in the library.

use vstd::prelude::*;

verus! {

/// Publisher that only logs each event: the boot default before a real
/// bus is wired.
#[derive(Debug, Default, Clone, Copy, PartialEq, Eq, Structural)]
pub struct LoggingPublisher;

impl LoggingPublisher {
    /// Construct.
    pub fn new() -> (p: Self)
        ensures
            p == LoggingPublisher,
    {
        LoggingPublisher
    }
}

} // verus!
