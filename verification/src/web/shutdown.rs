//! The shutdown signal: raised once, seen by everyone from then on.

use vstd::prelude::*;

verus! {

/// Whether the server is shutting down. The signal is raised once, when the
/// operating system asks the process to end; every loop looks at it before
/// each unit of work and ends when it is up. It never comes down again.
///
/// There is one signal, and it cannot be copied: whoever is to see it looks
/// at the one that is raised.
#[derive(Debug, PartialEq, Eq, Structural)]
pub struct ShutdownSignal {
    raised: bool,
}

impl ShutdownSignal {
    /// Whether the signal is up.
    pub closed spec fn is_raised(&self) -> bool {
        self.raised
    }

    /// A signal that is not yet up.
    pub fn new() -> (signal: Self)
        ensures
            !signal.is_raised(),
    {
        ShutdownSignal { raised: false }
    }

    /// Raises the signal. Says whether this call raised it: only then is
    /// there anything to tell the loops. Raising it again changes nothing.
    pub fn raise(&mut self) -> (first: bool)
        ensures
            final(self).is_raised(),
            first == !old(self).is_raised(),
    {
        let first = !self.raised;
        self.raised = true;
        first
    }

    /// Whether the signal is up. Once it is, every caller sees it at every
    /// call.
    pub fn recv(&self) -> (raised: bool)
        ensures
            raised == self.is_raised(),
    {
        self.raised
    }
}

impl Default for ShutdownSignal {
    fn default() -> (signal: Self)
        ensures
            !signal.is_raised(),
    {
        ShutdownSignal::new()
    }
}

} // verus!
