//! Process-wide termination flag.
//!
//! The operating system delivers termination signals to a flag the caller
//! registers at startup; the caller forwards what it observes into this
//! handler, and every polling loop asks `should_terminate` once per
//! iteration — a non-blocking read, never a wait.

use vstd::prelude::*;

verus! {

/// Whether a termination signal has been observed. Once set it never
/// clears: shutdown is one-way.
pub struct SignalHandler {
    pub terminated: bool,
}

impl SignalHandler {
    /// A fresh handler: no termination signal observed yet.
    pub fn new() -> (handler: SignalHandler)
        ensures
            !handler.terminated,
    {
        SignalHandler { terminated: false }
    }

    /// Record that a termination signal was delivered. The flag only ever
    /// rises; nothing resets it.
    pub fn signal_received(&mut self)
        ensures
            final(self).terminated,
    {
        self.terminated = true;
    }

    /// Non-blocking poll of the termination flag.
    pub fn should_terminate(&self) -> (terminate: bool)
        ensures
            terminate == self.terminated,
    {
        self.terminated
    }
}

} // verus!
