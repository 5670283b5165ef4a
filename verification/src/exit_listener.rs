//! The termination latch: the one piece of global state.  A signal
//! thread outside the library sets it when the process receives a
//! termination signal; everyone else only reads it.  The flag is
//! one-way: once set it stays set, so a capture loop that saw it set
//! can rely on every later observer seeing the same.

use vstd::prelude::*;

verus! {

/// A one-way boolean: starts unset, can only be set, never cleared.
pub struct SignalLatch {
    fired: bool,
}

impl SignalLatch {
    /// Whether a termination signal was delivered.
    pub closed spec fn fired(self) -> bool {
        self.fired
    }

    pub fn new() -> (r: SignalLatch)
        ensures
            !r.fired(),
    {
        SignalLatch { fired: false }
    }

    /// Records the delivery of a termination signal.  Setting an
    /// already-set latch changes nothing: delivery is idempotent.
    pub fn set(&mut self)
        ensures
            final(self).fired(),
    {
        self.fired = true;
    }

    /// Polls the latch; reading never changes it.
    pub fn has_signal(&self) -> (r: bool)
        ensures
            r == self.fired(),
    {
        self.fired
    }
}

} // verus!
