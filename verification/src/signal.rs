use vstd::prelude::*;

verus! {

/// The cancellation signal: a write-once-effectively stop flag.
///
/// The process entry point owns the write capability and triggers the flag
/// on an interrupt; the fetch loop observes it at every race point. The
/// flag is level-triggered and never resets: once set, every later
/// observation sees it set.
pub struct CancellationFlag {
    pub triggered: bool,
}

/// The state a flag is in after a trigger, whatever it held before.
pub open spec fn spec_triggered(s: CancellationFlag) -> CancellationFlag {
    CancellationFlag { triggered: true }
}

impl CancellationFlag {
    /// A fresh signal: not yet triggered.
    pub fn new() -> (s: CancellationFlag)
        ensures
            !s.triggered,
    {
        CancellationFlag { triggered: false }
    }

    /// Requests shutdown. Safe to call any number of times: the resulting
    /// state does not depend on the state before the call, so repeated
    /// triggers are no-ops. No error conditions, no other effect.
    pub fn trigger(&mut self)
        ensures
            *final(self) == spec_triggered(*old(self)),
            final(self).triggered,
    {
        self.triggered = true;
    }

    /// Non-blocking observation of the current state.
    pub fn is_triggered(&self) -> (r: bool)
        ensures
            r == self.triggered,
    {
        self.triggered
    }
}

/// Triggering the signal twice leaves exactly the state that triggering it
/// once leaves: the trigger operation is idempotent.
pub proof fn lemma_trigger_idempotent(s: CancellationFlag)
    ensures
        spec_triggered(spec_triggered(s)) == spec_triggered(s),
{
}

} // verus!
