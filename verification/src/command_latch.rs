use vstd::prelude::*;

use crate::commands::Commands;

verus! {

/// A single-slot, overwrite-on-write broadcast cell carrying the most
/// recent command from the orchestrator to a consumer task.
///
/// This is not a queue: at most one value is outstanding at any time, and a
/// new `signal` before consumption replaces the pending value.  The
/// coalescing is sound only because commands are idempotent "recompute from
/// current state" triggers, not deltas.  `try_take` is the non-suspending
/// core of the blocking `wait`: `None` is the outcome on which a waiting
/// consumer would suspend until a command is signaled.
pub struct CommandLatch {
    slot: Option<Commands>,
}

impl View for CommandLatch {
    type V = Option<Commands>;

    /// The pending command, if one is signaled and not yet consumed.
    closed spec fn view(&self) -> Option<Commands> {
        self.slot
    }
}

/// The pending value after signaling `c`: the latest write wins,
/// whatever was pending before.
pub open spec fn signal_spec(pending: Option<Commands>, c: Commands) -> Option<Commands> {
    Some(c)
}

/// The value one take from a latch holding `pending` resolves to.
pub open spec fn taken_value(pending: Option<Commands>) -> Option<Commands> {
    pending
}

/// The pending value after one take: consuming clears the slot.
pub open spec fn take_spec(pending: Option<Commands>) -> Option<Commands> {
    None
}

impl CommandLatch {
    /// An empty latch with no pending command.
    pub fn new() -> (latch: CommandLatch)
        ensures
            latch@ is None,
    {
        CommandLatch { slot: None }
    }

    /// Whether a command is pending.
    pub fn is_signaled(&self) -> (signaled: bool)
        ensures
            signaled == (self@ is Some),
    {
        self.slot.is_some()
    }

    /// Signals a command.  Never suspends, always succeeds, and replaces
    /// any pending unconsumed value.
    pub fn signal(&mut self, command: Commands)
        ensures
            final(self)@ == signal_spec(old(self)@, command),
    {
        self.slot = Some(command);
    }

    /// Consumes and clears the pending command, if any.  `None` is the
    /// outcome on which a blocking `wait` would suspend until a command is
    /// signaled.
    pub fn try_take(&mut self) -> (taken: Option<Commands>)
        ensures
            taken == taken_value(old(self)@),
            final(self)@ == take_spec(old(self)@),
    {
        let taken = self.slot;
        self.slot = None;
        taken
    }
}

/// The latch coalesces: signaling twice before any consumption leaves
/// exactly the second command pending, one take resolves to it, and a
/// second take finds the latch empty — two signals resolve exactly one
/// wait, never two.
pub proof fn lemma_latch_coalesces(pending: Option<Commands>, first: Commands, second: Commands)
    ensures
        ({
            let latched = signal_spec(signal_spec(pending, first), second);
            &&& latched == Some(second)
            &&& taken_value(latched) == Some(second)
            &&& taken_value(take_spec(latched)) is None
        }),
{
}

} // verus!
