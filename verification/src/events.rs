use vstd::prelude::*;

verus! {

/// Events that the orchestrator reacts to.
///
/// An event is an immutable fact published by a task and consumed exactly
/// once by the orchestrator.  Events travel through the event queue in FIFO
/// order per producer.
#[derive(Clone, Copy, PartialEq, Eq, Structural, Debug)]
pub enum Events {
    /// The user pressed the button.
    Btn,
    /// The system has entered standby mode.
    Standby,
    /// The system has woken up from standby mode.
    WakeUp,
}

} // verus!
