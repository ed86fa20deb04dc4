use vstd::prelude::*;

verus! {

/// Commands that the orchestrator sends to the tasks it controls.
///
/// A command carries no payload by design: a consumer must re-read the
/// shared system state rather than trust stale command parameters, so that
/// nothing is lost when several commands are coalesced by the latch's
/// overwrite-latest semantics.
#[derive(Clone, Copy, PartialEq, Eq, Structural, Debug)]
pub enum Commands {
    /// The display must resynchronize with the current system state.
    DisplayUpdate,
}

} // verus!
