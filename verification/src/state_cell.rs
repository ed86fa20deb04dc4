use vstd::prelude::*;

use crate::manager::StateManager;

verus! {

/// The shared state cell: the only cross-task mutable memory.
///
/// It holds the single [`StateManager`] record, absent until the
/// orchestrator initializes it exactly once.  On the device the cell sits
/// behind a scoped mutual-exclusion lock that suspends a contending task
/// until the cell is free and releases on scope exit; serialization is the
/// shell's concern, so the contracts here describe each access as one
/// atomic step taken while the lock is held.  Reading before
/// initialization is a sequencing defect, fatal on the device; the access
/// methods therefore require an initialized cell.
pub struct SharedStateCell {
    inner: Option<StateManager>,
}

impl SharedStateCell {
    /// Whether the one system-state record has been installed.
    pub closed spec fn is_init(&self) -> bool {
        self.inner is Some
    }

    /// The installed record.
    pub closed spec fn state(&self) -> StateManager
        recommends
            self.is_init(),
    {
        self.inner->Some_0
    }

    /// An empty cell; no task may proceed on it until the orchestrator has
    /// initialized it.
    pub fn new() -> (cell: SharedStateCell)
        ensures
            !cell.is_init(),
    {
        SharedStateCell { inner: None }
    }

    /// Whether the cell has been initialized.
    pub fn is_initialized(&self) -> (initialized: bool)
        ensures
            initialized == self.is_init(),
    {
        self.inner.is_some()
    }

    /// Installs the system-state record.  Happens exactly once, before any
    /// other task is allowed to touch the cell.
    pub fn initialize(&mut self, state: StateManager)
        requires
            !old(self).is_init(),
        ensures
            final(self).is_init(),
            final(self).state() == state,
    {
        self.inner = Some(state);
    }

    /// Reads the current record under the lock.
    pub fn read(&self) -> (state: StateManager)
        requires
            self.is_init(),
        ensures
            state == self.state(),
    {
        match &self.inner {
            Some(state) => *state,
            None => unreached(),
        }
    }

    /// Writes the record back under the lock, completing a read-modify-write
    /// step on the shared state.
    pub fn store(&mut self, state: StateManager)
        requires
            old(self).is_init(),
        ensures
            final(self).is_init(),
            final(self).state() == state,
    {
        self.inner = Some(state);
    }
}

} // verus!
