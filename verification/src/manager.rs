use vstd::prelude::*;

use crate::events::Events;

verus! {

/// The operation mode of the system.
#[derive(Clone, Copy, PartialEq, Eq, Structural, Debug)]
pub enum OperationMode {
    /// The regular operation mode: peripherals active, display driven.
    Normal,
    /// The low-power mode: display and indicators off.
    Standby,
}

/// The mode reached from `m` by one button press.
pub open spec fn toggled(m: OperationMode) -> OperationMode {
    match m {
        OperationMode::Normal => OperationMode::Standby,
        OperationMode::Standby => OperationMode::Normal,
    }
}

/// The event announcing the mode change that a button press taken in mode
/// `m` performs.
pub open spec fn press_announcement(m: OperationMode) -> Events {
    match m {
        OperationMode::Normal => Events::Standby,
        OperationMode::Standby => Events::WakeUp,
    }
}

/// The single system-state record shared by all tasks.
///
/// All mode transitions go through the methods below; the shared cell in
/// [`crate::state_cell`] serializes access to the one live instance.
#[derive(Clone, Copy, PartialEq, Eq, Structural, Debug)]
pub struct StateManager {
    /// The operation mode of the system.
    pub operation_mode: OperationMode,
}

impl StateManager {
    /// A fresh record; the system starts in `Normal` mode.
    pub fn new() -> (manager: StateManager)
        ensures
            manager.operation_mode == OperationMode::Normal,
    {
        StateManager { operation_mode: OperationMode::Normal }
    }

    /// Enters `Normal` mode.  No event announces this transition.
    pub fn set_normal_mode(&mut self)
        ensures
            final(self).operation_mode == OperationMode::Normal,
    {
        self.operation_mode = OperationMode::Normal;
    }

    /// Enters `Standby` mode and returns the `Standby` event that the
    /// caller must publish on the event queue.  The mode flip is complete
    /// before the announcement exists, so any reader under the same lock
    /// discipline sees the new mode no later than the event.
    pub fn set_standby_mode(&mut self) -> (announcement: Events)
        ensures
            final(self).operation_mode == OperationMode::Standby,
            announcement == Events::Standby,
    {
        self.operation_mode = OperationMode::Standby;
        Events::Standby
    }

    /// Leaves `Standby` mode and returns the `WakeUp` event that the caller
    /// must publish on the event queue.
    pub fn wake_up(&mut self) -> (announcement: Events)
        ensures
            final(self).operation_mode == OperationMode::Normal,
            announcement == Events::WakeUp,
    {
        self.set_normal_mode();
        Events::WakeUp
    }

    /// The one externally triggered transition: a button press toggles the
    /// mode and returns the event announcing the change.  The transition is
    /// a total function of the current mode; every mode accepts the press.
    pub fn handle_button_press(&mut self) -> (announcement: Events)
        ensures
            final(self).operation_mode == toggled(old(self).operation_mode),
            announcement == press_announcement(old(self).operation_mode),
    {
        match self.operation_mode {
            OperationMode::Normal => self.set_standby_mode(),
            OperationMode::Standby => self.wake_up(),
        }
    }
}

/// The mode after `n` successive button presses starting from `start`.
pub open spec fn mode_after_presses(start: OperationMode, n: nat) -> OperationMode
    decreases n,
{
    if n == 0 {
        start
    } else {
        toggled(mode_after_presses(start, (n - 1) as nat))
    }
}

/// Button presses alternate the mode strictly: after an even number of
/// presses the mode equals the starting mode, after an odd number it is the
/// other mode.  In particular, starting from `Normal` the mode is `Normal`
/// exactly after even press counts and `Standby` exactly after odd ones.
pub proof fn lemma_presses_alternate(start: OperationMode, n: nat)
    ensures
        mode_after_presses(start, n) == (if n % 2 == 0 {
            start
        } else {
            toggled(start)
        }),
    decreases n,
{
    if n > 0 {
        lemma_presses_alternate(start, (n - 1) as nat);
    }
}

/// Press counting commutes with one leading press: taking `n` presses from
/// the mode one press reaches is the same as taking `n + 1` presses.
pub proof fn lemma_mode_after_presses_toggled(start: OperationMode, n: nat)
    ensures
        mode_after_presses(toggled(start), n) == toggled(mode_after_presses(start, n)),
    decreases n,
{
    if n > 0 {
        lemma_mode_after_presses_toggled(start, (n - 1) as nat);
    }
}

/// The button-press transition is total on the two-mode space and lands in
/// it again: no input mode is rejected, no third mode can be observed, and
/// a second press undoes the first.  Each transition is one atomic update
/// of the record, so no reader under the lock discipline sees a
/// half-applied mutation.
pub proof fn lemma_press_total_on_mode_space(m: OperationMode)
    ensures
        m == OperationMode::Normal || m == OperationMode::Standby,
        toggled(m) == OperationMode::Normal || toggled(m) == OperationMode::Standby,
        toggled(toggled(m)) == m,
{
}

} // verus!
