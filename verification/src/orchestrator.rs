use vstd::prelude::*;

use crate::command_latch::CommandLatch;
use crate::commands::Commands;
use crate::event_queue::EventQueue;
use crate::event_queue::receive_spec;
use crate::event_queue::send_spec;
use crate::events::Events;
use crate::manager::OperationMode;
use crate::manager::StateManager;
use crate::manager::lemma_mode_after_presses_toggled;
use crate::manager::mode_after_presses;
use crate::manager::press_announcement;
use crate::manager::toggled;
use crate::state_cell::SharedStateCell;

verus! {

/// The orchestrator's first action: construct the initial system-state
/// record and install it into the shared cell, exactly once and before any
/// other task is spawned.  The system starts in `Normal` mode.
pub fn orchestrator_init(cell: &mut SharedStateCell)
    requires
        !old(cell).is_init(),
    ensures
        final(cell).is_init(),
        final(cell).state().operation_mode == OperationMode::Normal,
{
    cell.initialize(StateManager::new());
}

/// One turn of the orchestrator's main loop, from the point where the
/// blocking `receive` would resume: takes the oldest queued event, if any,
/// and dispatches on it under the state-cell lock.
///
/// The dispatch is exhaustive over the event set:
///
/// - `Btn` toggles the operation mode through the state manager, publishes
///   the event announcing the new mode back onto the queue (the receive
///   just freed a slot, so the announcement is never dropped), and then
///   signals `DisplayUpdate` on the command latch;
/// - `Standby` and `WakeUp` are consumed without further effect — they are
///   extension points for tasks that subscribe to mode changes, and the
///   mode flip they announce has already been applied.
///
/// Returns whether an event was handled; `false` is the outcome on which
/// the blocking orchestrator would have suspended on the empty queue.
pub fn orchestrator_step(
    cell: &mut SharedStateCell,
    queue: &mut EventQueue,
    latch: &mut CommandLatch,
) -> (handled: bool)
    requires
        old(cell).is_init(),
        old(queue).wf(),
    ensures
        final(cell).is_init(),
        final(queue).wf(),
        handled == (old(queue)@.len() > 0),
        old(queue)@.len() == 0 ==> {
            &&& *final(cell) == *old(cell)
            &&& final(queue)@ == old(queue)@
            &&& final(latch)@ == old(latch)@
        },
        old(queue)@.len() > 0 ==> match old(queue)@[0] {
            Events::Btn => {
                &&& final(cell).state().operation_mode == toggled(
                    old(cell).state().operation_mode,
                )
                &&& final(queue)@ == send_spec(
                    receive_spec(old(queue)@),
                    press_announcement(old(cell).state().operation_mode),
                )
                &&& final(latch)@ == Some(Commands::DisplayUpdate)
            },
            Events::Standby => {
                &&& *final(cell) == *old(cell)
                &&& final(queue)@ == receive_spec(old(queue)@)
                &&& final(latch)@ == old(latch)@
            },
            Events::WakeUp => {
                &&& *final(cell) == *old(cell)
                &&& final(queue)@ == receive_spec(old(queue)@)
                &&& final(latch)@ == old(latch)@
            },
        },
{
    match queue.try_receive() {
        None => false,
        Some(event) => {
            match event {
                Events::Btn => {
                    let mut state = cell.read();
                    let announcement = state.handle_button_press();
                    cell.store(state);
                    let accepted = queue.try_send(announcement);
                    proof {
                        // The receive above freed a slot, so the
                        // announcement is never dropped.
                        assert(accepted);
                    }
                    latch.signal(Commands::DisplayUpdate);
                },
                Events::Standby => {},
                Events::WakeUp => {},
            }
            true
        },
    }
}

/// Number of `Btn` events pending in a queue holding `q`.
pub open spec fn pending_presses(q: Seq<Events>) -> nat
    decreases q.len(),
{
    if q.len() == 0 {
        0
    } else {
        (if q[0] is Btn {
            1nat
        } else {
            0nat
        }) + pending_presses(q.skip(1))
    }
}

/// Appending one event raises the pending press count by one exactly when
/// that event is a press.
pub proof fn lemma_pending_presses_push(q: Seq<Events>, e: Events)
    ensures
        pending_presses(q.push(e)) == pending_presses(q) + (if e is Btn {
            1nat
        } else {
            0nat
        }),
    decreases q.len(),
{
    if q.len() == 0 {
        assert(q.push(e)[0] == e);
        assert(q.push(e).skip(1) =~= Seq::<Events>::empty());
    } else {
        assert(q.push(e)[0] == q[0]);
        assert(q.push(e).skip(1) =~= q.skip(1).push(e));
        lemma_pending_presses_push(q.skip(1), e);
        assert(pending_presses(q.push(e)) == (if q[0] is Btn {
            1nat
        } else {
            0nat
        }) + pending_presses(q.skip(1).push(e)));
    }
}

/// Runs the orchestrator's loop until it would suspend on the empty queue:
/// the verified body of the main loop between two suspension points.
///
/// Every queued event is consumed exactly once and none is left behind.
/// The final mode is the starting mode advanced by one toggle per pending
/// button press — announcements that presses put back on the queue are
/// consumed as no-ops and do not feed back into the mode.  The latch holds
/// `DisplayUpdate` exactly when at least one press was handled; otherwise
/// it is untouched.
pub fn orchestrator_run_until_idle(
    cell: &mut SharedStateCell,
    queue: &mut EventQueue,
    latch: &mut CommandLatch,
)
    requires
        old(cell).is_init(),
        old(queue).wf(),
    ensures
        final(cell).is_init(),
        final(queue)@.len() == 0,
        final(cell).state().operation_mode == mode_after_presses(
            old(cell).state().operation_mode,
            pending_presses(old(queue)@),
        ),
        pending_presses(old(queue)@) > 0 ==> final(latch)@ == Some(Commands::DisplayUpdate),
        pending_presses(old(queue)@) == 0 ==> final(latch)@ == old(latch)@,
{
    let ghost start_mode = old(cell).state().operation_mode;
    let ghost start_presses = pending_presses(old(queue)@);
    let ghost start_latch = old(latch)@;
    while !queue.is_empty()
        invariant
            cell.is_init(),
            queue.wf(),
            pending_presses(queue@) <= start_presses,
            mode_after_presses(cell.state().operation_mode, pending_presses(queue@))
                == mode_after_presses(start_mode, start_presses),
            pending_presses(queue@) < start_presses ==> latch@ == Some(Commands::DisplayUpdate),
            pending_presses(queue@) == start_presses ==> latch@ == start_latch,
        decreases pending_presses(queue@), queue@.len(),
    {
        let ghost q0 = queue@;
        let ghost mode0 = cell.state().operation_mode;
        orchestrator_step(cell, queue, latch);
        proof {
            if q0[0] is Btn {
                let announcement = press_announcement(mode0);
                lemma_pending_presses_push(q0.skip(1), announcement);
                assert(pending_presses(queue@) == pending_presses(q0) - 1);
                lemma_mode_after_presses_toggled(mode0, pending_presses(queue@));
            }
        }
    }
}

} // verus!
