//! Task-orchestration and inter-task communication core for a small
//! battery-class embedded device.
//!
//! A fixed set of cooperating tasks shares one mutable system-state record,
//! communicates through typed messages, and reacts to external stimuli with
//! bounded latency and bounded memory.  This crate holds the verified core:
//!
//! - [`events`] and [`commands`]: the closed sets of message values.
//! - [`manager`]: the shared system-state record and its mode transitions.
//! - [`event_queue`]: a bounded, ordered, multi-producer/single-consumer
//!   queue carrying events to the orchestrator.
//! - [`command_latch`]: a single-slot, overwrite-on-write broadcast cell
//!   carrying the most recent command from the orchestrator.
//! - [`state_cell`]: the one piece of cross-task mutable memory, absent
//!   until initialized exactly once.
//! - [`orchestrator`]: the orchestrator's initialization step and its
//!   event-dispatch step.
//! - [`scheduler`]: the two-priority-tier task pool and its capacity
//!   accounting.
//!
//! The platform shell around this core (interrupt-driven executors, the
//! radio and sensor drivers, and the suspension points where a task waits
//! for a queue slot, an event, or the lock) drives these functions from its
//! task loops: every queue or latch operation here is the non-suspending
//! core of the corresponding blocking operation, and the outcome that would
//! suspend a task (queue full, queue empty, latch empty) is returned as an
//! explicit value.

pub mod command_latch;
pub mod commands;
pub mod event_queue;
pub mod events;
pub mod manager;
pub mod orchestrator;
pub mod scheduler;
pub mod state_cell;
