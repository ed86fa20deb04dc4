use vstd::prelude::*;

verus! {

/// The tasks the device runs.  Each task is a long-running loop with a
/// statically reserved slot; the set is closed, so adding a task is a
/// compile-time obligation to place it in a tier.
#[derive(Clone, Copy, PartialEq, Eq, Structural, Debug)]
pub enum TaskId {
    /// The sole consumer of the event queue; owns the state-cell lifecycle.
    Orchestrator,
    /// Worker: polls the air-quality sensor and publishes measurements.
    AirQuality,
    /// Worker: brings the radio link and the network stack up.
    Networking,
}

/// The two priority tiers sharing the one physical core.
#[derive(Clone, Copy, PartialEq, Eq, Structural, Debug)]
pub enum Tier {
    /// Interrupt-driven; preempts the low tier, for latency-sensitive
    /// orchestration and signaling.
    High,
    /// Thread-mode cooperative; hosts the worker tasks, which may block
    /// for milliseconds without affecting orchestration latency.
    Low,
}

/// The priority assignment table: the orchestrator runs on the high tier,
/// every worker on the low tier.
pub open spec fn tier_of_spec(task: TaskId) -> Tier {
    match task {
        TaskId::Orchestrator => Tier::High,
        TaskId::AirQuality => Tier::Low,
        TaskId::Networking => Tier::Low,
    }
}

/// The tier a task is assigned to.
pub fn tier_of(task: TaskId) -> (tier: Tier)
    ensures
        tier == tier_of_spec(task),
{
    match task {
        TaskId::Orchestrator => Tier::High,
        TaskId::AirQuality => Tier::Low,
        TaskId::Networking => Tier::Low,
    }
}

/// Slots statically reserved on the high tier: one, for the orchestrator.
pub const HIGH_TIER_CAPACITY: usize = 1;

/// Slots statically reserved on the low tier: one per worker task.
pub const LOW_TIER_CAPACITY: usize = 2;

/// Configures which tasks are spawned.  Disabling a task here means it is
/// simply never spawned, freeing its reservation; useful for testing tasks
/// in isolation.  A production build enables all tasks.
#[derive(Clone, Copy, PartialEq, Eq, Structural, Debug)]
pub struct TaskConfig {
    /// Spawn the air-quality worker task.
    pub air_quality: bool,
    /// Spawn the networking worker task.
    pub networking: bool,
    /// Spawn the orchestrator task.
    pub orchestrator: bool,
}

impl Default for TaskConfig {
    /// The production configuration: every task enabled.
    fn default() -> (config: Self)
        ensures
            config.air_quality,
            config.networking,
            config.orchestrator,
    {
        TaskConfig { air_quality: true, networking: true, orchestrator: true }
    }
}

impl TaskConfig {
    /// Whether `task` is enabled by this configuration.
    pub open spec fn enabled(self, task: TaskId) -> bool {
        match task {
            TaskId::Orchestrator => self.orchestrator,
            TaskId::AirQuality => self.air_quality,
            TaskId::Networking => self.networking,
        }
    }

    /// The production configuration: every task enabled.
    pub fn new() -> (config: Self)
        ensures
            config.air_quality,
            config.networking,
            config.orchestrator,
    {
        TaskConfig::default()
    }

    /// Whether `task` is enabled by this configuration.
    pub fn is_enabled(&self, task: TaskId) -> (enabled: bool)
        ensures
            enabled == self.enabled(task),
    {
        match task {
            TaskId::Orchestrator => self.orchestrator,
            TaskId::AirQuality => self.air_quality,
            TaskId::Networking => self.networking,
        }
    }
}

/// Spawning can fail only by capacity exhaustion.  Pool sizes are static
/// constants chosen to match the fixed task set, so exhaustion is a fatal
/// configuration error at startup, never a silent drop.
#[derive(Clone, Copy, PartialEq, Eq, Structural, Debug)]
pub enum SpawnError {
    /// The task's statically reserved slot is already taken.
    CapacityExhausted,
}

/// The dual-tier scheduler's occupancy accounting: which task holds its
/// statically reserved slot.  Each task has exactly one slot in its tier,
/// so a task can be spawned at most once and each tier's occupancy is
/// bounded by its capacity.
#[derive(Clone, Copy, PartialEq, Eq, Structural, Debug)]
pub struct Scheduler {
    orchestrator_spawned: bool,
    air_quality_spawned: bool,
    networking_spawned: bool,
}

impl Scheduler {
    /// Whether `task` occupies its slot.
    pub closed spec fn is_scheduled_spec(self, task: TaskId) -> bool {
        match task {
            TaskId::Orchestrator => self.orchestrator_spawned,
            TaskId::AirQuality => self.air_quality_spawned,
            TaskId::Networking => self.networking_spawned,
        }
    }

    /// Occupied slots on the high tier.
    pub open spec fn high_tier_count_spec(self) -> nat {
        if self.is_scheduled_spec(TaskId::Orchestrator) {
            1
        } else {
            0
        }
    }

    /// Occupied slots on the low tier.
    pub open spec fn low_tier_count_spec(self) -> nat {
        (if self.is_scheduled_spec(TaskId::AirQuality) {
            1nat
        } else {
            0nat
        }) + (if self.is_scheduled_spec(TaskId::Networking) {
            1nat
        } else {
            0nat
        })
    }

    /// A scheduler with both tiers empty.
    pub fn new() -> (scheduler: Scheduler)
        ensures
            !scheduler.is_scheduled_spec(TaskId::Orchestrator),
            !scheduler.is_scheduled_spec(TaskId::AirQuality),
            !scheduler.is_scheduled_spec(TaskId::Networking),
    {
        Scheduler {
            orchestrator_spawned: false,
            air_quality_spawned: false,
            networking_spawned: false,
        }
    }

    /// Whether `task` occupies its slot.
    pub fn is_scheduled(&self, task: TaskId) -> (scheduled: bool)
        ensures
            scheduled == self.is_scheduled_spec(task),
    {
        match task {
            TaskId::Orchestrator => self.orchestrator_spawned,
            TaskId::AirQuality => self.air_quality_spawned,
            TaskId::Networking => self.networking_spawned,
        }
    }

    /// Occupied slots on the high tier; never exceeds
    /// `HIGH_TIER_CAPACITY`.
    pub fn high_tier_count(&self) -> (count: usize)
        ensures
            count == self.high_tier_count_spec(),
            count <= HIGH_TIER_CAPACITY,
    {
        if self.orchestrator_spawned {
            1
        } else {
            0
        }
    }

    /// Occupied slots on the low tier; never exceeds `LOW_TIER_CAPACITY`.
    pub fn low_tier_count(&self) -> (count: usize)
        ensures
            count == self.low_tier_count_spec(),
            count <= LOW_TIER_CAPACITY,
    {
        let mut count: usize = 0;
        if self.air_quality_spawned {
            count = count + 1;
        }
        if self.networking_spawned {
            count = count + 1;
        }
        count
    }

    /// Takes the statically reserved slot of `task` on its tier.  Succeeds
    /// exactly when the slot is free; on exhaustion nothing changes and the
    /// error is reported to the caller, never swallowed.
    pub fn spawn(&mut self, task: TaskId) -> (outcome: Result<(), SpawnError>)
        ensures
            outcome is Ok <==> !old(self).is_scheduled_spec(task),
            final(self).is_scheduled_spec(task) == (outcome is Ok
                || old(self).is_scheduled_spec(task)),
            forall|other: TaskId|
                other != task ==> final(self).is_scheduled_spec(other)
                    == old(self).is_scheduled_spec(other),
            outcome is Err ==> *final(self) == *old(self),
    {
        match task {
            TaskId::Orchestrator => {
                if self.orchestrator_spawned {
                    Err(SpawnError::CapacityExhausted)
                } else {
                    self.orchestrator_spawned = true;
                    Ok(())
                }
            },
            TaskId::AirQuality => {
                if self.air_quality_spawned {
                    Err(SpawnError::CapacityExhausted)
                } else {
                    self.air_quality_spawned = true;
                    Ok(())
                }
            },
            TaskId::Networking => {
                if self.networking_spawned {
                    Err(SpawnError::CapacityExhausted)
                } else {
                    self.networking_spawned = true;
                    Ok(())
                }
            },
        }
    }

    /// Spawns exactly the tasks the configuration enables, orchestrator
    /// first so that no worker can run before the state cell's owner.  A
    /// disabled task never takes its slot, and the tier accounting reflects
    /// its absence.  The caller must not have spawned any enabled task
    /// already: on the device a failed startup spawn halts the whole image.
    pub fn spawn_configured(&mut self, config: &TaskConfig)
        requires
            config.orchestrator ==> !old(self).is_scheduled_spec(TaskId::Orchestrator),
            config.air_quality ==> !old(self).is_scheduled_spec(TaskId::AirQuality),
            config.networking ==> !old(self).is_scheduled_spec(TaskId::Networking),
        ensures
            final(self).is_scheduled_spec(TaskId::Orchestrator) == (old(self).is_scheduled_spec(
                TaskId::Orchestrator,
            ) || config.orchestrator),
            final(self).is_scheduled_spec(TaskId::AirQuality) == (old(self).is_scheduled_spec(
                TaskId::AirQuality,
            ) || config.air_quality),
            final(self).is_scheduled_spec(TaskId::Networking) == (old(self).is_scheduled_spec(
                TaskId::Networking,
            ) || config.networking),
    {
        if config.orchestrator {
            let outcome = self.spawn(TaskId::Orchestrator);
            proof {
                assert(outcome is Ok);
            }
        }
        if config.air_quality {
            let outcome = self.spawn(TaskId::AirQuality);
            proof {
                assert(outcome is Ok);
            }
        }
        if config.networking {
            let outcome = self.spawn(TaskId::Networking);
            proof {
                assert(outcome is Ok);
            }
        }
    }
}

} // verus!
