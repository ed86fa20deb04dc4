use orchestration_core::scheduler::HIGH_TIER_CAPACITY;
use orchestration_core::scheduler::LOW_TIER_CAPACITY;
use orchestration_core::scheduler::Scheduler;
use orchestration_core::scheduler::SpawnError;
use orchestration_core::scheduler::TaskConfig;
use orchestration_core::scheduler::TaskId;
use orchestration_core::scheduler::Tier;
use orchestration_core::scheduler::tier_of;

#[test]
fn production_config_enables_every_task() {
    let config = TaskConfig::new();
    assert!(config.air_quality);
    assert!(config.networking);
    assert!(config.orchestrator);
    assert_eq!(config, TaskConfig::default());
}

#[test]
fn priority_assignment_table() {
    assert_eq!(tier_of(TaskId::Orchestrator), Tier::High);
    assert_eq!(tier_of(TaskId::AirQuality), Tier::Low);
    assert_eq!(tier_of(TaskId::Networking), Tier::Low);
}

#[test]
fn fresh_scheduler_has_empty_tiers() {
    let scheduler = Scheduler::new();
    assert!(!scheduler.is_scheduled(TaskId::Orchestrator));
    assert!(!scheduler.is_scheduled(TaskId::AirQuality));
    assert!(!scheduler.is_scheduled(TaskId::Networking));
    assert_eq!(scheduler.high_tier_count(), 0);
    assert_eq!(scheduler.low_tier_count(), 0);
}

#[test]
fn full_configuration_fills_both_tiers() {
    let mut scheduler = Scheduler::new();
    scheduler.spawn_configured(&TaskConfig::new());
    assert!(scheduler.is_scheduled(TaskId::Orchestrator));
    assert!(scheduler.is_scheduled(TaskId::AirQuality));
    assert!(scheduler.is_scheduled(TaskId::Networking));
    assert_eq!(scheduler.high_tier_count(), HIGH_TIER_CAPACITY);
    assert_eq!(scheduler.low_tier_count(), LOW_TIER_CAPACITY);
}

#[test]
fn disabled_worker_is_never_scheduled() {
    let mut scheduler = Scheduler::new();
    let config = TaskConfig {
        air_quality: true,
        networking: false,
        orchestrator: true,
    };
    scheduler.spawn_configured(&config);
    // No task instance for the disabled worker, and the capacity
    // accounting reflects its absence.
    assert!(!scheduler.is_scheduled(TaskId::Networking));
    assert!(scheduler.is_scheduled(TaskId::Orchestrator));
    assert!(scheduler.is_scheduled(TaskId::AirQuality));
    assert_eq!(scheduler.high_tier_count(), 1);
    assert_eq!(scheduler.low_tier_count(), 1);
}

#[test]
fn respawning_a_task_exhausts_its_slot() {
    let mut scheduler = Scheduler::new();
    assert_eq!(scheduler.spawn(TaskId::Networking), Ok(()));
    assert_eq!(
        scheduler.spawn(TaskId::Networking),
        Err(SpawnError::CapacityExhausted)
    );
    // The failed spawn changed nothing.
    assert!(scheduler.is_scheduled(TaskId::Networking));
    assert_eq!(scheduler.low_tier_count(), 1);
}

#[test]
fn tier_counts_never_exceed_their_capacities() {
    let mut scheduler = Scheduler::new();
    scheduler.spawn_configured(&TaskConfig::new());
    let _ = scheduler.spawn(TaskId::Orchestrator);
    let _ = scheduler.spawn(TaskId::AirQuality);
    let _ = scheduler.spawn(TaskId::Networking);
    assert!(scheduler.high_tier_count() <= HIGH_TIER_CAPACITY);
    assert!(scheduler.low_tier_count() <= LOW_TIER_CAPACITY);
}
