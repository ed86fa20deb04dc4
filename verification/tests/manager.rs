use orchestration_core::events::Events;
use orchestration_core::manager::OperationMode;
use orchestration_core::manager::StateManager;

#[test]
fn new_starts_normal() {
    let manager = StateManager::new();
    assert_eq!(manager.operation_mode, OperationMode::Normal);
}

#[test]
fn button_press_enters_standby_and_announces_it() {
    let mut manager = StateManager::new();
    let announcement = manager.handle_button_press();
    assert_eq!(manager.operation_mode, OperationMode::Standby);
    assert_eq!(announcement, Events::Standby);
}

#[test]
fn button_press_in_standby_wakes_up_and_announces_it() {
    let mut manager = StateManager::new();
    manager.handle_button_press();
    let announcement = manager.handle_button_press();
    assert_eq!(manager.operation_mode, OperationMode::Normal);
    assert_eq!(announcement, Events::WakeUp);
}

#[test]
fn presses_alternate_with_parity() {
    let mut manager = StateManager::new();
    for presses in 1..=20u32 {
        manager.handle_button_press();
        let expected = if presses % 2 == 0 {
            OperationMode::Normal
        } else {
            OperationMode::Standby
        };
        assert_eq!(manager.operation_mode, expected);
    }
}

#[test]
fn set_standby_mode_announces_standby() {
    let mut manager = StateManager::new();
    let announcement = manager.set_standby_mode();
    assert_eq!(manager.operation_mode, OperationMode::Standby);
    assert_eq!(announcement, Events::Standby);
}

#[test]
fn wake_up_announces_wakeup() {
    let mut manager = StateManager::new();
    manager.set_standby_mode();
    let announcement = manager.wake_up();
    assert_eq!(manager.operation_mode, OperationMode::Normal);
    assert_eq!(announcement, Events::WakeUp);
}

#[test]
fn set_normal_mode_is_silent() {
    let mut manager = StateManager::new();
    manager.set_standby_mode();
    manager.set_normal_mode();
    assert_eq!(manager.operation_mode, OperationMode::Normal);
}
