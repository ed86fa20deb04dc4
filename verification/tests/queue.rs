use orchestration_core::event_queue::EVENT_QUEUE_CAPACITY;
use orchestration_core::event_queue::EventQueue;
use orchestration_core::events::Events;

#[test]
fn fifo_order_per_producer() {
    let mut queue = EventQueue::new();
    assert!(queue.try_send(Events::Btn));
    assert!(queue.try_send(Events::Standby));
    assert_eq!(queue.try_receive(), Some(Events::Btn));
    assert_eq!(queue.try_receive(), Some(Events::Standby));
}

#[test]
fn receive_on_empty_queue_would_suspend() {
    let mut queue = EventQueue::new();
    assert_eq!(queue.try_receive(), None);
    assert!(queue.is_empty());
}

#[test]
fn no_event_lost_up_to_capacity_and_one_more_stalls() {
    let mut queue = EventQueue::new();
    for _ in 0..EVENT_QUEUE_CAPACITY {
        assert!(queue.try_send(Events::Btn));
    }
    assert_eq!(queue.len(), EVENT_QUEUE_CAPACITY);
    assert!(queue.is_full());
    // The sender of one more event stalls until a slot frees.
    assert!(!queue.try_send(Events::Standby));
    assert_eq!(queue.len(), EVENT_QUEUE_CAPACITY);
    // One receive frees a slot and the stalled send is accepted.
    assert_eq!(queue.try_receive(), Some(Events::Btn));
    assert!(queue.try_send(Events::Standby));
    assert_eq!(queue.len(), EVENT_QUEUE_CAPACITY);
}

#[test]
fn no_event_observed_twice_or_dropped() {
    let mut queue = EventQueue::new();
    assert!(queue.try_send(Events::Btn));
    assert!(queue.try_send(Events::WakeUp));
    assert!(queue.try_send(Events::Standby));
    assert_eq!(queue.try_receive(), Some(Events::Btn));
    assert_eq!(queue.try_receive(), Some(Events::WakeUp));
    assert_eq!(queue.try_receive(), Some(Events::Standby));
    assert_eq!(queue.try_receive(), None);
}

#[test]
fn interleaved_sends_and_receives_keep_arrival_order() {
    let mut queue = EventQueue::new();
    assert!(queue.try_send(Events::Btn));
    assert!(queue.try_send(Events::Standby));
    assert_eq!(queue.try_receive(), Some(Events::Btn));
    assert!(queue.try_send(Events::WakeUp));
    assert_eq!(queue.try_receive(), Some(Events::Standby));
    assert_eq!(queue.try_receive(), Some(Events::WakeUp));
    assert_eq!(queue.try_receive(), None);
}

#[test]
fn length_tracks_contents() {
    let mut queue = EventQueue::new();
    assert_eq!(queue.len(), 0);
    assert!(queue.is_empty());
    assert!(!queue.is_full());
    queue.try_send(Events::Btn);
    assert_eq!(queue.len(), 1);
    assert!(!queue.is_empty());
    queue.try_receive();
    assert_eq!(queue.len(), 0);
}
