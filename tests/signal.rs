use libxm::{LoopEvent, LoopWaiter, LoopWatcher, WaitState};
use std::sync::mpsc::{channel, Receiver, TryRecvError};

/// Feeds `counts` to a watcher and returns how many notifications it sent.
fn notifications(start: u8, counts: &[u8]) -> usize {
    let mut watcher = LoopWatcher::new(start);
    counts.iter().filter(|&&c| watcher.observe(c)).count()
}

/// Waits on `rx` as a control thread would, without ever blocking: each
/// pending notification counts, an empty channel stops the wait.
fn drain(waiter: &mut LoopWaiter, rx: &Receiver<()>) -> WaitState {
    while waiter.state() == WaitState::Waiting {
        match rx.try_recv() {
            Ok(()) => {
                waiter.on_event(LoopEvent::Looped);
            }
            Err(TryRecvError::Disconnected) => {
                waiter.on_event(LoopEvent::Closed);
            }
            Err(TryRecvError::Empty) => break,
        }
    }
    waiter.state()
}

#[test]
fn watcher_notifies_on_change_only() {
    let mut watcher = LoopWatcher::new(0);
    assert!(!watcher.observe(0));
    assert!(watcher.observe(1));
    assert_eq!(watcher.last_loop_count(), 1);
    assert!(!watcher.observe(1));
    assert!(watcher.observe(2));
    assert_eq!(watcher.last_loop_count(), 2);
}

#[test]
fn coalesced_loops_give_one_notification() {
    let mut watcher = LoopWatcher::new(0);
    assert!(watcher.observe(3));
    assert_eq!(watcher.last_loop_count(), 3);
    assert_eq!(notifications(0, &[0, 2, 2, 5]), 2);
}

#[test]
fn wrapped_count_still_notifies() {
    let mut watcher = LoopWatcher::new(255);
    assert!(watcher.observe(0));
}

#[test]
fn single_steps_give_one_notification_per_loop() {
    assert_eq!(notifications(0, &[0, 0, 1, 1, 1, 2, 3, 3]), 3);
    assert_eq!(notifications(0, &[]), 0);
    assert_eq!(notifications(4, &[4, 4, 4]), 0);
}

#[test]
fn waiter_completes_after_target() {
    let mut waiter = LoopWaiter::new(3);
    assert_eq!(waiter.target(), 3);
    assert_eq!(waiter.state(), WaitState::Waiting);
    assert_eq!(waiter.on_event(LoopEvent::Looped), WaitState::Waiting);
    assert_eq!(waiter.on_event(LoopEvent::Looped), WaitState::Waiting);
    assert_eq!(waiter.received(), 2);
    assert_eq!(waiter.on_event(LoopEvent::Looped), WaitState::Completed);
    assert_eq!(waiter.received(), 3);
}

#[test]
fn waiter_ignores_events_once_ended() {
    let mut waiter = LoopWaiter::new(1);
    assert_eq!(waiter.on_event(LoopEvent::Looped), WaitState::Completed);
    assert_eq!(waiter.on_event(LoopEvent::Looped), WaitState::Completed);
    assert_eq!(waiter.on_event(LoopEvent::Closed), WaitState::Completed);
    assert_eq!(waiter.received(), 1);

    let mut closed = LoopWaiter::new(2);
    assert_eq!(closed.on_event(LoopEvent::Closed), WaitState::Closed);
    assert_eq!(closed.on_event(LoopEvent::Looped), WaitState::Closed);
    assert_eq!(closed.received(), 0);
}

#[test]
fn waiter_for_nothing_is_complete_at_once() {
    let waiter = LoopWaiter::new(0);
    assert_eq!(waiter.state(), WaitState::Completed);
}

#[test]
fn closing_before_target_is_detected() {
    let mut waiter = LoopWaiter::new(3);
    waiter.on_event(LoopEvent::Looped);
    assert_eq!(waiter.on_event(LoopEvent::Closed), WaitState::Closed);
    assert_eq!(waiter.received(), 1);
}

#[test]
fn consumer_receives_three_loops_in_order_and_no_fourth() {
    let (tx, rx) = channel();
    let mut watcher = LoopWatcher::new(0);
    let mut waiter = LoopWaiter::new(3);
    let mut seen = Vec::new();
    // Loop counts read after successive generation calls.
    let counts: [u8; 9] = [0, 0, 1, 1, 2, 2, 2, 3, 3];
    for (call, &count) in counts.iter().enumerate() {
        if watcher.observe(count) {
            tx.send(()).unwrap();
        }
        let before = waiter.received();
        drain(&mut waiter, &rx);
        if waiter.received() > before {
            seen.push((call, waiter.received()));
        }
    }
    assert_eq!(seen, vec![(2, 1), (4, 2), (7, 3)]);
    assert_eq!(waiter.state(), WaitState::Completed);

    // A fourth wait sees nothing until the producer crosses a fourth boundary.
    let mut fourth = LoopWaiter::new(1);
    assert_eq!(drain(&mut fourth, &rx), WaitState::Waiting);
    if watcher.observe(3) {
        tx.send(()).unwrap();
    }
    assert_eq!(drain(&mut fourth, &rx), WaitState::Waiting);
    if watcher.observe(4) {
        tx.send(()).unwrap();
    }
    assert_eq!(drain(&mut fourth, &rx), WaitState::Completed);
}

#[test]
fn wait_for_loop_ceiling_completes_and_one_more_sees_closing() {
    let max_loops: u8 = 2;
    let (tx, rx) = channel();
    let mut watcher = LoopWatcher::new(0);
    // The count stops at the ceiling: the engine plays silence from there on.
    for &count in &[0u8, 1, 1, 2, 2, 2] {
        if watcher.observe(count) {
            tx.send(()).unwrap();
        }
    }
    let mut waiter = LoopWaiter::new(max_loops);
    assert_eq!(drain(&mut waiter, &rx), WaitState::Completed);

    let (tx2, rx2) = channel();
    let mut watcher2 = LoopWatcher::new(0);
    for &count in &[0u8, 1, 1, 2, 2, 2] {
        if watcher2.observe(count) {
            tx2.send(()).unwrap();
        }
    }
    let mut one_more = LoopWaiter::new(max_loops + 1);
    assert_eq!(drain(&mut one_more, &rx2), WaitState::Waiting);
    assert_eq!(one_more.received(), 2);
    drop(tx2);
    assert_eq!(drain(&mut one_more, &rx2), WaitState::Closed);
    drop(tx);
}
