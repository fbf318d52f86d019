use tailor::connection_state::{ConnectionState, RECONNECT_DELAY_SECS};
use tailor::suspend::{
    delivery, process_suspend, publish, wait_for_suspend, wait_for_wake_up, AttemptEnd,
    ConsumerState, Delivery, Producer, ProducerAction, SuspendEvent, MAX_ATTEMPTS,
    RETRY_DELAY_SECS,
};
use tokio::sync::broadcast;
use tokio::sync::broadcast::error::TryRecvError;

const SLEEP: SuspendEvent = SuspendEvent::PrepareForSleep(true);
const WAKE: SuspendEvent = SuspendEvent::PrepareForSleep(false);

#[test]
fn wait_returns_once_per_sleep_and_wake() {
    let mut state = ConsumerState::Active.enter_wait();
    assert_eq!(state, ConsumerState::WaitingForSuspendEvent);
    assert!(state.is_blocked());

    state = process_suspend(state, SLEEP);
    assert_eq!(state, ConsumerState::SuspendedWaitingForWake);
    assert!(state.is_blocked());

    // A second announcement of sleep does not release the wait.
    state = process_suspend(state, SLEEP);
    assert_eq!(state, ConsumerState::SuspendedWaitingForWake);
    assert!(state.is_blocked());

    state = process_suspend(state, WAKE);
    assert_eq!(state, ConsumerState::Active);
    assert!(!state.is_blocked());

    // Without a new wait nothing is taken from the channel.
    assert_eq!(process_suspend(state, WAKE), ConsumerState::Active);
    assert_eq!(process_suspend(state, SLEEP), ConsumerState::Active);
}

#[test]
fn wake_without_sleep_returns_at_once() {
    let state = ConsumerState::Active.enter_wait();
    assert_eq!(process_suspend(state, WAKE), ConsumerState::Active);
}

#[test]
fn closed_channel_parks_the_consumer_for_good() {
    let waiting = ConsumerState::WaitingForSuspendEvent;
    let parked = process_suspend(waiting, SuspendEvent::Closed);
    assert_eq!(parked, ConsumerState::Disabled);
    assert!(parked.is_blocked());
    assert_eq!(parked.enter_wait(), ConsumerState::Disabled);
    for event in [SLEEP, WAKE, SuspendEvent::Lagged, SuspendEvent::Closed] {
        assert_eq!(process_suspend(parked, event), ConsumerState::Disabled);
    }
    assert_eq!(
        process_suspend(ConsumerState::SuspendedWaitingForWake, SuspendEvent::Closed),
        ConsumerState::Disabled
    );
}

#[test]
fn lag_leaves_a_waiting_consumer_waiting() {
    assert_eq!(
        process_suspend(ConsumerState::WaitingForSuspendEvent, SuspendEvent::Lagged),
        ConsumerState::WaitingForSuspendEvent
    );
    assert_eq!(
        process_suspend(ConsumerState::SuspendedWaitingForWake, SuspendEvent::Lagged),
        ConsumerState::SuspendedWaitingForWake
    );
    assert_eq!(process_suspend(ConsumerState::Active, SuspendEvent::Lagged), ConsumerState::Active);
    assert_eq!(
        process_suspend(ConsumerState::Disabled, SuspendEvent::Lagged),
        ConsumerState::Disabled
    );
}

#[test]
fn lagged_consumer_goes_on_with_what_is_left() {
    // Room for one event: the first of two announcements is lost.
    let (sender, mut receiver) = broadcast::channel::<bool>(1);
    assert_eq!(publish(&sender, true), Delivery::Delivered { receivers: 1 });
    assert_eq!(publish(&sender, true), Delivery::Delivered { receivers: 1 });

    let mut state = ConsumerState::Active.enter_wait();
    assert_eq!(receiver.try_recv(), Err(TryRecvError::Lagged(1)));
    state = process_suspend(state, SuspendEvent::Lagged);
    assert_eq!(state, ConsumerState::WaitingForSuspendEvent);

    assert_eq!(receiver.try_recv(), Ok(true));
    state = process_suspend(state, SuspendEvent::PrepareForSleep(true));
    assert_eq!(state, ConsumerState::SuspendedWaitingForWake);

    assert_eq!(publish(&sender, false), Delivery::Delivered { receivers: 1 });
    assert_eq!(receiver.try_recv(), Ok(false));
    state = process_suspend(state, SuspendEvent::PrepareForSleep(false));
    assert_eq!(state, ConsumerState::Active);
    assert!(!state.is_blocked());
}

#[test]
fn lost_sleep_announcement_leaves_the_wake_up() {
    // The announcement of sleep is lost, the wake-up is still there: the
    // wait returns on it.
    let (sender, mut receiver) = broadcast::channel::<bool>(1);
    assert_eq!(publish(&sender, true), Delivery::Delivered { receivers: 1 });
    assert_eq!(publish(&sender, false), Delivery::Delivered { receivers: 1 });

    let mut state = ConsumerState::Active.enter_wait();
    assert_eq!(receiver.try_recv(), Err(TryRecvError::Lagged(1)));
    state = process_suspend(state, SuspendEvent::Lagged);
    assert!(state.is_blocked());
    assert_eq!(receiver.try_recv(), Ok(false));
    state = process_suspend(state, SuspendEvent::PrepareForSleep(false));
    assert_eq!(state, ConsumerState::Active);
}

#[test]
fn wake_up_wait_answers_each_event() {
    assert_eq!(wait_for_wake_up(SLEEP), ConsumerState::SuspendedWaitingForWake);
    assert_eq!(wait_for_wake_up(WAKE), ConsumerState::Active);
    assert_eq!(wait_for_wake_up(SuspendEvent::Lagged), ConsumerState::SuspendedWaitingForWake);
    assert_eq!(wait_for_wake_up(SuspendEvent::Closed), ConsumerState::Disabled);
}

#[test]
fn enter_wait_only_moves_a_running_loop() {
    assert_eq!(ConsumerState::Active.enter_wait(), ConsumerState::WaitingForSuspendEvent);
    assert_eq!(
        ConsumerState::WaitingForSuspendEvent.enter_wait(),
        ConsumerState::WaitingForSuspendEvent
    );
    assert_eq!(
        ConsumerState::SuspendedWaitingForWake.enter_wait(),
        ConsumerState::SuspendedWaitingForWake
    );
}

#[test]
fn three_failures_end_the_producer() {
    assert_eq!(MAX_ATTEMPTS, 3);
    assert_eq!(RETRY_DELAY_SECS, 10);
    let mut producer = Producer::new();
    assert!(!producer.is_exhausted());
    assert_eq!(
        wait_for_suspend(&mut producer, AttemptEnd::TransportFailure),
        ProducerAction::Reconnect { delay_secs: 10 }
    );
    assert!(!producer.is_exhausted());
    assert_eq!(
        wait_for_suspend(&mut producer, AttemptEnd::TransportFailure),
        ProducerAction::Reconnect { delay_secs: 10 }
    );
    assert!(!producer.is_exhausted());
    assert_eq!(
        wait_for_suspend(&mut producer, AttemptEnd::TransportFailure),
        ProducerAction::Exhausted { delay_secs: 10 }
    );
    assert!(producer.is_exhausted());

    // The producer is gone, so the channel closes: a wait made after that
    // never returns.
    let state = process_suspend(ConsumerState::Active.enter_wait(), SuspendEvent::Closed);
    assert_eq!(state, ConsumerState::Disabled);
    assert!(state.is_blocked());
}

#[test]
fn orderly_ends_count_but_cost_no_delay() {
    let mut producer = Producer::new();
    assert_eq!(
        wait_for_suspend(&mut producer, AttemptEnd::StreamEnded),
        ProducerAction::Reconnect { delay_secs: 0 }
    );
    assert_eq!(
        wait_for_suspend(&mut producer, AttemptEnd::TransportFailure),
        ProducerAction::Reconnect { delay_secs: 10 }
    );
    assert_eq!(
        wait_for_suspend(&mut producer, AttemptEnd::StreamEnded),
        ProducerAction::Exhausted { delay_secs: 0 }
    );
    assert!(producer.is_exhausted());
}

#[test]
fn exhausted_producer_stays_exhausted() {
    let mut producer = Producer::new();
    for _ in 0..3 {
        wait_for_suspend(&mut producer, AttemptEnd::TransportFailure);
    }
    assert_eq!(
        wait_for_suspend(&mut producer, AttemptEnd::TransportFailure),
        ProducerAction::Exhausted { delay_secs: 0 }
    );
    assert_eq!(
        wait_for_suspend(&mut producer, AttemptEnd::StreamEnded),
        ProducerAction::Exhausted { delay_secs: 0 }
    );
    assert!(producer.is_exhausted());
}

#[test]
fn publish_reaches_every_subscriber() {
    let (sender, mut first) = broadcast::channel::<bool>(16);
    let mut second = sender.subscribe();
    assert_eq!(publish(&sender, true), Delivery::Delivered { receivers: 2 });
    assert_eq!(publish(&sender, false), Delivery::Delivered { receivers: 2 });
    assert_eq!(first.try_recv(), Ok(true));
    assert_eq!(first.try_recv(), Ok(false));
    assert_eq!(first.try_recv(), Err(TryRecvError::Empty));
    assert_eq!(second.try_recv(), Ok(true));
    assert_eq!(second.try_recv(), Ok(false));
}

#[test]
fn publish_without_subscribers_drops_the_event() {
    let (sender, receiver) = broadcast::channel::<bool>(16);
    drop(receiver);
    assert_eq!(publish(&sender, true), Delivery::Dropped);
    // A late subscriber sees only what is published after it subscribed.
    let mut late = sender.subscribe();
    assert_eq!(late.try_recv(), Err(TryRecvError::Empty));
    assert_eq!(publish(&sender, false), Delivery::Delivered { receivers: 1 });
    assert_eq!(late.try_recv(), Ok(false));
}

#[test]
fn published_events_drive_a_consumer() {
    let (sender, mut receiver) = broadcast::channel::<bool>(16);
    for going_to_sleep in [true, true, false] {
        assert_eq!(publish(&sender, going_to_sleep), Delivery::Delivered { receivers: 1 });
    }
    drop(sender);
    let mut state = ConsumerState::Active.enter_wait();
    let mut releases = 0;
    loop {
        let event = match receiver.try_recv() {
            Ok(going_to_sleep) => SuspendEvent::PrepareForSleep(going_to_sleep),
            Err(TryRecvError::Lagged(_)) => SuspendEvent::Lagged,
            Err(_) => SuspendEvent::Closed,
        };
        state = process_suspend(state, event);
        if !state.is_blocked() {
            releases += 1;
            state = state.enter_wait();
        }
        if state == ConsumerState::Disabled {
            break;
        }
    }
    assert_eq!(releases, 1);
}

#[test]
fn delivery_reads_the_channel_answer() {
    assert_eq!(delivery(Some(4)), Delivery::Delivered { receivers: 4 });
    assert_eq!(delivery(None), Delivery::Dropped);
}

#[test]
fn front_end_reconnects_after_a_failure() {
    assert_eq!(RECONNECT_DELAY_SECS, 1);
    let mut state = ConnectionState::new();
    assert_eq!(state, ConnectionState::Connecting);
    assert!(state.is_connecting());
    assert!(!state.is_ok());
    assert!(!state.is_error());

    assert_eq!(state.attempt_finished(false), Some(1));
    assert_eq!(state, ConnectionState::Error);
    assert!(state.is_error());
    assert!(!state.is_ok());

    assert_eq!(state.attempt_finished(true), None);
    assert_eq!(state, ConnectionState::Connected);
    assert!(state.is_ok());
    assert!(!state.is_connecting());
}
