//! Keeping hardware-control loops out of the way of the operating system's
//! sleep transitions.
//!
//! One producer follows the system's sleep signal and republishes each
//! transition on a broadcast channel. Each control loop runs a consumer on
//! that channel: before it touches the hardware it waits, and the wait
//! returns at once unless the system is going to sleep, in which case it
//! returns on wake-up. The waiting itself is done by the caller; this
//! module decides what each event means.
//!
//! Publishing never waits for a consumer. The channel keeps a bounded
//! number of events, chosen by whoever makes it; a consumer that falls
//! further behind loses the oldest ones and is told so. Such a loss never
//! parks a consumer: it stays in the state it was in and takes the events
//! that are still there, so it goes by the last transition that reached
//! it. Only a closed channel parks a consumer.

use vstd::prelude::*;
use tokio::sync::broadcast::Sender;

verus! {

/// How often the producer tries to follow the sleep signal before it gives
/// up for the lifetime of the process.
pub const MAX_ATTEMPTS: u8 = 3;

/// Seconds that the producer lets pass after a failed attempt.
pub const RETRY_DELAY_SECS: u64 = 10;

/// Where a control loop stands with respect to sleep.
#[derive(Clone, Copy, Debug, PartialEq, Eq, Structural)]
pub enum ConsumerState {
    /// The loop is running; no wait is under way.
    Active,
    /// The loop waits for the next event.
    WaitingForSuspendEvent,
    /// The system went to sleep; the loop waits for the wake-up.
    SuspendedWaitingForWake,
    /// The channel is gone; the loop is parked for good.
    Disabled,
}

/// What a consumer can get from the channel.
#[derive(Clone, Copy, Debug, PartialEq, Eq, Structural)]
pub enum SuspendEvent {
    /// The system is going to sleep (`true`) or has woken up (`false`).
    PrepareForSleep(bool),
    /// Events were published faster than this consumer took them, and some
    /// were dropped.
    Lagged,
    /// The producer is gone and nothing is left to take.
    Closed,
}

/// How one attempt of the producer to follow the sleep signal ended.
#[derive(Clone, Copy, Debug, PartialEq, Eq, Structural)]
pub enum AttemptEnd {
    /// The signal source could not be reached, or sent what could not be
    /// read.
    TransportFailure,
    /// The source ended the stream of events in good order.
    StreamEnded,
}

/// What the producer does after an attempt has ended. Either way it first
/// lets `delay_secs` seconds pass.
#[derive(Clone, Copy, Debug, PartialEq, Eq, Structural)]
pub enum ProducerAction {
    /// Try again.
    Reconnect { delay_secs: u64 },
    /// The attempts are spent: stop for good.
    Exhausted { delay_secs: u64 },
}

/// What became of a published event.
#[derive(Clone, Copy, Debug, PartialEq, Eq, Structural)]
pub enum Delivery {
    /// The event was queued for this many subscribers.
    Delivered { receivers: usize },
    /// Nobody is subscribed; the event is lost.
    Dropped,
}

/// The state of a consumer that waits in the state `SuspendedWaitingForWake`
/// after an event. Only a wake-up ends the wait; lost events leave it
/// waiting, and a closed channel parks the consumer for good.
pub open spec fn after_event_while_suspended(event: SuspendEvent) -> ConsumerState {
    match event {
        SuspendEvent::PrepareForSleep(true) => ConsumerState::SuspendedWaitingForWake,
        SuspendEvent::PrepareForSleep(false) => ConsumerState::Active,
        SuspendEvent::Lagged => ConsumerState::SuspendedWaitingForWake,
        SuspendEvent::Closed => ConsumerState::Disabled,
    }
}

/// The state of a consumer after an event. A consumer that is not waiting
/// gets no events, and a disabled one stays disabled. A consumer that is
/// told of lost events stays as it is; only a closed channel disables it.
pub open spec fn after_event(state: ConsumerState, event: SuspendEvent) -> ConsumerState {
    match state {
        ConsumerState::Active => ConsumerState::Active,
        ConsumerState::WaitingForSuspendEvent => match event {
            SuspendEvent::PrepareForSleep(true) => ConsumerState::SuspendedWaitingForWake,
            SuspendEvent::PrepareForSleep(false) => ConsumerState::Active,
            SuspendEvent::Lagged => ConsumerState::WaitingForSuspendEvent,
            SuspendEvent::Closed => ConsumerState::Disabled,
        },
        ConsumerState::SuspendedWaitingForWake => after_event_while_suspended(event),
        ConsumerState::Disabled => ConsumerState::Disabled,
    }
}

/// The state of a consumer after a run of events, taken in order.
pub open spec fn after_events(state: ConsumerState, events: Seq<SuspendEvent>) -> ConsumerState
    decreases events.len(),
{
    if events.len() == 0 {
        state
    } else {
        after_event(after_events(state, events.drop_last()), events.last())
    }
}

/// The number of attempts made once one more has ended.
pub open spec fn attempts_after(attempts: u8) -> u8 {
    if attempts < MAX_ATTEMPTS {
        (attempts + 1) as u8
    } else {
        MAX_ATTEMPTS
    }
}

/// What the producer does when an attempt has ended and `attempts` were
/// made before it.
pub open spec fn action_after(attempts: u8, end: AttemptEnd) -> ProducerAction {
    let delay_secs = if attempts < MAX_ATTEMPTS && end == AttemptEnd::TransportFailure {
        RETRY_DELAY_SECS
    } else {
        0
    };
    if attempts_after(attempts) < MAX_ATTEMPTS {
        ProducerAction::Reconnect { delay_secs }
    } else {
        ProducerAction::Exhausted { delay_secs }
    }
}

/// The number of attempts made after a run of attempts has ended.
pub open spec fn attempts_after_all(attempts: u8, ends: Seq<AttemptEnd>) -> u8
    decreases ends.len(),
{
    if ends.len() == 0 {
        attempts
    } else {
        attempts_after(attempts_after_all(attempts, ends.drop_last()))
    }
}

/// What became of an event, from what the channel answered: the number of
/// subscribers, or nothing where there was none.
pub open spec fn delivery_of(sent: Option<usize>) -> Delivery {
    match sent {
        Some(receivers) => Delivery::Delivered { receivers },
        None => Delivery::Dropped,
    }
}

impl ConsumerState {
    /// The state of a consumer whose loop asks to wait: a running loop
    /// starts to wait, any other state stays.
    pub fn enter_wait(self) -> (next: ConsumerState)
        ensures
            next == if self == ConsumerState::Active {
                ConsumerState::WaitingForSuspendEvent
            } else {
                self
            },
    {
        match self {
            ConsumerState::Active => ConsumerState::WaitingForSuspendEvent,
            other => other,
        }
    }

    /// Whether the loop is held back: it waits for an event or a wake-up,
    /// or is parked for good.
    pub fn is_blocked(&self) -> (blocked: bool)
        ensures
            blocked == (*self != ConsumerState::Active),
    {
        !matches!(self, ConsumerState::Active)
    }
}

/// The state of a consumer that got `event` while the system sleeps.
pub fn wait_for_wake_up(event: SuspendEvent) -> (next: ConsumerState)
    ensures
        next == after_event_while_suspended(event),
{
    match event {
        SuspendEvent::PrepareForSleep(going_to_sleep) => {
            if going_to_sleep {
                ConsumerState::SuspendedWaitingForWake
            } else {
                ConsumerState::Active
            }
        },
        SuspendEvent::Lagged => ConsumerState::SuspendedWaitingForWake,
        SuspendEvent::Closed => ConsumerState::Disabled,
    }
}

/// The state of a consumer in `state` that got `event`.
pub fn process_suspend(state: ConsumerState, event: SuspendEvent) -> (next: ConsumerState)
    ensures
        next == after_event(state, event),
{
    match state {
        ConsumerState::Active => ConsumerState::Active,
        ConsumerState::WaitingForSuspendEvent => {
            match event {
                SuspendEvent::PrepareForSleep(going_to_sleep) => {
                    if going_to_sleep {
                        ConsumerState::SuspendedWaitingForWake
                    } else {
                        ConsumerState::Active
                    }
                },
                SuspendEvent::Lagged => ConsumerState::WaitingForSuspendEvent,
                SuspendEvent::Closed => ConsumerState::Disabled,
            }
        },
        ConsumerState::SuspendedWaitingForWake => wait_for_wake_up(event),
        ConsumerState::Disabled => ConsumerState::Disabled,
    }
}

/// The producer's count of the attempts it has made. It never exceeds
/// [`MAX_ATTEMPTS`].
pub struct Producer {
    attempts: u8,
}

impl Producer {
    #[verifier::type_invariant]
    spec fn well_formed(self) -> bool {
        self.attempts <= MAX_ATTEMPTS
    }

    /// The number of attempts that have ended.
    pub closed spec fn attempts(&self) -> u8 {
        self.attempts
    }

    /// A producer that has made no attempt yet.
    pub fn new() -> (producer: Self)
        ensures
            producer.attempts() == 0,
    {
        Producer { attempts: 0 }
    }

    /// Whether the attempts are spent.
    pub fn is_exhausted(&self) -> (exhausted: bool)
        ensures
            exhausted == (self.attempts() >= MAX_ATTEMPTS),
            self.attempts() <= MAX_ATTEMPTS,
    {
        proof {
            use_type_invariant(self);
        }
        self.attempts >= MAX_ATTEMPTS
    }
}

/// Records that an attempt of the producer has ended, and says what the
/// producer does next. A failure costs a delay, an orderly end does not;
/// both count as attempts.
pub fn wait_for_suspend(producer: &mut Producer, end: AttemptEnd) -> (action: ProducerAction)
    ensures
        action == action_after(old(producer).attempts(), end),
        final(producer).attempts() == attempts_after(old(producer).attempts()),
{
    proof {
        use_type_invariant(&*producer);
    }
    let spent = producer.attempts >= MAX_ATTEMPTS;
    let delay_secs = if !spent && matches!(end, AttemptEnd::TransportFailure) {
        RETRY_DELAY_SECS
    } else {
        0
    };
    if !spent {
        producer.attempts = producer.attempts + 1;
    }
    if producer.attempts < MAX_ATTEMPTS {
        ProducerAction::Reconnect { delay_secs }
    } else {
        ProducerAction::Exhausted { delay_secs }
    }
}

/// `tokio::sync::broadcast::Sender`, the sending half of a broadcast
/// channel. Nothing is claimed of what it holds: it is only handed on to
/// `send`.
#[verifier::external_type_specification]
#[verifier::external_body]
#[verifier::reject_recursive_types(T)]
pub struct ExSender<T>(Sender<T>);

/// Calls `tokio::sync::broadcast::Sender::send`. That function queues the
/// value for every receiver that is subscribed at that moment and returns
/// their number, which is then at least one; with no receiver it returns
/// the value in an error, which is dropped here.
#[verifier::external_body]
fn send(sender: &Sender<bool>, going_to_sleep: bool) -> (sent: Option<usize>)
    ensures
        sent matches Some(receivers) ==> receivers >= 1,
{
    match sender.send(going_to_sleep) {
        Ok(receivers) => Some(receivers),
        Err(_) => None,
    }
}

/// What became of an event, from what the channel answered.
pub fn delivery(sent: Option<usize>) -> (outcome: Delivery)
    ensures
        outcome == delivery_of(sent),
{
    match sent {
        Some(receivers) => Delivery::Delivered { receivers },
        None => Delivery::Dropped,
    }
}

/// Publishes a sleep transition to the consumers that are subscribed. It
/// never waits for them: with no subscriber the event is dropped.
pub fn publish(sender: &Sender<bool>, going_to_sleep: bool) -> (outcome: Delivery)
    ensures
        outcome matches Delivery::Delivered { receivers } ==> receivers >= 1,
{
    delivery(send(sender, going_to_sleep))
}

/// A disabled consumer stays disabled, whatever comes.
pub proof fn lemma_disabled_for_good(events: Seq<SuspendEvent>)
    ensures
        after_events(ConsumerState::Disabled, events) == ConsumerState::Disabled,
    decreases events.len(),
{
    if events.len() > 0 {
        lemma_disabled_for_good(events.drop_last());
    }
}

/// A consumer that waits when the channel closes is disabled, and no later
/// event brings it back.
pub proof fn lemma_closed_channel_parks(state: ConsumerState, later: Seq<SuspendEvent>)
    requires
        state != ConsumerState::Active,
    ensures
        after_events(after_event(state, SuspendEvent::Closed), later) == ConsumerState::Disabled,
{
    lemma_disabled_for_good(later);
}

/// Being told of lost events changes nothing: the consumer stays in the
/// state it was in.
pub proof fn lemma_lag_changes_nothing(state: ConsumerState)
    ensures
        after_event(state, SuspendEvent::Lagged) == state,
{
}

/// A notice of lost events anywhere in a run of events can be left out: the
/// consumer ends where it would have ended without it.
pub proof fn lemma_lag_is_passed_over(state: ConsumerState, events: Seq<SuspendEvent>, i: int)
    requires
        0 <= i < events.len(),
        events[i] == SuspendEvent::Lagged,
    ensures
        after_events(state, events) == after_events(state, events.remove(i)),
    decreases events.len(),
{
    if i == events.len() - 1 {
        assert(events.remove(i) =~= events.drop_last());
    } else {
        lemma_lag_is_passed_over(state, events.drop_last(), i);
        assert(events.remove(i).drop_last() =~= events.drop_last().remove(i));
        assert(events.remove(i).last() == events.last());
    }
}

/// While the system sleeps, announcements of sleep and dropped events
/// leave the consumer waiting for the wake-up.
pub proof fn lemma_sleep_holds(events: Seq<SuspendEvent>)
    requires
        forall|i: int|
            0 <= i < events.len() ==> events[i] == SuspendEvent::PrepareForSleep(true)
                || events[i] == SuspendEvent::Lagged,
    ensures
        after_events(ConsumerState::SuspendedWaitingForWake, events)
            == ConsumerState::SuspendedWaitingForWake,
    decreases events.len(),
{
    if events.len() > 0 {
        lemma_sleep_holds(events.drop_last());
    }
}

/// A wait that sees the system go to sleep returns on the wake-up and not
/// before: after one or more announcements of sleep the consumer still
/// waits, and the wake-up that follows makes it active.
pub proof fn lemma_wake_up_releases(sleeps: Seq<SuspendEvent>)
    requires
        sleeps.len() >= 1,
        forall|i: int| 0 <= i < sleeps.len() ==> sleeps[i] == SuspendEvent::PrepareForSleep(true),
    ensures
        after_events(ConsumerState::WaitingForSuspendEvent, sleeps)
            == ConsumerState::SuspendedWaitingForWake,
        after_events(
            ConsumerState::WaitingForSuspendEvent,
            sleeps.push(SuspendEvent::PrepareForSleep(false)),
        ) == ConsumerState::Active,
    decreases sleeps.len(),
{
    let waiting = ConsumerState::WaitingForSuspendEvent;
    if sleeps.len() == 1 {
        assert(sleeps.drop_last().len() == 0);
        assert(after_events(waiting, sleeps.drop_last()) == waiting);
    } else {
        lemma_wake_up_releases(sleeps.drop_last());
    }
    assert(sleeps.last() == SuspendEvent::PrepareForSleep(true));
    assert(after_events(waiting, sleeps) == ConsumerState::SuspendedWaitingForWake);
    let all = sleeps.push(SuspendEvent::PrepareForSleep(false));
    assert(all.drop_last() =~= sleeps);
    assert(all.last() == SuspendEvent::PrepareForSleep(false));
}

/// The producer is exhausted after three attempts, however they ended, and
/// not before.
pub proof fn lemma_attempts_run_out(ends: Seq<AttemptEnd>)
    ensures
        ends.len() < MAX_ATTEMPTS ==> attempts_after_all(0, ends) == ends.len(),
        ends.len() >= MAX_ATTEMPTS ==> attempts_after_all(0, ends) == MAX_ATTEMPTS,
    decreases ends.len(),
{
    if ends.len() > 0 {
        lemma_attempts_run_out(ends.drop_last());
    }
}

/// Three failures in a row from a fresh producer: each costs the delay, the
/// first two lead to another attempt, the third ends the producer.
pub proof fn lemma_three_failures_exhaust()
    ensures
        action_after(0, AttemptEnd::TransportFailure) == (ProducerAction::Reconnect {
            delay_secs: RETRY_DELAY_SECS,
        }),
        action_after(attempts_after(0), AttemptEnd::TransportFailure) == (
        ProducerAction::Reconnect { delay_secs: RETRY_DELAY_SECS }),
        action_after(attempts_after(attempts_after(0)), AttemptEnd::TransportFailure) == (
        ProducerAction::Exhausted { delay_secs: RETRY_DELAY_SECS }),
{
}

} // verus!
