//! The Redis-backed store, channel and cache: payments live in a sorted set
//! scored by the millisecond they were accepted, and accepted payments are
//! announced on a channel that a listener consumes. The Redis calls are I/O
//! and happen in the application binary; the scores, the summary window and
//! the listener's decisions are made here.
use crate::application::domain::payment::{GetPaymentsFilter, Payment};
use crate::infrastructure::result::Error;
use crate::infrastructure::time::{lemma_millis_monotonic, millis_from_nanos, millis_of};
use vstd::prelude::*;

verus! {

/// Where the Redis server is reached.
#[derive(Debug, Clone)]
pub struct RedisConfig {
    pub uri: String,
}

/// The score a payment is stored under: the millisecond it was accepted.
pub fn payment_score(payment: &Payment) -> (score: i64)
    ensures
        score == millis_of(payment.requested_at),
{
    millis_from_nanos(payment.requested_at)
}

/// The scores, both ends included, whose payments a summary of `filter`
/// counts: the milliseconds of the window's ends.
pub fn summary_score_range(filter: &GetPaymentsFilter) -> (range: (i64, i64))
    ensures
        range.0 == filter.from,
        range.1 == filter.to,
{
    (filter.from, filter.to)
}

/// A payment accepted later than another never scores lower; so when a
/// summary counts two payments it counts every payment accepted between them.
pub proof fn lemma_window_counts_between(first: Payment, middle: Payment, last: Payment, filter: GetPaymentsFilter)
    requires
        first.requested_at <= middle.requested_at <= last.requested_at,
        filter.from <= millis_of(first.requested_at),
        millis_of(last.requested_at) <= filter.to,
    ensures
        millis_of(first.requested_at) <= millis_of(middle.requested_at) <= millis_of(last.requested_at),
        filter.from <= millis_of(middle.requested_at) <= filter.to,
{
    lemma_millis_monotonic(first.requested_at, middle.requested_at);
    lemma_millis_monotonic(middle.requested_at, last.requested_at);
}

/// Where the listener of accepted payments stands.
#[derive(Clone, Copy, Debug, PartialEq, Eq, Structural)]
pub enum ListenerStage {
    Subscribing,
    Waiting,
    Dispatching,
    Stopped,
}

/// What the driver of the listener reports back.
pub enum ListenerEvent {
    /// Subscribing to the channel went through, or failed.
    Subscribed(Result<(), Error>),
    /// Receiving the next message failed.
    MessageFailed(Error),
    /// A message arrived and its payload was read as a payment, or could not be.
    PayloadRead(Result<Payment, Error>),
    /// The handler finished with a payment, successfully or not.
    Dispatched(Result<(), Error>),
}

/// What the listener asks its driver to do next.
pub enum ListenerAction {
    /// Wait for the next message.
    AwaitMessage,
    /// Hand this payment to the handler.
    Dispatch(Payment),
    /// Stop listening with this error.
    Stop(Error),
}

/// The listener of accepted payments: it subscribes, then hands every
/// payment it reads to the handler. A failure to receive a message or a
/// failure of the handler is only logged; a subscription failure or a
/// payload that cannot be read stops it.
pub struct PaymentListener {
    pub stage: ListenerStage,
}

impl PaymentListener {
    /// Whether the listener is waiting for this kind of event.
    pub open spec fn awaits(self, event: ListenerEvent) -> bool {
        match self.stage {
            ListenerStage::Subscribing => event is Subscribed,
            ListenerStage::Waiting => event is MessageFailed || event is PayloadRead,
            ListenerStage::Dispatching => event is Dispatched,
            ListenerStage::Stopped => false,
        }
    }

    /// The next listener and action after `event`.
    pub open spec fn transition(self, event: ListenerEvent) -> (PaymentListener, ListenerAction) {
        match event {
            ListenerEvent::Subscribed(Err(e)) => (
                PaymentListener { stage: ListenerStage::Stopped },
                ListenerAction::Stop(e),
            ),
            ListenerEvent::PayloadRead(Err(e)) => (
                PaymentListener { stage: ListenerStage::Stopped },
                ListenerAction::Stop(e),
            ),
            ListenerEvent::PayloadRead(Ok(payment)) => (
                PaymentListener { stage: ListenerStage::Dispatching },
                ListenerAction::Dispatch(payment),
            ),
            _ => (PaymentListener { stage: ListenerStage::Waiting }, ListenerAction::AwaitMessage),
        }
    }

    /// A listener that has yet to subscribe.
    pub fn new() -> (listener: PaymentListener)
        ensures
            listener.stage == ListenerStage::Subscribing,
    {
        PaymentListener { stage: ListenerStage::Subscribing }
    }

    /// Advances the listener by the event its driver reports.
    pub fn step(self, event: ListenerEvent) -> (next: (PaymentListener, ListenerAction))
        requires
            self.awaits(event),
        ensures
            next == self.transition(event),
    {
        match event {
            ListenerEvent::Subscribed(Err(e)) => (
                PaymentListener { stage: ListenerStage::Stopped },
                ListenerAction::Stop(e),
            ),
            ListenerEvent::PayloadRead(Err(e)) => (
                PaymentListener { stage: ListenerStage::Stopped },
                ListenerAction::Stop(e),
            ),
            ListenerEvent::PayloadRead(Ok(payment)) => (
                PaymentListener { stage: ListenerStage::Dispatching },
                ListenerAction::Dispatch(payment),
            ),
            ListenerEvent::Subscribed(Ok(())) | ListenerEvent::MessageFailed(_)
            | ListenerEvent::Dispatched(_) => (
                PaymentListener { stage: ListenerStage::Waiting },
                ListenerAction::AwaitMessage,
            ),
        }
    }
}

/// The listener stops only when subscribing fails or a payload cannot be
/// read, and it stops with that error.
pub proof fn lemma_listener_stops_only_on_unreadable_input(listener: PaymentListener, event: ListenerEvent)
    requires
        listener.awaits(event),
        listener.transition(event).1 is Stop,
    ensures
        (event matches ListenerEvent::Subscribed(Err(e)) && listener.transition(event).1
            == ListenerAction::Stop(e)) || (event matches ListenerEvent::PayloadRead(Err(e))
            && listener.transition(event).1 == ListenerAction::Stop(e)),
{
}

/// A failure to receive a message, and the handler's outcome whatever it is,
/// leave the listener waiting for the next message.
pub proof fn lemma_listener_survives_failures(listener: PaymentListener, error: Error, outcome: Result<(), Error>)
    ensures
        listener.transition(ListenerEvent::MessageFailed(error)) == (
            PaymentListener { stage: ListenerStage::Waiting },
            ListenerAction::AwaitMessage,
        ),
        listener.transition(ListenerEvent::Dispatched(outcome)) == (
            PaymentListener { stage: ListenerStage::Waiting },
            ListenerAction::AwaitMessage,
        ),
{
}

/// Every payment read from the channel is handed to the handler unchanged.
pub proof fn lemma_read_payment_dispatched(listener: PaymentListener, payment: Payment)
    ensures
        listener.transition(ListenerEvent::PayloadRead(Ok(payment))).1 == ListenerAction::Dispatch(
            payment,
        ),
{
}

/// Whether `listeners`, `events` and `actions` record a run of the
/// listener: the i-th event was awaited by the i-th listener and took it to
/// the next one with the i-th action.
pub open spec fn is_listener_run(
    listeners: Seq<PaymentListener>,
    events: Seq<ListenerEvent>,
    actions: Seq<ListenerAction>,
) -> bool {
    &&& listeners.len() == events.len() + 1
    &&& actions.len() == events.len()
    &&& forall|i: int|
        #![trigger events[i]]
        0 <= i < events.len() ==> listeners[i].awaits(events[i]) && listeners[i].transition(
            events[i],
        ) == (listeners[i + 1], actions[i])
}

/// Over any run of the listener: a payment is handed to the handler exactly
/// when a message's payload was read as that payment, and at that point of
/// the run, so payments reach the handler in the order they were delivered;
/// the handler's outcome is awaited before the next message is read, and
/// whatever it is the listener goes back to waiting; the listener stops only
/// at the end of a run, and only because subscribing failed or a payload
/// could not be read.
pub proof fn lemma_listener_run(
    listeners: Seq<PaymentListener>,
    events: Seq<ListenerEvent>,
    actions: Seq<ListenerAction>,
)
    requires
        is_listener_run(listeners, events, actions),
    ensures
        forall|i: int|
            #![trigger events[i]]
            0 <= i < events.len() ==> {
                &&& (actions[i] is Dispatch <==> events[i] matches ListenerEvent::PayloadRead(Ok(_)))
                &&& (actions[i] matches ListenerAction::Dispatch(payment) ==> events[i]
                    == ListenerEvent::PayloadRead(Ok(payment)))
                &&& (events[i] is Dispatched ==> actions[i] == ListenerAction::AwaitMessage)
                &&& (actions[i] is Stop ==> (events[i] matches ListenerEvent::Subscribed(Err(_))
                    || events[i] matches ListenerEvent::PayloadRead(Err(_))))
            },
        forall|i: int| #![trigger actions[i]] 0 <= i < events.len() - 1 ==> !(actions[i] is Stop),
        forall|i: int|
            #![trigger actions[i]]
            0 <= i < events.len() - 1 && actions[i] is Dispatch ==> events[i + 1] is Dispatched,
{
    assert forall|i: int|
        #![trigger actions[i]]
        0 <= i < events.len() - 1 implies !(actions[i] is Stop) && (actions[i] is Dispatch
            ==> events[i + 1] is Dispatched) by {
        assert(listeners[i].transition(events[i]) == (listeners[i + 1], actions[i]));
        let j = i + 1;
        assert(listeners[j].awaits(events[j]));
    }
}

} // verus!
