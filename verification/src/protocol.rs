//! What passes between the supervisor and the program that drives it: the
//! events the driver reports, and the actions the supervisor asks for.

use crate::failure::Failure;
use crate::failure::FailureKind;
use crate::failure::FailureView;
use crate::reading::Reading;
use crate::reading::ReadingView;
use vstd::prelude::*;

verus! {

/// The port the broker is reached on.
pub const BROKER_PORT: u16 = 1883;

/// How many seconds a connection attempt may take.
pub const CONNECT_TIMEOUT_SECS: u64 = 5;

/// How many seconds the supervisor rests after a failure.
pub const BACKOFF_SECS: u64 = 1;

/// How sure the delivery of a message is asked to be.
#[derive(Clone, Copy, Debug, PartialEq, Eq, Structural)]
pub enum Qos {
    /// A message may be lost and is never sent twice.
    AtMostOnce,
    /// A message is not lost and may be sent twice.
    AtLeastOnce,
    /// A message is neither lost nor sent twice.
    ExactlyOnce,
}

/// What the driver reports to the supervisor.
#[derive(Clone, Debug, PartialEq, Eq)]
pub enum Event {
    /// The store is open and its table stands.
    Prepared,
    /// The broker has accepted the connection.
    Connected,
    /// The broker has registered the filter.
    Subscribed,
    /// A message arrived.
    Message { topic: String, payload: Vec<u8>, received_at: i64 },
    /// Something other than a message arrived, such as word that the state
    /// of the connection changed.
    Notice,
    /// The reading was appended to the store.
    Stored,
    /// The pause after a failure is over.
    Rested,
    /// What was asked for could not be done.
    Failed(Failure),
}

/// The mathematical value of an [`Event`].
pub enum EventView {
    Prepared,
    Connected,
    Subscribed,
    Message { topic: Seq<char>, payload: Seq<u8>, received_at: i64 },
    Notice,
    Stored,
    Rested,
    Failed(FailureView),
}

impl View for Event {
    type V = EventView;

    open spec fn view(&self) -> EventView {
        match *self {
            Event::Prepared => EventView::Prepared,
            Event::Connected => EventView::Connected,
            Event::Subscribed => EventView::Subscribed,
            Event::Message { topic, payload, received_at } => EventView::Message {
                topic: topic@,
                payload: payload@,
                received_at,
            },
            Event::Notice => EventView::Notice,
            Event::Stored => EventView::Stored,
            Event::Rested => EventView::Rested,
            Event::Failed(failure) => EventView::Failed(failure@),
        }
    }
}

/// What the supervisor asks the driver to do next. The driver does it and
/// reports how it went.
#[derive(Clone, Debug, PartialEq, Eq)]
pub enum Action {
    /// Open the store and make sure its table stands.
    Prepare,
    /// Make a fresh session and connect it to the broker.
    Connect { address: String, port: u16, timeout_secs: u64 },
    /// Subscribe the session to a filter.
    Subscribe { filter: String, qos: Qos },
    /// Wait for the next event of the session.
    Receive,
    /// Append a reading to the store.
    Store(Reading),
    /// Give up the session, report the failure, and rest.
    Backoff { failure: Failure, delay_secs: u64 },
    /// Report the failure and end the process.
    Halt(Failure),
}

/// The mathematical value of an [`Action`].
pub enum ActionView {
    Prepare,
    Connect { address: Seq<char>, port: u16, timeout_secs: u64 },
    Subscribe { filter: Seq<char>, qos: Qos },
    Receive,
    Store(ReadingView),
    Backoff { failure: FailureView, delay_secs: u64 },
    Halt(FailureView),
}

impl View for Action {
    type V = ActionView;

    open spec fn view(&self) -> ActionView {
        match *self {
            Action::Prepare => ActionView::Prepare,
            Action::Connect { address, port, timeout_secs } => ActionView::Connect {
                address: address@,
                port,
                timeout_secs,
            },
            Action::Subscribe { filter, qos } => ActionView::Subscribe { filter: filter@, qos },
            Action::Receive => ActionView::Receive,
            Action::Store(reading) => ActionView::Store(reading@),
            Action::Backoff { failure, delay_secs } => ActionView::Backoff {
                failure: failure@,
                delay_secs,
            },
            Action::Halt(failure) => ActionView::Halt(failure@),
        }
    }
}

/// The kind of failure it is when an action cannot be carried out: each
/// action fails at its own boundary. To rest and to end the process cannot
/// fail; a failure reported for them is out of turn.
pub open spec fn failure_kind_of(action: ActionView) -> FailureKind {
    match action {
        ActionView::Prepare => FailureKind::Startup,
        ActionView::Connect { .. } => FailureKind::Connection,
        ActionView::Subscribe { .. } => FailureKind::Subscription,
        ActionView::Receive => FailureKind::Receive,
        ActionView::Store(_) => FailureKind::Storage,
        ActionView::Backoff { .. } => FailureKind::OutOfTurn,
        ActionView::Halt(_) => FailureKind::OutOfTurn,
    }
}

impl Action {
    /// The kind of failure it is when this action cannot be carried out.
    pub fn failure_kind(&self) -> (kind: FailureKind)
        ensures
            kind == failure_kind_of(self@),
    {
        match self {
            Action::Prepare => FailureKind::Startup,
            Action::Connect { .. } => FailureKind::Connection,
            Action::Subscribe { .. } => FailureKind::Subscription,
            Action::Receive => FailureKind::Receive,
            Action::Store(_) => FailureKind::Storage,
            Action::Backoff { .. } => FailureKind::OutOfTurn,
            Action::Halt(_) => FailureKind::OutOfTurn,
        }
    }

    /// The event to report when this action could not be carried out, with
    /// the words that say why.
    pub fn failed(&self, detail: String) -> (event: Event)
        ensures
            event@ == EventView::Failed(
                FailureView { kind: failure_kind_of(self@), detail: detail@ },
            ),
    {
        Event::Failed(Failure::new(self.failure_kind(), detail))
    }
}

/// The clock of this machine, read through chrono: `SystemTime::now` of std
/// is turned into a `DateTime<Utc>` by chrono's `From`, and `timestamp` gives
/// its seconds since the epoch. Nothing is claimed of the number. A clock
/// that stands before the epoch gives a negative one. chrono holds the years
/// within some 262,000 of the epoch; the conversion does not provide for a
/// clock beyond them.
#[verifier::external_body]
fn clock_seconds() -> (seconds: i64) {
    chrono::DateTime::<chrono::Utc>::from(std::time::SystemTime::now()).timestamp()
}

impl Event {
    /// The event for a message that arrives now. Its receipt time is what the
    /// local clock says, be it a time before the epoch: whether that time can
    /// stamp a reading is judged when the event is handled.
    pub fn arrived(topic: String, payload: Vec<u8>) -> (event: Event)
        ensures
            event@ matches EventView::Message { topic: t, payload: p, received_at: _ } && t
                == topic@ && p == payload@,
    {
        let received_at = clock_seconds();
        Event::Message { topic, payload, received_at }
    }
}

} // verus!
