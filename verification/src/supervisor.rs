//! The supervisor: it runs one session after another, for ever. Whatever
//! fails, it gives the session up, rests, and begins a new one.
//!
//! The supervisor does nothing itself. It is told what happened and answers
//! with what to do next; the program around it does that and tells it how it
//! went. Only before its first session can it give up for good: when the
//! store cannot be prepared.

use crate::config::Config;
use crate::config::ConfigView;
use crate::failure::decode_failure;
use crate::failure::out_of_turn_failure;
use crate::failure::Failure;
use crate::failure::FailureView;
use crate::protocol::Action;
use crate::protocol::ActionView;
use crate::protocol::Event;
use crate::protocol::EventView;
use crate::protocol::Qos;
use crate::protocol::BACKOFF_SECS;
use crate::protocol::BROKER_PORT;
use crate::protocol::CONNECT_TIMEOUT_SECS;
use crate::reading::reading_of;
use crate::reading::Reading;
use crate::reading::ReadingView;
use crate::topic::filter_of;
use crate::topic::topic_filter;
use vstd::prelude::*;
use vstd::string::*;
use vstd::utf8::valid_utf8;

verus! {

/// Where the supervisor stands.
#[derive(Clone, Copy, Debug, PartialEq, Eq, Structural)]
pub enum State {
    /// Nothing has begun; the store is being prepared.
    Idle,
    /// A fresh session is connecting to the broker.
    Connecting,
    /// The session is connected and is subscribing to the filter.
    Subscribing,
    /// The session is subscribed: messages are received and stored.
    Streaming,
    /// The session was given up; the supervisor rests before the next one.
    Backoff,
}

/// The action that begins a session.
pub open spec fn connect(config: ConfigView) -> ActionView {
    ActionView::Connect {
        address: config.broker_address,
        port: BROKER_PORT,
        timeout_secs: CONNECT_TIMEOUT_SECS,
    }
}

/// The action that subscribes a session.
pub open spec fn subscribe(config: ConfigView) -> ActionView {
    ActionView::Subscribe { filter: filter_of(config.base_topic), qos: Qos::AtMostOnce }
}

/// The action that gives a session up: the failure is reported and a rest
/// is taken.
pub open spec fn rest_after(failure: FailureView) -> ActionView {
    ActionView::Backoff { failure, delay_secs: BACKOFF_SECS }
}

/// What follows every failure once the store is prepared: the session is
/// given up, the failure reported, and a rest taken.
pub open spec fn retry(failure: FailureView) -> (State, ActionView) {
    (State::Backoff, rest_after(failure))
}

/// The state the supervisor moves to, and the action it answers with, when
/// `event` is reported to it in `state`.
///
/// While idle it waits for the store: once that is prepared the first session
/// begins, and anything else ends the process. From then on a failure of any
/// kind ends the session and is followed by a rest, and so does an event the
/// state does not wait for. A message is stored if it gives a reading; one
/// that gives none is a failure like any other.
pub open spec fn next(config: ConfigView, state: State, event: EventView) -> (State, ActionView) {
    match (state, event) {
        (State::Idle, EventView::Prepared) => (State::Connecting, connect(config)),
        (State::Idle, EventView::Failed(failure)) => (State::Idle, ActionView::Halt(failure)),
        (State::Idle, _) => (State::Idle, ActionView::Halt(out_of_turn_failure())),
        (_, EventView::Failed(failure)) => retry(failure),
        (State::Connecting, EventView::Connected) => (State::Subscribing, subscribe(config)),
        (State::Subscribing, EventView::Subscribed) => (State::Streaming, ActionView::Receive),
        (State::Streaming, EventView::Message { topic, payload, received_at }) => match reading_of(
            received_at,
            topic,
            payload,
            config.device_id,
        ) {
            Ok(reading) => (State::Streaming, ActionView::Store(reading)),
            Err(failure) => retry(failure),
        },
        (State::Streaming, EventView::Notice) => (State::Streaming, ActionView::Receive),
        (State::Streaming, EventView::Stored) => (State::Streaming, ActionView::Receive),
        (State::Backoff, EventView::Rested) => (State::Connecting, connect(config)),
        _ => retry(out_of_turn_failure()),
    }
}

/// Where the supervisor stands after a run of events, and the actions it
/// answered with, one for each event.
pub open spec fn run(config: ConfigView, state: State, events: Seq<EventView>) -> (
    State,
    Seq<ActionView>,
)
    decreases events.len(),
{
    if events.len() == 0 {
        (state, Seq::<ActionView>::empty())
    } else {
        let (before, actions) = run(config, state, events.drop_last());
        let (after, action) = next(config, before, events.last());
        (after, actions.push(action))
    }
}

/// The action that begins a session.
fn connect_action(config: &Config) -> (action: Action)
    ensures
        action@ == connect(config@),
{
    Action::Connect {
        address: String::from_str(config.broker_address()),
        port: BROKER_PORT,
        timeout_secs: CONNECT_TIMEOUT_SECS,
    }
}

/// The state and action that follow a failure.
fn retry_after(failure: Failure) -> (out: (State, Action))
    ensures
        (out.0, out.1@) == retry(failure@),
{
    (State::Backoff, Action::Backoff { failure, delay_secs: BACKOFF_SECS })
}

/// One step of the supervisor: the state it moves to and the action it
/// answers with.
pub fn transition(config: &Config, state: State, event: Event) -> (out: (State, Action))
    ensures
        (out.0, out.1@) == next(config@, state, event@),
{
    match state {
        State::Idle => match event {
            Event::Prepared => (State::Connecting, connect_action(config)),
            Event::Failed(failure) => (State::Idle, Action::Halt(failure)),
            _ => (State::Idle, Action::Halt(Failure::out_of_turn())),
        },
        State::Connecting => match event {
            Event::Failed(failure) => retry_after(failure),
            Event::Connected => (
                State::Subscribing,
                Action::Subscribe {
                    filter: topic_filter(config.base_topic()),
                    qos: Qos::AtMostOnce,
                },
            ),
            _ => retry_after(Failure::out_of_turn()),
        },
        State::Subscribing => match event {
            Event::Failed(failure) => retry_after(failure),
            Event::Subscribed => (State::Streaming, Action::Receive),
            _ => retry_after(Failure::out_of_turn()),
        },
        State::Streaming => match event {
            Event::Failed(failure) => retry_after(failure),
            Event::Message { topic, payload, received_at } => {
                match Reading::from_message(received_at, topic, payload, config.device_id()) {
                    Ok(reading) => (State::Streaming, Action::Store(reading)),
                    Err(failure) => retry_after(failure),
                }
            },
            Event::Notice => (State::Streaming, Action::Receive),
            Event::Stored => (State::Streaming, Action::Receive),
            _ => retry_after(Failure::out_of_turn()),
        },
        State::Backoff => match event {
            Event::Failed(failure) => retry_after(failure),
            Event::Rested => (State::Connecting, connect_action(config)),
            _ => retry_after(Failure::out_of_turn()),
        },
    }
}

/// A supervisor: a configuration, and where it stands.
#[derive(Clone, Debug, PartialEq, Eq)]
pub struct Supervisor {
    config: Config,
    state: State,
}

/// The mathematical value of a [`Supervisor`].
pub struct SupervisorView {
    pub config: ConfigView,
    pub state: State,
}

impl View for Supervisor {
    type V = SupervisorView;

    closed spec fn view(&self) -> SupervisorView {
        SupervisorView { config: self.config@, state: self.state }
    }
}

/// The mathematical values of a list of events.
pub open spec fn event_views(events: Seq<Event>) -> Seq<EventView> {
    events.map_values(|event: Event| event@)
}

/// The mathematical values of a list of actions.
pub open spec fn action_views(actions: Seq<Action>) -> Seq<ActionView> {
    actions.map_values(|action: Action| action@)
}

impl Supervisor {
    /// A supervisor that has not begun, and the first thing to do for it:
    /// prepare the store.
    pub fn launch(config: Config) -> (out: (Supervisor, Action))
        ensures
            out.0@ == (SupervisorView { config: config@, state: State::Idle }),
            out.1@ == ActionView::Prepare,
    {
        (Supervisor { config, state: State::Idle }, Action::Prepare)
    }

    /// Where the supervisor stands.
    pub fn state(&self) -> (state: State)
        ensures
            state == self@.state,
    {
        self.state
    }

    /// What the supervisor is configured with.
    pub fn config(&self) -> (config: &Config)
        ensures
            config@ == self@.config,
    {
        &self.config
    }

    /// Takes an event and answers with what to do next. The configuration
    /// stays as it is.
    pub fn handle(&mut self, event: Event) -> (action: Action)
        ensures
            final(self)@.config == old(self)@.config,
            (final(self)@.state, action@) == next(old(self)@.config, old(self)@.state, event@),
    {
        let (state, action) = transition(&self.config, self.state, event);
        self.state = state;
        action
    }

    /// Takes a run of events, one after the other, and answers with the
    /// actions, one for each event.
    pub fn handle_all(&mut self, events: Vec<Event>) -> (actions: Vec<Action>)
        ensures
            final(self)@.config == old(self)@.config,
            (final(self)@.state, action_views(actions@)) == run(
                old(self)@.config,
                old(self)@.state,
                event_views(events@),
            ),
    {
        let ghost start = self@;
        let ghost all = event_views(events@);
        let mut actions: Vec<Action> = Vec::new();
        assert(all.take(0) == Seq::<EventView>::empty());
        assert(action_views(actions@) == Seq::<ActionView>::empty());
        for event in it: events
            invariant
                it.seq() == events@,
                all == event_views(events@),
                self@.config == start.config,
                (self@.state, action_views(actions@)) == run(
                    start.config,
                    start.state,
                    all.take(it.index() as int),
                ),
        {
            let ghost done = it.index() as int;
            let ghost before = actions@;
            let action = self.handle(event);
            actions.push(action);
            proof {
                let upto = all.take(done + 1);
                assert(upto.drop_last() == all.take(done));
                assert(upto.last() == event@);
                assert(action_views(actions@) == action_views(before).push(action@));
            }
        }
        assert(all.take(events@.len() as int) == all);
        actions
    }
}

/// What a driver reports while nothing can be done: each failure in turn,
/// and after each the end of the rest that followed it.
pub open spec fn outage(failures: Seq<FailureView>) -> Seq<EventView>
    decreases failures.len(),
{
    if failures.len() == 0 {
        Seq::<EventView>::empty()
    } else {
        outage(failures.drop_last()).push(EventView::Failed(failures.last())).push(
            EventView::Rested,
        )
    }
}

/// After the store is prepared every failure, of whatever kind and in
/// whatever state, ends the session: the supervisor rests, and the failure is
/// handed on to be reported.
pub proof fn law_failure_ends_session(config: ConfigView, state: State, failure: FailureView)
    requires
        state != State::Idle,
    ensures
        next(config, state, EventView::Failed(failure)) == retry(failure),
{
}

/// The process is ended only before the first session: while the supervisor
/// is idle, by whatever is reported in place of a prepared store.
pub proof fn law_halts_only_at_startup(config: ConfigView, state: State, event: EventView)
    ensures
        next(config, state, event).1 is Halt <==> state == State::Idle && event
            != EventView::Prepared,
{
}

/// The order of a session cannot be skipped. Only a connect action leads to
/// connecting, and only out of idleness or rest. Only a connection that
/// stands leads to subscribing. Only a subscription, or a session already
/// streaming, leads to streaming. And a reading is stored, or another event
/// awaited, only in a streaming session.
pub proof fn law_session_order(config: ConfigView, state: State, event: EventView)
    ensures
        ({
            let (after, action) = next(config, state, event);
            &&& after == State::Connecting ==> {
                &&& action == connect(config)
                &&& (state == State::Idle && event == EventView::Prepared) || (state
                    == State::Backoff && event == EventView::Rested)
            }
            &&& after == State::Subscribing ==> {
                &&& action == subscribe(config)
                &&& state == State::Connecting
                &&& event == EventView::Connected
            }
            &&& after == State::Streaming ==> state == State::Streaming || (state
                == State::Subscribing && event == EventView::Subscribed)
            &&& action is Store ==> {
                &&& state == State::Streaming
                &&& after == State::Streaming
                &&& event is Message
            }
            &&& action is Receive ==> after == State::Streaming
            &&& action is Connect ==> after == State::Connecting
            &&& action is Subscribe ==> after == State::Subscribing
            &&& action is Backoff <==> after == State::Backoff
        }),
{
}

/// Once a session has failed nothing more is taken from it: until the
/// supervisor asks for a new connection it stays at rest, and answers no
/// event by storing a reading or by waiting for another message.
pub proof fn law_nothing_stored_before_reconnect(config: ConfigView, events: Seq<EventView>)
    ensures
        ({
            let (after, actions) = run(config, State::Backoff, events);
            (forall|i: int| 0 <= i < actions.len() ==> !(#[trigger] actions[i] is Connect)) ==> {
                &&& after == State::Backoff
                &&& forall|i: int| 0 <= i < actions.len() ==> #[trigger] actions[i] is Backoff
            }
        }),
    decreases events.len(),
{
    if events.len() > 0 {
        law_nothing_stored_before_reconnect(config, events.drop_last());
        let earlier = run(config, State::Backoff, events.drop_last()).1;
        let actions = run(config, State::Backoff, events).1;
        if forall|i: int| 0 <= i < actions.len() ==> !(#[trigger] actions[i] is Connect) {
            assert forall|i: int| 0 <= i < earlier.len() implies !(#[trigger] earlier[i]
                is Connect) by {
                assert(earlier[i] == actions[i]);
            }
            assert(!(actions[actions.len() - 1] is Connect));
        }
    }
}

/// Once the store is prepared the supervisor never gives up: whatever is
/// reported to it, in whatever order, it answers every event with an action
/// other than ending the process, and it never falls back into idleness.
pub proof fn law_never_halts(config: ConfigView, state: State, events: Seq<EventView>)
    requires
        state != State::Idle,
    ensures
        ({
            let (after, actions) = run(config, state, events);
            &&& after != State::Idle
            &&& actions.len() == events.len()
            &&& forall|i: int| 0 <= i < actions.len() ==> !(#[trigger] actions[i] is Halt)
        }),
    decreases events.len(),
{
    if events.len() > 0 {
        law_never_halts(config, state, events.drop_last());
    }
}

/// Failures in a row, however many, are each answered alike: the supervisor
/// rests once, and when the rest is over asks once for a new connection. So
/// as many connections are attempted as attempts have failed, and the
/// supervisor stands ready for the outcome of the last.
pub proof fn law_outage_keeps_trying(config: ConfigView, failures: Seq<FailureView>)
    ensures
        ({
            let (after, actions) = run(config, State::Connecting, outage(failures));
            &&& after == State::Connecting
            &&& actions.len() == 2 * failures.len()
            &&& forall|i: int|
                0 <= i < failures.len() ==> (#[trigger] actions[2 * i]) == rest_after(failures[i])
            &&& forall|i: int|
                0 <= i < failures.len() ==> (#[trigger] actions[2 * i + 1]) == connect(config)
        }),
    decreases failures.len(),
{
    if failures.len() > 0 {
        let shorter = failures.drop_last();
        law_outage_keeps_trying(config, shorter);
        let events = outage(failures);
        let middle = outage(shorter).push(EventView::Failed(failures.last()));
        assert(events.drop_last() == middle);
        assert(middle.drop_last() == outage(shorter));
        let earlier = run(config, State::Connecting, outage(shorter)).1;
        let (rest, then) = run(config, State::Connecting, middle);
        let actions = run(config, State::Connecting, events).1;
        assert(rest == State::Backoff);
        assert(then == earlier.push(rest_after(failures.last())));
        assert(actions == then.push(connect(config)));
        assert forall|i: int| 0 <= i < failures.len() implies (#[trigger] actions[2 * i])
            == rest_after(failures[i]) by {
            if i < shorter.len() {
                assert(actions[2 * i] == earlier[2 * i]);
                assert(shorter[i] == failures[i]);
            }
        }
        assert forall|i: int| 0 <= i < failures.len() implies (#[trigger] actions[2 * i + 1])
            == connect(config) by {
            if i < shorter.len() {
                assert(actions[2 * i + 1] == earlier[2 * i + 1]);
            }
        }
    }
}

/// A message whose payload is not valid text is never stored. It ends the
/// session like any failure, and is reported as a failure to decode unless
/// its receipt time is itself at fault.
pub proof fn law_bad_payload_ends_session(
    config: ConfigView,
    topic: Seq<char>,
    payload: Seq<u8>,
    received_at: i64,
)
    requires
        !valid_utf8(payload),
    ensures
        ({
            let (after, action) = next(
                config,
                State::Streaming,
                EventView::Message { topic, payload, received_at },
            );
            &&& after == State::Backoff
            &&& action is Backoff
            &&& received_at >= 0 ==> action == rest_after(decode_failure())
        }),
{
}

/// Whether an event is a message that gives a reading under a configuration.
pub open spec fn readable(config: ConfigView, event: EventView) -> bool {
    event matches EventView::Message { topic, payload, received_at } && reading_of(
        received_at,
        topic,
        payload,
        config.device_id,
    ) is Ok
}

/// The reading that a readable message gives.
pub open spec fn reading_from(config: ConfigView, event: EventView) -> ReadingView {
    reading_of(
        event->Message_received_at,
        event->Message_topic,
        event->Message_payload,
        config.device_id,
    )->Ok_0
}

/// Whether an event leaves a streaming session undisturbed: a message that
/// gives a reading, a notice, or word that a reading was stored.
pub open spec fn calm(config: ConfigView, event: EventView) -> bool {
    readable(config, event) || event == EventView::Notice || event == EventView::Stored
}

/// What a streaming session answers to an event that leaves it undisturbed:
/// a message is stored as its reading, and after anything else the next event
/// is awaited.
pub open spec fn answer(config: ConfigView, event: EventView) -> ActionView {
    if event is Message {
        ActionView::Store(reading_from(config, event))
    } else {
        ActionView::Receive
    }
}

/// A streaming session that nothing disturbs stays streaming, and answers
/// each event on its own. So the readings it stores are those of the
/// messages, one for one and in the order in which they arrive, whatever
/// notices come between them. A message that arrives twice is stored twice.
pub proof fn law_stream_keeps_order(config: ConfigView, events: Seq<EventView>)
    requires
        forall|i: int| 0 <= i < events.len() ==> calm(config, #[trigger] events[i]),
    ensures
        ({
            let (after, actions) = run(config, State::Streaming, events);
            &&& after == State::Streaming
            &&& actions.len() == events.len()
            &&& forall|i: int|
                0 <= i < events.len() ==> (#[trigger] actions[i]) == answer(config, events[i])
        }),
    decreases events.len(),
{
    if events.len() > 0 {
        let shorter = events.drop_last();
        assert forall|i: int| 0 <= i < shorter.len() implies calm(config, #[trigger] shorter[i]) by {
            assert(shorter[i] == events[i]);
        }
        law_stream_keeps_order(config, shorter);
        let earlier = run(config, State::Streaming, shorter).1;
        let actions = run(config, State::Streaming, events).1;
        assert(calm(config, events[events.len() - 1]));
        assert(actions == earlier.push(answer(config, events.last())));
        assert forall|i: int| 0 <= i < events.len() implies (#[trigger] actions[i]) == answer(
            config,
            events[i],
        ) by {
            if i < shorter.len() {
                assert(actions[i] == earlier[i]);
                assert(shorter[i] == events[i]);
            }
        }
    }
}

} // verus!
