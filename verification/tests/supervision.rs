use data_collection::config::Config;
use data_collection::failure::Failure;
use data_collection::failure::FailureKind;
use data_collection::protocol::Action;
use data_collection::protocol::Event;
use data_collection::protocol::Qos;
use data_collection::protocol::BACKOFF_SECS;
use data_collection::protocol::BROKER_PORT;
use data_collection::protocol::CONNECT_TIMEOUT_SECS;
use data_collection::reading::Reading;
use data_collection::supervisor::transition;
use data_collection::supervisor::State;
use data_collection::supervisor::Supervisor;

fn config() -> Config {
    Config::new(
        String::from("./dev.db"),
        String::from("pi-7"),
        String::from("sensors"),
        String::from("broker.lan"),
    )
}

fn connect() -> Action {
    Action::Connect { address: String::from("broker.lan"), port: 1883, timeout_secs: 5 }
}

fn rest_after(failure: Failure) -> Action {
    Action::Backoff { failure, delay_secs: 1 }
}

fn message(topic: &str, payload: &[u8], received_at: i64) -> Event {
    Event::Message { topic: String::from(topic), payload: payload.to_vec(), received_at }
}

fn streaming() -> Supervisor {
    let (mut supervisor, _) = Supervisor::launch(config());
    supervisor.handle(Event::Prepared);
    supervisor.handle(Event::Connected);
    supervisor.handle(Event::Subscribed);
    assert_eq!(supervisor.state(), State::Streaming);
    supervisor
}

#[test]
fn fixed_values_of_the_protocol() {
    assert_eq!(BROKER_PORT, 1883);
    assert_eq!(CONNECT_TIMEOUT_SECS, 5);
    assert_eq!(BACKOFF_SECS, 1);
}

#[test]
fn launch_asks_for_the_store_first() {
    let (supervisor, first) = Supervisor::launch(config());
    assert_eq!(supervisor.state(), State::Idle);
    assert_eq!(supervisor.config(), &config());
    assert_eq!(first, Action::Prepare);
}

#[test]
fn session_runs_in_order() {
    let (mut supervisor, _) = Supervisor::launch(config());
    assert_eq!(supervisor.handle(Event::Prepared), connect());
    assert_eq!(supervisor.state(), State::Connecting);
    assert_eq!(
        supervisor.handle(Event::Connected),
        Action::Subscribe { filter: String::from("/sensors/#"), qos: Qos::AtMostOnce }
    );
    assert_eq!(supervisor.state(), State::Subscribing);
    assert_eq!(supervisor.handle(Event::Subscribed), Action::Receive);
    assert_eq!(supervisor.state(), State::Streaming);
    assert_eq!(supervisor.config(), &config());
}

#[test]
fn empty_base_topic_subscribes_to_everything() {
    let open = Config::new(String::from("a.db"), String::from("d"), String::new(), String::from("h"));
    let (state, action) = transition(&open, State::Connecting, Event::Connected);
    assert_eq!(state, State::Subscribing);
    assert_eq!(action, Action::Subscribe { filter: String::from("#"), qos: Qos::AtMostOnce });
}

#[test]
fn message_is_stored_with_receipt_time_and_device() {
    let mut supervisor = streaming();
    let action = supervisor.handle(message("/sensors/temp", b"21.5", 1_700_000_000));
    let expected = Reading::new(
        1_700_000_000,
        String::from("/sensors/temp"),
        String::from("21.5"),
        String::from("pi-7"),
    );
    assert_eq!(action, Action::Store(expected));
    assert_eq!(supervisor.state(), State::Streaming);
    assert_eq!(supervisor.handle(Event::Stored), Action::Receive);
    assert_eq!(supervisor.state(), State::Streaming);
}

#[test]
fn notice_yields_no_reading() {
    let mut supervisor = streaming();
    assert_eq!(supervisor.handle(Event::Notice), Action::Receive);
    assert_eq!(supervisor.state(), State::Streaming);
}

#[test]
fn messages_are_stored_one_by_one_in_order_of_arrival() {
    let mut supervisor = streaming();
    let payloads: [&[u8]; 3] = [b"1", b"2", b"3"];
    let mut stored: Vec<String> = Vec::new();
    for payload in payloads {
        match supervisor.handle(message("/sensors/n", payload, 10)) {
            Action::Store(reading) => stored.push(String::from(reading.value())),
            other => panic!("not stored: {:?}", other),
        }
        assert_eq!(supervisor.handle(Event::Stored), Action::Receive);
    }
    assert_eq!(stored, vec!["1", "2", "3"]);
}

#[test]
fn same_message_twice_is_stored_twice() {
    let mut supervisor = streaming();
    let first = supervisor.handle(message("/sensors/n", b"1", 10));
    supervisor.handle(Event::Stored);
    let second = supervisor.handle(message("/sensors/n", b"1", 10));
    assert_eq!(first, second);
    assert!(matches!(second, Action::Store(_)));
}

#[test]
fn failed_append_ends_the_session() {
    let mut supervisor = streaming();
    let action = supervisor.handle(message("/sensors/temp", b"21.5", 5));
    assert!(matches!(action, Action::Store(_)));
    let failure = Failure::new(FailureKind::Storage, String::from("database is locked"));
    assert_eq!(supervisor.handle(Event::Failed(failure.clone())), rest_after(failure));
    assert_eq!(supervisor.state(), State::Backoff);
    let late = supervisor.handle(message("/sensors/temp", b"22.0", 6));
    assert_eq!(late, rest_after(Failure::out_of_turn()));
    assert_eq!(supervisor.state(), State::Backoff);
    assert_eq!(supervisor.handle(Event::Stored), rest_after(Failure::out_of_turn()));
    assert_eq!(supervisor.handle(Event::Rested), connect());
    assert_eq!(supervisor.state(), State::Connecting);
}

#[test]
fn failed_connections_are_each_tried_again() {
    let (mut supervisor, _) = Supervisor::launch(config());
    let mut attempts: u32 = 0;
    let mut rests: u32 = 0;
    let mut action = supervisor.handle(Event::Prepared);
    let rounds: u32 = 50;
    for round in 0..rounds {
        assert_eq!(action, connect());
        attempts += 1;
        let failure = Failure::new(FailureKind::Connection, format!("refused, round {}", round));
        let answer = supervisor.handle(Event::Failed(failure.clone()));
        assert_eq!(answer, rest_after(failure));
        assert_eq!(supervisor.state(), State::Backoff);
        rests += 1;
        action = supervisor.handle(Event::Rested);
        assert_eq!(supervisor.state(), State::Connecting);
    }
    assert_eq!(attempts, 50);
    assert_eq!(rests, 50);
    assert_eq!(action, connect());
}

#[test]
fn no_failure_after_startup_ends_the_process() {
    let kinds = [
        FailureKind::Startup,
        FailureKind::Connection,
        FailureKind::Subscription,
        FailureKind::Receive,
        FailureKind::Decode,
        FailureKind::Clock,
        FailureKind::Storage,
        FailureKind::OutOfTurn,
    ];
    let states = [State::Connecting, State::Subscribing, State::Streaming, State::Backoff];
    for state in states {
        for kind in kinds {
            let failure = Failure::new(kind, String::from("x"));
            let (after, action) = transition(&config(), state, Event::Failed(failure.clone()));
            assert_eq!(after, State::Backoff);
            assert_eq!(action, rest_after(failure));
        }
    }
}

#[test]
fn failure_to_prepare_the_store_ends_the_process() {
    let (mut supervisor, _) = Supervisor::launch(config());
    let failure = Failure::new(FailureKind::Startup, String::from("unable to open database file"));
    assert_eq!(supervisor.handle(Event::Failed(failure.clone())), Action::Halt(failure));
    assert_eq!(supervisor.state(), State::Idle);
}

#[test]
fn event_out_of_turn_before_the_store_is_prepared_ends_the_process() {
    let events = [
        Event::Connected,
        Event::Subscribed,
        message("t", b"1", 1),
        Event::Notice,
        Event::Stored,
        Event::Rested,
    ];
    for event in events {
        let (after, action) = transition(&config(), State::Idle, event);
        assert_eq!(after, State::Idle);
        assert_eq!(action, Action::Halt(Failure::out_of_turn()));
    }
}

#[test]
fn event_out_of_turn_ends_the_session() {
    let out_of_turn = [
        (State::Connecting, Event::Prepared),
        (State::Connecting, Event::Subscribed),
        (State::Connecting, message("t", b"1", 1)),
        (State::Connecting, Event::Notice),
        (State::Connecting, Event::Stored),
        (State::Connecting, Event::Rested),
        (State::Subscribing, Event::Prepared),
        (State::Subscribing, Event::Connected),
        (State::Subscribing, message("t", b"1", 1)),
        (State::Subscribing, Event::Notice),
        (State::Subscribing, Event::Stored),
        (State::Subscribing, Event::Rested),
        (State::Streaming, Event::Prepared),
        (State::Streaming, Event::Connected),
        (State::Streaming, Event::Subscribed),
        (State::Streaming, Event::Rested),
        (State::Backoff, Event::Prepared),
        (State::Backoff, Event::Connected),
        (State::Backoff, Event::Subscribed),
        (State::Backoff, message("t", b"1", 1)),
        (State::Backoff, Event::Notice),
        (State::Backoff, Event::Stored),
    ];
    for (state, event) in out_of_turn {
        let (after, action) = transition(&config(), state, event);
        assert_eq!(after, State::Backoff);
        assert_eq!(action, rest_after(Failure::out_of_turn()));
    }
}

#[test]
fn payload_that_is_no_text_is_not_stored_and_ends_the_session() {
    let mut supervisor = streaming();
    let action = supervisor.handle(message("/sensors/temp", &[0xff, 0xfe], 1_700_000_000));
    assert_eq!(action, rest_after(Failure::decode()));
    assert_eq!(supervisor.state(), State::Backoff);
    assert_eq!(supervisor.handle(Event::Rested), connect());
    assert_eq!(
        supervisor.handle(Event::Connected),
        Action::Subscribe { filter: String::from("/sensors/#"), qos: Qos::AtMostOnce }
    );
    assert_eq!(supervisor.handle(Event::Subscribed), Action::Receive);
}

#[test]
fn message_from_before_the_epoch_ends_the_session() {
    let mut supervisor = streaming();
    let action = supervisor.handle(message("/sensors/temp", b"21.5", -3));
    assert_eq!(action, rest_after(Failure::clock()));
    assert_eq!(supervisor.state(), State::Backoff);
}

#[test]
fn closed_channel_ends_the_session() {
    let mut supervisor = streaming();
    let failure = Failure::new(FailureKind::Receive, String::from("channel closed"));
    assert_eq!(supervisor.handle(Event::Failed(failure.clone())), rest_after(failure));
    assert_eq!(supervisor.state(), State::Backoff);
}

#[test]
fn rejected_filter_ends_the_session() {
    let (mut supervisor, _) = Supervisor::launch(config());
    supervisor.handle(Event::Prepared);
    supervisor.handle(Event::Connected);
    let failure = Failure::new(FailureKind::Subscription, String::from("filter rejected"));
    assert_eq!(supervisor.handle(Event::Failed(failure.clone())), rest_after(failure));
    assert_eq!(supervisor.state(), State::Backoff);
    assert_eq!(supervisor.handle(Event::Rested), connect());
}

#[test]
fn run_of_events_is_answered_event_by_event() {
    let (mut supervisor, _) = Supervisor::launch(config());
    let refused = Failure::new(FailureKind::Connection, String::from("refused"));
    let events = vec![
        Event::Prepared,
        Event::Failed(refused.clone()),
        Event::Rested,
        Event::Connected,
        Event::Subscribed,
        Event::Notice,
        message("/sensors/temp", b"21.5", 9),
        Event::Stored,
    ];
    let actions = supervisor.handle_all(events);
    let reading =
        Reading::new(9, String::from("/sensors/temp"), String::from("21.5"), String::from("pi-7"));
    let expected = vec![
        connect(),
        rest_after(refused),
        connect(),
        Action::Subscribe { filter: String::from("/sensors/#"), qos: Qos::AtMostOnce },
        Action::Receive,
        Action::Receive,
        Action::Store(reading),
        Action::Receive,
    ];
    assert_eq!(actions, expected);
    assert_eq!(supervisor.state(), State::Streaming);
    assert_eq!(supervisor.config(), &config());
}

#[test]
fn run_of_no_events_changes_nothing() {
    let mut supervisor = streaming();
    assert_eq!(supervisor.handle_all(Vec::new()), Vec::new());
    assert_eq!(supervisor.state(), State::Streaming);
}

#[test]
fn outage_of_any_length_never_ends_the_process() {
    let (mut supervisor, _) = Supervisor::launch(config());
    supervisor.handle(Event::Prepared);
    let mut events: Vec<Event> = Vec::new();
    let failures: usize = 200;
    for _ in 0..failures {
        events.push(Event::Failed(Failure::new(FailureKind::Connection, String::from("timed out"))));
        events.push(Event::Rested);
    }
    let actions = supervisor.handle_all(events);
    assert_eq!(actions.len(), 400);
    let attempts: usize = actions.iter().filter(|action| matches!(action, Action::Connect { .. })).count();
    let rests: usize = actions.iter().filter(|action| matches!(action, Action::Backoff { .. })).count();
    let ends: usize = actions.iter().filter(|action| matches!(action, Action::Halt(_))).count();
    assert_eq!(attempts, 200);
    assert_eq!(rests, 200);
    assert_eq!(ends, 0);
    assert_eq!(supervisor.state(), State::Connecting);
}

#[test]
fn each_action_fails_at_its_own_boundary() {
    let reading = Reading::new(1, String::from("t"), String::from("v"), String::from("d"));
    let cases = [
        (Action::Prepare, FailureKind::Startup),
        (connect(), FailureKind::Connection),
        (
            Action::Subscribe { filter: String::from("#"), qos: Qos::AtMostOnce },
            FailureKind::Subscription,
        ),
        (Action::Receive, FailureKind::Receive),
        (Action::Store(reading), FailureKind::Storage),
        (rest_after(Failure::decode()), FailureKind::OutOfTurn),
        (Action::Halt(Failure::decode()), FailureKind::OutOfTurn),
    ];
    for (action, kind) in cases {
        assert_eq!(action.failure_kind(), kind);
        assert_eq!(
            action.failed(String::from("why")),
            Event::Failed(Failure::new(kind, String::from("why")))
        );
    }
}

#[test]
fn failed_action_is_answered_by_a_rest_that_reports_it() {
    let mut supervisor = streaming();
    let action = supervisor.handle(message("/sensors/temp", b"21.5", 5));
    let event = action.failed(String::from("disk full"));
    let answer = supervisor.handle(event);
    assert_eq!(answer, rest_after(Failure::new(FailureKind::Storage, String::from("disk full"))));
    match answer {
        Action::Backoff { failure, delay_secs } => {
            assert_eq!(
                failure.log_line(),
                "Something went wrong, trying again soon.\ndisk full"
            );
            assert_eq!(delay_secs, 1);
        }
        other => panic!("not a rest: {:?}", other),
    }
}

#[test]
fn notices_between_messages_change_nothing_of_what_is_stored() {
    let mut supervisor = streaming();
    let events = vec![
        Event::Notice,
        message("/sensors/a", b"1", 10),
        Event::Stored,
        Event::Notice,
        Event::Notice,
        message("/sensors/b", b"2", 11),
        Event::Stored,
        message("/sensors/a", b"1", 10),
        Event::Stored,
        Event::Notice,
    ];
    let actions = supervisor.handle_all(events);
    let first = Reading::new(10, String::from("/sensors/a"), String::from("1"), String::from("pi-7"));
    let second = Reading::new(11, String::from("/sensors/b"), String::from("2"), String::from("pi-7"));
    let expected = vec![
        Action::Receive,
        Action::Store(first.clone()),
        Action::Receive,
        Action::Receive,
        Action::Receive,
        Action::Store(second),
        Action::Receive,
        Action::Store(first),
        Action::Receive,
        Action::Receive,
    ];
    assert_eq!(actions, expected);
    assert_eq!(supervisor.state(), State::Streaming);
}
