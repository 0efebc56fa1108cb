use data_collection::config::Config;
use data_collection::failure::Failure;
use data_collection::failure::FailureKind;

#[test]
fn failure_holds_its_kind_and_its_words() {
    let failure = Failure::new(FailureKind::Connection, String::from("connection refused"));
    assert_eq!(failure.kind, FailureKind::Connection);
    assert_eq!(failure.detail, "connection refused");
}

#[test]
fn failures_of_the_library_say_what_they_are() {
    assert_eq!(Failure::decode().kind, FailureKind::Decode);
    assert_eq!(Failure::decode().detail, "payload is not valid UTF-8");
    assert_eq!(Failure::clock().kind, FailureKind::Clock);
    assert_eq!(Failure::clock().detail, "receipt time is before the epoch");
    assert_eq!(Failure::out_of_turn().kind, FailureKind::OutOfTurn);
    assert_eq!(Failure::out_of_turn().detail, "event out of turn");
}

#[test]
fn log_line_opens_alike_and_ends_with_the_failure() {
    let failure = Failure::new(FailureKind::Storage, String::from("disk full"));
    assert_eq!(failure.log_line(), "Something went wrong, trying again soon.\ndisk full");
    let silent = Failure::new(FailureKind::Receive, String::new());
    assert_eq!(silent.log_line(), "Something went wrong, trying again soon.\n");
}

#[test]
fn configuration_holds_what_it_was_made_of() {
    let config = Config::new(
        String::from("/var/lib/readings.db"),
        String::from("pi-7"),
        String::from("sensors"),
        String::from("broker.lan"),
    );
    assert_eq!(config.store_path(), "/var/lib/readings.db");
    assert_eq!(config.device_id(), "pi-7");
    assert_eq!(config.base_topic(), "sensors");
    assert_eq!(config.broker_address(), "broker.lan");
}

#[test]
fn configuration_told_nothing() {
    let config = Config::default();
    assert_eq!(config.store_path(), "./dev.db");
    assert_eq!(config.device_id(), "UNKNOWN_DEVICE");
    assert_eq!(config.base_topic(), "");
    assert_eq!(config.broker_address(), "localhost");
}
