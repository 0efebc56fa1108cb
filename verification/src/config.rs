//! What a running collector is configured with. The values are fixed at
//! startup and hold for the life of the process.

use vstd::prelude::*;
use vstd::string::*;

verus! {

/// The configuration of one collector.
#[derive(Clone, Debug, PartialEq, Eq)]
pub struct Config {
    store_path: String,
    device_id: String,
    base_topic: String,
    broker_address: String,
}

/// The mathematical value of a [`Config`].
pub struct ConfigView {
    /// Where the store lies in the file system.
    pub store_path: Seq<char>,
    /// The identifier stamped into every reading.
    pub device_id: Seq<char>,
    /// The prefix subscribed to; empty for everything.
    pub base_topic: Seq<char>,
    /// The host name or address of the broker.
    pub broker_address: Seq<char>,
}

impl View for Config {
    type V = ConfigView;

    closed spec fn view(&self) -> ConfigView {
        ConfigView {
            store_path: self.store_path@,
            device_id: self.device_id@,
            base_topic: self.base_topic@,
            broker_address: self.broker_address@,
        }
    }
}

/// The configuration of a collector that was told nothing: a store in the
/// working directory, a device that does not say who it is, every topic, and
/// a broker on this machine.
pub open spec fn default_config() -> ConfigView {
    ConfigView {
        store_path: "./dev.db"@,
        device_id: "UNKNOWN_DEVICE"@,
        base_topic: ""@,
        broker_address: "localhost"@,
    }
}

impl Config {
    /// A configuration of the four given values.
    pub fn new(
        store_path: String,
        device_id: String,
        base_topic: String,
        broker_address: String,
    ) -> (config: Config)
        ensures
            config@ == (ConfigView {
                store_path: store_path@,
                device_id: device_id@,
                base_topic: base_topic@,
                broker_address: broker_address@,
            }),
    {
        Config { store_path, device_id, base_topic, broker_address }
    }

    /// Where the store lies in the file system.
    pub fn store_path(&self) -> (path: &str)
        ensures
            path@ == self@.store_path,
    {
        self.store_path.as_str()
    }

    /// The identifier stamped into every reading.
    pub fn device_id(&self) -> (id: &str)
        ensures
            id@ == self@.device_id,
    {
        self.device_id.as_str()
    }

    /// The prefix subscribed to; empty for everything.
    pub fn base_topic(&self) -> (base: &str)
        ensures
            base@ == self@.base_topic,
    {
        self.base_topic.as_str()
    }

    /// The host name or address of the broker.
    pub fn broker_address(&self) -> (address: &str)
        ensures
            address@ == self@.broker_address,
    {
        self.broker_address.as_str()
    }
}

impl Default for Config {
    fn default() -> (config: Config)
        ensures
            config@ == default_config(),
    {
        Config {
            store_path: String::from_str("./dev.db"),
            device_id: String::from_str("UNKNOWN_DEVICE"),
            base_topic: String::from_str(""),
            broker_address: String::from_str("localhost"),
        }
    }
}

} // verus!
