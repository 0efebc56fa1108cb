//! The reading: one received message, stamped with its receipt time and the
//! installation that received it.

use crate::failure::clock_failure;
use crate::failure::decode_failure;
use crate::failure::Failure;
use crate::failure::FailureView;
use vstd::prelude::*;
use vstd::string::*;
use vstd::utf8::decode_utf8;
use vstd::utf8::valid_utf8;

verus! {

/// One record of the store. A reading is made once and never changed.
#[derive(Clone, Debug, PartialEq, Eq)]
pub struct Reading {
    timestamp: u64,
    topic: String,
    value: String,
    device_id: String,
}

/// The mathematical value of a [`Reading`].
pub struct ReadingView {
    /// Seconds since the epoch, by the local clock, at receipt.
    pub timestamp: nat,
    /// The topic the message arrived on, in full.
    pub topic: Seq<char>,
    /// The payload, as text.
    pub value: Seq<char>,
    /// The installation that received the message.
    pub device_id: Seq<char>,
}

impl View for Reading {
    type V = ReadingView;

    closed spec fn view(&self) -> ReadingView {
        ReadingView {
            timestamp: self.timestamp as nat,
            topic: self.topic@,
            value: self.value@,
            device_id: self.device_id@,
        }
    }
}

/// The reading that a message gives, or why it gives none. The receipt time
/// is judged first: before the epoch it is a clock failure. Then the payload:
/// bytes that are not valid UTF-8 are a decode failure.
pub open spec fn reading_of(
    received_at: i64,
    topic: Seq<char>,
    payload: Seq<u8>,
    device_id: Seq<char>,
) -> Result<ReadingView, FailureView> {
    if received_at < 0 {
        Err(clock_failure())
    } else if !valid_utf8(payload) {
        Err(decode_failure())
    } else {
        Ok(
            ReadingView {
                timestamp: received_at as nat,
                topic,
                value: decode_utf8(payload),
                device_id,
            },
        )
    }
}

/// Whether a result of the library stands for a result of the model.
pub open spec fn gives(
    got: Result<Reading, Failure>,
    model: Result<ReadingView, FailureView>,
) -> bool {
    match model {
        Ok(reading) => got matches Ok(r) && r@ == reading,
        Err(failure) => got matches Err(f) && f@ == failure,
    }
}

/// `String::from_utf8` of std: the text that the bytes encode. The contract
/// claims that the call succeeds exactly on valid UTF-8, and that the text it
/// then returns is the decoding of these bytes.
#[verifier::external_body]
fn text_of(bytes: Vec<u8>) -> (text: Option<String>)
    ensures
        text is Some <==> valid_utf8(bytes@),
        text matches Some(s) ==> s@ == decode_utf8(bytes@),
{
    match String::from_utf8(bytes) {
        Ok(s) => Some(s),
        Err(_) => None,
    }
}

impl Reading {
    /// A reading of the four given values.
    pub fn new(
        timestamp: u64,
        topic: String,
        value: String,
        device_id: String,
    ) -> (reading: Reading)
        ensures
            reading@ == (ReadingView {
                timestamp: timestamp as nat,
                topic: topic@,
                value: value@,
                device_id: device_id@,
            }),
    {
        Reading { timestamp, topic, value, device_id }
    }

    /// The reading for a message that arrived on `topic` with `payload` when
    /// the local clock stood at `received_at` seconds since the epoch.
    pub fn from_message(
        received_at: i64,
        topic: String,
        payload: Vec<u8>,
        device_id: &str,
    ) -> (made: Result<Reading, Failure>)
        ensures
            gives(made, reading_of(received_at, topic@, payload@, device_id@)),
    {
        if received_at < 0 {
            return Err(Failure::clock());
        }
        match text_of(payload) {
            Some(value) => Ok(
                Reading {
                    timestamp: received_at as u64,
                    topic,
                    value,
                    device_id: String::from_str(device_id),
                },
            ),
            None => Err(Failure::decode()),
        }
    }

    /// The values of the row that stores this reading, in the order of the
    /// table's columns and of the parameters of the statement that appends.
    pub fn row(&self) -> (row: (u64, &str, &str, &str))
        ensures
            row.0 == self@.timestamp,
            row.1@ == self@.topic,
            row.2@ == self@.value,
            row.3@ == self@.device_id,
    {
        (self.timestamp, self.topic.as_str(), self.value.as_str(), self.device_id.as_str())
    }

    /// Seconds since the epoch at receipt.
    pub fn timestamp(&self) -> (t: u64)
        ensures
            t == self@.timestamp,
    {
        self.timestamp
    }

    /// The topic the message arrived on.
    pub fn topic(&self) -> (t: &str)
        ensures
            t@ == self@.topic,
    {
        self.topic.as_str()
    }

    /// The payload, as text.
    pub fn value(&self) -> (v: &str)
        ensures
            v@ == self@.value,
    {
        self.value.as_str()
    }

    /// The installation that received the message.
    pub fn device_id(&self) -> (d: &str)
        ensures
            d@ == self@.device_id,
    {
        self.device_id.as_str()
    }
}

} // verus!
