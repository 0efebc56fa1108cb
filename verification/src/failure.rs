//! What can go wrong, by the boundary at which it goes wrong.

use vstd::prelude::*;
use vstd::string::*;

verus! {

/// The boundary at which something failed.
#[derive(Clone, Copy, Debug, PartialEq, Eq, Structural)]
pub enum FailureKind {
    /// The store could not be opened or its table could not be created.
    Startup,
    /// The broker was not reached in time, refused, or failed the handshake.
    Connection,
    /// The connection was gone, or the broker rejected the filter.
    Subscription,
    /// The channel of inbound events closed.
    Receive,
    /// A payload was not valid text.
    Decode,
    /// The local clock gave a receipt time before the epoch.
    Clock,
    /// A reading could not be appended to the store.
    Storage,
    /// An event arrived that the supervisor was not waiting for.
    OutOfTurn,
}

/// A failure, with the words that describe it to an operator.
#[derive(Clone, Debug, PartialEq, Eq)]
pub struct Failure {
    pub kind: FailureKind,
    pub detail: String,
}

/// The mathematical value of a [`Failure`].
pub struct FailureView {
    pub kind: FailureKind,
    pub detail: Seq<char>,
}

impl View for Failure {
    type V = FailureView;

    open spec fn view(&self) -> FailureView {
        FailureView { kind: self.kind, detail: self.detail@ }
    }
}

/// The failure the library reports for a payload that is not valid text.
pub open spec fn decode_failure() -> FailureView {
    FailureView { kind: FailureKind::Decode, detail: "payload is not valid UTF-8"@ }
}

/// The failure the library reports for a receipt time before the epoch.
pub open spec fn clock_failure() -> FailureView {
    FailureView { kind: FailureKind::Clock, detail: "receipt time is before the epoch"@ }
}

/// The failure the library reports for an event that was not awaited.
pub open spec fn out_of_turn_failure() -> FailureView {
    FailureView { kind: FailureKind::OutOfTurn, detail: "event out of turn"@ }
}

/// What every line that reports a failure begins with.
pub open spec fn log_prefix() -> Seq<char> {
    "Something went wrong, trying again soon.\n"@
}

impl Failure {
    /// A failure of the given kind, described by `detail`.
    pub fn new(kind: FailureKind, detail: String) -> (f: Failure)
        ensures
            f@ == (FailureView { kind, detail: detail@ }),
    {
        Failure { kind, detail }
    }

    /// The failure for a payload that is not valid text.
    pub fn decode() -> (f: Failure)
        ensures
            f@ == decode_failure(),
    {
        Failure { kind: FailureKind::Decode, detail: String::from_str("payload is not valid UTF-8") }
    }

    /// The failure for a receipt time before the epoch.
    pub fn clock() -> (f: Failure)
        ensures
            f@ == clock_failure(),
    {
        Failure {
            kind: FailureKind::Clock,
            detail: String::from_str("receipt time is before the epoch"),
        }
    }

    /// The failure for an event that was not awaited.
    pub fn out_of_turn() -> (f: Failure)
        ensures
            f@ == out_of_turn_failure(),
    {
        Failure { kind: FailureKind::OutOfTurn, detail: String::from_str("event out of turn") }
    }

    /// The line an operator reads when this failure is reported: the fixed
    /// opening, then the failure's own words.
    pub fn log_line(&self) -> (line: String)
        ensures
            line@ == log_prefix() + self@.detail,
    {
        let mut line = String::from_str("Something went wrong, trying again soon.\n");
        line.append(self.detail.as_str());
        line
    }
}

} // verus!
