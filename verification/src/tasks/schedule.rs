//! How a round of a refresher ended, and what is reported of it.

use crate::types::applications::{rejection_message, InvalidTime, Rejection};
use crate::types::time::TimeSpan;
use vstd::prelude::*;

verus! {

/// Seconds after which a request that has not been answered counts as
/// failed.
pub const REQUEST_TIMEOUT_SECS: u64 = 120;

/// What a [`RefreshError`] stands for.
pub enum Fault {
    Transport(Seq<char>),
    Status(u16),
    Decode(Seq<char>),
    Validation(Rejection),
}

/// Why a request of a refresher failed. Whatever the reason, the refresher
/// rests and tries again; the reason is kept for the log.
#[derive(Debug, Clone)]
pub enum RefreshError {
    /// The request did not reach the server, or no response came back in
    /// time. The text says what happened.
    Transport(String),
    /// The server answered with a status other than success.
    Status(u16),
    /// The body of the response is not what was asked for. The text says
    /// where it differs.
    Decode(String),
    /// The body holds a value that cannot stand.
    Validation(InvalidTime),
}

impl View for RefreshError {
    type V = Fault;

    open spec fn view(&self) -> Fault {
        match self {
            RefreshError::Transport(text) => Fault::Transport(text@),
            RefreshError::Status(status) => Fault::Status(*status),
            RefreshError::Decode(text) => Fault::Decode(text@),
            RefreshError::Validation(invalid) => Fault::Validation(invalid@),
        }
    }
}

/// The words in which a [`Fault`] is reported.
pub open spec fn fault_message(fault: Fault) -> Seq<char> {
    match fault {
        Fault::Transport(text) => text,
        Fault::Status(status) => "HTTP status "@ + crate::text::decimal(status as nat),
        Fault::Decode(text) => text,
        Fault::Validation(rejection) => rejection_message(rejection),
    }
}

impl RefreshError {
    /// The error in words, for the log.
    pub fn message(&self) -> (message: String)
        ensures
            message@ == fault_message(self@),
    {
        match self {
            RefreshError::Transport(text) => text.clone(),
            RefreshError::Status(status) => {
                let mut message = String::from_str("HTTP status ");
                let number = crate::text::decimal_text(*status as u64);
                message.append(number.as_str());
                message
            },
            RefreshError::Decode(text) => text.clone(),
            RefreshError::Validation(invalid) => invalid.message(),
        }
    }
}

/// How a round ended, as the timing of the round is labelled with it.
#[derive(Debug, Clone, Copy, PartialEq, Eq, Structural)]
pub enum Status {
    Success,
    Fail,
}

impl Status {
    /// The label.
    pub fn label(&self) -> (label: &'static str)
        ensures
            label@ == match self {
                Status::Success => "success"@,
                Status::Fail => "fail"@,
            },
    {
        match self {
            Status::Success => "success",
            Status::Fail => "fail",
        }
    }
}

/// What a [`RefreshOutcome`] stands for.
pub struct Outcome {
    pub status: Status,
    /// Nanoseconds that the round took.
    pub took: nat,
    /// Nanoseconds of rest before the next round.
    pub next_update_in: nat,
    pub error: Option<Fault>,
}

/// What is known of a round when it has ended: how it went, how long it
/// took, and how long the refresher rests before the next one. It is
/// logged, observed, and forgotten.
#[derive(Debug, Clone)]
pub struct RefreshOutcome {
    pub status: Status,
    pub took: TimeSpan,
    pub next_update_in: TimeSpan,
    /// Why the round failed, if it did.
    pub error: Option<RefreshError>,
}

impl View for RefreshOutcome {
    type V = Outcome;

    open spec fn view(&self) -> Outcome {
        Outcome {
            status: self.status,
            took: self.took@,
            next_update_in: self.next_update_in@,
            error: match self.error {
                Some(error) => Some(error@),
                None => None,
            },
        }
    }
}

/// The whole milliseconds in `nanos` nanoseconds, as they fit the 64 bits in
/// which a log holds them: what lies beyond is cut off.
pub open spec fn logged_millis(nanos: nat) -> int {
    (nanos / 1_000_000) as int % 0x1_0000_0000_0000_0000
}

/// The whole milliseconds in `span`, in the 64 bits in which a log holds
/// them.
pub fn millis_for_log(span: &TimeSpan) -> (millis: u64)
    ensures
        millis == logged_millis(span@),
{
    let millis: u128 = span.as_millis();
    (millis % 0x1_0000_0000_0000_0000) as u64
}

impl RefreshOutcome {
    /// The milliseconds that the round took, for the log.
    pub fn took_millis(&self) -> (millis: u64)
        ensures
            millis == logged_millis(self@.took),
    {
        millis_for_log(&self.took)
    }

    /// The milliseconds of rest before the next round, for the log.
    pub fn next_update_in_millis(&self) -> (millis: u64)
        ensures
            millis == logged_millis(self@.next_update_in),
    {
        millis_for_log(&self.next_update_in)
    }
}

} // verus!
