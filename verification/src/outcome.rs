//! What the ingestion loop hands to the consumer: one outcome per pushed
//! message or fatal condition.

use crate::json::{decode, decoded, json_content, Json};
use vstd::prelude::*;

verus! {

/// The ways in which a stream can fail.
#[derive(Clone, Copy, Debug, PartialEq, Eq, Structural)]
pub enum StreamError {
    /// The login handshake did not yield a session token.
    Auth,
    /// The connection to the event stream failed.
    Connection,
    /// The body of one pushed message is not well-formed.
    Decode,
    /// The producing end of the handoff queue is gone and nothing is left in it.
    ChannelClosed,
}

impl StreamError {
    /// A short description of the failure, for messages to the user.
    pub fn message(&self) -> (text: &'static str)
        ensures
            text@ == match *self {
                StreamError::Auth => "No auth token!"@,
                StreamError::Connection => "Connection Failed"@,
                StreamError::Decode => "Malformed Event"@,
                StreamError::ChannelClosed => "Channel Disconnected"@,
            },
    {
        match self {
            StreamError::Auth => "No auth token!",
            StreamError::Connection => "Connection Failed",
            StreamError::Decode => "Malformed Event",
            StreamError::ChannelClosed => "Channel Disconnected",
        }
    }
}

/// One outcome of the stream: a decoded payload, or a named failure.
#[derive(Debug, PartialEq)]
pub enum Outcome {
    Payload(serde_json::Value),
    Failure(StreamError),
}

/// The mathematical content of an [`Outcome`].
pub enum Record {
    Payload(Json),
    Failure(StreamError),
}

impl View for Outcome {
    type V = Record;

    open spec fn view(&self) -> Record {
        match *self {
            Outcome::Payload(value) => Record::Payload(json_content(value)),
            Outcome::Failure(error) => Record::Failure(error),
        }
    }
}

/// The record of the outcome for one pushed message: its payload where the
/// body is well-formed, and the failure `Decode` where it is not.
pub open spec fn record_of_body(body: Seq<char>) -> Record {
    match decoded(body) {
        Some(payload) => Record::Payload(payload),
        None => Record::Failure(StreamError::Decode),
    }
}

impl Outcome {
    /// Decodes the body of one pushed message into its outcome.
    pub fn of_body(body: &str) -> (outcome: Outcome)
        ensures
            outcome@ == record_of_body(body@),
    {
        match decode(body) {
            Some(payload) => Outcome::Payload(payload),
            None => Outcome::Failure(StreamError::Decode),
        }
    }
}

/// The records of a sequence of outcomes, in the same order.
pub open spec fn records(outcomes: Seq<Outcome>) -> Seq<Record> {
    outcomes.map_values(|o: Outcome| o@)
}

} // verus!
