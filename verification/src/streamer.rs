//! The streaming client: the state that the ingestion loop and the consumer
//! share, and what each of the two does to it.
//!
//! The loop reports what happened on the connection, one event after the
//! other; the consumer polls and may ask the loop to stop. Every step is one
//! call, so a caller that lets the two run side by side only has to keep the
//! calls apart.

use crate::auth::{authenticate, events_address, events_url, granted, parsed_url, url_text};
use crate::auth::LoginReply;
use crate::json::json_content;
use crate::outcome::{record_of_body, Outcome, Record, StreamError};
use crate::queue::{HandoffQueue, QueueState};
use vstd::prelude::*;

verus! {

/// What one read from the connection gave.
pub enum StreamEvent {
    /// A pushed message, with the text of its data field.
    Message(String),
    /// The connection reported an error or was closed.
    Broken,
}

/// The mathematical content of a [`StreamEvent`].
pub enum Wire {
    Message(Seq<char>),
    Broken,
}

impl View for StreamEvent {
    type V = Wire;

    open spec fn view(&self) -> Wire {
        match *self {
            StreamEvent::Message(body) => Wire::Message(body@),
            StreamEvent::Broken => Wire::Broken,
        }
    }
}

/// The mathematical state of a [`DataStreamer`].
pub struct StreamerState {
    pub queue: QueueState,
    /// Whether the loop was asked to stop.
    pub stop: bool,
}

/// The address that the stream is opened at after a login reply: the reply
/// grants a token, and the address made with it is a URL.
pub open spec fn stream_address(endpoint: Seq<char>, reply: LoginReply) -> Option<Seq<char>> {
    match granted(reply) {
        Some(token) => parsed_url(events_address(endpoint, token)),
        None => None,
    }
}

/// The failure that a login reply ends the stream with, if it does.
pub open spec fn login_failure(endpoint: Seq<char>, reply: LoginReply) -> Option<StreamError> {
    match granted(reply) {
        Some(token) => if parsed_url(events_address(endpoint, token)) is Some {
            None
        } else {
            Some(StreamError::Connection)
        },
        None => Some(StreamError::Auth),
    }
}

impl StreamerState {
    /// The state of a new streamer: nothing pending, not asked to stop.
    pub open spec fn fresh() -> StreamerState {
        StreamerState { queue: QueueState::fresh(), stop: false }
    }

    /// Whether the loop has not ended yet.
    pub open spec fn running(self) -> bool {
        self.queue.producer_open
    }

    /// Whether the loop forwards what it reads: it runs, was not asked to
    /// stop, and the consumer is there.
    pub open spec fn live(self) -> bool {
        self.queue.producer_open && self.queue.consumer_open && !self.stop
    }

    /// The state after the loop ended with a last outcome `error`.
    pub open spec fn failed(self, error: StreamError) -> StreamerState {
        StreamerState { queue: self.queue.pushed(Record::Failure(error)).producer_gone(), ..self }
    }

    /// The state after the loop ended without a last outcome.
    pub open spec fn ended(self) -> StreamerState {
        StreamerState { queue: self.queue.producer_gone(), ..self }
    }

    /// The state after the loop learned how the login went.
    pub open spec fn on_login(self, endpoint: Seq<char>, reply: LoginReply) -> StreamerState {
        if !self.running() {
            self
        } else {
            match login_failure(endpoint, reply) {
                Some(error) => self.failed(error),
                None => self,
            }
        }
    }

    /// The state after the loop read one event from the connection.
    pub open spec fn on_event(self, event: Wire) -> StreamerState {
        if !self.running() {
            self
        } else if self.stop {
            self.ended()
        } else {
            match event {
                Wire::Message(body) => if self.queue.consumer_open {
                    StreamerState { queue: self.queue.pushed(record_of_body(body)), ..self }
                } else {
                    self.ended()
                },
                Wire::Broken => self.failed(StreamError::Connection),
            }
        }
    }

    /// The state after one poll.
    pub open spec fn after_next(self) -> StreamerState {
        StreamerState { queue: self.queue.after_poll(), ..self }
    }

    /// The state after a request to stop.
    pub open spec fn stopped(self) -> StreamerState {
        StreamerState { stop: true, ..self }
    }

    /// The state after the consumer let go of the streamer.
    pub open spec fn released(self) -> StreamerState {
        StreamerState { queue: self.queue.consumer_gone(), stop: true }
    }
}

/// The state shared by the ingestion loop and the consumer of one stream.
pub struct DataStreamer {
    queue: HandoffQueue,
    stop: bool,
}

impl View for DataStreamer {
    type V = StreamerState;

    closed spec fn view(&self) -> StreamerState {
        StreamerState { queue: self.queue@, stop: self.stop }
    }
}

impl DataStreamer {
    /// Creates a streamer whose loop has not read anything yet.
    pub fn new() -> (streamer: DataStreamer)
        ensures
            streamer@ == StreamerState::fresh(),
    {
        DataStreamer { queue: HandoffQueue::new(), stop: false }
    }

    /// Takes the next outcome, if there is one, without waiting.
    ///
    /// Returns `Ok(Some(payload))` for a decoded payload, `Ok(None)` while
    /// nothing is pending and the loop still runs, the failure that was
    /// forwarded where the oldest outcome is one, and `ChannelClosed` once
    /// nothing is pending and the loop has ended.
    pub fn next(&mut self) -> (taken: Result<Option<serde_json::Value>, StreamError>)
        ensures
            final(self)@ == old(self)@.after_next(),
            match taken {
                Ok(Some(payload)) => old(self)@.queue.front() == Some(
                    Record::Payload(json_content(payload)),
                ),
                Ok(None) => old(self)@.queue.front() is None,
                Err(error) => old(self)@.queue.front() == Some(Record::Failure(error)),
            },
            old(self)@.running() && old(self)@.queue.pending.len() == 0 ==> (taken matches Ok(None))
                && final(self)@ == old(self)@,
    {
        match self.queue.poll() {
            Some(Outcome::Payload(payload)) => Ok(Some(payload)),
            Some(Outcome::Failure(error)) => Err(error),
            None => Ok(None),
        }
    }

    /// Asks the loop to stop. The loop obeys when it has read its next event.
    pub fn stop(&mut self)
        ensures
            final(self)@ == old(self)@.stopped(),
    {
        self.stop = true;
    }

    /// Lets go of the consuming end: the loop is asked to stop, and nothing
    /// can be forwarded any more.
    pub fn release(&mut self)
        ensures
            final(self)@ == old(self)@.released(),
    {
        self.stop = true;
        self.queue.hang_up();
    }

    /// Tells the streamer how the login went; the loop calls this once,
    /// before it reads any event.
    ///
    /// Returns the address to open the stream at exactly when the loop still
    /// runs, the reply grants a session token, and the address made with it
    /// is a URL. Otherwise a running loop ends: with the failure `Auth` where
    /// no token was granted, with `Connection` where the address is no URL.
    pub fn on_login(&mut self, endpoint: &str, reply: &LoginReply) -> (address: Option<
        reqwest::Url,
    >)
        ensures
            final(self)@ == old(self)@.on_login(endpoint@, *reply),
            match address {
                Some(url) => old(self)@.running() && stream_address(endpoint@, *reply) == Some(
                    url_text(url),
                ),
                None => !old(self)@.running() || stream_address(endpoint@, *reply) is None,
            },
    {
        if self.queue.is_closed() {
            return None;
        }
        match authenticate(reply) {
            Ok(token) => match events_url(endpoint, token.as_str()) {
                Some(url) => Some(url),
                None => {
                    self.fail(StreamError::Connection);
                    None
                },
            },
            Err(_) => {
                self.fail(StreamError::Auth);
                None
            },
        }
    }

    /// Handles one event read from the connection. Returns whether the loop
    /// goes on reading.
    ///
    /// A loop that has ended stays ended. A loop that was asked to stop ends
    /// and forwards nothing. Otherwise a message is decoded and its outcome
    /// forwarded, and the loop goes on unless the consumer is gone; a broken
    /// connection is forwarded as the failure `Connection` and ends the loop.
    pub fn on_event(&mut self, event: StreamEvent) -> (keep_reading: bool)
        ensures
            final(self)@ == old(self)@.on_event(event@),
            keep_reading == final(self)@.running(),
    {
        if self.queue.is_closed() {
            return false;
        }
        if self.stop {
            self.queue.close();
            return false;
        }
        match event {
            StreamEvent::Message(body) => {
                let outcome = Outcome::of_body(body.as_str());
                match self.queue.push(outcome) {
                    Ok(()) => true,
                    Err(_) => {
                        self.queue.close();
                        false
                    },
                }
            },
            StreamEvent::Broken => {
                self.fail(StreamError::Connection);
                false
            },
        }
    }

    /// Forwards a last failure and ends the loop.
    fn fail(&mut self, error: StreamError)
        ensures
            final(self)@ == old(self)@.failed(error),
    {
        let _ = self.queue.push(Outcome::Failure(error));
        self.queue.close();
    }

    /// Whether the loop was asked to stop.
    pub fn is_stopped(&self) -> (stopped: bool)
        ensures
            stopped == self@.stop,
    {
        self.stop
    }

    /// Whether the loop has not ended yet.
    pub fn is_running(&self) -> (running: bool)
        ensures
            running == self@.running(),
    {
        !self.queue.is_closed()
    }

    /// The number of outcomes that wait to be taken.
    pub fn pending(&self) -> (n: usize)
        ensures
            n == self@.queue.pending.len(),
    {
        self.queue.len()
    }
}

} // verus!
