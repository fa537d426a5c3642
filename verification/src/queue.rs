//! The handoff queue: an unbounded first-in-first-out channel of outcomes with
//! one producing end and one consuming end.

use crate::outcome::{records, Outcome, Record, StreamError};
use std::collections::VecDeque;
use vstd::prelude::*;

verus! {

/// The mathematical state of a [`HandoffQueue`].
pub struct QueueState {
    /// The outcomes that were pushed and not yet taken, oldest first.
    pub pending: Seq<Record>,
    /// Whether the producing end still exists.
    pub producer_open: bool,
    /// Whether the consuming end still exists.
    pub consumer_open: bool,
}

impl QueueState {
    /// The state of a new queue: empty, with both ends in place.
    pub open spec fn fresh() -> QueueState {
        QueueState { pending: Seq::empty(), producer_open: true, consumer_open: true }
    }

    /// Whether a push is accepted: both ends exist.
    pub open spec fn accepts(self) -> bool {
        self.producer_open && self.consumer_open
    }

    /// The state after an attempt to push `record`.
    pub open spec fn pushed(self, record: Record) -> QueueState {
        if self.accepts() {
            QueueState { pending: self.pending.push(record), ..self }
        } else {
            self
        }
    }

    /// What a poll returns: the oldest pending record; nothing while the queue
    /// is empty and the producer may still push; `ChannelClosed` once it is
    /// empty and the producer is gone.
    pub open spec fn front(self) -> Option<Record> {
        if self.pending.len() > 0 {
            Some(self.pending[0])
        } else if self.producer_open {
            None
        } else {
            Some(Record::Failure(StreamError::ChannelClosed))
        }
    }

    /// The state after a poll: the oldest pending record, if any, is gone.
    pub open spec fn after_poll(self) -> QueueState {
        if self.pending.len() > 0 {
            QueueState { pending: self.pending.drop_first(), ..self }
        } else {
            self
        }
    }

    /// The state after the producing end went away.
    pub open spec fn producer_gone(self) -> QueueState {
        QueueState { producer_open: false, ..self }
    }

    /// The state after the consuming end went away.
    pub open spec fn consumer_gone(self) -> QueueState {
        QueueState { consumer_open: false, ..self }
    }
}

/// An unbounded queue of outcomes between the ingestion loop and its consumer.
pub struct HandoffQueue {
    pending: VecDeque<Outcome>,
    producer_open: bool,
    consumer_open: bool,
}

impl View for HandoffQueue {
    type V = QueueState;

    closed spec fn view(&self) -> QueueState {
        QueueState {
            pending: records(self.pending@),
            producer_open: self.producer_open,
            consumer_open: self.consumer_open,
        }
    }
}

impl HandoffQueue {
    /// Creates an empty queue with both ends in place.
    pub fn new() -> (queue: HandoffQueue)
        ensures
            queue@ == QueueState::fresh(),
    {
        let queue = HandoffQueue {
            pending: VecDeque::new(),
            producer_open: true,
            consumer_open: true,
        };
        assert(records(queue.pending@) =~= Seq::empty());
        queue
    }

    /// Appends an outcome, unless one of the two ends is gone.
    ///
    /// Fails with `ChannelClosed`, and changes nothing, exactly when an end is
    /// gone.
    pub fn push(&mut self, outcome: Outcome) -> (sent: Result<(), StreamError>)
        ensures
            final(self)@ == old(self)@.pushed(outcome@),
            match sent {
                Ok(_) => old(self)@.accepts(),
                Err(error) => !old(self)@.accepts() && error == StreamError::ChannelClosed,
            },
    {
        if self.producer_open && self.consumer_open {
            let ghost before = self.pending@;
            self.pending.push_back(outcome);
            assert(records(before.push(outcome)) =~= records(before).push(outcome@));
            Ok(())
        } else {
            Err(StreamError::ChannelClosed)
        }
    }

    /// Takes the oldest pending outcome without waiting.
    ///
    /// Returns `None` while nothing is pending and the producer may still
    /// push, and the failure `ChannelClosed` once nothing is pending and the
    /// producer is gone.
    pub fn poll(&mut self) -> (polled: Option<Outcome>)
        ensures
            final(self)@ == old(self)@.after_poll(),
            match polled {
                Some(outcome) => old(self)@.front() == Some(outcome@),
                None => old(self)@.front() is None,
            },
    {
        let ghost before = self.pending@;
        match self.pending.pop_front() {
            Some(outcome) => {
                assert(records(before.subrange(1, before.len() as int)) =~= records(
                    before,
                ).drop_first());
                Some(outcome)
            },
            None => {
                if self.producer_open {
                    None
                } else {
                    Some(Outcome::Failure(StreamError::ChannelClosed))
                }
            },
        }
    }

    /// Removes the producing end: nothing can be pushed any more.
    pub fn close(&mut self)
        ensures
            final(self)@ == old(self)@.producer_gone(),
    {
        self.producer_open = false;
    }

    /// Removes the consuming end: every later push fails.
    pub fn hang_up(&mut self)
        ensures
            final(self)@ == old(self)@.consumer_gone(),
    {
        self.consumer_open = false;
    }

    /// The number of pending outcomes.
    pub fn len(&self) -> (n: usize)
        ensures
            n == self@.pending.len(),
    {
        self.pending.len()
    }

    /// Whether the producing end is gone.
    pub fn is_closed(&self) -> (closed: bool)
        ensures
            closed == !self@.producer_open,
    {
        !self.producer_open
    }
}

} // verus!
