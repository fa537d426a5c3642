//! What holds of every run of a stream: the order of delivery, the effect of
//! malformed messages, of a failed login, of a request to stop and of a
//! broken connection.
//!
//! A run is told over the mathematical state of the streamer: the loop feeds
//! events into it, the consumer polls it.

use crate::auth::{granted, LoginReply};
use crate::json::decoded;
use crate::outcome::{record_of_body, Record, StreamError};
use crate::queue::QueueState;
use crate::streamer::{login_failure, StreamerState, Wire};
use vstd::prelude::*;

verus! {

/// The state after the loop read `events`, one after the other.
pub open spec fn after_events(state: StreamerState, events: Seq<Wire>) -> StreamerState
    decreases events.len(),
{
    if events.len() == 0 {
        state
    } else {
        after_events(state, events.drop_last()).on_event(events.last())
    }
}

/// The state after `count` polls in a row.
pub open spec fn after_polls(state: StreamerState, count: nat) -> StreamerState
    decreases count,
{
    if count == 0 {
        state
    } else {
        after_polls(state.after_next(), (count - 1) as nat)
    }
}

/// What `count` polls in a row return, in the order of the polls.
pub open spec fn polls(state: StreamerState, count: nat) -> Seq<Option<Record>>
    decreases count,
{
    if count == 0 {
        Seq::empty()
    } else {
        seq![state.queue.front()] + polls(state.after_next(), (count - 1) as nat)
    }
}

/// The events of a run in which the connection pushes one message per body.
pub open spec fn messages(bodies: Seq<Seq<char>>) -> Seq<Wire> {
    bodies.map_values(|body: Seq<char>| Wire::Message(body))
}

/// The outcomes of the messages with the given bodies, one for each.
pub open spec fn outcomes(bodies: Seq<Seq<char>>) -> Seq<Record> {
    bodies.map_values(|body: Seq<char>| record_of_body(body))
}

/// The state `state` with `pending` in place of what is pending.
pub open spec fn holding(state: StreamerState, pending: Seq<Record>) -> StreamerState {
    StreamerState { queue: QueueState { pending, ..state.queue }, ..state }
}

/// While the loop forwards, every pushed message adds exactly one outcome, in
/// the order of arrival, whether it is well-formed or not; nothing else
/// changes, so the loop goes on.
pub proof fn law_one_outcome_per_message(state: StreamerState, bodies: Seq<Seq<char>>)
    requires
        state.live(),
    ensures
        after_events(state, messages(bodies)) == holding(
            state,
            state.queue.pending + outcomes(bodies),
        ),
        after_events(state, messages(bodies)).live(),
    decreases bodies.len(),
{
    if bodies.len() == 0 {
        assert(state.queue.pending + outcomes(bodies) =~= state.queue.pending);
    } else {
        let front = bodies.drop_last();
        law_one_outcome_per_message(state, front);
        assert(messages(bodies).drop_last() =~= messages(front));
        assert(messages(bodies).last() == Wire::Message(bodies.last()));
        assert(outcomes(bodies) =~= outcomes(front).push(record_of_body(bodies.last())));
        assert((state.queue.pending + outcomes(front)).push(record_of_body(bodies.last()))
            =~= state.queue.pending + outcomes(bodies));
    }
}

/// Polls return what is pending oldest first, and take it out of the queue.
pub proof fn law_polls_take_oldest_first(state: StreamerState, count: nat)
    requires
        count <= state.queue.pending.len(),
    ensures
        polls(state, count) == state.queue.pending.subrange(0, count as int).map_values(
            |record: Record| Some(record),
        ),
        after_polls(state, count) == holding(
            state,
            state.queue.pending.subrange(count as int, state.queue.pending.len() as int),
        ),
    decreases count,
{
    let pending = state.queue.pending;
    if count == 0 {
        assert(polls(state, count) =~= pending.subrange(0, 0).map_values(
            |record: Record| Some(record),
        ));
        assert(pending.subrange(0, pending.len() as int) =~= pending);
    } else {
        let next = state.after_next();
        let rest = (count - 1) as nat;
        law_polls_take_oldest_first(next, rest);
        assert(next.queue.pending == pending.drop_first());
        assert(polls(state, count) =~= pending.subrange(0, count as int).map_values(
            |record: Record| Some(record),
        ));
        assert(pending.drop_first().subrange(rest as int, pending.drop_first().len() as int)
            =~= pending.subrange(count as int, pending.len() as int));
    }
}

/// A poll that finds something pending does not care whether the loop reads
/// its next event before or after it: the poll returns the same outcome, and
/// the state afterwards is the same. So delivery keeps the order of arrival
/// however polls and events interleave.
pub proof fn law_poll_and_event_commute(state: StreamerState, event: Wire)
    requires
        state.queue.pending.len() > 0,
    ensures
        state.on_event(event).queue.front() == state.queue.front(),
        state.on_event(event).after_next() == state.after_next().on_event(event),
{
    let pending = state.queue.pending;
    assert forall|record: Record| #[trigger] pending.push(record).drop_first()
        == pending.drop_first().push(record) by {
        assert(pending.push(record).drop_first() =~= pending.drop_first().push(record));
    }
}

/// Once the loop has ended and nothing is pending, every poll reports
/// `ChannelClosed`, however often the consumer polls.
pub proof fn law_closed_forever(state: StreamerState, count: nat)
    requires
        !state.running(),
        state.queue.pending.len() == 0,
    ensures
        polls(state, count) == Seq::new(
            count,
            |i: int| Some(Record::Failure(StreamError::ChannelClosed)),
        ),
        after_polls(state, count) == state,
    decreases count,
{
    if count == 0 {
        assert(polls(state, count) =~= Seq::new(
            count,
            |i: int| Some(Record::Failure(StreamError::ChannelClosed)),
        ));
    } else {
        assert(state.after_next() == state);
        law_closed_forever(state, (count - 1) as nat);
        assert(polls(state, count) =~= Seq::new(
            count,
            |i: int| Some(Record::Failure(StreamError::ChannelClosed)),
        ));
    }
}

/// A loop that has ended reads nothing more: whatever events follow, the
/// state stays as it is.
pub proof fn law_ended_loop_ignores_events(state: StreamerState, events: Seq<Wire>)
    requires
        !state.running(),
    ensures
        after_events(state, events) == state,
    decreases events.len(),
{
    if events.len() > 0 {
        law_ended_loop_ignores_events(state, events.drop_last());
    }
}

/// Polls in a row add up: `first + second` polls return what `first` polls
/// return, followed by what `second` polls return from then on.
pub proof fn law_polls_add_up(state: StreamerState, first: nat, second: nat)
    ensures
        polls(state, first + second) == polls(state, first) + polls(
            after_polls(state, first),
            second,
        ),
        after_polls(state, first + second) == after_polls(after_polls(state, first), second),
    decreases first,
{
    if first == 0 {
        assert(polls(state, first + second) =~= polls(state, first) + polls(
            after_polls(state, first),
            second,
        ));
    } else {
        let rest = (first - 1) as nat;
        law_polls_add_up(state.after_next(), rest, second);
        assert((first + second - 1) as nat == rest + second);
        assert(polls(state, first + second) =~= polls(state, first) + polls(
            after_polls(state, first),
            second,
        ));
    }
}

/// After as many well-formed messages as one likes, pushed to a streamer
/// that forwards and has nothing pending, as many polls return the decoded
/// payloads in the order in which the messages arrived.
pub proof fn law_payloads_in_wire_order(state: StreamerState, bodies: Seq<Seq<char>>)
    requires
        state.live(),
        state.queue.pending.len() == 0,
        forall|i: int| 0 <= i < bodies.len() ==> decoded(#[trigger] bodies[i]) is Some,
    ensures
        polls(after_events(state, messages(bodies)), bodies.len()) == bodies.map_values(
            |body: Seq<char>| Some(Record::Payload(decoded(body).unwrap())),
        ),
        after_polls(after_events(state, messages(bodies)), bodies.len()) == state,
{
    let fed = after_events(state, messages(bodies));
    law_one_outcome_per_message(state, bodies);
    assert(fed.queue.pending =~= outcomes(bodies));
    law_polls_take_oldest_first(fed, bodies.len());
    assert(outcomes(bodies).subrange(0, bodies.len() as int) =~= outcomes(bodies));
    assert(outcomes(bodies).map_values(|record: Record| Some(record)) =~= bodies.map_values(
        |body: Seq<char>| Some(Record::Payload(decoded(body).unwrap())),
    ));
    assert(after_polls(fed, bodies.len()).queue.pending =~= state.queue.pending);
}

/// A malformed message between two well-formed ones yields a payload, the
/// failure `Decode`, and a payload, in that order; the loop goes on.
pub proof fn law_malformed_message_is_not_fatal(
    state: StreamerState,
    first: Seq<char>,
    malformed: Seq<char>,
    last: Seq<char>,
)
    requires
        state.live(),
        state.queue.pending.len() == 0,
        decoded(first) is Some,
        decoded(malformed) is None,
        decoded(last) is Some,
    ensures
        after_events(state, messages(seq![first, malformed, last])).running(),
        polls(after_events(state, messages(seq![first, malformed, last])), 3) == seq![
            Some(Record::Payload(decoded(first).unwrap())),
            Some(Record::Failure(StreamError::Decode)),
            Some(Record::Payload(decoded(last).unwrap())),
        ],
{
    let bodies = seq![first, malformed, last];
    let fed = after_events(state, messages(bodies));
    law_one_outcome_per_message(state, bodies);
    assert(fed.queue.pending =~= outcomes(bodies));
    law_polls_take_oldest_first(fed, 3);
    assert(outcomes(bodies).subrange(0, 3).map_values(|record: Record| Some(record)) =~= seq![
        Some(Record::Payload(decoded(first).unwrap())),
        Some(Record::Failure(StreamError::Decode)),
        Some(Record::Payload(decoded(last).unwrap())),
    ]);
}

/// After a login that grants no token, the consumer is handed the failure
/// `Auth` and from then on `ChannelClosed`; no payload is ever delivered,
/// whatever the connection would push and however often the consumer polls.
pub proof fn law_failed_login_delivers_nothing(
    endpoint: Seq<char>,
    reply: LoginReply,
    events: Seq<Wire>,
    count: nat,
)
    requires
        granted(reply) is None,
    ensures
        !StreamerState::fresh().on_login(endpoint, reply).running(),
        polls(after_events(StreamerState::fresh().on_login(endpoint, reply), events), count + 1)
            == seq![Some(Record::Failure(StreamError::Auth))] + Seq::new(
            count,
            |i: int| Some(Record::Failure(StreamError::ChannelClosed)),
        ),
{
    let refused = StreamerState::fresh().on_login(endpoint, reply);
    assert(login_failure(endpoint, reply) == Some(StreamError::Auth));
    assert(refused.queue.pending =~= seq![Record::Failure(StreamError::Auth)]);
    law_ended_loop_ignores_events(refused, events);
    law_polls_add_up(refused, 1, count);
    law_polls_take_oldest_first(refused, 1);
    assert(refused.queue.pending.subrange(0, 1).map_values(|record: Record| Some(record))
        =~= seq![Some(Record::Failure(StreamError::Auth))]);
    law_closed_forever(after_polls(refused, 1), count);
}

/// A request to stop that comes before the next event ends the loop at that
/// event and forwards nothing for it or for any later one: what is pending
/// stays as it was.
pub proof fn law_stop_is_silent(state: StreamerState, events: Seq<Wire>)
    requires
        state.running(),
        events.len() > 0,
    ensures
        after_events(state.stopped(), events) == state.stopped().ended(),
        after_events(state.stopped(), events).queue.pending == state.queue.pending,
        !after_events(state.stopped(), events).running(),
    decreases events.len(),
{
    if events.len() == 1 {
        assert(events.drop_last().len() == 0);
        assert(after_events(state.stopped(), events.drop_last()) == state.stopped());
    } else {
        law_stop_is_silent(state, events.drop_last());
    }
}

/// A poll of a streamer that has nothing pending while its loop still runs
/// returns nothing and changes nothing.
pub proof fn law_idle_poll(state: StreamerState)
    requires
        state.running(),
        state.queue.pending.len() == 0,
    ensures
        state.queue.front() is None,
        state.after_next() == state,
{
}

/// When the connection breaks after some messages, the consumer is handed
/// the outcomes of the messages in order, then the failure `Connection`, and
/// from then on `ChannelClosed`.
pub proof fn law_broken_connection_ends_the_stream(
    state: StreamerState,
    bodies: Seq<Seq<char>>,
    count: nat,
)
    requires
        state.live(),
        state.queue.pending.len() == 0,
    ensures
        !after_events(state, messages(bodies).push(Wire::Broken)).running(),
        polls(
            after_events(state, messages(bodies).push(Wire::Broken)),
            bodies.len() + 1 + count,
        ) == outcomes(bodies).map_values(|record: Record| Some(record)) + seq![
            Some(Record::Failure(StreamError::Connection)),
        ] + Seq::new(count, |i: int| Some(Record::Failure(StreamError::ChannelClosed))),
{
    let events = messages(bodies).push(Wire::Broken);
    let fed = after_events(state, messages(bodies));
    let broken = after_events(state, events);
    law_one_outcome_per_message(state, bodies);
    assert(events.drop_last() =~= messages(bodies));
    assert(broken == fed.on_event(Wire::Broken));
    let all = outcomes(bodies).push(Record::Failure(StreamError::Connection));
    assert(broken.queue.pending =~= all);
    law_polls_add_up(broken, bodies.len() + 1, count);
    law_polls_take_oldest_first(broken, bodies.len() + 1);
    assert(all.subrange(0, bodies.len() as int + 1) =~= all);
    assert(all.map_values(|record: Record| Some(record)) =~= outcomes(bodies).map_values(
        |record: Record| Some(record),
    ) + seq![Some(Record::Failure(StreamError::Connection))]);
    law_closed_forever(after_polls(broken, bodies.len() + 1), count);
}

} // verus!
