//! What holds of every session, whatever it is asked to do.

use crate::channel::{ClientChannel, ServerChannel};
use crate::client::{
    after_poll, after_send, after_tick, after_transport, elapsed_since, next_payload, ClientView,
};
use crate::engine::{queued_bytes, EngineModel, CHANNEL_MEMORY};
use crate::state::{ConnectionState, TransportError};
use vstd::prelude::*;

verus! {

/// The session after the payloads were sent on `channel` one after another.
pub open spec fn after_sends(
    v: ClientView,
    channel: ClientChannel,
    payloads: Seq<Seq<u8>>,
) -> ClientView
    decreases payloads.len(),
{
    if payloads.len() == 0 {
        v
    } else {
        after_send(after_sends(v, channel, payloads.drop_last()), channel, payloads.last())
    }
}

/// The session after it was asked `count` times for the next payload on
/// `channel`.
pub open spec fn after_polls(v: ClientView, channel: ServerChannel, count: nat) -> ClientView
    decreases count,
{
    if count == 0 {
        v
    } else {
        after_poll(after_polls(v, channel, (count - 1) as nat), channel)
    }
}

/// A session that has ended stays as it is: a tick, a transport outcome, a
/// send and a poll all leave it unchanged, and it hands out no payload.
pub proof fn lemma_ended_session_is_inert(
    v: ClientView,
    now: nat,
    outcome: Result<(), TransportError>,
    sent_on: ClientChannel,
    payload: Seq<u8>,
    polled_on: ServerChannel,
)
    requires
        v.state == ConnectionState::Disconnected,
    ensures
        after_tick(v, now) == v,
        after_transport(v, outcome) == v,
        after_send(v, sent_on, payload) == v,
        after_poll(v, polled_on) == v,
        next_payload(v, polled_on).is_none(),
{
}

/// The connection state never moves backwards, whatever the session is
/// asked to do, and ticks and polls do not move it at all.
pub proof fn lemma_session_only_advances(
    v: ClientView,
    now: nat,
    outcome: Result<(), TransportError>,
    sent_on: ClientChannel,
    payload: Seq<u8>,
    polled_on: ServerChannel,
)
    ensures
        after_tick(v, now).state == v.state,
        after_poll(v, polled_on).state == v.state,
        after_transport(v, outcome).state.rank() >= v.state.rank(),
        after_send(v, sent_on, payload).state.rank() >= v.state.rank(),
        after_send(v, sent_on, payload).state == v.state || after_send(v, sent_on, payload).state
            == ConnectionState::Disconnected,
{
}

/// A session has a cause of failure on record exactly when it has ended, and
/// every step keeps it so.
pub proof fn lemma_failure_is_recorded(
    v: ClientView,
    now: nat,
    outcome: Result<(), TransportError>,
    sent_on: ClientChannel,
    payload: Seq<u8>,
    polled_on: ServerChannel,
)
    requires
        v.failure.is_some() <==> v.state == ConnectionState::Disconnected,
    ensures
        ({
            let w = after_tick(v, now);
            w.failure.is_some() <==> w.state == ConnectionState::Disconnected
        }),
        ({
            let w = after_transport(v, outcome);
            w.failure.is_some() <==> w.state == ConnectionState::Disconnected
        }),
        ({
            let w = after_send(v, sent_on, payload);
            w.failure.is_some() <==> w.state == ConnectionState::Disconnected
        }),
        ({
            let w = after_poll(v, polled_on);
            w.failure.is_some() <==> w.state == ConnectionState::Disconnected
        }),
        v.state != ConnectionState::Disconnected ==> (outcome matches Err(cause)
            ==> after_transport(v, outcome).failure == Some(cause)),
{
}

/// The time of the last tick never moves backwards, and the engine's clock
/// moves with it: a tick adds the same span to both, so a clock that was
/// not ahead of the last tick is not ahead of it afterwards.
pub proof fn lemma_tick_moves_clocks_together(v: ClientView, now: nat)
    ensures
        after_tick(v, now).last_updated >= v.last_updated,
        after_tick(v, now).last_updated - v.last_updated == after_tick(v, now).engine.clock
            - v.engine.clock,
        v.state != ConnectionState::Disconnected ==> after_tick(v, now).last_updated == (if now
            >= v.last_updated {
            now
        } else {
            v.last_updated
        }),
{
}

/// A tick at which no time has passed changes nothing of the session, and
/// a second tick at the same instant changes nothing more than the first.
pub proof fn lemma_tick_without_time_changes_nothing(v: ClientView, now: nat)
    ensures
        now <= v.last_updated ==> after_tick(v, now) == v,
        v.state != ConnectionState::Disconnected ==> elapsed_since(
            after_tick(v, now).last_updated,
            now,
        ) == 0,
        after_tick(after_tick(v, now), now) == after_tick(v, now),
{
    let w = after_tick(v, now);
    if v.state != ConnectionState::Disconnected {
        assert(w.engine == EngineModel { clock: w.engine.clock, ..v.engine });
        if now <= v.last_updated {
            assert(v.engine == EngineModel { clock: v.engine.clock, ..v.engine });
        }
    }
}

/// Total length of the payloads of a queue and of payloads added behind it.
pub proof fn lemma_queued_bytes_add(queue: Seq<Seq<u8>>, more: Seq<Seq<u8>>)
    ensures
        queued_bytes(queue + more) == queued_bytes(queue) + queued_bytes(more),
    decreases more.len(),
{
    if more.len() == 0 {
        assert(queue + more =~= queue);
    } else {
        lemma_queued_bytes_add(queue, more.drop_last());
        assert((queue + more).drop_last() =~= queue + more.drop_last());
        assert((queue + more).last() == more.last());
    }
}

/// Payloads sent on one channel, while the session is alive and the channel
/// has room for all of them, join the channel's queue behind what was there,
/// each once and in the order of sending. Nothing else of the session
/// changes.
pub proof fn lemma_sends_queue_in_order(
    v: ClientView,
    channel: ClientChannel,
    payloads: Seq<Seq<u8>>,
)
    requires
        v.state != ConnectionState::Disconnected,
        v.engine.status != ConnectionState::Disconnected,
        v.engine.outbound.dom().contains(channel.spec_id()),
        queued_bytes(v.engine.outbound[channel.spec_id()]) + queued_bytes(payloads)
            <= CHANNEL_MEMORY,
    ensures
        after_sends(v, channel, payloads) == (ClientView {
            engine: EngineModel {
                outbound: v.engine.outbound.insert(
                    channel.spec_id(),
                    v.engine.outbound[channel.spec_id()] + payloads,
                ),
                ..v.engine
            },
            ..v
        }),
    decreases payloads.len(),
{
    let id = channel.spec_id();
    let queue = v.engine.outbound[id];
    if payloads.len() == 0 {
        assert(queue + payloads =~= queue);
        assert(v.engine.outbound.insert(id, queue) =~= v.engine.outbound);
    } else {
        let front = payloads.drop_last();
        lemma_sends_queue_in_order(v, channel, front);
        lemma_queued_bytes_add(queue, front);
        let mid = after_sends(v, channel, front);
        assert(mid.engine.outbound[id] == queue + front);
        assert((queue + front).push(payloads.last()) =~= queue + payloads);
        assert(mid.engine.outbound.insert(id, queue + payloads) =~= v.engine.outbound.insert(
            id,
            queue + payloads,
        ));
    }
}

/// Polls on one channel, while the session is alive, hand out the payloads
/// that are ready there one by one, each once and in their order; what has
/// not been handed out stays in line, and nothing else of the session
/// changes. When all are handed out the next poll finds nothing.
pub proof fn lemma_polls_hand_out_in_order(v: ClientView, channel: ServerChannel, count: nat)
    requires
        v.state != ConnectionState::Disconnected,
        v.engine.status != ConnectionState::Disconnected,
        v.engine.inbound.dom().contains(channel.spec_id()),
        count <= v.engine.inbound[channel.spec_id()].len(),
    ensures
        after_polls(v, channel, count) == (ClientView {
            engine: EngineModel {
                inbound: v.engine.inbound.insert(
                    channel.spec_id(),
                    v.engine.inbound[channel.spec_id()].skip(count as int),
                ),
                ..v.engine
            },
            ..v
        }),
        next_payload(after_polls(v, channel, count), channel) == (if count
            < v.engine.inbound[channel.spec_id()].len() {
            Some(v.engine.inbound[channel.spec_id()][count as int])
        } else {
            None
        }),
    decreases count,
{
    let id = channel.spec_id();
    let queue = v.engine.inbound[id];
    if count == 0 {
        assert(queue.skip(0) =~= queue);
        assert(v.engine.inbound.insert(id, queue) =~= v.engine.inbound);
    } else {
        let before = (count - 1) as nat;
        lemma_polls_hand_out_in_order(v, channel, before);
        let mid = after_polls(v, channel, before);
        assert(mid.engine.inbound[id] == queue.skip(before as int));
        assert(queue.skip(before as int).drop_first() =~= queue.skip(count as int));
        assert(mid.engine.inbound.insert(id, queue.skip(count as int))
            =~= v.engine.inbound.insert(id, queue.skip(count as int)));
    }
}

} // verus!
