//! The reliability engine, as far as the session relies on it.
//!
//! The engine is `renet::RenetClient`. Verus does not look inside it: this
//! module says what the session needs to know of it, as a model and as
//! contracts on the calls that the session makes. None of these contracts is
//! proved; each states what the engine's source shows.

use crate::state::ConnectionState;
use crate::time::{max_nanos, TimeSpan};
use renet::{ClientId, ConnectionConfig, RenetClient};
use std::time::Duration;
use vstd::prelude::*;

verus! {

/// The engine: opaque, known through `engine_model` alone.
#[verifier::external_type_specification]
#[verifier::external_body]
pub struct ExRenetClient(renet::RenetClient);

/// The engine's name for a client: opaque, known through `client_id_raw`.
#[verifier::external_type_specification]
#[verifier::external_body]
pub struct ExClientId(renet::ClientId);

/// Highest channel identifier of the engine's default configuration, which
/// has the channels 0 (unreliable), 1 (reliable, unordered) and 2 (reliable,
/// ordered) in each direction.
pub const LAST_DEFAULT_CHANNEL: u8 = 2;

/// Bytes that one channel of the default configuration may hold.
pub const CHANNEL_MEMORY: usize = 5 * 1024 * 1024;

/// What the session can know of an engine.
pub struct EngineModel {
    /// Whether the engine is one that the contracts below speak of: it was
    /// made from the default configuration, and its count of the bytes it
    /// buffers agrees with what it buffers. An engine keeps its count right
    /// by itself; only a peer that sends slices of one message under
    /// different slice counts can upset it.
    pub intact: bool,
    /// The engine's connection status.
    pub status: ConnectionState,
    /// Nanoseconds by which the engine's clock has been advanced.
    pub clock: nat,
    /// For each receiving channel, the payloads that are ready for the
    /// application, in the order in which they will be handed out.
    pub inbound: Map<u8, Seq<Seq<u8>>>,
    /// For each sending channel, the payloads that the engine holds for
    /// transmission, in the order in which they were enqueued. A payload
    /// leaves when it has been sent (unreliable) or acknowledged (reliable).
    pub outbound: Map<u8, Seq<Seq<u8>>>,
}

/// The model of an engine.
pub uninterp spec fn engine_model(engine: RenetClient) -> EngineModel;

/// The number that a client identifier wraps.
pub uninterp spec fn client_id_raw(id: ClientId) -> u64;

/// Total length of the payloads in a queue.
pub open spec fn queued_bytes(queue: Seq<Seq<u8>>) -> nat
    decreases queue.len(),
{
    if queue.len() == 0 {
        0
    } else {
        queued_bytes(queue.drop_last()) + queue.last().len()
    }
}

/// Three empty queues, one for each channel of the default configuration.
pub open spec fn empty_channels() -> Map<u8, Seq<Seq<u8>>> {
    Map::new(|channel: u8| channel <= LAST_DEFAULT_CHANNEL, |channel: u8| Seq::empty())
}

/// Whether the model is that of an intact engine with a queue for each of
/// the three default channels in each direction.
pub open spec fn has_default_channels(m: EngineModel) -> bool {
    &&& m.intact
    &&& m.inbound.dom() == empty_channels().dom()
    &&& m.outbound.dom() == empty_channels().dom()
}

/// Whether an intact engine takes a payload of `len` bytes on a
/// channel that holds `queue`.
pub open spec fn channel_has_room(queue: Seq<Seq<u8>>, len: nat) -> bool {
    queued_bytes(queue) + len <= CHANNEL_MEMORY
}

/// The model after `send_message(channel, payload)` on an intact engine.
pub open spec fn model_after_send(m: EngineModel, channel: u8, payload: Seq<u8>) -> EngineModel {
    if m.status == ConnectionState::Disconnected {
        m
    } else if channel_has_room(m.outbound[channel], payload.len()) {
        EngineModel { outbound: m.outbound.insert(channel, m.outbound[channel].push(payload)), ..m }
    } else if channel == 0 {
        m
    } else {
        EngineModel { status: ConnectionState::Disconnected, ..m }
    }
}

/// The model after `receive_message(channel)`.
pub open spec fn model_after_receive(m: EngineModel, channel: u8) -> EngineModel {
    if m.status == ConnectionState::Disconnected || m.inbound[channel].len() == 0 {
        m
    } else {
        EngineModel { inbound: m.inbound.insert(channel, m.inbound[channel].drop_first()), ..m }
    }
}

/// What `receive_message(channel)` hands out.
pub open spec fn model_next_inbound(m: EngineModel, channel: u8) -> Option<Seq<u8>> {
    if m.status == ConnectionState::Disconnected || m.inbound[channel].len() == 0 {
        None
    } else {
        Some(m.inbound[channel].first())
    }
}

/// Sending and receiving on a channel of the default configuration leave the
/// engine with the same channels.
pub proof fn lemma_channels_stay(m: EngineModel, channel: u8, payload: Seq<u8>)
    requires
        has_default_channels(m),
        channel <= LAST_DEFAULT_CHANNEL,
    ensures
        has_default_channels(model_after_send(m, channel, payload)),
        has_default_channels(model_after_receive(m, channel)),
{
    assert(m.outbound.dom().contains(channel));
    assert(m.inbound.dom().contains(channel));
    assert(m.outbound.insert(channel, m.outbound[channel].push(payload)).dom()
        =~= m.outbound.dom());
    assert(m.inbound.insert(channel, m.inbound[channel].drop_first()).dom() =~= m.inbound.dom());
}

/// `ClientId::from_raw`: wraps the number.
pub assume_specification[ ClientId::from_raw ](value: u64) -> (id: ClientId)
    ensures
        client_id_raw(id) == value,
;

/// `RenetClient::new` on `ConnectionConfig::default()`: an engine with the
/// three default channels in each direction, all empty, its clock at zero,
/// and connecting.
#[verifier::external_body]
pub(crate) fn engine_new() -> (engine: RenetClient)
    ensures
        engine_model(engine) == (EngineModel {
            intact: true,
            status: ConnectionState::Connecting,
            clock: 0,
            inbound: empty_channels(),
            outbound: empty_channels(),
        }),
{
    RenetClient::new(ConnectionConfig::default())
}

/// `RenetClient::is_connected`: whether the status is connected.
pub assume_specification[ RenetClient::is_connected ](engine: &RenetClient) -> (r: bool)
    ensures
        r == (engine_model(*engine).status == ConnectionState::Connected),
;

/// `RenetClient::is_disconnected`: whether the status is disconnected.
pub assume_specification[ RenetClient::is_disconnected ](engine: &RenetClient) -> (r: bool)
    ensures
        r == (engine_model(*engine).status == ConnectionState::Disconnected),
;

/// `RenetClient::disconnect`: the status becomes disconnected; the clock and
/// the queues stay.
pub assume_specification[ RenetClient::disconnect ](engine: &mut RenetClient)
    ensures
        engine_model(*final(engine)) == (EngineModel {
            status: ConnectionState::Disconnected,
            ..engine_model(*old(engine))
        }),
;

/// `RenetClient::update`: the clock moves on by `elapsed`; the status and
/// the queues stay. The engine adds to its clock without a check, so the sum
/// must be a representable duration; and it gives up the slices of messages
/// that never completed, subtracting their sizes from its count.
#[verifier::external_body]
pub(crate) fn engine_advance(engine: &mut RenetClient, elapsed: &TimeSpan)
    requires
        engine_model(*old(engine)).intact,
        engine_model(*old(engine)).clock + elapsed@ <= max_nanos(),
    ensures
        engine_model(*final(engine)) == (EngineModel {
            clock: engine_model(*old(engine)).clock + elapsed@,
            ..engine_model(*old(engine))
        }),
{
    engine.update(Duration::new(elapsed.as_secs(), elapsed.subsec_nanos()));
}

/// `RenetClient::send_message` on a channel of the default configuration. A
/// disconnected engine ignores the call. Otherwise the payload joins the end
/// of the channel's queue if the channel has room for it; if it has not, the
/// unreliable channel drops the payload and a reliable channel disconnects
/// the engine.
#[verifier::external_body]
pub(crate) fn engine_send(engine: &mut RenetClient, channel: u8, payload: Vec<u8>)
    requires
        engine_model(*old(engine)).intact,
        channel <= LAST_DEFAULT_CHANNEL,
    ensures
        engine_model(*final(engine)) == model_after_send(
            engine_model(*old(engine)),
            channel,
            payload@,
        ),
{
    engine.send_message(channel, payload);
}

/// `RenetClient::receive_message` on a channel of the default configuration.
/// A disconnected engine hands out nothing. Otherwise the first payload that
/// is ready on the channel, if there is one, leaves the engine and is
/// returned.
#[verifier::external_body]
pub(crate) fn engine_receive(engine: &mut RenetClient, channel: u8) -> (r: Option<Vec<u8>>)
    requires
        engine_model(*old(engine)).intact,
        channel <= LAST_DEFAULT_CHANNEL,
    ensures
        engine_model(*final(engine)) == model_after_receive(engine_model(*old(engine)), channel),
        match r {
            Some(payload) => model_next_inbound(engine_model(*old(engine)), channel) == Some(
                payload@,
            ),
            None => model_next_inbound(engine_model(*old(engine)), channel).is_none(),
        },
{
    engine.receive_message(channel).map(|bytes| bytes.to_vec())
}

} // verus!
