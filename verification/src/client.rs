//! The session: one attempt at, and lifetime of, a connection to a server.

use crate::auth::{
    identity_at, session_identity, unsecure_descriptor, AuthenticationDescriptor, ServerAddress,
};
use crate::channel::{ClientChannel, ServerChannel};
use crate::engine::{
    client_id_raw, empty_channels, engine_advance, engine_model, engine_new, engine_receive,
    engine_send, has_default_channels, lemma_channels_stay, model_after_receive,
    model_after_send, model_next_inbound, EngineModel,
};
use crate::state::{CodecError, ConnectionState, TransportError};
use crate::time::{lemma_span_bounded_and_canonical, TimeSpan};
use renet::{ClientId, RenetClient};
use vstd::prelude::*;

verus! {

/// A session with a server.
///
/// The session does no I/O. Its owner reads the clocks, runs the transport
/// on `renet` between `update` and `record_transport`, and supplies the
/// codec. The transport may feed packets to `renet` and change its status;
/// it must leave the engine's clock alone.
pub struct Client {
    /// The reliability engine, for the transport to drive.
    pub renet: RenetClient,
    client_id: u64,
    authentication: AuthenticationDescriptor,
    last_updated: TimeSpan,
    state: ConnectionState,
    failure: Option<TransportError>,
    dropped: u64,
}

/// A session as its contracts see it.
pub struct ClientView {
    /// The session's identity.
    pub client_id: u64,
    /// What the session presents to the server.
    pub authentication: AuthenticationDescriptor,
    /// The monotonic time of the last tick, in nanoseconds.
    pub last_updated: nat,
    /// The connection state.
    pub state: ConnectionState,
    /// Why the session ended, once it has.
    pub failure: Option<TransportError>,
    /// How many messages were dropped at the codec.
    pub dropped: nat,
    /// The reliability engine.
    pub engine: EngineModel,
}

/// Time from the last tick to `now`; none if the clock has not moved on.
pub open spec fn elapsed_since(last: nat, now: nat) -> nat {
    if now >= last {
        (now - last) as nat
    } else {
        0
    }
}

/// `dropped` with one more drop counted, as far as the counter goes.
pub open spec fn one_more_drop(dropped: nat) -> nat {
    if dropped < u64::MAX {
        dropped + 1
    } else {
        dropped
    }
}

/// A fresh session.
pub open spec fn initial_view(server_addr: ServerAddress, client_id: u64, now: nat) -> ClientView {
    ClientView {
        client_id,
        authentication: unsecure_descriptor(server_addr, client_id),
        last_updated: now,
        state: ConnectionState::Connecting,
        failure: None,
        dropped: 0,
        engine: EngineModel {
            intact: true,
            status: ConnectionState::Connecting,
            clock: 0,
            inbound: empty_channels(),
            outbound: empty_channels(),
        },
    }
}

/// The session after a tick at `now`: the engine's clock has moved on by
/// the time since the last tick and the last tick is `now`, unless the
/// session has ended or the clock has not moved on.
pub open spec fn after_tick(v: ClientView, now: nat) -> ClientView {
    if v.state == ConnectionState::Disconnected {
        v
    } else {
        ClientView {
            last_updated: v.last_updated + elapsed_since(v.last_updated, now),
            engine: EngineModel {
                clock: v.engine.clock + elapsed_since(v.last_updated, now),
                ..v.engine
            },
            ..v
        }
    }
}

/// The session after a transport step that ended with `outcome`. A failed
/// step ends the session and shuts the engine down. After a good step the
/// session follows the engine's status, and ends if the engine has shut
/// down by itself.
pub open spec fn after_transport(v: ClientView, outcome: Result<(), TransportError>) -> ClientView {
    if v.state == ConnectionState::Disconnected {
        v
    } else {
        match outcome {
            Err(cause) => ClientView {
                state: ConnectionState::Disconnected,
                failure: Some(cause),
                engine: EngineModel { status: ConnectionState::Disconnected, ..v.engine },
                ..v
            },
            Ok(_) => if v.engine.status == ConnectionState::Disconnected {
                ClientView {
                    state: ConnectionState::Disconnected,
                    failure: Some(TransportError::Renet),
                    ..v
                }
            } else {
                ClientView { state: v.state.advanced(v.engine.status), ..v }
            },
        }
    }
}

/// The session after `payload` was handed to the engine on `channel`. The
/// session ends if the engine shuts down over it.
pub open spec fn after_send(v: ClientView, channel: ClientChannel, payload: Seq<u8>) -> ClientView {
    if v.state == ConnectionState::Disconnected {
        v
    } else {
        let engine = model_after_send(v.engine, channel.spec_id(), payload);
        if engine.status == ConnectionState::Disconnected {
            ClientView {
                state: ConnectionState::Disconnected,
                failure: Some(TransportError::Renet),
                engine,
                ..v
            }
        } else {
            ClientView { engine, ..v }
        }
    }
}

/// The session after a message met the encoder: sent if there are bytes,
/// dropped and counted if there are none.
pub open spec fn after_encode(
    v: ClientView,
    channel: ClientChannel,
    encoded: Option<Seq<u8>>,
) -> ClientView {
    match encoded {
        Some(payload) => after_send(v, channel, payload),
        None => ClientView { dropped: one_more_drop(v.dropped), ..v },
    }
}

/// The payload that the session hands out next on `channel`.
pub open spec fn next_payload(v: ClientView, channel: ServerChannel) -> Option<Seq<u8>> {
    if v.state == ConnectionState::Disconnected {
        None
    } else {
        model_next_inbound(v.engine, channel.spec_id())
    }
}

/// The session after it was asked for the next payload on `channel`.
pub open spec fn after_poll(v: ClientView, channel: ServerChannel) -> ClientView {
    if v.state == ConnectionState::Disconnected {
        v
    } else {
        ClientView { engine: model_after_receive(v.engine, channel.spec_id()), ..v }
    }
}

/// The session after a payload met the decoder: unchanged if it gave a
/// message, one more drop counted if it did not.
pub open spec fn after_decode(v: ClientView, decoded: bool) -> ClientView {
    if decoded {
        v
    } else {
        ClientView { dropped: one_more_drop(v.dropped), ..v }
    }
}

/// What the caller gets for a payload that met the decoder.
pub open spec fn decode_result<M>(decoded: Option<M>) -> Result<Option<M>, CodecError> {
    match decoded {
        Some(message) => Ok(Some(message)),
        None => Err(CodecError::Decode),
    }
}

impl View for Client {
    type V = ClientView;

    closed spec fn view(&self) -> ClientView {
        ClientView {
            client_id: self.client_id,
            authentication: self.authentication,
            last_updated: self.last_updated@,
            state: self.state,
            failure: self.failure,
            dropped: self.dropped as nat,
            engine: engine_model(self.renet),
        }
    }
}

impl Client {
    /// What holds of every session between two calls: the engine is intact
    /// and has the default channels, its clock has not run ahead of the last
    /// tick, the session has ended exactly if a cause is recorded, and the
    /// descriptor is the unsecured one for the session's identity.
    pub closed spec fn wf(&self) -> bool {
        &&& self.last_updated.wf()
        &&& has_default_channels(engine_model(self.renet))
        &&& engine_model(self.renet).clock <= self.last_updated@
        &&& self.failure.is_some() <==> self.state == ConnectionState::Disconnected
        &&& self.authentication == unsecure_descriptor(
            self.authentication.server_addr,
            self.client_id,
        )
    }

    /// What a valid session's view is known to satisfy.
    pub proof fn lemma_wf_view(self)
        requires
            self.wf(),
        ensures
            has_default_channels(self@.engine),
            self@.engine.clock <= self@.last_updated,
            self@.failure.is_some() <==> self@.state == ConnectionState::Disconnected,
            self@.authentication == unsecure_descriptor(
                self@.authentication.server_addr,
                self@.client_id,
            ),
    {
    }

    /// This session with another engine in place of its own.
    pub closed spec fn with_engine(self, renet: RenetClient) -> Client {
        Client { renet, ..self }
    }

    /// A transport that leaves the engine intact, with its channels and its
    /// clock, keeps the session valid, and changes nothing of it but the
    /// engine.
    pub proof fn lemma_transport_keeps_wf(self, renet: RenetClient)
        requires
            self.wf(),
            has_default_channels(engine_model(renet)),
            engine_model(renet).clock == self@.engine.clock,
        ensures
            self.with_engine(renet)@ == (ClientView { engine: engine_model(renet), ..self@ }),
            self.with_engine(renet).wf(),
    {
    }

    /// A session with the server at `server_addr`, created when the wall
    /// clock stood at `since_epoch` and the monotonic clock at `now`. The
    /// session is connecting; its identity is the wall-clock time in
    /// milliseconds.
    pub fn new(server_addr: ServerAddress, since_epoch: TimeSpan, now: TimeSpan) -> (r: (
        ClientId,
        Client,
    ))
        ensures
            r.1.wf(),
            client_id_raw(r.0) == identity_at(since_epoch@ / 1_000_000),
            r.1@ == initial_view(server_addr, identity_at(since_epoch@ / 1_000_000), now@),
    {
        let client_id: u64 = session_identity(&since_epoch);
        let authentication = AuthenticationDescriptor::unsecure(server_addr, client_id);
        let renet = engine_new();
        proof {
            use_type_invariant(&now);
        }
        (
            ClientId::from_raw(client_id),
            Client {
                renet,
                client_id,
                authentication,
                last_updated: now,
                state: ConnectionState::Connecting,
                failure: None,
                dropped: 0,
            },
        )
    }
}

impl Client {
    /// One tick, at `now` on the monotonic clock. Hands the engine the time
    /// since the last tick and returns it, for the transport to be driven
    /// with; returns `None`, and does nothing, once the session has ended.
    /// A `now` before the last tick counts as no time at all.
    pub fn update(&mut self, now: TimeSpan) -> (elapsed: Option<TimeSpan>)
        requires
            old(self).wf(),
        ensures
            final(self).wf(),
            final(self)@ == after_tick(old(self)@, now@),
            final(self)@.last_updated >= old(self)@.last_updated,
            match elapsed {
                Some(span) => old(self)@.state != ConnectionState::Disconnected && span@
                    == elapsed_since(old(self)@.last_updated, now@),
                None => old(self)@.state == ConnectionState::Disconnected,
            },
    {
        if self.state.is_terminal() {
            return None;
        }
        let span = now.saturating_sub(&self.last_updated);
        let next = now.later(&self.last_updated);
        proof {
            lemma_span_bounded_and_canonical(next, next);
        }
        engine_advance(&mut self.renet, &span);
        self.last_updated = next;
        Some(span)
    }

    /// Takes note of how a transport step ended, and says whether the
    /// session is still alive. A failure ends the session, with `cause`
    /// recorded, and shuts the engine down. After a good step the session
    /// follows the engine: it becomes connected when the engine is, and ends
    /// when the engine has shut down.
    pub fn record_transport(&mut self, outcome: Result<(), TransportError>) -> (alive: bool)
        requires
            old(self).wf(),
        ensures
            final(self).wf(),
            final(self)@ == after_transport(old(self)@, outcome),
            alive == (final(self)@.state != ConnectionState::Disconnected),
    {
        if self.state.is_terminal() {
            return false;
        }
        match outcome {
            Err(cause) => {
                self.renet.disconnect();
                self.state = ConnectionState::Disconnected;
                self.failure = Some(cause);
                false
            },
            Ok(_) => {
                if self.renet.is_disconnected() {
                    self.state = ConnectionState::Disconnected;
                    self.failure = Some(TransportError::Renet);
                    false
                } else if self.renet.is_connected() {
                    self.state = self.state.advance(ConnectionState::Connected);
                    true
                } else {
                    self.state = self.state.advance(ConnectionState::Connecting);
                    true
                }
            },
        }
    }

    /// Hands `payload` to the engine on `channel_id`, for the next flush.
    /// Does nothing once the session has ended. The engine takes the
    /// payload if the channel has room; if it has not, an unreliable
    /// channel drops the payload, and a reliable channel shuts the engine
    /// down, which ends the session.
    pub fn send_payload(&mut self, channel_id: ClientChannel, payload: Vec<u8>)
        requires
            old(self).wf(),
        ensures
            final(self).wf(),
            final(self)@ == after_send(old(self)@, channel_id, payload@),
    {
        if self.state.is_terminal() {
            return;
        }
        proof {
            lemma_channels_stay(self@.engine, channel_id.spec_id(), payload@);
        }
        engine_send(&mut self.renet, channel_id.id(), payload);
        if self.renet.is_disconnected() {
            self.state = ConnectionState::Disconnected;
            self.failure = Some(TransportError::Renet);
        }
    }

    /// Takes the next payload that is ready on `channel`, if the session is
    /// alive and there is one.
    pub fn poll_payload(&mut self, channel: ServerChannel) -> (r: Option<Vec<u8>>)
        requires
            old(self).wf(),
        ensures
            final(self).wf(),
            final(self)@ == after_poll(old(self)@, channel),
            match r {
                Some(payload) => next_payload(old(self)@, channel) == Some(payload@),
                None => next_payload(old(self)@, channel).is_none(),
            },
    {
        if self.state.is_terminal() {
            return None;
        }
        proof {
            lemma_channels_stay(self@.engine, channel.spec_id(), Seq::empty());
        }
        engine_receive(&mut self.renet, channel.id())
    }

    /// Counts a message that the codec could not handle.
    fn count_drop(&mut self)
        requires
            old(self).wf(),
        ensures
            final(self).wf(),
            final(self)@ == (ClientView {
                dropped: one_more_drop(old(self)@.dropped),
                ..old(self)@
            }),
    {
        if self.dropped < u64::MAX {
            self.dropped = self.dropped + 1;
        }
    }

    /// Sends `msg` on `channel_id`: encodes it with `encode` and hands the
    /// bytes to the engine. A message that the encoder refuses is dropped
    /// and counted, the session goes on, and the caller is told. Once the
    /// session has ended the message is not even encoded.
    pub fn send<T, F: FnOnce(T) -> Option<Vec<u8>>>(
        &mut self,
        channel_id: ClientChannel,
        msg: T,
        encode: F,
    ) -> (r: Result<(), CodecError>)
        requires
            old(self).wf(),
            encode.requires((msg,)),
        ensures
            final(self).wf(),
            old(self)@.state == ConnectionState::Disconnected ==> r.is_ok() && final(self)@ == old(
                self,
            )@,
            old(self)@.state != ConnectionState::Disconnected ==> exists|encoded: Option<Vec<u8>>|
                {
                    &&& encode.ensures((msg,), encoded)
                    &&& r.is_ok() == encoded.is_some()
                    &&& final(self)@ == after_encode(
                        old(self)@,
                        channel_id,
                        match encoded {
                            Some(payload) => Some(payload@),
                            None => None,
                        },
                    )
                },
            r matches Err(e) ==> e == CodecError::Encode,
    {
        if self.state.is_terminal() {
            return Ok(());
        }
        let encoded = encode(msg);
        match encoded {
            Some(payload) => {
                self.send_payload(channel_id, payload);
                Ok(())
            },
            None => {
                self.count_drop();
                Err(CodecError::Encode)
            },
        }
    }

    /// The next message from the server, if one is ready: takes the next
    /// payload on the server-messages channel and decodes it with `decode`.
    /// A payload that the decoder refuses is dropped and counted, and the
    /// caller is told; the session goes on, and the payloads behind it stay
    /// in line.
    pub fn get_server_msg<M, F: FnOnce(Vec<u8>) -> Option<M>>(&mut self, decode: F) -> (r: Result<
        Option<M>,
        CodecError,
    >)
        requires
            old(self).wf(),
            forall|payload: Vec<u8>| decode.requires((payload,)),
        ensures
            final(self).wf(),
            match next_payload(old(self)@, ServerChannel::ServerMessages) {
                None => r == Ok::<Option<M>, CodecError>(None) && final(self)@ == old(self)@,
                Some(bytes) => exists|payload: Vec<u8>, decoded: Option<M>|
                    {
                        &&& payload@ == bytes
                        &&& decode.ensures((payload,), decoded)
                        &&& r == decode_result(decoded)
                        &&& final(self)@ == after_decode(
                            after_poll(old(self)@, ServerChannel::ServerMessages),
                            decoded.is_some(),
                        )
                    },
            },
    {
        match self.poll_payload(ServerChannel::ServerMessages) {
            None => Ok(None),
            Some(payload) => {
                let decoded = decode(payload);
                match decoded {
                    Some(message) => Ok(Some(message)),
                    None => {
                        self.count_drop();
                        Err(CodecError::Decode)
                    },
                }
            },
        }
    }

    /// The session's identity.
    pub fn client_id(&self) -> (r: u64)
        ensures
            r == self@.client_id,
    {
        self.client_id
    }

    /// What the session presents to the server.
    pub fn authentication(&self) -> (r: AuthenticationDescriptor)
        ensures
            r == self@.authentication,
    {
        self.authentication
    }

    /// The connection state.
    pub fn connection_state(&self) -> (r: ConnectionState)
        ensures
            r == self@.state,
    {
        self.state
    }

    /// Why the session ended, once it has.
    pub fn failure(&self) -> (r: Option<TransportError>)
        ensures
            r == self@.failure,
    {
        self.failure
    }

    /// The monotonic time of the last tick.
    pub fn last_updated(&self) -> (r: TimeSpan)
        ensures
            r@ == self@.last_updated,
    {
        self.last_updated
    }

    /// How many messages were dropped at the codec.
    pub fn dropped_messages(&self) -> (r: u64)
        ensures
            r == self@.dropped,
    {
        self.dropped
    }
}

} // verus!
