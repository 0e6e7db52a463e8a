//! The connection state of a session and how it moves.

use vstd::prelude::*;

verus! {

/// Where a session stands in its lifetime. A session starts `Connecting`,
/// becomes `Connected` when the handshake completes, and ends
/// `Disconnected`; it never moves backwards.
#[derive(Clone, Copy, Debug, PartialEq, Eq, Structural)]
pub enum ConnectionState {
    Connecting,
    Connected,
    Disconnected,
}

/// Why a transport step failed.
#[derive(Clone, Copy, Debug, PartialEq, Eq, Structural)]
pub enum TransportError {
    /// The connection protocol gave up or refused (a timeout, a denial).
    Netcode,
    /// The reliability engine had shut the connection down.
    Renet,
    /// The datagram socket reported an error.
    Io,
}

/// Why a message was dropped at the codec.
#[derive(Clone, Copy, Debug, PartialEq, Eq, Structural)]
pub enum CodecError {
    /// An outgoing message could not be turned into bytes.
    Encode,
    /// An incoming payload could not be turned into a message.
    Decode,
}

impl ConnectionState {
    /// Position of the state in the order of a session's lifetime.
    pub open spec fn rank(self) -> nat {
        match self {
            ConnectionState::Connecting => 0,
            ConnectionState::Connected => 1,
            ConnectionState::Disconnected => 2,
        }
    }

    /// The state after `observed` has been seen: `observed`, unless that
    /// would be a step backwards.
    pub open spec fn advanced(self, observed: ConnectionState) -> ConnectionState {
        if observed.rank() >= self.rank() {
            observed
        } else {
            self
        }
    }

    /// Whether the session has ended.
    pub fn is_terminal(self) -> (r: bool)
        ensures
            r == (self == ConnectionState::Disconnected),
    {
        match self {
            ConnectionState::Disconnected => true,
            _ => false,
        }
    }

    /// Moves to `observed` if that is not a step backwards.
    pub fn advance(self, observed: ConnectionState) -> (r: ConnectionState)
        ensures
            r == self.advanced(observed),
    {
        match (self, observed) {
            (ConnectionState::Disconnected, _) => ConnectionState::Disconnected,
            (ConnectionState::Connected, ConnectionState::Connecting) => ConnectionState::Connected,
            (_, seen) => seen,
        }
    }
}

/// A session never moves backwards: the state after an observation ranks at
/// least as high as the state before it, and a session that has ended stays
/// ended whatever is observed.
pub proof fn lemma_state_only_advances(state: ConnectionState, observed: ConnectionState)
    ensures
        state.advanced(observed).rank() >= state.rank(),
        state.advanced(observed).rank() >= observed.rank(),
        state == ConnectionState::Disconnected ==> state.advanced(observed)
            == ConnectionState::Disconnected,
        state.advanced(observed) == state || state.advanced(observed) == observed,
{
}

/// Seeing the same thing twice changes nothing more, and the order in which
/// two observations arrive does not matter.
pub proof fn lemma_advance_settles(state: ConnectionState, a: ConnectionState, b: ConnectionState)
    ensures
        state.advanced(a).advanced(a) == state.advanced(a),
        state.advanced(a).advanced(b) == state.advanced(b).advanced(a),
{
}

} // verus!
