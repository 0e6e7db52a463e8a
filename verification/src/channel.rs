//! The logical lanes of a session and their delivery guarantees.
//!
//! Both ends are built with the same two enumerations: one for the lanes
//! from client to server, one for the lanes from server to client. A lane's
//! identifier and its guarantee are fixed here and agree with the channels
//! that a default-configured engine has.

use vstd::prelude::*;

verus! {

/// What a channel promises about the messages sent on it.
#[derive(Clone, Copy, Debug, PartialEq, Eq, Structural)]
pub enum DeliveryClass {
    /// Messages may be lost or arrive out of order.
    Unreliable,
    /// Every message arrives, in any order.
    ReliableUnordered,
    /// Every message arrives, in the order of sending.
    ReliableOrdered,
}

/// The guarantee that the engine's default configuration gives the channel
/// with this identifier, if it has such a channel.
pub open spec fn default_delivery(id: u8) -> Option<DeliveryClass> {
    if id == 0 {
        Some(DeliveryClass::Unreliable)
    } else if id == 1 {
        Some(DeliveryClass::ReliableUnordered)
    } else if id == 2 {
        Some(DeliveryClass::ReliableOrdered)
    } else {
        None
    }
}

/// Lanes from the client to the server.
#[derive(Clone, Copy, Debug, PartialEq, Eq, Structural)]
pub enum ClientChannel {
    /// Frequent state that is soon out of date.
    Input,
    /// Happenings that must arrive, in whatever order.
    Event,
    /// Requests that must arrive in the order they were made.
    Command,
}

/// Lanes from the server to the client.
#[derive(Clone, Copy, Debug, PartialEq, Eq, Structural)]
pub enum ServerChannel {
    /// Frequent state that is soon out of date.
    Snapshot,
    /// Happenings that must arrive, in whatever order.
    Event,
    /// The server's messages to this client, in order.
    ServerMessages,
}

impl ClientChannel {
    /// The lane's identifier on the wire.
    pub open spec fn spec_id(self) -> u8 {
        match self {
            ClientChannel::Input => 0,
            ClientChannel::Event => 1,
            ClientChannel::Command => 2,
        }
    }

    /// The lane's guarantee.
    pub open spec fn spec_delivery(self) -> DeliveryClass {
        match self {
            ClientChannel::Input => DeliveryClass::Unreliable,
            ClientChannel::Event => DeliveryClass::ReliableUnordered,
            ClientChannel::Command => DeliveryClass::ReliableOrdered,
        }
    }

    /// The lane's identifier on the wire.
    #[verifier::when_used_as_spec(spec_id)]
    pub fn id(self) -> (r: u8)
        ensures
            r == self.spec_id(),
            default_delivery(r) == Some(self.spec_delivery()),
    {
        match self {
            ClientChannel::Input => 0,
            ClientChannel::Event => 1,
            ClientChannel::Command => 2,
        }
    }

    /// The lane's guarantee.
    #[verifier::when_used_as_spec(spec_delivery)]
    pub fn delivery(self) -> (r: DeliveryClass)
        ensures
            r == self.spec_delivery(),
    {
        match self {
            ClientChannel::Input => DeliveryClass::Unreliable,
            ClientChannel::Event => DeliveryClass::ReliableUnordered,
            ClientChannel::Command => DeliveryClass::ReliableOrdered,
        }
    }

    /// The lane with this identifier, if there is one.
    pub fn from_id(id: u8) -> (r: Option<ClientChannel>)
        ensures
            r matches Some(c) ==> c.spec_id() == id,
            r.is_none() <==> id > 2,
    {
        if id == 0 {
            Some(ClientChannel::Input)
        } else if id == 1 {
            Some(ClientChannel::Event)
        } else if id == 2 {
            Some(ClientChannel::Command)
        } else {
            None
        }
    }
}

impl ServerChannel {
    /// The lane's identifier on the wire.
    pub open spec fn spec_id(self) -> u8 {
        match self {
            ServerChannel::Snapshot => 0,
            ServerChannel::Event => 1,
            ServerChannel::ServerMessages => 2,
        }
    }

    /// The lane's guarantee.
    pub open spec fn spec_delivery(self) -> DeliveryClass {
        match self {
            ServerChannel::Snapshot => DeliveryClass::Unreliable,
            ServerChannel::Event => DeliveryClass::ReliableUnordered,
            ServerChannel::ServerMessages => DeliveryClass::ReliableOrdered,
        }
    }

    /// The lane's identifier on the wire.
    #[verifier::when_used_as_spec(spec_id)]
    pub fn id(self) -> (r: u8)
        ensures
            r == self.spec_id(),
            default_delivery(r) == Some(self.spec_delivery()),
    {
        match self {
            ServerChannel::Snapshot => 0,
            ServerChannel::Event => 1,
            ServerChannel::ServerMessages => 2,
        }
    }

    /// The lane's guarantee.
    #[verifier::when_used_as_spec(spec_delivery)]
    pub fn delivery(self) -> (r: DeliveryClass)
        ensures
            r == self.spec_delivery(),
    {
        match self {
            ServerChannel::Snapshot => DeliveryClass::Unreliable,
            ServerChannel::Event => DeliveryClass::ReliableUnordered,
            ServerChannel::ServerMessages => DeliveryClass::ReliableOrdered,
        }
    }

    /// The lane with this identifier, if there is one.
    pub fn from_id(id: u8) -> (r: Option<ServerChannel>)
        ensures
            r matches Some(c) ==> c.spec_id() == id,
            r.is_none() <==> id > 2,
    {
        if id == 0 {
            Some(ServerChannel::Snapshot)
        } else if id == 1 {
            Some(ServerChannel::Event)
        } else if id == 2 {
            Some(ServerChannel::ServerMessages)
        } else {
            None
        }
    }
}

/// Each lane has an identifier of its own among the lanes of its direction,
/// every identifier names a channel of the default configuration, and the
/// lane's guarantee is the one that the configuration gives that channel.
pub proof fn lemma_lanes_match_default_channels(
    a: ClientChannel,
    b: ClientChannel,
    c: ServerChannel,
    d: ServerChannel,
)
    ensures
        a.spec_id() == b.spec_id() <==> a == b,
        c.spec_id() == d.spec_id() <==> c == d,
        a.spec_id() <= 2,
        c.spec_id() <= 2,
        default_delivery(a.spec_id()) == Some(a.spec_delivery()),
        default_delivery(c.spec_id()) == Some(c.spec_delivery()),
{
}

} // verus!
