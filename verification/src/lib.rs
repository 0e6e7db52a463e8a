//! Client-side session over an unreliable datagram transport.
//!
//! The session owns the reliability engine, keeps the connection state and
//! the tick clock, and moves application payloads between the caller and the
//! engine's channels. Datagram I/O and the wire codec stay with the caller:
//! the session is told what time it is and how each transport step ended, and
//! is handed the functions that encode and decode messages.

pub mod auth;
pub mod channel;
pub mod client;
pub mod engine;
pub mod laws;
pub mod state;
pub mod time;

pub use auth::{AuthenticationDescriptor, ServerAddress};
pub use channel::{ClientChannel, DeliveryClass, ServerChannel};
pub use client::Client;
pub use state::{CodecError, ConnectionState, TransportError};
pub use time::TimeSpan;
