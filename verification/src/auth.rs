//! How a session names itself and presents itself to the server.

use crate::time::TimeSpan;
use vstd::prelude::*;

verus! {

/// The protocol version that client and server must share.
pub const PROTOCOL_ID: u64 = 7;

/// Length of the user data that an authentication may carry.
pub const USER_DATA_BYTES: usize = 256;

/// A server's socket address, as plain numbers. The host address is read as
/// one big-endian integer.
#[derive(Clone, Copy, Debug, PartialEq, Eq, Structural)]
pub enum ServerAddress {
    V4 { ipv4: u32, port: u16 },
    V6 { ipv6: u128, port: u16, flow_info: u32, scope_id: u32 },
}

/// How the session proves itself to the server. Without user data the
/// session makes no proof at all, and the server must decide by itself whom
/// it admits.
#[derive(Clone, Copy, Debug, PartialEq, Eq)]
pub struct AuthenticationDescriptor {
    pub server_addr: ServerAddress,
    pub client_id: u64,
    pub user_data: Option<[u8; USER_DATA_BYTES]>,
    pub protocol_id: u64,
}

/// The identity of a session created `millis` milliseconds after the epoch:
/// the low 64 bits of that count.
pub open spec fn identity_at(millis: nat) -> u64 {
    (millis % 0x1_0000_0000_0000_0000) as u64
}

/// The descriptor of an unsecured session.
pub open spec fn unsecure_descriptor(
    server_addr: ServerAddress,
    client_id: u64,
) -> AuthenticationDescriptor {
    AuthenticationDescriptor { server_addr, client_id, user_data: None, protocol_id: PROTOCOL_ID }
}

/// The identity of a session created when the wall clock stood at
/// `since_epoch`.
pub fn session_identity(since_epoch: &TimeSpan) -> (id: u64)
    ensures
        id == identity_at(since_epoch@ / 1_000_000),
{
    let millis: u128 = since_epoch.as_millis();
    (millis % 0x1_0000_0000_0000_0000u128) as u64
}

impl AuthenticationDescriptor {
    /// The descriptor of an unsecured session: no user data, and the
    /// protocol version of this library.
    pub fn unsecure(server_addr: ServerAddress, client_id: u64) -> (r: AuthenticationDescriptor)
        ensures
            r == unsecure_descriptor(server_addr, client_id),
    {
        AuthenticationDescriptor { server_addr, client_id, user_data: None, protocol_id: PROTOCOL_ID }
    }

    /// Whether the descriptor carries no proof of identity.
    pub fn is_unsecure(&self) -> (r: bool)
        ensures
            r == self.user_data.is_none(),
    {
        self.user_data.is_none()
    }
}

/// Two sessions get the same identity exactly when their creation times, in
/// milliseconds, differ by a multiple of 2^64. In particular two sessions
/// created at different milliseconds less than 2^64 milliseconds apart have
/// different identities.
pub proof fn lemma_identity_distinct(a: nat, b: nat)
    ensures
        identity_at(a) == identity_at(b) <==> (a - b) % 0x1_0000_0000_0000_0000 == 0,
        a != b && a - b < 0x1_0000_0000_0000_0000 && b - a < 0x1_0000_0000_0000_0000
            ==> identity_at(a) != identity_at(b),
{
    let m: int = 0x1_0000_0000_0000_0000;
    vstd::arithmetic::div_mod::lemma_fundamental_div_mod(a as int, m);
    vstd::arithmetic::div_mod::lemma_fundamental_div_mod(b as int, m);
    let qa: int = (a as int) / m;
    let qb: int = (b as int) / m;
    let ra: int = (a as int) % m;
    let rb: int = (b as int) % m;
    if ra == rb {
        assert(a - b == m * (qa - qb)) by (nonlinear_arith)
            requires
                a == m * qa + ra,
                b == m * qb + rb,
                ra == rb,
        ;
        vstd::arithmetic::div_mod::lemma_fundamental_div_mod_converse(a - b, m, qa - qb, 0);
    } else {
        assert(a - b == m * (qa - qb) + (ra - rb)) by (nonlinear_arith)
            requires
                a == m * qa + ra,
                b == m * qb + rb,
        ;
        if ra > rb {
            vstd::arithmetic::div_mod::lemma_fundamental_div_mod_converse(
                a - b,
                m,
                qa - qb,
                ra - rb,
            );
        } else {
            assert(a - b == m * (qa - qb - 1) + (ra - rb + m)) by (nonlinear_arith)
                requires
                    a - b == m * (qa - qb) + (ra - rb),
            ;
            vstd::arithmetic::div_mod::lemma_fundamental_div_mod_converse(
                a - b,
                m,
                qa - qb - 1,
                ra - rb + m,
            );
        }
    }
    if a != b && a - b < m && b - a < m {
        if a > b {
            vstd::arithmetic::div_mod::lemma_small_mod((a - b) as nat, m as nat);
        } else {
            vstd::arithmetic::div_mod::lemma_fundamental_div_mod_converse(a - b, m, -1, a - b + m);
        }
    }
}

} // verus!
