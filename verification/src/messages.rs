//! Message catalog: the closed vocabulary of messages exchanged in each
//! direction, and the channel each message is sent on. Both peers must run
//! matching catalogs; there is no capability negotiation.

use vstd::prelude::*;

use crate::channels::ORDERED_RELIABLE;
use crate::channels::UNORDERED_RELIABLE;

verus! {

/// Client-to-server messages. They carry no payload beyond their tag, so
/// channel delivery order is the only ordering authority.
#[derive(Debug, Clone, Copy, PartialEq, Eq, Structural)]
pub enum C2SMsg {
    /// Liveness probe, sent once when the handshake completes.
    Ping,
    /// Orderly goodbye, sent while the connection is being shut down.
    Disconnect,
}

/// Server-to-client messages.
#[derive(Debug, Clone, Copy, PartialEq, Eq, Structural)]
pub enum S2CMsg {
    /// Reply to a `Ping`.
    Pong,
    /// Orderly goodbye, broadcast while the server is shutting down.
    Disconnect,
}

/// The channel a client-to-server message travels on: the liveness probe
/// needs no ordering, the goodbye must not overtake earlier reliable traffic.
pub open spec fn c2s_channel_spec(m: C2SMsg) -> u8 {
    match m {
        C2SMsg::Ping => UNORDERED_RELIABLE,
        C2SMsg::Disconnect => ORDERED_RELIABLE,
    }
}

/// The channel a server-to-client message travels on.
pub open spec fn s2c_channel_spec(m: S2CMsg) -> u8 {
    match m {
        S2CMsg::Pong => UNORDERED_RELIABLE,
        S2CMsg::Disconnect => ORDERED_RELIABLE,
    }
}

/// Channel index for a client-to-server message.
pub fn c2s_channel(m: &C2SMsg) -> (r: u8)
    ensures
        r == c2s_channel_spec(*m),
{
    match m {
        C2SMsg::Ping => UNORDERED_RELIABLE,
        C2SMsg::Disconnect => ORDERED_RELIABLE,
    }
}

/// Channel index for a server-to-client message.
pub fn s2c_channel(m: &S2CMsg) -> (r: u8)
    ensures
        r == s2c_channel_spec(*m),
{
    match m {
        S2CMsg::Pong => UNORDERED_RELIABLE,
        S2CMsg::Disconnect => ORDERED_RELIABLE,
    }
}

} // verus!
