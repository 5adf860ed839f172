//! Connection manager, server role.
//!
//! The server tracks no connection state of its own: each peer's liveness is
//! the transport's bookkeeping, and the host hands this module the live peer
//! set and the frames drained from each peer once per tick. Every function
//! returns the actions the host is asked to perform.

use vstd::prelude::*;

use crate::channels::ORDERED_RELIABLE;
use crate::channels::UNORDERED_RELIABLE;
use crate::codec::c2s_decoding;
use crate::codec::decode_c2s;
use crate::messages::C2SMsg;
use crate::messages::S2CMsg;

verus! {

/// Server-assigned integer identifying one remote client: an opaque key,
/// unique per active connection, possibly reused after a peer disconnects.
pub type ClientId = u64;

/// One action the server asks the host to perform against the transport.
#[derive(Debug, Clone, Copy, PartialEq, Eq, Structural)]
pub enum ServerAction {
    /// Send a pong to this peer only, on this channel.
    SendPong { client: ClientId, channel: u8 },
    /// Forcibly close this peer's connection.
    CloseConnection { client: ClientId },
}

/// The server's answer to one message from one peer: a ping is answered by a
/// pong on the unordered-reliable channel, addressed to that peer only; a
/// peer-initiated disconnect closes that peer's connection.
pub open spec fn action_for(client: ClientId, m: C2SMsg) -> ServerAction {
    match m {
        C2SMsg::Ping => ServerAction::SendPong { client, channel: UNORDERED_RELIABLE },
        C2SMsg::Disconnect => ServerAction::CloseConnection { client },
    }
}

/// The actions one tick's drained frames call for, in arrival order, with
/// every malformed frame dropped.
pub open spec fn actions_for(inbound: Seq<(ClientId, Vec<u8>)>) -> Seq<ServerAction>
    decreases inbound.len(),
{
    if inbound.len() == 0 {
        Seq::empty()
    } else {
        actions_for(inbound.drop_last()) + (match c2s_decoding(inbound.last().1@) {
            Some(m) => seq![action_for(inbound.last().0, m)],
            None => Seq::empty(),
        })
    }
}

/// Dispatch one tick's inbound frames, each tagged with the peer it came
/// from, in arrival order per peer. Malformed frames are dropped and the
/// loop carries on; an empty batch asks for nothing.
pub fn message_handler(inbound: &Vec<(ClientId, Vec<u8>)>) -> (r: Vec<ServerAction>)
    ensures
        r@ == actions_for(inbound@),
{
    let mut r: Vec<ServerAction> = Vec::new();
    let mut i: usize = 0;
    while i < inbound.len()
        invariant
            0 <= i <= inbound@.len(),
            r@ == actions_for(inbound@.take(i as int)),
        decreases inbound@.len() - i,
    {
        proof {
            assert(inbound@.take(i + 1).drop_last() =~= inbound@.take(i as int));
            assert(inbound@.take(i + 1).last() == inbound@[i as int]);
        }
        let client = inbound[i].0;
        match decode_c2s(&inbound[i].1) {
            Some(C2SMsg::Ping) => {
                r.push(ServerAction::SendPong { client, channel: UNORDERED_RELIABLE });
            },
            Some(C2SMsg::Disconnect) => {
                r.push(ServerAction::CloseConnection { client });
            },
            None => {},
        }
        i += 1;
    }
    proof {
        assert(inbound@.take(i as int) =~= inbound@);
    }
    r
}

/// One goodbye the host is asked to attempt. The attempt may fail if the
/// peer is already gone; that failure is tolerated, never escalated, and
/// never aborts the remaining attempts.
#[derive(Debug, Clone, Copy, PartialEq, Eq, Structural)]
pub struct PeerSend {
    /// The peer to address.
    pub client: ClientId,
    /// The message to send.
    pub msg: S2CMsg,
    /// The channel to send it on.
    pub channel: u8,
}

/// The fan-out the server performs on exit: one goodbye per currently
/// connected peer, followed by a forced close of every peer connection.
#[derive(Debug, Clone, PartialEq)]
pub struct DisconnectBroadcast {
    /// One attempt per connected peer, in the peer set's order. The host
    /// tries each in turn, tolerating individual failures, then force-closes
    /// all peer connections.
    pub sends: Vec<PeerSend>,
}

/// On the tick that requests application exit, broadcast a disconnect to
/// every currently connected peer on the ordered-reliable channel. No peer
/// is skipped: whether one send fails does not enter into the plan, so a
/// peer that is already gone cannot abort the broadcast to the rest. After
/// the attempts, every peer connection is force-closed.
pub fn shutdown_disconnect(exit_requested: bool, clients: &Vec<ClientId>) -> (r: Option<
    DisconnectBroadcast>)
    ensures
        r is Some <==> exit_requested,
        r matches Some(b) ==> {
            &&& b.sends@.len() == clients@.len()
            &&& forall|i: int|
                0 <= i < b.sends@.len() ==> b.sends@[i] == (PeerSend {
                    client: clients@[i],
                    msg: S2CMsg::Disconnect,
                    channel: ORDERED_RELIABLE,
                })
        },
{
    if !exit_requested {
        return None;
    }
    let mut sends: Vec<PeerSend> = Vec::new();
    let mut i: usize = 0;
    while i < clients.len()
        invariant
            0 <= i <= clients@.len(),
            sends@.len() == i,
            forall|j: int|
                0 <= j < sends@.len() ==> sends@[j] == (PeerSend {
                    client: clients@[j],
                    msg: S2CMsg::Disconnect,
                    channel: ORDERED_RELIABLE,
                }),
        decreases clients@.len() - i,
    {
        sends.push(PeerSend { client: clients[i], msg: S2CMsg::Disconnect, channel: ORDERED_RELIABLE });
        i += 1;
    }
    Some(DisconnectBroadcast { sends })
}

} // verus!
