//! Connection manager, client role, and the session notification bridge.
//!
//! The client owns one connection. Each function here is one decision of the
//! manager, driven once per scheduler tick by the host loop, which performs
//! the transport work the decision asks for (opening the connection, sending
//! a message) and feeds transport events back in as plain values.

use vstd::prelude::*;

use crate::channels::ORDERED_RELIABLE;
use crate::channels::UNORDERED_RELIABLE;
use crate::codec::decode_s2c;
use crate::codec::s2c_decoding;
use crate::messages::C2SMsg;
use crate::messages::S2CMsg;
use crate::shutdown::RequestShutdown;
use crate::shutdown::ShuttingDown;

verus! {

/// Request to open a connection to a server.
#[derive(Debug, Clone)]
pub struct GameConnectionRequestedEvent {
    /// The ip or domain name of the server to connect to.
    pub server: String,
    /// The port of the server to connect to.
    pub port: u16,
}

/// Notification that this client's game session ended: the consumer tears
/// down all session-scoped state in response, before the next tick begins.
#[derive(Debug, Default, Clone, Copy, PartialEq, Eq, Structural)]
pub struct GameDisconnectedEvent;

/// Connection state of the one connection a client process owns.
#[derive(Debug, Clone, PartialEq)]
pub enum GameConnectionState {
    /// No connection is established or pending.
    NotConnected,
    /// A connection to the named server is established.
    Connected { server: String, port: u16 },
}

/// A connection attempt the host is asked to perform: resolve the server
/// name, bind an ephemeral local endpoint, and open the transport connection
/// with the fixed channel configuration.
#[derive(Debug, Clone)]
pub struct ConnectAttempt {
    /// The ip or domain name to resolve and dial.
    pub server: String,
    /// The port to dial.
    pub port: u16,
}

/// Why a connection attempt failed. Both are fatal to the attempt and are
/// surfaced to the operator; neither is retried.
#[derive(Debug, Clone, Copy, PartialEq, Eq, Structural)]
pub enum ConnectError {
    /// The server name could not be resolved to an address.
    ResolutionError,
    /// The transport failed to open the connection.
    TransportError,
}

/// Guard of a connect request: an attempt is issued only while not
/// connected. While any connection exists the request is a no-op: nothing is
/// handed to the transport and (the state being left to the caller) nothing
/// changes.
pub fn connect_to_server(state: &GameConnectionState, request: &GameConnectionRequestedEvent) -> (r:
    Option<ConnectAttempt>)
    ensures
        r is Some <==> *state is NotConnected,
        r matches Some(a) ==> a.server == request.server && a.port == request.port,
{
    match state {
        GameConnectionState::NotConnected => Some(
            ConnectAttempt { server: request.server.clone(), port: request.port },
        ),
        GameConnectionState::Connected { .. } => None,
    }
}

/// Record what became of a connection attempt the host performed. On
/// success the state moves to `Connected` with the attempted address; on
/// failure it stays `NotConnected` and the error is surfaced unchanged.
pub fn record_connect_outcome(
    state: &mut GameConnectionState,
    attempt: ConnectAttempt,
    outcome: Result<(), ConnectError>,
) -> (r: Result<(), ConnectError>)
    requires
        *old(state) is NotConnected,
    ensures
        r == outcome,
        outcome is Ok ==> *final(state) == (GameConnectionState::Connected {
            server: attempt.server,
            port: attempt.port,
        }),
        outcome is Err ==> *final(state) == *old(state),
{
    if outcome.is_ok() {
        *state = GameConnectionState::Connected { server: attempt.server, port: attempt.port };
    }
    outcome
}

/// The transport confirmed the handshake: send one liveness probe per
/// confirmation, on the unordered-reliable channel, and touch nothing else.
/// The connection state is not an input, so no call can change it.
pub fn connect_handler(established_events: usize) -> (r: Vec<(C2SMsg, u8)>)
    ensures
        r@.len() == established_events,
        forall|i: int| 0 <= i < r@.len() ==> r@[i] == (C2SMsg::Ping, UNORDERED_RELIABLE),
{
    let mut r: Vec<(C2SMsg, u8)> = Vec::new();
    let mut i: usize = 0;
    while i < established_events
        invariant
            0 <= i <= established_events,
            r@.len() == i,
            forall|j: int| 0 <= j < r@.len() ==> r@[j] == (C2SMsg::Ping, UNORDERED_RELIABLE),
        decreases established_events - i,
    {
        r.push((C2SMsg::Ping, UNORDERED_RELIABLE));
        i += 1;
    }
    r
}

/// The transport detected that the server is unreachable: reset the state
/// and raise the session-teardown notification, exactly once per tick that
/// saw at least one loss event. Losing the connection does not by itself
/// request a process shutdown; it only ends the session.
pub fn disconnect_handler(state: &mut GameConnectionState, lost_events: usize) -> (r: Option<
    GameDisconnectedEvent>)
    ensures
        lost_events > 0 ==> *final(state) is NotConnected && r is Some,
        lost_events == 0 ==> *final(state) == *old(state) && r is None,
{
    if lost_events > 0 {
        *state = GameConnectionState::NotConnected;
        Some(GameDisconnectedEvent)
    } else {
        None
    }
}

/// Dispatch one inbound message. A pong is a liveness signal and changes
/// nothing; a server-initiated disconnect resets the state and raises the
/// teardown notification. Neither answer sends anything back.
pub fn on_message(state: &mut GameConnectionState, msg: &S2CMsg) -> (r: Option<
    GameDisconnectedEvent>)
    ensures
        *msg is Pong ==> *final(state) == *old(state) && r is None,
        *msg is Disconnect ==> *final(state) is NotConnected && r is Some,
{
    match msg {
        S2CMsg::Pong => None,
        S2CMsg::Disconnect => {
            *state = GameConnectionState::NotConnected;
            Some(GameDisconnectedEvent)
        },
    }
}

/// How many frames of a drained batch decode to the given message.
pub open spec fn count_s2c(frames: Seq<Vec<u8>>, m: S2CMsg) -> nat
    decreases frames.len(),
{
    if frames.len() == 0 {
        0
    } else {
        count_s2c(frames.drop_last(), m) + (if s2c_decoding(frames.last()@) == Some(m) {
            1nat
        } else {
            0nat
        })
    }
}

/// How many frames of a drained batch decode to no message at all.
pub open spec fn count_malformed_s2c(frames: Seq<Vec<u8>>) -> nat
    decreases frames.len(),
{
    if frames.len() == 0 {
        0
    } else {
        count_malformed_s2c(frames.drop_last()) + (if s2c_decoding(frames.last()@) is None {
            1nat
        } else {
            0nat
        })
    }
}

/// What one drain of the inbound buffers amounted to. Dispatching inbound
/// messages sends nothing, so there is no outbound part to report.
#[derive(Debug, Clone, Copy, PartialEq, Eq, Structural)]
pub struct ClientPollOutcome {
    /// Pongs observed (liveness only).
    pub pongs: usize,
    /// Teardown notifications raised, one per disconnect message.
    pub teardowns: usize,
    /// Malformed frames dropped; a protocol violation never terminates the
    /// connection, the loop just carries on.
    pub dropped: usize,
}

/// Drain one tick's buffered inbound frames, in arrival order, and dispatch
/// each. Must not error when no frame is pending: an empty batch leaves
/// everything unchanged.
pub fn message_handler(state: &mut GameConnectionState, frames: &Vec<Vec<u8>>) -> (r:
    ClientPollOutcome)
    ensures
        r.pongs == count_s2c(frames@, S2CMsg::Pong),
        r.teardowns == count_s2c(frames@, S2CMsg::Disconnect),
        r.dropped == count_malformed_s2c(frames@),
        count_s2c(frames@, S2CMsg::Disconnect) > 0 ==> *final(state) is NotConnected,
        count_s2c(frames@, S2CMsg::Disconnect) == 0 ==> *final(state) == *old(state),
{
    let mut pongs: usize = 0;
    let mut teardowns: usize = 0;
    let mut dropped: usize = 0;
    let mut i: usize = 0;
    while i < frames.len()
        invariant
            0 <= i <= frames@.len(),
            pongs + teardowns + dropped == i,
            pongs == count_s2c(frames@.take(i as int), S2CMsg::Pong),
            teardowns == count_s2c(frames@.take(i as int), S2CMsg::Disconnect),
            dropped == count_malformed_s2c(frames@.take(i as int)),
            count_s2c(frames@.take(i as int), S2CMsg::Disconnect) > 0 ==> *state is NotConnected,
            count_s2c(frames@.take(i as int), S2CMsg::Disconnect) == 0 ==> *state == *old(state),
        decreases frames@.len() - i,
    {
        proof {
            assert(frames@.take(i + 1).drop_last() =~= frames@.take(i as int));
            assert(frames@.take(i + 1).last() == frames@[i as int]);
        }
        match decode_s2c(&frames[i]) {
            Some(S2CMsg::Pong) => {
                pongs += 1;
            },
            Some(S2CMsg::Disconnect) => {
                *state = GameConnectionState::NotConnected;
                teardowns += 1;
            },
            None => {
                dropped += 1;
            },
        }
        i += 1;
    }
    proof {
        assert(frames@.take(i as int) =~= frames@);
    }
    ClientPollOutcome { pongs, teardowns, dropped }
}

/// Session notification bridge: however many disconnect notifications one
/// tick delivered, at most one teardown of the session state is requested,
/// and one is requested whenever at least one notification arrived.
pub fn remove_all_game_objects(disconnect_events: usize) -> (teardown: bool)
    ensures
        teardown <==> disconnect_events > 0,
{
    disconnect_events > 0
}

/// The connection manager's last chance before exit: on observing the
/// shutdown notification, send the goodbye on the ordered-reliable channel,
/// provided the transport still holds a connection. With the connection
/// already gone there is nothing to send, and the shutdown proceeds all the
/// same.
pub fn shutdown_disconnect(shutting_down: &Vec<ShuttingDown>, transport_connected: bool) -> (r:
    Option<(C2SMsg, u8)>)
    ensures
        r is Some <==> shutting_down@.len() > 0 && transport_connected,
        r matches Some(m) ==> m == (C2SMsg::Disconnect, ORDERED_RELIABLE),
{
    if shutting_down.len() > 0 && transport_connected {
        Some((C2SMsg::Disconnect, ORDERED_RELIABLE))
    } else {
        None
    }
}

/// All windows of the client are closed: request a graceful shutdown.
pub fn window_close_handler(windows_remaining: usize) -> (r: Option<RequestShutdown>)
    ensures
        r is Some <==> windows_remaining == 0,
{
    if windows_remaining == 0 {
        Some(RequestShutdown)
    } else {
        None
    }
}

} // verus!
