//! Core logic of a small client/server networking harness: the message
//! catalog and its wire encoding, the channel registry, the connection
//! managers for the client and server roles, and the shutdown coordinator
//! that drains disconnect notifications before the process exits.
//!
//! Everything here is pure decision logic: a host loop performs the actual
//! transport and operating-system work and feeds events in as plain values.

use vstd::prelude::*;

pub mod channels;
pub mod client;
pub mod codec;
pub mod labels;
pub mod messages;
pub mod server;
pub mod shutdown;

verus! {

/// Default listening port of the server, and the default dial port of the
/// client: an operational convention, not a protocol requirement.
pub const DEFAULT_PORT: u16 = 22223;

/// The port a process uses: the one given on its command line, or the
/// default where none was given.
pub fn effective_port(arg: Option<u16>) -> (r: u16)
    ensures
        arg matches Some(p) ==> r == p,
        arg is None ==> r == DEFAULT_PORT,
{
    match arg {
        Some(p) => p,
        None => DEFAULT_PORT,
    }
}

} // verus!
