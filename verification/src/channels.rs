//! Channel registry: the fixed set of transport channels and their stable
//! indices. The indices must match the order in which the channels are
//! handed to the transport at startup; both peers rely on that order.

use vstd::prelude::*;

verus! {

/// Delivery guarantee of one transport channel.
#[derive(Debug, Clone, Copy, PartialEq, Eq, Structural)]
pub enum ChannelKind {
    /// FIFO, retransmitted until acknowledged.
    OrderedReliable,
    /// Retransmitted, but with no ordering guarantee across messages.
    UnorderedReliable,
    /// Best effort: no retransmission, no ordering guarantee.
    Unreliable,
}

/// Index of the ordered-reliable channel.
pub const ORDERED_RELIABLE: u8 = 0;
/// Index of the unordered-reliable channel.
pub const UNORDERED_RELIABLE: u8 = 1;
/// Index of the unreliable channel.
pub const UNRELIABLE: u8 = 2;

/// The channel configuration handed to the transport at startup, in index
/// order: each constant above names the position of its kind in this list.
pub fn channel_kinds() -> (r: Vec<ChannelKind>)
    ensures
        r@.len() == 3,
        r@[ORDERED_RELIABLE as int] == ChannelKind::OrderedReliable,
        r@[UNORDERED_RELIABLE as int] == ChannelKind::UnorderedReliable,
        r@[UNRELIABLE as int] == ChannelKind::Unreliable,
{
    let mut r: Vec<ChannelKind> = Vec::new();
    r.push(ChannelKind::OrderedReliable);
    r.push(ChannelKind::UnorderedReliable);
    r.push(ChannelKind::Unreliable);
    r
}

} // verus!
