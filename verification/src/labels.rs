//! Labels naming the two ends of the shutdown pipeline in the host's
//! scheduler: request detection runs early in the tick, the handler that
//! broadcasts and exits runs late, so messages queued by session logic
//! earlier in the tick are flushed before the connection closes.

use vstd::prelude::*;

verus! {

/// Scheduling label of a shutdown-related handler.
#[derive(Debug, Copy, Clone, Ord, PartialOrd, Eq, PartialEq, Hash, Structural)]
pub enum Labels {
    /// A system that may raise a shutdown request; ordered early in a tick.
    ShutdownRequester,
    /// The coordinator that reacts to requests; ordered late in a tick.
    ShutdownHandler,
}

} // verus!
