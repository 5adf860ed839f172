//! Shutdown coordinator: a three-phase state machine driving graceful
//! termination, run once per process and polled once per scheduler tick.
//!
//! Splitting "decide to shut down" from "perform network teardown" from
//! "exit" guarantees the disconnect notification is queued and flushed by the
//! transport before the process that owns the socket disappears. A
//! notification emitted during one tick is read during the next, so a
//! shutdown request is followed by the `ShuttingDown` notification one tick
//! later (the connection manager's last chance to send its goodbye), the
//! `PostShutdown` notification one tick after that, and the exit request on
//! the tick after that.

use vstd::prelude::*;

verus! {

/// Request to begin a graceful shutdown. Raised by an operator interrupt,
/// by a lost connection escalated by policy, or by a window close.
#[derive(Debug, Clone, Copy, PartialEq, Eq, Structural)]
pub struct RequestShutdown;

/// Notification that the shutdown began. Emitted exactly once per process;
/// the connection manager answers it by sending its disconnect message while
/// the transport is still up.
#[derive(Debug, Clone, Copy, PartialEq, Eq, Structural)]
pub struct ShuttingDown;

/// Notification that the network-teardown window has passed and the process
/// may exit. Emitted exactly once per process.
#[derive(Debug, Clone, Copy, PartialEq, Eq, Structural)]
pub struct PostShutdown;

/// Phase of the shutdown state machine. Transitions are monotonic and
/// one-directional: `Idle` to `ShuttingDown`, never back, within one process
/// lifetime.
#[derive(Debug, Clone, Copy, PartialEq, Eq, Structural)]
pub enum ShutdownState {
    /// Steady state: no shutdown has been requested.
    Idle,
    /// A shutdown was requested and the disconnect notification has been
    /// dispatched, but draining is not yet confirmed complete.
    ShuttingDown,
}

/// What one pass of the shutdown handler asks the host loop to do. An
/// emitted notification becomes readable on the next tick; the exit request
/// takes effect at the end of the current one.
#[derive(Debug, Clone, Copy, PartialEq, Eq, Structural)]
pub struct ShutdownTickOutput {
    /// Emit one `ShuttingDown` notification.
    pub emit_shutting_down: bool,
    /// Emit one `PostShutdown` notification.
    pub emit_post_shutdown: bool,
    /// Request application exit.
    pub exit: bool,
}

/// One pass of the shutdown coordinator over the notifications readable this
/// tick. A request while already shutting down is a no-op; each notification
/// advances the machine by exactly one phase.
pub fn shutdown_handler(
    state: &mut ShutdownState,
    requests: &Vec<RequestShutdown>,
    shutting_down: &Vec<ShuttingDown>,
    post_shutdown: &Vec<PostShutdown>,
) -> (r: ShutdownTickOutput)
    ensures
        r.emit_shutting_down == (requests@.len() > 0 && *old(state) is Idle),
        *final(state) is ShuttingDown <==> (*old(state) is ShuttingDown || requests@.len() > 0),
        r.emit_post_shutdown == (shutting_down@.len() > 0),
        r.exit == (post_shutdown@.len() > 0),
{
    let mut emit_shutting_down = false;
    if requests.len() > 0 {
        match *state {
            ShutdownState::Idle => {
                *state = ShutdownState::ShuttingDown;
                emit_shutting_down = true;
            },
            ShutdownState::ShuttingDown => {},
        }
    }
    ShutdownTickOutput {
        emit_shutting_down,
        emit_post_shutdown: shutting_down.len() > 0,
        exit: post_shutdown.len() > 0,
    }
}

/// The shutdown coordinator as the host loop drives it, with the two
/// notification queues modelled explicitly: a notification emitted during
/// one tick awaits the read of the next tick.
#[derive(Debug, Clone, Copy, PartialEq, Eq, Structural)]
pub struct ShutdownCoordinator {
    /// Phase of the state machine.
    pub state: ShutdownState,
    /// A `ShuttingDown` notification emitted last tick awaits this tick.
    pub shutting_down_queued: bool,
    /// A `PostShutdown` notification emitted last tick awaits this tick.
    pub post_shutdown_queued: bool,
    /// The coordinator has requested application exit.
    pub exited: bool,
}

/// The coordinator of a freshly started process.
pub open spec fn initial_coordinator() -> ShutdownCoordinator {
    ShutdownCoordinator {
        state: ShutdownState::Idle,
        shutting_down_queued: false,
        post_shutdown_queued: false,
        exited: false,
    }
}

/// One tick of the coordinator, as a mathematical transition: consume the
/// notifications queued last tick, react to the requests raised this tick,
/// and queue what the handler emits.
pub open spec fn coordinator_tick(c: ShutdownCoordinator, requests: nat) -> (ShutdownCoordinator,
    ShutdownTickOutput) {
    let began = requests > 0 && c.state is Idle;
    let completed = c.shutting_down_queued;
    let exit = c.post_shutdown_queued;
    (
        ShutdownCoordinator {
            state: if requests > 0 {
                ShutdownState::ShuttingDown
            } else {
                c.state
            },
            shutting_down_queued: began,
            post_shutdown_queued: completed,
            exited: c.exited || exit,
        },
        ShutdownTickOutput { emit_shutting_down: began, emit_post_shutdown: completed, exit },
    )
}

/// Every state the coordinator can reach: while idle nothing is queued and
/// the process has not exited; once shutting down, exactly one of the two
/// queued notifications or the exit flag carries the machine forward.
pub open spec fn coordinator_inv(c: ShutdownCoordinator) -> bool {
    &&& c.state is Idle ==> !c.shutting_down_queued && !c.post_shutdown_queued && !c.exited
    &&& c.state is ShuttingDown ==> (c.shutting_down_queued || c.post_shutdown_queued || c.exited)
    &&& !(c.shutting_down_queued && c.post_shutdown_queued)
    &&& !(c.shutting_down_queued && c.exited)
    &&& !(c.post_shutdown_queued && c.exited)
}

impl ShutdownCoordinator {
    /// Coordinator of a freshly started process: idle, nothing queued.
    pub fn new() -> (r: ShutdownCoordinator)
        ensures
            r == initial_coordinator(),
            coordinator_inv(r),
    {
        ShutdownCoordinator {
            state: ShutdownState::Idle,
            shutting_down_queued: false,
            post_shutdown_queued: false,
            exited: false,
        }
    }

    /// One scheduler tick: deliver last tick's notifications to the handler
    /// together with this tick's requests, then queue what it emitted.
    pub fn tick(&mut self, requests: &Vec<RequestShutdown>) -> (r: ShutdownTickOutput)
        ensures
            (*final(self), r) == coordinator_tick(*old(self), requests@.len()),
    {
        let mut shutting_down: Vec<ShuttingDown> = Vec::new();
        if self.shutting_down_queued {
            shutting_down.push(ShuttingDown);
        }
        let mut post_shutdown: Vec<PostShutdown> = Vec::new();
        if self.post_shutdown_queued {
            post_shutdown.push(PostShutdown);
        }
        let out = shutdown_handler(&mut self.state, requests, &shutting_down, &post_shutdown);
        self.shutting_down_queued = out.emit_shutting_down;
        self.post_shutdown_queued = out.emit_post_shutdown;
        if out.exit {
            self.exited = true;
        }
        out
    }
}

/// The coordinator after a run of ticks, one entry of `requests` per tick
/// giving how many shutdown requests were raised during that tick.
pub open spec fn coordinator_run(c: ShutdownCoordinator, requests: Seq<nat>) -> ShutdownCoordinator
    decreases requests.len(),
{
    if requests.len() == 0 {
        c
    } else {
        coordinator_run(coordinator_tick(c, requests.first()).0, requests.drop_first())
    }
}

/// How many `ShuttingDown` notifications a run emits.
pub open spec fn began_count(c: ShutdownCoordinator, requests: Seq<nat>) -> nat
    decreases requests.len(),
{
    if requests.len() == 0 {
        0
    } else {
        (if coordinator_tick(c, requests.first()).1.emit_shutting_down {
            1nat
        } else {
            0nat
        }) + began_count(coordinator_tick(c, requests.first()).0, requests.drop_first())
    }
}

/// How many `PostShutdown` notifications a run emits.
pub open spec fn completed_count(c: ShutdownCoordinator, requests: Seq<nat>) -> nat
    decreases requests.len(),
{
    if requests.len() == 0 {
        0
    } else {
        (if coordinator_tick(c, requests.first()).1.emit_post_shutdown {
            1nat
        } else {
            0nat
        }) + completed_count(coordinator_tick(c, requests.first()).0, requests.drop_first())
    }
}

/// One tick preserves the coordinator invariant.
pub proof fn lemma_coordinator_inv_tick(c: ShutdownCoordinator, requests: nat)
    requires
        coordinator_inv(c),
    ensures
        coordinator_inv(coordinator_tick(c, requests).0),
{
}

/// A whole run preserves the coordinator invariant.
pub proof fn lemma_coordinator_inv_run(c: ShutdownCoordinator, requests: Seq<nat>)
    requires
        coordinator_inv(c),
    ensures
        coordinator_inv(coordinator_run(c, requests)),
    decreases requests.len(),
{
    if requests.len() > 0 {
        lemma_coordinator_inv_tick(c, requests.first());
        lemma_coordinator_inv_run(coordinator_tick(c, requests.first()).0, requests.drop_first());
    }
}

/// Transitions are one-directional: a coordinator that is shutting down
/// never returns to the steady state within one process lifetime.
pub proof fn lemma_state_monotonic(c: ShutdownCoordinator, requests: Seq<nat>)
    requires
        c.state is ShuttingDown,
    ensures
        coordinator_run(c, requests).state is ShuttingDown,
    decreases requests.len(),
{
    if requests.len() > 0 {
        lemma_state_monotonic(coordinator_tick(c, requests.first()).0, requests.drop_first());
    }
}

/// Exit is final: once the coordinator has requested application exit, every
/// later state still has.
pub proof fn lemma_exit_is_final(c: ShutdownCoordinator, requests: Seq<nat>)
    requires
        c.exited,
    ensures
        coordinator_run(c, requests).exited,
    decreases requests.len(),
{
    if requests.len() > 0 {
        lemma_exit_is_final(coordinator_tick(c, requests.first()).0, requests.drop_first());
    }
}

/// Once shutting down, a run emits no further `ShuttingDown` notification:
/// the state machine never returns to `Idle`.
pub proof fn lemma_no_began_after_shutdown(c: ShutdownCoordinator, requests: Seq<nat>)
    requires
        c.state is ShuttingDown,
    ensures
        began_count(c, requests) == 0,
    decreases requests.len(),
{
    if requests.len() > 0 {
        lemma_no_began_after_shutdown(coordinator_tick(c, requests.first()).0,
            requests.drop_first());
    }
}

/// However many shutdown requests a run raises, and however they are spread
/// over its ticks, at most one `ShuttingDown` notification is emitted.
pub proof fn lemma_began_at_most_once(c: ShutdownCoordinator, requests: Seq<nat>)
    requires
        coordinator_inv(c),
    ensures
        began_count(c, requests) <= 1,
    decreases requests.len(),
{
    if requests.len() > 0 {
        let next = coordinator_tick(c, requests.first()).0;
        lemma_coordinator_inv_tick(c, requests.first());
        if coordinator_tick(c, requests.first()).1.emit_shutting_down {
            lemma_no_began_after_shutdown(next, requests.drop_first());
        } else {
            lemma_began_at_most_once(next, requests.drop_first());
        }
    }
}

/// While shutting down with no `ShuttingDown` notification still queued, a
/// run emits no further `PostShutdown` notification.
pub proof fn lemma_no_completed_after_drain(c: ShutdownCoordinator, requests: Seq<nat>)
    requires
        c.state is ShuttingDown,
        !c.shutting_down_queued,
    ensures
        completed_count(c, requests) == 0,
    decreases requests.len(),
{
    if requests.len() > 0 {
        lemma_no_completed_after_drain(coordinator_tick(c, requests.first()).0,
            requests.drop_first());
    }
}

/// However many shutdown requests a run raises, at most one `PostShutdown`
/// notification is emitted.
pub proof fn lemma_completed_at_most_once(c: ShutdownCoordinator, requests: Seq<nat>)
    requires
        coordinator_inv(c),
    ensures
        completed_count(c, requests) <= 1,
    decreases requests.len(),
{
    if requests.len() > 0 {
        let next = coordinator_tick(c, requests.first()).0;
        lemma_coordinator_inv_tick(c, requests.first());
        if coordinator_tick(c, requests.first()).1.emit_post_shutdown {
            lemma_no_completed_after_drain(next, requests.drop_first());
        } else {
            lemma_completed_at_most_once(next, requests.drop_first());
        }
    }
}

/// From the start of a process, a run during which at least one shutdown
/// request is raised emits exactly one `ShuttingDown` notification, whether
/// the request was raised once or many times, in one tick or over several.
pub proof fn lemma_began_exactly_once(c: ShutdownCoordinator, requests: Seq<nat>)
    requires
        c == initial_coordinator(),
        exists|i: int| 0 <= i < requests.len() && requests[i] > 0,
    ensures
        began_count(c, requests) == 1,
    decreases requests.len(),
{
    let i = choose|i: int| 0 <= i < requests.len() && requests[i] > 0;
    if requests.first() > 0 {
        lemma_no_began_after_shutdown(coordinator_tick(c, requests.first()).0,
            requests.drop_first());
    } else {
        assert(i > 0);
        assert(requests.drop_first()[i - 1] > 0);
        lemma_began_exactly_once(coordinator_tick(c, requests.first()).0, requests.drop_first());
    }
}

/// A queued `ShuttingDown` notification is answered on the very next tick by
/// exactly one `PostShutdown` notification, and no other tick of the run
/// emits one.
pub proof fn lemma_completed_once_when_queued(c: ShutdownCoordinator, requests: Seq<nat>)
    requires
        c.state is ShuttingDown,
        c.shutting_down_queued,
        requests.len() >= 1,
    ensures
        completed_count(c, requests) == 1,
{
    lemma_no_completed_after_drain(coordinator_tick(c, requests.first()).0, requests.drop_first());
}

/// From the start of a process, a run that raises at least one shutdown
/// request before its last tick emits exactly one `PostShutdown`
/// notification: the shutdown sequence completes exactly once.
pub proof fn lemma_completed_exactly_once(c: ShutdownCoordinator, requests: Seq<nat>)
    requires
        c == initial_coordinator(),
        exists|i: int| 0 <= i < requests.len() - 1 && requests[i] > 0,
    ensures
        completed_count(c, requests) == 1,
    decreases requests.len(),
{
    let i = choose|i: int| 0 <= i < requests.len() - 1 && requests[i] > 0;
    if requests.first() > 0 {
        let next = coordinator_tick(c, requests.first()).0;
        lemma_completed_once_when_queued(next, requests.drop_first());
    } else {
        assert(i > 0);
        assert(requests.drop_first()[i - 1] > 0);
        lemma_completed_exactly_once(coordinator_tick(c, requests.first()).0,
            requests.drop_first());
    }
}

/// Liveness: once the machine is shutting down, it requests application exit
/// within two further ticks, whatever requests keep arriving and whether or
/// not the connection still exists. The coordinator never waits on the
/// transport, so a connection already lost cannot stall it.
pub proof fn lemma_shutdown_terminates(c: ShutdownCoordinator, requests: Seq<nat>)
    requires
        coordinator_inv(c),
        c.state is ShuttingDown,
        requests.len() >= 2,
    ensures
        coordinator_run(c, requests).exited,
{
    let c1 = coordinator_tick(c, requests.first()).0;
    let rest = requests.drop_first();
    let c2 = coordinator_tick(c1, rest.first()).0;
    assert(coordinator_run(c, requests) == coordinator_run(c1, rest));
    assert(coordinator_run(c1, rest) == coordinator_run(c2, rest.drop_first()));
    if c.exited {
        lemma_exit_is_final(c, requests);
    } else if c.post_shutdown_queued {
        assert(c1.exited);
        lemma_exit_is_final(c1, rest);
    } else {
        assert(c.shutting_down_queued);
        assert(c1.post_shutdown_queued);
        assert(c2.exited);
        lemma_exit_is_final(c2, rest.drop_first());
    }
}

/// Translation of the operator's interrupt signal into the in-process
/// shutdown request. The host owns a single-writer flag set by the signal
/// handler and reads-and-clears it once per tick; each raise of the signal
/// therefore turns into at most one request, and the coordinator's own
/// idempotence makes repeated raises harmless.
pub fn ctrlc_handler(signal_seen: bool) -> (r: Option<RequestShutdown>)
    ensures
        r is Some <==> signal_seen,
{
    if signal_seen {
        Some(RequestShutdown)
    } else {
        None
    }
}

} // verus!
