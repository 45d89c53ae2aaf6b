//! The server's lifecycle, as a state machine: it starts, listens, drains
//! in-flight work after a shutdown signal, and stops. The surrounding
//! program performs the actual binding, serving and signal handling, and
//! feeds the events back here.

use vstd::prelude::*;

verus! {

/// The phases a server process passes through, in order.
#[derive(Clone, Copy, Debug, PartialEq, Eq, Structural)]
pub enum ServerPhase {
    /// Configuration is loaded, the listener is not bound yet.
    Starting,
    /// The listener accepts connections.
    Listening,
    /// No new connections are accepted; in-flight requests finish.
    ShuttingDown,
    /// The process is about to exit.
    Stopped,
}

/// What can happen to a running server.
#[derive(Clone, Copy, Debug, PartialEq, Eq, Structural)]
pub enum ServerEvent {
    /// The listener was bound and serving begins.
    ListenerBound,
    /// An interrupt or termination signal arrived.
    SignalReceived,
    /// Every in-flight request has completed.
    Drained,
}

/// The successor phase for one event, if the event applies in the phase.
pub open spec fn spec_lifecycle_step(p: ServerPhase, e: ServerEvent) -> ServerPhase {
    match (p, e) {
        (ServerPhase::Starting, ServerEvent::ListenerBound) => ServerPhase::Listening,
        (ServerPhase::Listening, ServerEvent::SignalReceived) => ServerPhase::ShuttingDown,
        (ServerPhase::ShuttingDown, ServerEvent::Drained) => ServerPhase::Stopped,
        _ => p,
    }
}

/// Advances the lifecycle by one event. Serving begins only once the
/// listener is bound, and nothing but a signal takes the server out of
/// `Listening`: a request in flight when the signal arrives is drained in
/// `ShuttingDown`, which ends only when every request has completed.
pub fn lifecycle_step(p: ServerPhase, e: ServerEvent) -> (q: ServerPhase)
    ensures
        q == spec_lifecycle_step(p, e),
{
    match (p, e) {
        (ServerPhase::Starting, ServerEvent::ListenerBound) => ServerPhase::Listening,
        (ServerPhase::Listening, ServerEvent::SignalReceived) => ServerPhase::ShuttingDown,
        (ServerPhase::ShuttingDown, ServerEvent::Drained) => ServerPhase::Stopped,
        (_, _) => p,
    }
}

/// A listening server keeps listening until a signal arrives, and a signal
/// never jumps past the draining phase: the only way to `Stopped` is from
/// `ShuttingDown`, after the in-flight requests have completed.
pub proof fn lemma_shutdown_is_graceful(p: ServerPhase, e: ServerEvent)
    ensures
        p == ServerPhase::Listening && e != ServerEvent::SignalReceived ==> spec_lifecycle_step(
            p,
            e,
        ) == ServerPhase::Listening,
        spec_lifecycle_step(p, e) == ServerPhase::Stopped ==> (p == ServerPhase::Stopped || (p
            == ServerPhase::ShuttingDown && e == ServerEvent::Drained)),
{
}

} // verus!
