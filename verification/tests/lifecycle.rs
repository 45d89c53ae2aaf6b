use infra_ccu_info::lifecycle::lifecycle_step;
use infra_ccu_info::lifecycle::ServerEvent;
use infra_ccu_info::lifecycle::ServerPhase;

#[test]
fn the_phases_advance_in_order() {
    let p = ServerPhase::Starting;
    let p = lifecycle_step(p, ServerEvent::ListenerBound);
    assert_eq!(p, ServerPhase::Listening);
    let p = lifecycle_step(p, ServerEvent::SignalReceived);
    assert_eq!(p, ServerPhase::ShuttingDown);
    let p = lifecycle_step(p, ServerEvent::Drained);
    assert_eq!(p, ServerPhase::Stopped);
}

#[test]
fn only_a_signal_ends_listening() {
    assert_eq!(
        lifecycle_step(ServerPhase::Listening, ServerEvent::ListenerBound),
        ServerPhase::Listening
    );
    assert_eq!(
        lifecycle_step(ServerPhase::Listening, ServerEvent::Drained),
        ServerPhase::Listening
    );
}

#[test]
fn a_signal_drains_before_stopping() {
    // The signal does not stop the server outright: it enters the draining
    // phase, and only the completion of in-flight requests stops it.
    let p = lifecycle_step(ServerPhase::Listening, ServerEvent::SignalReceived);
    assert_ne!(p, ServerPhase::Stopped);
    assert_eq!(p, ServerPhase::ShuttingDown);
    assert_eq!(lifecycle_step(p, ServerEvent::Drained), ServerPhase::Stopped);
}

#[test]
fn stray_events_do_not_move_the_machine() {
    assert_eq!(
        lifecycle_step(ServerPhase::Starting, ServerEvent::Drained),
        ServerPhase::Starting
    );
    assert_eq!(
        lifecycle_step(ServerPhase::ShuttingDown, ServerEvent::SignalReceived),
        ServerPhase::ShuttingDown
    );
    assert_eq!(
        lifecycle_step(ServerPhase::Stopped, ServerEvent::ListenerBound),
        ServerPhase::Stopped
    );
}
