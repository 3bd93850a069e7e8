use api_gateway::lifecycle::{
    Lifecycle, LifecycleAction, LifecycleEvent, LifecycleState, Signal,
};

#[test]
fn a_new_process_serves_and_waits_for_a_signal() {
    let lifecycle = Lifecycle::new(10);
    assert_eq!(lifecycle.state(), LifecycleState::Serving);
    assert_eq!(lifecycle.grace_secs(), 10);
    assert_eq!(lifecycle.start(), LifecycleAction::AwaitSignal);
}

#[test]
fn a_signal_begins_the_drain_with_the_configured_grace() {
    for signal in [Signal::Interrupt, Signal::Terminate] {
        let mut lifecycle = Lifecycle::new(7);
        let action = lifecycle.on_event(LifecycleEvent::SignalReceived(signal));
        assert_eq!(action, LifecycleAction::BeginDrain { grace_secs: 7 });
        assert_eq!(lifecycle.state(), LifecycleState::Draining);
        assert_eq!(lifecycle.grace_secs(), 7);
    }
}

#[test]
fn the_process_exits_when_the_grace_period_ends() {
    let mut lifecycle = Lifecycle::new(3);
    lifecycle.on_event(LifecycleEvent::SignalReceived(Signal::Terminate));
    let action = lifecycle.on_event(LifecycleEvent::GraceElapsed);
    assert_eq!(action, LifecycleAction::Exit);
    assert_eq!(lifecycle.state(), LifecycleState::Draining);
}

#[test]
fn a_second_signal_does_not_restart_the_drain() {
    let mut lifecycle = Lifecycle::new(3);
    lifecycle.on_event(LifecycleEvent::SignalReceived(Signal::Interrupt));
    let action = lifecycle.on_event(LifecycleEvent::SignalReceived(Signal::Terminate));
    assert_eq!(action, LifecycleAction::KeepDraining);
    assert_eq!(lifecycle.state(), LifecycleState::Draining);
    assert_eq!(lifecycle.start(), LifecycleAction::KeepDraining);
}

#[test]
fn a_stray_timer_does_not_end_a_serving_process() {
    let mut lifecycle = Lifecycle::new(3);
    let action = lifecycle.on_event(LifecycleEvent::GraceElapsed);
    assert_eq!(action, LifecycleAction::AwaitSignal);
    assert_eq!(lifecycle.state(), LifecycleState::Serving);
}

#[test]
fn draining_is_never_left() {
    let events = [
        LifecycleEvent::GraceElapsed,
        LifecycleEvent::SignalReceived(Signal::Interrupt),
        LifecycleEvent::GraceElapsed,
        LifecycleEvent::SignalReceived(Signal::Terminate),
        LifecycleEvent::GraceElapsed,
    ];
    let mut lifecycle = Lifecycle::new(1);
    let mut signalled = false;
    for event in events {
        lifecycle.on_event(event);
        signalled = signalled || matches!(event, LifecycleEvent::SignalReceived(_));
        assert_eq!(lifecycle.state() == LifecycleState::Draining, signalled);
    }
}

#[test]
fn the_flag_stands_for_the_state() {
    assert!(!LifecycleState::Serving.is_draining());
    assert!(LifecycleState::Draining.is_draining());
    assert_eq!(LifecycleState::from_flag(false), LifecycleState::Serving);
    assert_eq!(LifecycleState::from_flag(true), LifecycleState::Draining);
}
