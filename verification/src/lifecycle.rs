//! The life cycle of the gateway process: it serves until a termination
//! signal arrives, then drains for a grace period, then exits.
//!
//! The coordinator decides; its caller waits for signals, raises the
//! shared flag, sleeps, and reports back what happened.

use vstd::prelude::*;

verus! {

/// Where the process stands.
#[derive(Debug, Clone, Copy, PartialEq, Eq, Structural)]
pub enum LifecycleState {
    /// Requests are welcome.
    Serving,
    /// A termination signal has arrived. Requests in flight may finish;
    /// the process reports that it is not ready for more.
    Draining,
}

/// A signal that asks the process to end.
#[derive(Debug, Clone, Copy, PartialEq, Eq, Structural)]
pub enum Signal {
    Interrupt,
    Terminate,
}

/// What the caller reports to the coordinator.
#[derive(Debug, Clone, Copy, PartialEq, Eq, Structural)]
pub enum LifecycleEvent {
    /// A termination signal has arrived.
    SignalReceived(Signal),
    /// The grace period is over.
    GraceElapsed,
}

/// What the coordinator asks of its caller.
#[derive(Debug, Clone, Copy, PartialEq, Eq, Structural)]
pub enum LifecycleAction {
    /// Wait for a termination signal.
    AwaitSignal,
    /// Raise the draining flag, then hold the process open for as many
    /// seconds and report `GraceElapsed`.
    BeginDrain { grace_secs: u64 },
    /// Go on waiting for the grace period to end.
    KeepDraining,
    /// Let the process exit.
    Exit,
}

impl LifecycleState {
    /// The state that the shared flag stands for.
    pub open spec fn of_flag(draining: bool) -> LifecycleState {
        if draining {
            LifecycleState::Draining
        } else {
            LifecycleState::Serving
        }
    }

    /// The state that follows `self` on `event`. The only way is from
    /// serving to draining, on a signal.
    pub open spec fn after(self, event: LifecycleEvent) -> LifecycleState {
        match (self, event) {
            (LifecycleState::Serving, LifecycleEvent::SignalReceived(_)) => LifecycleState::Draining,
            (state, _) => state,
        }
    }

    /// What the caller is to do after `event` has met the state `self`.
    pub open spec fn action_on(self, event: LifecycleEvent, grace_secs: u64) -> LifecycleAction {
        match (self, event) {
            (LifecycleState::Serving, LifecycleEvent::SignalReceived(_)) => LifecycleAction::BeginDrain {
                grace_secs,
            },
            (LifecycleState::Serving, LifecycleEvent::GraceElapsed) => LifecycleAction::AwaitSignal,
            (LifecycleState::Draining, LifecycleEvent::SignalReceived(_)) => LifecycleAction::KeepDraining,
            (LifecycleState::Draining, LifecycleEvent::GraceElapsed) => LifecycleAction::Exit,
        }
    }

    /// The state after a run of events, in order.
    pub open spec fn after_all(self, events: Seq<LifecycleEvent>) -> LifecycleState
        decreases events.len(),
    {
        if events.len() == 0 {
            self
        } else {
            self.after_all(events.drop_last()).after(events.last())
        }
    }

    /// The value of the shared flag for this state.
    pub fn is_draining(&self) -> (draining: bool)
        ensures
            draining == (*self == LifecycleState::Draining),
            LifecycleState::of_flag(draining) == *self,
    {
        match self {
            LifecycleState::Serving => false,
            LifecycleState::Draining => true,
        }
    }

    /// The state that the shared flag stands for.
    pub fn from_flag(draining: bool) -> (state: LifecycleState)
        ensures
            state == LifecycleState::of_flag(draining),
    {
        if draining {
            LifecycleState::Draining
        } else {
            LifecycleState::Serving
        }
    }
}

/// An event is a termination signal.
pub open spec fn is_signal(event: LifecycleEvent) -> bool {
    event is SignalReceived
}

/// The coordinator of one process: its state and the grace period that
/// it was set up with.
#[derive(Debug, Clone, Copy, PartialEq, Eq, Structural)]
pub struct Lifecycle {
    state: LifecycleState,
    grace_secs: u64,
}

impl Lifecycle {
    pub closed spec fn spec_state(&self) -> LifecycleState {
        self.state
    }

    pub closed spec fn spec_grace_secs(&self) -> u64 {
        self.grace_secs
    }

    /// A coordinator for a process that has just started: it serves.
    pub fn new(grace_secs: u64) -> (lifecycle: Lifecycle)
        ensures
            lifecycle.spec_state() == LifecycleState::Serving,
            lifecycle.spec_grace_secs() == grace_secs,
    {
        Lifecycle { state: LifecycleState::Serving, grace_secs }
    }

    #[verifier::when_used_as_spec(spec_state)]
    pub fn state(&self) -> (state: LifecycleState)
        ensures
            state == self.spec_state(),
    {
        self.state
    }

    #[verifier::when_used_as_spec(spec_grace_secs)]
    pub fn grace_secs(&self) -> (secs: u64)
        ensures
            secs == self.spec_grace_secs(),
    {
        self.grace_secs
    }

    /// What the caller is to do first: wait for a signal while the
    /// process serves.
    pub fn start(&self) -> (action: LifecycleAction)
        ensures
            action == (match self.state() {
                LifecycleState::Serving => LifecycleAction::AwaitSignal,
                LifecycleState::Draining => LifecycleAction::KeepDraining,
            }),
    {
        match self.state {
            LifecycleState::Serving => LifecycleAction::AwaitSignal,
            LifecycleState::Draining => LifecycleAction::KeepDraining,
        }
    }

    /// Takes note of an event and says what the caller is to do next.
    pub fn on_event(&mut self, event: LifecycleEvent) -> (action: LifecycleAction)
        ensures
            final(self).state() == old(self).state().after(event),
            final(self).grace_secs() == old(self).grace_secs(),
            action == old(self).state().action_on(event, old(self).grace_secs()),
    {
        let action = match (self.state, event) {
            (LifecycleState::Serving, LifecycleEvent::SignalReceived(_)) => LifecycleAction::BeginDrain {
                grace_secs: self.grace_secs,
            },
            (LifecycleState::Serving, LifecycleEvent::GraceElapsed) => LifecycleAction::AwaitSignal,
            (LifecycleState::Draining, LifecycleEvent::SignalReceived(_)) => LifecycleAction::KeepDraining,
            (LifecycleState::Draining, LifecycleEvent::GraceElapsed) => LifecycleAction::Exit,
        };
        if let LifecycleAction::BeginDrain { .. } = action {
            self.state = LifecycleState::Draining;
        }
        action
    }
}

/// Draining is for good: whatever happens afterwards, a process that
/// drains goes on draining.
pub proof fn draining_is_final(events: Seq<LifecycleEvent>)
    ensures
        LifecycleState::Draining.after_all(events) == LifecycleState::Draining,
    decreases events.len(),
{
    if events.len() > 0 {
        draining_is_final(events.drop_last());
    }
}

/// A process drains if and only if a termination signal has arrived.
pub proof fn drains_once_signalled(events: Seq<LifecycleEvent>)
    ensures
        LifecycleState::Serving.after_all(events) == LifecycleState::Draining <==> exists|i: int|
            0 <= i < events.len() && is_signal(#[trigger] events[i]),
    decreases events.len(),
{
    if events.len() > 0 {
        let earlier = events.drop_last();
        drains_once_signalled(earlier);
        if exists|i: int| 0 <= i < earlier.len() && is_signal(#[trigger] earlier[i]) {
            let i = choose|i: int| 0 <= i < earlier.len() && is_signal(#[trigger] earlier[i]);
            assert(is_signal(events[i]));
        } else if is_signal(events.last()) {
            assert(is_signal(events[events.len() - 1]));
        } else {
            assert forall|i: int| 0 <= i < events.len() implies !is_signal(
                #[trigger] events[i],
            ) by {
                if i < earlier.len() {
                    assert(!is_signal(earlier[i]));
                }
            }
        }
    }
}

/// The drain begins with the first signal and is asked for once: the
/// caller is told to begin the drain exactly when a signal meets a
/// serving process, and to exit exactly when the grace period ends on a
/// draining one.
pub proof fn drain_begins_once(state: LifecycleState, event: LifecycleEvent, grace_secs: u64)
    ensures
        state.action_on(event, grace_secs) == (LifecycleAction::BeginDrain { grace_secs }) <==> state
            == LifecycleState::Serving && is_signal(event),
        state.action_on(event, grace_secs) == LifecycleAction::Exit <==> state
            == LifecycleState::Draining && event == LifecycleEvent::GraceElapsed,
        state.action_on(event, grace_secs) is BeginDrain ==> state.after(event)
            == LifecycleState::Draining,
{
}

} // verus!
