use idle_bridge::catcher::{Catcher, SignalMatch};
use idle_bridge::signal::{BridgeError, MethodCall, Signal};
use idle_bridge::state::{IdleEvent, State};

fn hint(idle: bool) -> MethodCall {
    MethodCall {
        destination: "org.freedesktop.login1",
        path: "/org/freedesktop/login1/session/auto",
        interface: "org.freedesktop.login1.Session",
        member: "SetIdleHint",
        argument: Some(idle),
    }
}

fn lock() -> MethodCall {
    MethodCall {
        destination: "org.freedesktop.login1",
        path: "/org/freedesktop/login1/session/auto",
        interface: "org.freedesktop.login1.Session",
        member: "Lock",
        argument: None,
    }
}

#[test]
fn set_idle_hint_describes_the_call() {
    let signal = Signal::new();
    assert_eq!(signal.set_idle_hint(true), hint(true));
    assert_eq!(signal.set_idle_hint(false), hint(false));
    assert_ne!(signal.set_idle_hint(true), signal.set_idle_hint(false));
}

#[test]
fn lock_describes_the_call() {
    let call = Signal::new().lock();
    assert_eq!(call, lock());
    assert_eq!(call.member, "Lock");
    assert_eq!(call.argument, None);
}

#[test]
fn watch_succeeds() {
    let outcome: Result<(), BridgeError> = Signal::new().watch();
    assert_eq!(outcome, Ok(()));
}

#[test]
fn bridge_errors_differ() {
    assert_ne!(BridgeError::Rejected, BridgeError::Transport);
}

#[test]
fn catcher_listens_for_the_lock_signal() {
    assert_eq!(
        Catcher::new().receive_lock_signal(),
        SignalMatch {
            sender: "org.freedesktop.login1",
            path: "/org/freedesktop/login1/session/auto",
            interface: "org.freedesktop.login1.Session",
            member: "Lock",
        }
    );
}

#[test]
fn idled_sets_the_hint_then_locks() {
    let state = State::new(Some(Signal::new()));
    assert_eq!(state.idle_event(IdleEvent::Idled), vec![hint(true), lock()]);
}

#[test]
fn resumed_clears_the_hint_and_never_locks() {
    let state = State::new(Some(Signal::new()));
    let calls = state.idle_event(IdleEvent::Resumed);
    assert_eq!(calls, vec![hint(false)]);
    assert!(!calls.contains(&lock()));
}

#[test]
fn other_events_are_ignored() {
    let state = State::new(Some(Signal::new()));
    assert_eq!(state.idle_event(IdleEvent::Other), Vec::new());
}

#[test]
fn without_a_bus_nothing_is_called() {
    let state = State::new(None);
    for event in [IdleEvent::Idled, IdleEvent::Resumed, IdleEvent::Other] {
        assert_eq!(state.idle_event(event), Vec::new());
    }
}

#[test]
fn bound_handles_do_not_change_the_reaction() {
    let mut state = State::new(Some(Signal::new()));
    state.registry_event(1, "wl_seat", 1);
    state.registry_event(2, "ext_idle_notifier_v1", 1);
    let before = state;
    assert_eq!(state.idle_event(IdleEvent::Idled), vec![hint(true), lock()]);
    assert_eq!(state, before);
}
