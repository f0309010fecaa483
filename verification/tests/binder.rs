use idle_bridge::state::{
    capability_of, subscribe, Binding, Capability, Handle, Missing, State, Subscription,
    BIND_VERSION,
};
use idle_bridge::text::same_text;

fn handle(name: u32) -> Handle {
    Handle { name, version: 1 }
}

#[test]
fn same_text_compares_every_character() {
    assert!(same_text("", ""));
    assert!(same_text("wl_seat", "wl_seat"));
    assert!(!same_text("wl_seat", "wl_seaT"));
    assert!(!same_text("wl_seat", "wl_sea"));
    assert!(!same_text("wl_sea", "wl_seat"));
    assert!(!same_text("", "a"));
    assert!(same_text("héllo", "héllo"));
    assert!(!same_text("héllo", "hello"));
}

#[test]
fn recognized_interface_names() {
    assert_eq!(capability_of("wl_seat"), Some(Capability::Seat));
    assert_eq!(capability_of("ext_idle_notifier_v1"), Some(Capability::IdleNotifier));
}

#[test]
fn near_misses_are_not_recognized() {
    for name in [
        "",
        "wl_output",
        "wl_seat ",
        " wl_seat",
        "WL_SEAT",
        "wl_seat_v2",
        "wl_sea",
        "ext_idle_notifier_v2",
        "ext_idle_notifier",
        "ext_idle_notification_v1",
    ] {
        assert_eq!(capability_of(name), None, "{name:?}");
    }
}

#[test]
fn bind_version_is_one() {
    assert_eq!(BIND_VERSION, 1);
}

#[test]
fn new_state_has_nothing_bound() {
    let state = State::new(None);
    assert_eq!(state, State { idle_notifier: None, seat: None, signal: None });
}

#[test]
fn seat_advert_binds_the_seat_only() {
    let mut state = State::new(None);
    let binding = state.registry_event(7, "wl_seat", 9);
    assert_eq!(binding, Some(Binding { capability: Capability::Seat, handle: handle(7) }));
    assert_eq!(state.seat, Some(handle(7)));
    assert_eq!(state.idle_notifier, None);
    assert_eq!(state.signal, None);
}

#[test]
fn notifier_advert_binds_the_notifier_only() {
    let mut state = State::new(None);
    let binding = state.registry_event(12, "ext_idle_notifier_v1", 2);
    assert_eq!(
        binding,
        Some(Binding { capability: Capability::IdleNotifier, handle: handle(12) })
    );
    assert_eq!(state.idle_notifier, Some(handle(12)));
    assert_eq!(state.seat, None);
}

#[test]
fn unrecognized_advert_changes_nothing() {
    let mut state = State::new(None);
    state.registry_event(1, "wl_seat", 1);
    let before = state;
    assert_eq!(state.registry_event(3, "wl_output", 2), None);
    assert_eq!(state.registry_event(4, "wl_compositor", 6), None);
    assert_eq!(state.registry_event(5, "", 1), None);
    assert_eq!(state, before);
}

#[test]
fn later_advert_of_a_kind_replaces_the_earlier() {
    let mut state = State::new(None);
    state.registry_event(1, "wl_seat", 1);
    state.registry_event(2, "ext_idle_notifier_v1", 1);
    state.registry_event(8, "wl_seat", 3);
    assert_eq!(state.seat, Some(handle(8)));
    assert_eq!(state.idle_notifier, Some(handle(2)));
}

#[test]
fn only_recognized_adverts_count_in_a_run() {
    let all: [(u32, &str, u32); 6] = [
        (1, "wl_compositor", 4),
        (2, "wl_seat", 7),
        (3, "wl_output", 2),
        (4, "ext_idle_notifier_v1", 1),
        (5, "xdg_wm_base", 3),
        (6, "wl_seat", 1),
    ];
    let mut with_all = State::new(None);
    let mut with_recognized = State::new(None);
    let mut bound: Vec<u32> = Vec::new();
    for (name, interface, version) in all {
        if let Some(binding) = with_all.registry_event(name, interface, version) {
            bound.push(binding.handle.name);
        }
        if interface == "wl_seat" || interface == "ext_idle_notifier_v1" {
            with_recognized.registry_event(name, interface, version);
        }
    }
    assert_eq!(bound, vec![2, 4, 6]);
    assert_eq!(with_all, with_recognized);
    assert_eq!(with_all.seat, Some(handle(6)));
    assert_eq!(with_all.idle_notifier, Some(handle(4)));
}

#[test]
fn subscribe_with_both_handles() {
    assert_eq!(
        subscribe(Some(handle(2)), 5000, Some(handle(1))),
        Ok(Subscription { notifier: handle(2), timeout_ms: 5000, seat: handle(1) })
    );
    assert_eq!(
        subscribe(Some(handle(2)), 1, Some(handle(1))),
        Ok(Subscription { notifier: handle(2), timeout_ms: 1, seat: handle(1) })
    );
    assert_eq!(
        subscribe(Some(handle(9)), u32::MAX, Some(handle(9))),
        Ok(Subscription { notifier: handle(9), timeout_ms: u32::MAX, seat: handle(9) })
    );
}

#[test]
fn subscribe_names_what_is_missing() {
    assert_eq!(
        subscribe(None, 5000, Some(handle(1))),
        Err(Missing { seat: false, idle_notifier: true })
    );
    assert_eq!(
        subscribe(Some(handle(2)), 5000, None),
        Err(Missing { seat: true, idle_notifier: false })
    );
    assert_eq!(subscribe(None, 5000, None), Err(Missing { seat: true, idle_notifier: true }));
}
