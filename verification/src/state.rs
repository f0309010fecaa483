//! The bound capabilities and the reactions to compositor events.

use vstd::prelude::*;
use crate::signal::{hint_call, lock_call, MethodCall, Signal};
use crate::text::same_text;

verus! {

/// The version at which every recognized global is bound.
pub const BIND_VERSION: u32 = 1;

/// A compositor capability that the bridge needs.
#[derive(Clone, Copy, Debug, PartialEq, Eq, Structural)]
pub enum Capability {
    Seat,
    IdleNotifier,
}

/// A capability bound from an advertised global.
#[derive(Clone, Copy, Debug, PartialEq, Eq, Structural)]
pub struct Handle {
    /// The numeric id under which the global was advertised.
    pub name: u32,
    /// The version at which it was bound.
    pub version: u32,
}

/// The request to bind an advertised global, and the handle it yields.
#[derive(Clone, Copy, Debug, PartialEq, Eq, Structural)]
pub struct Binding {
    pub capability: Capability,
    pub handle: Handle,
}

/// One global as the registry advertises it.
pub ghost struct Advert {
    pub name: u32,
    pub interface: Seq<char>,
    pub version: u32,
}

/// What a subscription delivers.
#[derive(Clone, Copy, Debug, PartialEq, Eq, Structural)]
pub enum IdleEvent {
    /// The user has been inactive for the subscription's timeout.
    Idled,
    /// Activity was seen after an `Idled`.
    Resumed,
    /// Any other event of the subscription.
    Other,
}

/// The one idle notification requested from the compositor.
#[derive(Clone, Copy, Debug, PartialEq, Eq, Structural)]
pub struct Subscription {
    pub notifier: Handle,
    pub timeout_ms: u32,
    pub seat: Handle,
}

/// Which of the two capabilities a subscription could not be made for.
#[derive(Clone, Copy, Debug, PartialEq, Eq, Structural)]
pub struct Missing {
    pub seat: bool,
    pub idle_notifier: bool,
}

/// The capability that an interface name stands for, if it is a recognized one.
pub open spec fn recognize(interface: Seq<char>) -> Option<Capability> {
    if interface == "wl_seat"@ {
        Some(Capability::Seat)
    } else if interface == "ext_idle_notifier_v1"@ {
        Some(Capability::IdleNotifier)
    } else {
        None
    }
}

/// The handle that binding the global `name` yields.
pub open spec fn bound(name: u32) -> Handle {
    Handle { name, version: BIND_VERSION }
}

/// The bind request that answers one advertisement, if any.
pub open spec fn binding_for(advert: Advert) -> Option<Binding> {
    match recognize(advert.interface) {
        Some(capability) => Some(Binding { capability, handle: bound(advert.name) }),
        None => None,
    }
}

/// The session calls that answer `event`: the idle hint and then the lock
/// for `Idled`, the cleared idle hint for `Resumed`, and nothing where there
/// is no bus connection or the event is another one.
pub open spec fn reaction(event: IdleEvent, connected: bool) -> Seq<MethodCall> {
    if !connected {
        seq![]
    } else {
        match event {
            IdleEvent::Idled => seq![hint_call(true), lock_call()],
            IdleEvent::Resumed => seq![hint_call(false)],
            IdleEvent::Other => seq![],
        }
    }
}

/// The subscription made from two bound handles, or which of them is missing.
pub open spec fn subscription_for(
    notifier: Option<Handle>,
    timeout_ms: u32,
    seat: Option<Handle>,
) -> Result<Subscription, Missing> {
    if notifier is Some && seat is Some {
        Ok(Subscription { notifier: notifier->0, timeout_ms, seat: seat->0 })
    } else {
        Err(Missing { seat: seat is None, idle_notifier: notifier is None })
    }
}

/// Which interface name, if any, `interface` is.
pub fn capability_of(interface: &str) -> (capability: Option<Capability>)
    ensures
        capability == recognize(interface@),
{
    if same_text(interface, "wl_seat") {
        Some(Capability::Seat)
    } else if same_text(interface, "ext_idle_notifier_v1") {
        Some(Capability::IdleNotifier)
    } else {
        None
    }
}

/// Requests the idle notification for `timeout_ms` of inactivity on `seat`.
///
/// The timeout is the caller's to validate. A missing handle is answered
/// with the capabilities that are missing.
pub fn subscribe(notifier: Option<Handle>, timeout_ms: u32, seat: Option<Handle>) -> (outcome:
    Result<Subscription, Missing>)
    requires
        timeout_ms > 0,
    ensures
        outcome == subscription_for(notifier, timeout_ms, seat),
{
    match (notifier, seat) {
        (Some(notifier), Some(seat)) => Ok(Subscription { notifier, timeout_ms, seat }),
        _ => Err(Missing { seat: seat.is_none(), idle_notifier: notifier.is_none() }),
    }
}

/// What the event handlers share: the bound handles and the bus connection.
#[derive(Clone, Copy, Debug, PartialEq, Eq)]
pub struct State {
    pub idle_notifier: Option<Handle>,
    pub seat: Option<Handle>,
    pub signal: Option<Signal>,
}

impl State {
    /// The state after one advertisement: a recognized global replaces the
    /// handle of its kind, any other leaves the state as it is.
    pub open spec fn after_global(self, advert: Advert) -> State {
        match recognize(advert.interface) {
            Some(Capability::Seat) => State { seat: Some(bound(advert.name)), ..self },
            Some(Capability::IdleNotifier) => State {
                idle_notifier: Some(bound(advert.name)),
                ..self
            },
            None => self,
        }
    }

    /// The state after a run of advertisements, taken in their order.
    pub open spec fn after_globals(self, adverts: Seq<Advert>) -> State
        decreases adverts.len(),
    {
        if adverts.len() == 0 {
            self
        } else {
            self.after_globals(adverts.drop_last()).after_global(adverts.last())
        }
    }

    /// A state with nothing bound.
    pub fn new(signal: Option<Signal>) -> (state: State)
        ensures
            state == (State { idle_notifier: None, seat: None, signal }),
    {
        State { idle_notifier: None, seat: None, signal }
    }

    /// Takes one advertised global: binds it if its interface is recognized
    /// and returns the bind request, else does nothing.
    pub fn registry_event(&mut self, name: u32, interface: &str, version: u32) -> (binding: Option<
        Binding,
    >)
        ensures
            *final(self) == old(self).after_global(Advert { name, interface: interface@, version }),
            binding == binding_for(Advert { name, interface: interface@, version }),
    {
        match capability_of(interface) {
            Some(Capability::Seat) => {
                let handle = Handle { name, version: BIND_VERSION };
                self.seat = Some(handle);
                Some(Binding { capability: Capability::Seat, handle })
            },
            Some(Capability::IdleNotifier) => {
                let handle = Handle { name, version: BIND_VERSION };
                self.idle_notifier = Some(handle);
                Some(Binding { capability: Capability::IdleNotifier, handle })
            },
            None => None,
        }
    }

    /// The session calls to attempt for one event of the subscription, in
    /// their order. Each is to be attempted whatever became of the one before.
    pub fn idle_event(&self, event: IdleEvent) -> (calls: Vec<MethodCall>)
        ensures
            calls@ == reaction(event, self.signal is Some),
    {
        let mut calls: Vec<MethodCall> = Vec::new();
        if let Some(signal) = &self.signal {
            match event {
                IdleEvent::Idled => {
                    calls.push(signal.set_idle_hint(true));
                    calls.push(signal.lock());
                },
                IdleEvent::Resumed => {
                    calls.push(signal.set_idle_hint(false));
                },
                IdleEvent::Other => {},
            }
        }
        assert(calls@ =~= reaction(event, self.signal is Some));
        calls
    }
}

/// An advertisement whose interface is not recognized changes nothing.
pub proof fn lemma_unrecognized_is_ignored(state: State, advert: Advert)
    requires
        recognize(advert.interface) is None,
    ensures
        state.after_global(advert) == state,
        binding_for(advert) is None,
{
}

/// Over any run of advertisements, only those with a recognized interface
/// count: the state is the one that the recognized ones alone would give.
pub proof fn lemma_only_recognized_bind(state: State, adverts: Seq<Advert>)
    ensures
        state.after_globals(adverts) == state.after_globals(
            adverts.filter(|a: Advert| recognize(a.interface) is Some),
        ),
    decreases adverts.len(),
{
    let recognized = |a: Advert| recognize(a.interface) is Some;
    reveal(Seq::filter);
    if adverts.len() > 0 {
        let front = adverts.drop_last();
        let last = adverts.last();
        lemma_only_recognized_bind(state, front);
        if recognized(last) {
            let kept = front.filter(recognized).push(last);
            assert(kept.drop_last() =~= front.filter(recognized));
            assert(kept.last() == last);
            assert(adverts.filter(recognized) == kept);
        } else {
            assert(adverts.filter(recognized) == front.filter(recognized));
        }
    }
}

/// A run of advertisements leaves the bus connection alone, and leaves a
/// handle alone unless one of them names that handle's interface.
pub proof fn lemma_globals_touch_only_their_kind(state: State, adverts: Seq<Advert>)
    ensures
        state.after_globals(adverts).signal == state.signal,
        (forall|i: int| 0 <= i < adverts.len() ==> recognize(#[trigger] adverts[i].interface)
            != Some(Capability::Seat)) ==> state.after_globals(adverts).seat == state.seat,
        (forall|i: int| 0 <= i < adverts.len() ==> recognize(#[trigger] adverts[i].interface)
            != Some(Capability::IdleNotifier)) ==> state.after_globals(adverts).idle_notifier
            == state.idle_notifier,
    decreases adverts.len(),
{
    if adverts.len() > 0 {
        let front = adverts.drop_last();
        lemma_globals_touch_only_their_kind(state, front);
        assert(forall|i: int| 0 <= i < front.len() ==> front[i] == adverts[i]);
    }
}

/// The handle of a kind after a run of advertisements is the one bound from
/// the last advertisement of that kind.
pub proof fn lemma_last_advert_of_a_kind_wins(state: State, adverts: Seq<Advert>, i: int)
    requires
        0 <= i < adverts.len(),
        recognize(adverts[i].interface) is Some,
        forall|j: int|
            i < j < adverts.len() ==> recognize(#[trigger] adverts[j].interface) != recognize(
                adverts[i].interface,
            ),
    ensures
        match recognize(adverts[i].interface)->0 {
            Capability::Seat => state.after_globals(adverts).seat == Some(
                bound(adverts[i].name),
            ),
            Capability::IdleNotifier => state.after_globals(adverts).idle_notifier == Some(
                bound(adverts[i].name),
            ),
        },
    decreases adverts.len(),
{
    let front = adverts.drop_last();
    if i < adverts.len() - 1 {
        assert(forall|j: int| 0 <= j < front.len() ==> front[j] == adverts[j]);
        lemma_last_advert_of_a_kind_wins(state, front, i);
        assert(recognize(adverts[adverts.len() - 1].interface) != recognize(
            adverts[i].interface,
        ));
    }
}

/// With a bus connection, `Idled` is answered by exactly two calls: the idle
/// hint set to true, then the lock.
pub proof fn lemma_idled_sets_hint_then_locks()
    ensures
        reaction(IdleEvent::Idled, true).len() == 2,
        reaction(IdleEvent::Idled, true)[0] == hint_call(true),
        reaction(IdleEvent::Idled, true)[1] == lock_call(),
        hint_call(true) != lock_call(),
{
}

/// With a bus connection, `Resumed` is answered by exactly one call, the
/// idle hint set to false, and by no lock.
pub proof fn lemma_resumed_clears_hint_only()
    ensures
        reaction(IdleEvent::Resumed, true).len() == 1,
        reaction(IdleEvent::Resumed, true)[0] == hint_call(false),
        !reaction(IdleEvent::Resumed, true).contains(lock_call()),
{
}

/// Without a bus connection no event is answered by any call.
pub proof fn lemma_no_bus_no_calls(event: IdleEvent)
    ensures
        reaction(event, false).len() == 0,
{
}

} // verus!
