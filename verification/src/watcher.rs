//! The controller: connect, discover, subscribe, then dispatch for good.
//!
//! The controller performs no transport work itself. Its caller hands it
//! each thing that happened as an [`Event`] and carries out the [`Action`]s
//! it answers with, in their order.

use vstd::prelude::*;
use crate::catcher::{lock_signal, Catcher, SignalMatch};
use crate::signal::{hint_call, lock_call, BridgeError, MethodCall, Signal};
use crate::state::{
    binding_for, reaction, recognize, subscribe, subscription_for, Advert, Binding, IdleEvent,
    Missing, State, Subscription,
};

verus! {

/// Why the controller gave up.
#[derive(Clone, Copy, Debug, PartialEq, Eq, Structural)]
pub enum Fatal {
    /// The compositor could not be reached.
    CompositorUnreachable,
    /// After discovery a required capability was not bound.
    MissingCapability(Missing),
    /// Dispatching compositor events failed.
    DispatchFailed,
}

/// Where the controller stands.
#[derive(Clone, Copy, Debug, PartialEq, Eq, Structural)]
pub enum Phase {
    Connecting,
    Discovering,
    Running,
    Aborted(Fatal),
}

/// Something that happened outside, reported to the controller.
#[derive(Debug, PartialEq, Eq)]
pub enum Event {
    CompositorConnected,
    CompositorUnreachable,
    BusConnected,
    BusUnavailable,
    /// The registry advertised a global.
    Global { name: u32, interface: String, version: u32 },
    /// The subscription delivered an event.
    Idle(IdleEvent),
    /// A session call that was attempted has failed.
    CallFailed(MethodCall, BridgeError),
    /// The session manager asked for the screen to be locked.
    LockSignal,
    /// One blocking dispatch of compositor events came back.
    DispatchDone,
    /// One blocking dispatch of compositor events failed.
    DispatchFailed,
}

/// Something to tell the user that stops nothing.
#[derive(Clone, Copy, Debug, PartialEq, Eq)]
pub enum Warning {
    /// There is no bus connection: idle hint and lock are switched off.
    Degraded,
    /// A session call failed; the calls after it are attempted all the same.
    CallFailed(MethodCall, BridgeError),
}

/// Something for the caller to carry out.
#[derive(Clone, Copy, Debug, PartialEq, Eq)]
pub enum Action {
    /// Try, once, to reach the system bus, and report `Event::BusConnected`
    /// or `Event::BusUnavailable`.
    ConnectBus,
    /// Ask the compositor for its registry of globals.
    RequestGlobals,
    /// Dispatch one batch of compositor events, blocking until there is one.
    Dispatch,
    /// Bind an advertised global.
    Bind(Binding),
    /// Create the idle notification.
    Subscribe(Subscription),
    /// Attempt a session call, and report a failure as `Event::CallFailed`
    /// before going on with the actions that follow.
    Call(MethodCall),
    /// Listen for a signal of the session object.
    Listen(SignalMatch),
    /// Run the screen locker.
    RunLocker,
    /// Print a warning.
    Warn(Warning),
    /// Stop the process with a failure.
    Abort(Fatal),
}

/// Each session call as the action that attempts it.
pub open spec fn as_actions(calls: Seq<MethodCall>) -> Seq<Action> {
    Seq::new(calls.len(), |i: int| Action::Call(calls[i]))
}

/// The controller as contracts see it.
pub ghost struct Control {
    pub timeout: u32,
    pub phase: Phase,
    pub state: State,
    pub subscription: Option<Subscription>,
    /// Whether the one attempt to reach the bus has been answered.
    pub bus_tried: bool,
}

impl Control {
    /// What holds of every controller: the timeout is positive; before
    /// discovery nothing is bound and the bus is untried; there is a bus
    /// connection only once the bus was tried; there is a subscription, made
    /// with that timeout, exactly from the moment `Running` is entered; and
    /// `Running` has both capabilities bound.
    pub open spec fn wf(self) -> bool {
        &&& self.timeout > 0
        &&& self.phase is Connecting ==> self.state.seat is None && self.state.idle_notifier
            is None && !self.bus_tried
        &&& self.state.signal is Some ==> self.bus_tried
        &&& self.phase is Connecting || self.phase is Discovering ==> self.subscription is None
        &&& self.phase is Running ==> self.subscription is Some && self.state.seat is Some
            && self.state.idle_notifier is Some
        &&& self.subscription is Some ==> self.subscription->0.timeout_ms == self.timeout
    }

    pub open spec fn in_phase(self, phase: Phase) -> Control {
        Control { phase, ..self }
    }

    pub open spec fn with_bus(self, signal: Option<Signal>) -> Control {
        Control { state: State { signal, ..self.state }, bus_tried: true, ..self }
    }

    /// The answer to the outcome of the attempt to reach the bus. Only the
    /// first outcome counts: with a connection the lock signal is listened
    /// for, without one a warning is given.
    pub open spec fn bus_step(self, connected: bool) -> (Control, Seq<Action>) {
        if self.bus_tried {
            (self, seq![])
        } else if connected {
            (self.with_bus(Some(Signal {  })), seq![Action::Listen(lock_signal())])
        } else {
            (self.with_bus(None), seq![Action::Warn(Warning::Degraded)])
        }
    }

    /// The answer to an advertised global.
    pub open spec fn global_step(self, advert: Advert) -> (Control, Seq<Action>) {
        (
            Control { state: self.state.after_global(advert), ..self },
            match binding_for(advert) {
                Some(binding) => seq![Action::Bind(binding)],
                None => seq![],
            },
        )
    }

    /// The answer to the end of the discovery dispatch: subscribe and run
    /// if both capabilities are bound, else give up.
    pub open spec fn discovered_step(self) -> (Control, Seq<Action>) {
        match subscription_for(self.state.idle_notifier, self.timeout, self.state.seat) {
            Ok(subscription) => (
                Control { phase: Phase::Running, subscription: Some(subscription), ..self },
                seq![Action::Subscribe(subscription), Action::Dispatch],
            ),
            Err(missing) => self.abort_step(Fatal::MissingCapability(missing)),
        }
    }

    /// The answer to a failed session call: a warning, and nothing else.
    pub open spec fn failed_step(self, call: MethodCall, error: BridgeError) -> (
        Control,
        Seq<Action>,
    ) {
        (self, seq![Action::Warn(Warning::CallFailed(call, error))])
    }

    pub open spec fn abort_step(self, fatal: Fatal) -> (Control, Seq<Action>) {
        (self.in_phase(Phase::Aborted(fatal)), seq![Action::Abort(fatal)])
    }

    /// The controller after `event`, and the actions that answer it.
    pub open spec fn step(self, event: Event) -> (Control, Seq<Action>) {
        match self.phase {
            Phase::Connecting => match event {
                Event::CompositorConnected => (
                    self.in_phase(Phase::Discovering),
                    seq![Action::ConnectBus, Action::RequestGlobals, Action::Dispatch],
                ),
                Event::CompositorUnreachable => self.abort_step(Fatal::CompositorUnreachable),
                Event::CallFailed(call, error) => self.failed_step(call, error),
                Event::LockSignal => (self, seq![Action::RunLocker]),
                _ => (self, seq![]),
            },
            Phase::Discovering => match event {
                Event::BusConnected => self.bus_step(true),
                Event::BusUnavailable => self.bus_step(false),
                Event::Global { name, interface, version } => self.global_step(
                    Advert { name, interface: interface@, version },
                ),
                Event::DispatchDone => self.discovered_step(),
                Event::DispatchFailed => self.abort_step(Fatal::DispatchFailed),
                Event::CallFailed(call, error) => self.failed_step(call, error),
                Event::LockSignal => (self, seq![Action::RunLocker]),
                _ => (self, seq![]),
            },
            Phase::Running => match event {
                Event::Global { name, interface, version } => self.global_step(
                    Advert { name, interface: interface@, version },
                ),
                Event::Idle(idle) => (self, as_actions(reaction(idle, self.state.signal is Some))),
                Event::DispatchDone => (self, seq![Action::Dispatch]),
                Event::DispatchFailed => self.abort_step(Fatal::DispatchFailed),
                Event::CallFailed(call, error) => self.failed_step(call, error),
                Event::LockSignal => (self, seq![Action::RunLocker]),
                _ => (self, seq![]),
            },
            Phase::Aborted(_) => (self, seq![]),
        }
    }

    /// The controller after a run of events, taken in their order.
    pub open spec fn after(self, events: Seq<Event>) -> Control
        decreases events.len(),
    {
        if events.len() == 0 {
            self
        } else {
            self.after(events.drop_last()).step(events.last()).0
        }
    }
}

/// The bridge controller.
pub struct Watcher {
    timeout: u32,
    phase: Phase,
    state: State,
    subscription: Option<Subscription>,
    bus_tried: bool,
}

impl View for Watcher {
    type V = Control;

    closed spec fn view(&self) -> Control {
        Control {
            timeout: self.timeout,
            phase: self.phase,
            state: self.state,
            subscription: self.subscription,
            bus_tried: self.bus_tried,
        }
    }
}

impl Watcher {
    /// A controller that has yet to hear of the compositor, with nothing
    /// bound and the bus untried.
    pub fn new(idle_timeout: u32) -> (watcher: Watcher)
        requires
            idle_timeout > 0,
        ensures
            watcher@ == (Control {
                timeout: idle_timeout,
                phase: Phase::Connecting,
                state: State { idle_notifier: None, seat: None, signal: None },
                subscription: None,
                bus_tried: false,
            }),
            watcher@.wf(),
    {
        Watcher {
            timeout: idle_timeout,
            phase: Phase::Connecting,
            state: State::new(None),
            subscription: None,
            bus_tried: false,
        }
    }

    pub fn timeout(&self) -> (timeout: u32)
        ensures
            timeout == self@.timeout,
    {
        self.timeout
    }

    pub fn phase(&self) -> (phase: Phase)
        ensures
            phase == self@.phase,
    {
        self.phase
    }

    pub fn state(&self) -> (state: State)
        ensures
            state == self@.state,
    {
        self.state
    }

    pub fn subscription(&self) -> (subscription: Option<Subscription>)
        ensures
            subscription == self@.subscription,
    {
        self.subscription
    }

    fn abort(&mut self, fatal: Fatal) -> (actions: Vec<Action>)
        ensures
            (final(self)@, actions@) == old(self)@.abort_step(fatal),
    {
        self.phase = Phase::Aborted(fatal);
        let actions = vec![Action::Abort(fatal)];
        assert(actions@ =~= seq![Action::Abort(fatal)]);
        actions
    }

    fn bus(&mut self, connected: bool) -> (actions: Vec<Action>)
        ensures
            (final(self)@, actions@) == old(self)@.bus_step(connected),
    {
        let actions = if self.bus_tried {
            Vec::new()
        } else if connected {
            self.bus_tried = true;
            self.state.signal = Some(Signal::new());
            vec![Action::Listen(Catcher::new().receive_lock_signal())]
        } else {
            self.bus_tried = true;
            self.state.signal = None;
            vec![Action::Warn(Warning::Degraded)]
        };
        assert(actions@ =~= old(self)@.bus_step(connected).1);
        actions
    }

    fn global(&mut self, name: u32, interface: &str, version: u32) -> (actions: Vec<Action>)
        ensures
            (final(self)@, actions@) == old(self)@.global_step(
                Advert { name, interface: interface@, version },
            ),
    {
        let mut actions: Vec<Action> = Vec::new();
        if let Some(binding) = self.state.registry_event(name, interface, version) {
            actions.push(Action::Bind(binding));
        }
        assert(actions@ =~= old(self)@.global_step(
            Advert { name, interface: interface@, version },
        ).1);
        actions
    }

    fn discovered(&mut self) -> (actions: Vec<Action>)
        requires
            old(self)@.timeout > 0,
        ensures
            (final(self)@, actions@) == old(self)@.discovered_step(),
    {
        match subscribe(self.state.idle_notifier, self.timeout, self.state.seat) {
            Ok(subscription) => {
                self.phase = Phase::Running;
                self.subscription = Some(subscription);
                let actions = vec![Action::Subscribe(subscription), Action::Dispatch];
                assert(actions@ =~= seq![Action::Subscribe(subscription), Action::Dispatch]);
                actions
            },
            Err(missing) => self.abort(Fatal::MissingCapability(missing)),
        }
    }

    fn idle(&self, event: IdleEvent) -> (actions: Vec<Action>)
        ensures
            actions@ == as_actions(reaction(event, self@.state.signal is Some)),
    {
        let calls = self.state.idle_event(event);
        let mut actions: Vec<Action> = Vec::new();
        let mut i: usize = 0;
        while i < calls.len()
            invariant
                i <= calls.len(),
                actions@.len() == i,
                forall|k: int| 0 <= k < i ==> actions@[k] == Action::Call(calls@[k]),
            decreases calls.len() - i,
        {
            actions.push(Action::Call(calls[i]));
            i += 1;
        }
        assert(actions@ =~= as_actions(calls@));
        actions
    }

    /// Takes one event and answers with the actions to carry out, in their
    /// order. Once aborted, the controller answers nothing.
    pub fn run(&mut self, event: Event) -> (actions: Vec<Action>)
        requires
            old(self)@.wf(),
        ensures
            (final(self)@, actions@) == old(self)@.step(event),
            final(self)@.wf(),
    {
        match self.phase {
            Phase::Connecting => match event {
                Event::CompositorConnected => {
                    self.phase = Phase::Discovering;
                    let actions = vec![
                        Action::ConnectBus,
                        Action::RequestGlobals,
                        Action::Dispatch,
                    ];
                    assert(actions@ =~= seq![
                        Action::ConnectBus,
                        Action::RequestGlobals,
                        Action::Dispatch,
                    ]);
                    actions
                },
                Event::CompositorUnreachable => self.abort(Fatal::CompositorUnreachable),
                Event::CallFailed(call, error) => Self::failed(call, error),
                Event::LockSignal => Self::locker(),
                _ => Vec::new(),
            },
            Phase::Discovering => match event {
                Event::BusConnected => self.bus(true),
                Event::BusUnavailable => self.bus(false),
                Event::Global { name, interface, version } => self.global(
                    name,
                    interface.as_str(),
                    version,
                ),
                Event::DispatchDone => self.discovered(),
                Event::DispatchFailed => self.abort(Fatal::DispatchFailed),
                Event::CallFailed(call, error) => Self::failed(call, error),
                Event::LockSignal => Self::locker(),
                _ => Vec::new(),
            },
            Phase::Running => match event {
                Event::Global { name, interface, version } => self.global(
                    name,
                    interface.as_str(),
                    version,
                ),
                Event::Idle(idle) => self.idle(idle),
                Event::DispatchDone => {
                    let actions = vec![Action::Dispatch];
                    assert(actions@ =~= seq![Action::Dispatch]);
                    actions
                },
                Event::DispatchFailed => self.abort(Fatal::DispatchFailed),
                Event::CallFailed(call, error) => Self::failed(call, error),
                Event::LockSignal => Self::locker(),
                _ => Vec::new(),
            },
            Phase::Aborted(_) => Vec::new(),
        }
    }

    fn failed(call: MethodCall, error: BridgeError) -> (actions: Vec<Action>)
        ensures
            actions@ == seq![Action::Warn(Warning::CallFailed(call, error))],
    {
        let actions = vec![Action::Warn(Warning::CallFailed(call, error))];
        assert(actions@ =~= seq![Action::Warn(Warning::CallFailed(call, error))]);
        actions
    }

    fn locker() -> (actions: Vec<Action>)
        ensures
            actions@ == seq![Action::RunLocker],
    {
        let actions = vec![Action::RunLocker];
        assert(actions@ =~= seq![Action::RunLocker]);
        actions
    }
}

/// Every step keeps a well-formed controller well-formed.
pub proof fn lemma_step_keeps_wf(control: Control, event: Event)
    requires
        control.wf(),
    ensures
        control.step(event).0.wf(),
{
}

/// Whatever events arrive, a well-formed controller stays well-formed: in
/// particular it is `Running` only with a subscription and with both
/// capabilities bound.
pub proof fn lemma_after_keeps_wf(control: Control, events: Seq<Event>)
    requires
        control.wf(),
    ensures
        control.after(events).wf(),
    decreases events.len(),
{
    if events.len() > 0 {
        lemma_after_keeps_wf(control, events.drop_last());
        lemma_step_keeps_wf(control.after(events.drop_last()), events.last());
    }
}

/// When the discovery dispatch ends with the seat or the idle notifier not
/// bound, the controller aborts: it names what is missing, asks for no
/// subscription and has none.
pub proof fn lemma_missing_capability_aborts(control: Control)
    requires
        control.wf(),
        control.phase is Discovering,
        control.state.seat is None || control.state.idle_notifier is None,
    ensures
        ({
            let missing = Missing {
                seat: control.state.seat is None,
                idle_notifier: control.state.idle_notifier is None,
            };
            let (next, actions) = control.step(Event::DispatchDone);
            &&& next.phase == Phase::Aborted(Fatal::MissingCapability(missing))
            &&& next.subscription is None
            &&& actions == seq![Action::Abort(Fatal::MissingCapability(missing))]
        }),
{
}

/// A subscription is asked for only at the end of the discovery dispatch,
/// only with both capabilities bound, and it is made from those two handles
/// and the controller's timeout; the controller is then `Running`.
pub proof fn lemma_subscribe_needs_both(control: Control, event: Event, i: int)
    requires
        control.wf(),
        0 <= i < control.step(event).1.len(),
        control.step(event).1[i] is Subscribe,
    ensures
        control.phase is Discovering,
        event is DispatchDone,
        control.state.seat is Some,
        control.state.idle_notifier is Some,
        control.step(event).1[i] == Action::Subscribe(
            Subscription {
                notifier: control.state.idle_notifier->0,
                timeout_ms: control.timeout,
                seat: control.state.seat->0,
            },
        ),
        control.step(event).0.phase is Running,
{
}

/// Once there is a subscription it stays the same one, and no other is
/// asked for.
pub proof fn lemma_subscription_is_kept(control: Control, event: Event)
    requires
        control.wf(),
        control.subscription is Some,
    ensures
        control.step(event).0.subscription == control.subscription,
        forall|i: int|
            0 <= i < control.step(event).1.len() ==> !(#[trigger] control.step(event).1[i]
                is Subscribe),
{
}

/// `Running` is entered from `Discovering` alone, and no step leads back
/// to an earlier phase.
pub proof fn lemma_phases_move_forward(control: Control, event: Event)
    ensures
        control.step(event).0.phase is Connecting ==> control.phase is Connecting,
        control.step(event).0.phase is Discovering ==> control.phase is Connecting
            || control.phase is Discovering,
        control.step(event).0.phase is Running ==> control.phase is Discovering
            || control.phase is Running,
{
}

/// An aborted controller stays as it is and answers nothing.
pub proof fn lemma_aborted_is_final(control: Control, events: Seq<Event>)
    requires
        control.phase is Aborted,
    ensures
        control.after(events) == control,
        forall|event: Event| (#[trigger] control.step(event)).1.len() == 0,
    decreases events.len(),
{
    if events.len() > 0 {
        lemma_aborted_is_final(control, events.drop_last());
    }
}

/// While running with a bus connection, `Idled` is answered by the idle
/// hint set to true and then the lock, each once, and changes nothing in
/// the controller: a second `Idled` is answered like the first.
pub proof fn lemma_idled_answer(control: Control)
    requires
        control.phase is Running,
        control.state.signal is Some,
    ensures
        control.step(Event::Idle(IdleEvent::Idled)) == (
            control,
            seq![Action::Call(hint_call(true)), Action::Call(lock_call())],
        ),
        hint_call(true) != lock_call(),
{
    assert(control.step(Event::Idle(IdleEvent::Idled)).1 =~= seq![
        Action::Call(hint_call(true)),
        Action::Call(lock_call()),
    ]);
}

/// While running with a bus connection, `Resumed` is answered by the idle
/// hint set to false, once, and by no lock; the controller is unchanged.
pub proof fn lemma_resumed_answer(control: Control)
    requires
        control.phase is Running,
        control.state.signal is Some,
    ensures
        control.step(Event::Idle(IdleEvent::Resumed)) == (
            control,
            seq![Action::Call(hint_call(false))],
        ),
        hint_call(false) != lock_call(),
{
    assert(control.step(Event::Idle(IdleEvent::Resumed)).1 =~= seq![
        Action::Call(hint_call(false)),
    ]);
}

/// The bus is asked for on entering discovery and at no other time.
pub proof fn lemma_bus_is_asked_for_once(control: Control, event: Event, i: int)
    requires
        0 <= i < control.step(event).1.len(),
        control.step(event).1[i] is ConnectBus,
    ensures
        control.phase is Connecting,
        event is CompositorConnected,
        control.step(event).0.phase is Discovering,
{
}

/// Only the first outcome of the attempt to reach the bus is taken: once
/// it is, the bus connection stays as it is, and neither the warning of a
/// missing bus nor the request to listen is given again.
pub proof fn lemma_bus_outcome_counts_once(control: Control, event: Event)
    requires
        control.bus_tried,
    ensures
        control.step(event).0.bus_tried,
        control.step(event).0.state.signal == control.state.signal,
        forall|i: int|
            0 <= i < control.step(event).1.len() ==> {
                let action = #[trigger] control.step(event).1[i];
                action != Action::Warn(Warning::Degraded) && !(action is Listen)
            },
{
}

/// A failed session call changes nothing in the controller and is answered
/// by a warning alone: what was to be attempted after it still is.
pub proof fn lemma_failed_call_is_only_warned(
    control: Control,
    call: MethodCall,
    error: BridgeError,
)
    ensures
        control.step(Event::CallFailed(call, error)).0 == control,
        !(control.phase is Aborted) ==> control.step(Event::CallFailed(call, error)).1
            == seq![Action::Warn(Warning::CallFailed(call, error))],
{
}

/// Without a bus connection no event, in any phase, is answered by a
/// session call.
pub proof fn lemma_no_bus_no_call(control: Control, event: Event)
    requires
        control.state.signal is None,
    ensures
        forall|i: int|
            0 <= i < control.step(event).1.len() ==> !(#[trigger] control.step(event).1[i]
                is Call),
{
}

/// A session call is attempted only while running, and only in answer to
/// an event of the subscription.
pub proof fn lemma_calls_answer_idle_events(control: Control, event: Event, i: int)
    requires
        0 <= i < control.step(event).1.len(),
        control.step(event).1[i] is Call,
    ensures
        control.phase is Running,
        event is Idle,
        control.state.signal is Some,
        control.step(event).0 == control,
{
}

/// An advertised global with an unrecognized interface changes nothing in
/// the controller and is answered by nothing, in every phase.
pub proof fn lemma_unrecognized_global_is_ignored(
    control: Control,
    name: u32,
    interface: String,
    version: u32,
)
    requires
        recognize(interface@) is None,
    ensures
        control.step(Event::Global { name, interface, version }) == (
            control,
            Seq::<Action>::empty(),
        ),
{
    let (next, actions) = control.step(Event::Global { name, interface, version });
    assert(actions =~= Seq::<Action>::empty());
}

} // verus!
