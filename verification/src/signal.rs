//! Outbound calls to the session manager.

use vstd::prelude::*;

verus! {

/// Why a session call failed.
#[derive(Clone, Copy, Debug, PartialEq, Eq)]
pub enum BridgeError {
    /// The session manager answered the call with an error.
    Rejected,
    /// The call could not be sent, or its answer could not be read.
    Transport,
}

/// A method call on the session object, ready to be sent over the bus.
#[derive(Clone, Copy, Debug, PartialEq, Eq)]
pub struct MethodCall {
    pub destination: &'static str,
    pub path: &'static str,
    pub interface: &'static str,
    pub member: &'static str,
    /// The single boolean argument, or `None` for a call without arguments.
    pub argument: Option<bool>,
}

/// The call that sets the session's idle hint to `idle`.
pub open spec fn hint_call(idle: bool) -> MethodCall {
    MethodCall {
        destination: "org.freedesktop.login1",
        path: "/org/freedesktop/login1/session/auto",
        interface: "org.freedesktop.login1.Session",
        member: "SetIdleHint",
        argument: Some(idle),
    }
}

/// The call that locks the session.
pub open spec fn lock_call() -> MethodCall {
    MethodCall {
        destination: "org.freedesktop.login1",
        path: "/org/freedesktop/login1/session/auto",
        interface: "org.freedesktop.login1.Session",
        member: "Lock",
        argument: None,
    }
}

/// The session object of the current login session, reached over an
/// established bus connection.
#[derive(Clone, Copy, Debug, PartialEq, Eq)]
pub struct Signal {}

impl Signal {
    pub fn new() -> (signal: Signal)
        ensures
            signal == (Signal {}),
    {
        Signal {}
    }

    /// Starts nothing and always succeeds.
    pub fn watch(&self) -> (outcome: Result<(), BridgeError>)
        ensures
            outcome == Ok::<(), BridgeError>(()),
    {
        Ok(())
    }

    /// Describes the call `SetIdleHint(idle)` on the session object.
    pub fn set_idle_hint(&self, idle: bool) -> (call: MethodCall)
        ensures
            call == hint_call(idle),
    {
        MethodCall {
            destination: "org.freedesktop.login1",
            path: "/org/freedesktop/login1/session/auto",
            interface: "org.freedesktop.login1.Session",
            member: "SetIdleHint",
            argument: Some(idle),
        }
    }

    /// Describes the call `Lock()` on the session object.
    pub fn lock(&self) -> (call: MethodCall)
        ensures
            call == lock_call(),
    {
        MethodCall {
            destination: "org.freedesktop.login1",
            path: "/org/freedesktop/login1/session/auto",
            interface: "org.freedesktop.login1.Session",
            member: "Lock",
            argument: None,
        }
    }
}

} // verus!
