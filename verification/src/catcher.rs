//! The inbound lock signal of the session manager.

use vstd::prelude::*;

verus! {

/// A broadcast signal of the session object to listen for.
#[derive(Clone, Copy, Debug, PartialEq, Eq)]
pub struct SignalMatch {
    pub sender: &'static str,
    pub path: &'static str,
    pub interface: &'static str,
    pub member: &'static str,
}

/// The session object's `Lock` signal.
pub open spec fn lock_signal() -> SignalMatch {
    SignalMatch {
        sender: "org.freedesktop.login1",
        path: "/org/freedesktop/login1/session/auto",
        interface: "org.freedesktop.login1.Session",
        member: "Lock",
    }
}

/// The listener for the session manager's requests to lock the screen.
#[derive(Clone, Copy, Debug, PartialEq, Eq)]
pub struct Catcher {}

impl Catcher {
    pub fn new() -> (catcher: Catcher)
        ensures
            catcher == (Catcher {}),
    {
        Catcher {}
    }

    /// Describes the signal to subscribe to.
    pub fn receive_lock_signal(&self) -> (signal: SignalMatch)
        ensures
            signal == lock_signal(),
    {
        SignalMatch {
            sender: "org.freedesktop.login1",
            path: "/org/freedesktop/login1/session/auto",
            interface: "org.freedesktop.login1.Session",
            member: "Lock",
        }
    }
}

} // verus!
