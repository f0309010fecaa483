//! Bridge between a compositor's idle notifications and a session manager.
//!
//! The library holds the decisions of the bridge: which advertised globals
//! are bound, when a subscription may be created, which session calls answer
//! an idle or resume event, and how the controller moves through its phases.
//! The transports themselves are driven by the caller, which feeds events in
//! and carries the returned actions out.

pub mod text;
pub mod signal;
pub mod catcher;
pub mod state;
pub mod watcher;
