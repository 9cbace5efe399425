//! A host/guest invocation bridge.
//!
//! A host process holds a validated guest module, exposes a table of host
//! functions to it, and invokes guest-exported functions through a typed
//! call boundary. The library models the bridge itself: how each call is
//! dispatched, how guest-side faults are contained by poisoning the one
//! instance they occurred in, and how fatal host-side failures escalate
//! past outcome classification instead of becoming outcome values.

pub mod bytes;
pub mod dispatch;
pub mod guest;
pub mod host;
pub mod instance;
pub mod laws;
pub mod outcome;
