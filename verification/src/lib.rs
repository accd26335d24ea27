//! Idle-logout core: watches a dynamic set of input devices for sustained
//! inactivity, derives a single global-idle signal, and drives a cancellable
//! warning countdown that ends in a session action (log out or lock).
//!
//! This crate holds the verified logic: the idle-aggregation state machine,
//! the countdown controller, the coordination protocol between them, and the
//! session-action resolver. The surrounding process (display-server transport,
//! desktop notifications, group lookup, argument parsing) lives outside and
//! hands these components plain values.

pub mod config;
pub mod counter;
pub mod system;
mod ids;
pub mod watcher;
