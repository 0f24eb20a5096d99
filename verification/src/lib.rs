//! Command core of a desktop application shell: a closed set of commands
//! dispatched against a single guarded shared state, with three delivery
//! channels back to the frontend — direct replies, fire-and-forget broadcast
//! notifications, and a strictly ordered per-invocation message stream.
//!
//! The host process owns the transport (windows, channels, timers) and calls
//! into this crate for every decision: which reply a command produces, how the
//! state changes, which notifications to broadcast, and which stream message
//! to send next.

pub mod commands;
pub mod dispatch;
pub mod errors;
pub mod state;
pub mod text;
