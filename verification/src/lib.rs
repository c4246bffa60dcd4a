//! Turns race-progress events of a speedrunning telemetry feed into
//! notifications for per-community chat channels.
//!
//! The crate holds the decisions: which subscriber groups an event qualifies
//! for, what the notification says, how it is cleaned once delivered, and
//! what the feed consumer does next. Sending, editing, connecting and waiting
//! are left to the caller.

pub mod cache;
pub mod dispatcher;
pub mod handler;
pub mod utils;
pub mod ws;
