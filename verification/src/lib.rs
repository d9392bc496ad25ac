//! A session idle-management engine: it tracks user inactivity, fires a
//! configured, timeout-ordered sequence of actions (dim, lock, suspend,
//! arbitrary commands), and reacts to system events — suspend and wake, lid
//! and lock signals, power-source changes, inhibitors — by pausing,
//! resuming, resetting or re-triggering that sequence.
//!
//! The crate holds the decision logic only. Every operation takes the
//! current time and returns the commands to execute; the surrounding daemon
//! observes the system, serialises access to the [`engine::EngineState`],
//! hands events to [`dispatch::handle_event`], drives
//! [`dispatch::scheduler_step`], and runs what comes back.

pub mod control;
pub mod dispatch;
pub mod engine;
pub mod model;
pub mod power;
pub mod text;
pub mod utils;
