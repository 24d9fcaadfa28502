//! Waiting, without races, until another process has created a file at a known path.
//!
//! The library decides; the caller acts. `Options` holds the configuration, `watch`
//! chooses what to subscribe to and reads the notifications that come back, and
//! `engine` is the wait-then-open protocol as a state machine: each call of
//! `Phase::step` takes what the last action produced and names the next action
//! (subscribe, open, block for events, sleep, return, fail).
mod options;
pub mod watch;
pub mod engine;
pub mod laws;

pub use options::{AccessMode, Options};
