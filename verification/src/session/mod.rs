//! The session: what a peer does when the network, the player or its user
//! tells it something.
//!
//! The session decides and never waits. Each of its functions takes what
//! happened and the time at which it happened, changes what the session
//! holds, and returns the actions that are to follow: messages to send,
//! commands for the player, notices for the user. Whoever drives the
//! session carries the actions out and comes back with what they brought.

pub mod commands;
pub mod engine;
pub mod handlers;
pub mod laws;
pub mod loops;
pub mod timing;
pub mod types;

pub use engine::Session;
pub use types::{Action, CoreError, CurrentPlayback, Notification, PlayerCommand, SyncStatus};
