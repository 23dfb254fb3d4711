//! The relay: a node that forwards traffic between peers that cannot reach
//! each other, for peers of this system only.

pub mod admission;
pub mod dashboard;
pub mod metrics;
pub mod reachability;

pub use metrics::{truncate_peer_id, LogLevel, Metrics, ServerStatus};
