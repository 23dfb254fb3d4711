//! Naming and finding rooms on the peer-to-peer overlay.

pub mod events;
pub mod manager;
pub mod room_code;
pub mod signaling;

pub use events::{NetworkCommand, NetworkError, NetworkEvent};
pub use manager::NetworkState;
pub use room_code::RoomCode;
pub use signaling::SignalingMessage;
