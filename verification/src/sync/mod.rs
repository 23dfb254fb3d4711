//! What peers of a room tell each other, and what each of them knows of the
//! room.

pub mod protocol;
pub mod state;

pub use protocol::{Participant, PlaybackInfo, SyncMessage, TrackInfo};
pub use state::{Room, RoomState};
