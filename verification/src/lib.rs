//! Listening to music together: every participant runs a music player of
//! its own, one of them is the host, and the players of the others follow
//! the host's within a few hundred milliseconds.
//!
//! Nothing but control data goes over the network. What is here are the
//! rules of the room: the codes by which rooms are found, the estimate of
//! the latency to the host, the calibration of the seek offset, what a peer
//! knows of its room, what it does on each message, and who may use the
//! relay. Talking to the network and to the player is left to whoever drives
//! the session.

pub mod cider;
pub mod clock;
pub mod latency;
pub mod network;
pub mod relay;
pub mod seek_calibrator;
pub mod session;
pub mod string_map;
pub mod sync;
pub mod text;
