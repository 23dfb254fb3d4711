//! The local music player, as far as the session needs to know it.

pub mod client;
pub mod types;

pub use client::CiderError;
pub use types::{Artwork, NowPlaying, PlayParams};
