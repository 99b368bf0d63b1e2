//! Playback of the audio of a loaded session.

pub mod player;

pub use player::{AudioCommand, AudioStatus, PlaybackState};
