//! Focus Noise: the logic of a small offline noise player.
//!
//! The library holds what the player decides, apart from sound output and
//! the window: the shared enums, the labels in both languages, the saved
//! settings, the playback transport that the audio callback follows, and
//! the schedule that batches settings saves.
pub mod model;
pub mod localization;
pub mod settings;
pub mod schedule;
pub mod transport;
