//! Shared enums of the player.
use vstd::prelude::*;

verus! {

/// The kind of noise that the player generates.
#[derive(Clone, Copy, Debug, PartialEq, Eq, Hash, Structural)]
pub enum NoiseKind {
    White,
    Brown,
}

impl NoiseKind {
    /// Every noise kind, in the order the interface offers them.
    pub const ALL: [NoiseKind; 2] = [NoiseKind::White, NoiseKind::Brown];
}

/// Where the player stands: silent, sounding, or moving between the two.
#[derive(Clone, Copy, Debug, PartialEq, Eq, Hash, Structural)]
pub enum PlaybackState {
    Stopped,
    Playing,
    Paused,
    FadingIn,
    FadingOut,
}

/// The language of the interface.
#[derive(Clone, Copy, Debug, PartialEq, Eq, Hash, Structural)]
pub enum Language {
    Japanese,
    English,
}

impl Language {
    /// Every language, in the order the interface offers them.
    pub const ALL: [Language; 2] = [Language::Japanese, Language::English];
}

} // verus!
