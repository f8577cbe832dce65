//! The settings that the player saves between runs.
use vstd::prelude::*;

use crate::model::{Language, NoiseKind};

verus! {

/// The saved settings. Volume and balance are percentages (a balance of 50
/// is centred, 0 is full left, 100 full right); the fade length is in seconds.
#[derive(Clone, Copy, Debug, PartialEq, Eq, Structural)]
pub struct Settings {
    pub noise_kind: NoiseKind,
    pub volume: u8,
    pub balance: u8,
    pub fade_seconds: u8,
    pub language: Language,
}

impl Settings {
    /// The settings of a first run: white noise at half volume, centred,
    /// with a two-second fade, in English.
    pub open spec fn initial() -> Settings {
        Settings {
            noise_kind: NoiseKind::White,
            volume: 50,
            balance: 50,
            fade_seconds: 2,
            language: Language::English,
        }
    }

    /// What loading gives: the settings that were read back where there are
    /// any, and the first-run settings where none could be read.
    pub open spec fn loaded(read: Option<Settings>) -> Settings {
        match read {
            Some(settings) => settings,
            None => Settings::initial(),
        }
    }

    /// Settles what a load yields, given the settings that could be read
    /// back (`None` where the file was missing or did not parse).
    pub fn from_loaded(read: Option<Settings>) -> (r: Settings)
        ensures
            r == Settings::loaded(read),
            read matches Some(settings) ==> r == settings,
            read is None ==> r == Settings::initial(),
    {
        match read {
            Some(settings) => settings,
            None => Settings::default(),
        }
    }
}

/// Loading gives back exactly the settings that were read, whatever they
/// are, and the first-run settings only where nothing could be read.
pub proof fn lemma_loading_keeps_what_was_read(settings: Settings)
    ensures
        Settings::loaded(Some(settings)) == settings,
        Settings::loaded(None) == Settings::initial(),
{
}

/// The first-run settings: white noise at volume 50, centred, a two-second
/// fade, in English.
pub proof fn lemma_initial_settings()
    ensures
        Settings::initial().noise_kind == NoiseKind::White,
        Settings::initial().volume == 50,
        Settings::initial().balance == 50,
        Settings::initial().fade_seconds == 2,
        Settings::initial().language == Language::English,
{
}

impl Default for Settings {
    fn default() -> (r: Settings)
        ensures
            r == Settings::initial(),
    {
        Settings {
            noise_kind: NoiseKind::White,
            volume: 50,
            balance: 50,
            fade_seconds: 2,
            language: Language::English,
        }
    }
}

} // verus!
