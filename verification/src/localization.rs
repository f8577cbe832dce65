//! Labels of the interface in Japanese and English.
use vstd::prelude::*;

use crate::model::{Language, NoiseKind, PlaybackState};

verus! {

/// The text, of the two given, that belongs to `language`.
pub open spec fn choose_text(language: Language, english: Seq<char>, japanese: Seq<char>) -> Seq<char> {
    match language {
        Language::English => english,
        Language::Japanese => japanese,
    }
}

/// The name of each language, written in that language.
pub open spec fn language_name(language: Language) -> Seq<char> {
    match language {
        Language::Japanese => "日本語"@,
        Language::English => "English"@,
    }
}

/// The name of a noise kind in the interface language.
pub open spec fn noise_name(language: Language, kind: NoiseKind) -> Seq<char> {
    match (language, kind) {
        (Language::English, NoiseKind::White) => "White noise"@,
        (Language::English, NoiseKind::Brown) => "Brown noise"@,
        (Language::Japanese, NoiseKind::White) => "ホワイトノイズ"@,
        (Language::Japanese, NoiseKind::Brown) => "ブラウンノイズ"@,
    }
}

/// The name of a playback state in the interface language.
pub open spec fn state_name(language: Language, state: PlaybackState) -> Seq<char> {
    match (language, state) {
        (Language::English, PlaybackState::Stopped) => "Stopped"@,
        (Language::English, PlaybackState::Playing) => "Playing"@,
        (Language::English, PlaybackState::Paused) => "Paused"@,
        (Language::English, PlaybackState::FadingIn) => "Fading in"@,
        (Language::English, PlaybackState::FadingOut) => "Fading out"@,
        (Language::Japanese, PlaybackState::Stopped) => "停止中"@,
        (Language::Japanese, PlaybackState::Playing) => "再生中"@,
        (Language::Japanese, PlaybackState::Paused) => "一時停止中"@,
        (Language::Japanese, PlaybackState::FadingIn) => "フェードイン中"@,
        (Language::Japanese, PlaybackState::FadingOut) => "フェードアウト中"@,
    }
}

/// Picks, of an English and a Japanese text, the one for `language`.
pub fn text<'a>(language: Language, english: &'a str, japanese: &'a str) -> (r: &'a str)
    ensures
        r@ == choose_text(language, english@, japanese@),
        language == Language::Japanese ==> r@ == japanese@,
        language == Language::English ==> r@ == english@,
{
    match language {
        Language::English => english,
        Language::Japanese => japanese,
    }
}

/// The name under which a language is offered in the language switch.
pub fn language_label(language: Language) -> (r: &'static str)
    ensures
        r@ == language_name(language),
{
    match language {
        Language::Japanese => "日本語",
        Language::English => "English",
    }
}

/// The label of a noise kind in the interface language.
pub fn noise_label(language: Language, kind: NoiseKind) -> (r: &'static str)
    ensures
        r@ == noise_name(language, kind),
{
    match (language, kind) {
        (Language::English, NoiseKind::White) => "White noise",
        (Language::English, NoiseKind::Brown) => "Brown noise",
        (Language::Japanese, NoiseKind::White) => "ホワイトノイズ",
        (Language::Japanese, NoiseKind::Brown) => "ブラウンノイズ",
    }
}

/// The label of a playback state in the interface language.
pub fn state_label(language: Language, state: PlaybackState) -> (r: &'static str)
    ensures
        r@ == state_name(language, state),
{
    match (language, state) {
        (Language::English, PlaybackState::Stopped) => "Stopped",
        (Language::English, PlaybackState::Playing) => "Playing",
        (Language::English, PlaybackState::Paused) => "Paused",
        (Language::English, PlaybackState::FadingIn) => "Fading in",
        (Language::English, PlaybackState::FadingOut) => "Fading out",
        (Language::Japanese, PlaybackState::Stopped) => "停止中",
        (Language::Japanese, PlaybackState::Playing) => "再生中",
        (Language::Japanese, PlaybackState::Paused) => "一時停止中",
        (Language::Japanese, PlaybackState::FadingIn) => "フェードイン中",
        (Language::Japanese, PlaybackState::FadingOut) => "フェードアウト中",
    }
}

/// The Japanese interface always shows the Japanese text and the English
/// one the English text, whatever the texts are; the text of the other
/// language plays no part.
pub proof fn lemma_text_follows_language(english: Seq<char>, japanese: Seq<char>, other: Seq<char>)
    ensures
        choose_text(Language::Japanese, english, japanese) == japanese,
        choose_text(Language::English, english, japanese) == english,
        choose_text(Language::Japanese, other, japanese) == choose_text(Language::Japanese, english, japanese),
        choose_text(Language::English, english, other) == choose_text(Language::English, english, japanese),
{
}

/// Within one language, the noise kinds have different labels, and none is empty.
pub proof fn lemma_noise_labels_distinct(language: Language, a: NoiseKind, b: NoiseKind)
    ensures
        a != b ==> noise_name(language, a) != noise_name(language, b),
        noise_name(language, a).len() > 0,
        noise_name(Language::Japanese, a) != noise_name(Language::English, b),
{
    reveal_strlit("White noise");
    reveal_strlit("Brown noise");
    reveal_strlit("ホワイトノイズ");
    reveal_strlit("ブラウンノイズ");
    if a != b {
        let (x, y) = (noise_name(language, a), noise_name(language, b));
        assert(x[0] != y[0]);
    }
    let (j, e) = (noise_name(Language::Japanese, a), noise_name(Language::English, b));
    assert(j[0] != e[0]);
}

/// Within one language, the playback states have different labels, and none is empty.
pub proof fn lemma_state_labels_distinct(language: Language, a: PlaybackState, b: PlaybackState)
    ensures
        a != b ==> state_name(language, a) != state_name(language, b),
        state_name(language, a).len() > 0,
        state_name(Language::Japanese, a) != state_name(Language::English, b),
{
    reveal_strlit("Stopped");
    reveal_strlit("Playing");
    reveal_strlit("Paused");
    reveal_strlit("Fading in");
    reveal_strlit("Fading out");
    reveal_strlit("停止中");
    reveal_strlit("再生中");
    reveal_strlit("一時停止中");
    reveal_strlit("フェードイン中");
    reveal_strlit("フェードアウト中");
    if a != b {
        let (x, y) = (state_name(language, a), state_name(language, b));
        assert(x.len() != y.len() || x[0] != y[0]);
    }
    let (j, e) = (state_name(Language::Japanese, a), state_name(Language::English, b));
    assert(j[0] != e[0]);
}

/// The two languages are offered under different, non-empty names.
pub proof fn lemma_language_labels_distinct(a: Language, b: Language)
    ensures
        a != b ==> language_name(a) != language_name(b),
        language_name(a).len() > 0,
{
    reveal_strlit("日本語");
    reveal_strlit("English");
}

} // verus!
