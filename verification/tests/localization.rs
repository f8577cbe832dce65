use focus_noise::localization::{language_label, noise_label, state_label, text};
use focus_noise::model::{Language, NoiseKind, PlaybackState};

#[test]
fn text_picks_the_language() {
    assert_eq!(text(Language::English, "Play", "再生"), "Play");
    assert_eq!(text(Language::Japanese, "Play", "再生"), "再生");
}

#[test]
fn language_labels_name_themselves() {
    assert_eq!(language_label(Language::Japanese), "日本語");
    assert_eq!(language_label(Language::English), "English");
}

#[test]
fn noise_labels_in_both_languages() {
    assert_eq!(noise_label(Language::English, NoiseKind::White), "White noise");
    assert_eq!(noise_label(Language::English, NoiseKind::Brown), "Brown noise");
    assert_eq!(noise_label(Language::Japanese, NoiseKind::White), "ホワイトノイズ");
    assert_eq!(noise_label(Language::Japanese, NoiseKind::Brown), "ブラウンノイズ");
}

#[test]
fn state_labels_in_english() {
    assert_eq!(state_label(Language::English, PlaybackState::Stopped), "Stopped");
    assert_eq!(state_label(Language::English, PlaybackState::Playing), "Playing");
    assert_eq!(state_label(Language::English, PlaybackState::Paused), "Paused");
    assert_eq!(state_label(Language::English, PlaybackState::FadingIn), "Fading in");
    assert_eq!(state_label(Language::English, PlaybackState::FadingOut), "Fading out");
}

#[test]
fn state_labels_in_japanese() {
    assert_eq!(state_label(Language::Japanese, PlaybackState::Stopped), "停止中");
    assert_eq!(state_label(Language::Japanese, PlaybackState::Playing), "再生中");
    assert_eq!(state_label(Language::Japanese, PlaybackState::Paused), "一時停止中");
    assert_eq!(state_label(Language::Japanese, PlaybackState::FadingIn), "フェードイン中");
    assert_eq!(state_label(Language::Japanese, PlaybackState::FadingOut), "フェードアウト中");
}

#[test]
fn labels_differ_within_each_language() {
    let states = [
        PlaybackState::Stopped,
        PlaybackState::Playing,
        PlaybackState::Paused,
        PlaybackState::FadingIn,
        PlaybackState::FadingOut,
    ];
    for language in Language::ALL {
        assert_ne!(noise_label(language, NoiseKind::White), noise_label(language, NoiseKind::Brown));
        for (i, a) in states.iter().enumerate() {
            assert!(!state_label(language, *a).is_empty());
            for b in states.iter().skip(i + 1) {
                assert_ne!(state_label(language, *a), state_label(language, *b));
            }
        }
    }
    assert_ne!(language_label(Language::Japanese), language_label(Language::English));
}

#[test]
fn all_lists_every_variant_in_order() {
    assert_eq!(NoiseKind::ALL, [NoiseKind::White, NoiseKind::Brown]);
    assert_eq!(Language::ALL, [Language::Japanese, Language::English]);
}
