use focus_noise::model::{Language, NoiseKind};
use focus_noise::settings::Settings;

#[test]
fn default_settings_of_a_first_run() {
    let s = Settings::default();
    assert_eq!(s.noise_kind, NoiseKind::White);
    assert_eq!(s.volume, 50);
    assert_eq!(s.balance, 50);
    assert_eq!(s.fade_seconds, 2);
    assert_eq!(s.language, Language::English);
}

#[test]
fn loading_keeps_what_was_read() {
    let read = Settings {
        noise_kind: NoiseKind::Brown,
        volume: 80,
        balance: 10,
        fade_seconds: 7,
        language: Language::Japanese,
    };
    assert_eq!(Settings::from_loaded(Some(read)), read);
}

#[test]
fn loading_nothing_gives_the_defaults() {
    assert_eq!(Settings::from_loaded(None), Settings::default());
}
