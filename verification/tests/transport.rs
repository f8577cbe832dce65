use focus_noise::model::PlaybackState;
use focus_noise::transport::{Command, Fade, LevelChange, Transport};

#[test]
fn new_transport_is_stopped_and_silent() {
    let t = Transport::new();
    assert_eq!(t.playback(), PlaybackState::Stopped);
    assert!(!t.emits_noise());
    assert_eq!(t.fade(), Fade::Steady);
    assert!(!t.volume_follows_target());
}

#[test]
fn play_jumps_to_target() {
    let mut t = Transport::new();
    let e = t.play();
    assert_eq!(t.playback(), PlaybackState::Playing);
    assert_eq!(e.level, LevelChange::ToTarget);
    assert!(!e.reset_brown);
    assert!(t.emits_noise());
    assert!(t.volume_follows_target());
}

#[test]
fn pause_silences_without_resetting_brown() {
    let mut t = Transport::new();
    t.play();
    let e = t.pause();
    assert_eq!(t.playback(), PlaybackState::Paused);
    assert_eq!(e.level, LevelChange::ToSilence);
    assert!(!e.reset_brown);
    assert!(!t.emits_noise());
}

#[test]
fn stop_silences_and_resets_brown() {
    let mut t = Transport::new();
    t.play();
    let e = t.stop();
    assert_eq!(t.playback(), PlaybackState::Stopped);
    assert_eq!(e.level, LevelChange::ToSilence);
    assert!(e.reset_brown);
}

#[test]
fn fade_in_starts_from_silence_and_plays_on_when_done() {
    let mut t = Transport::new();
    let e = t.fade_in();
    assert_eq!(t.playback(), PlaybackState::FadingIn);
    assert_eq!(e.level, LevelChange::ToSilence);
    assert!(t.emits_noise());
    assert!(!t.volume_follows_target());
    assert_eq!(t.fade(), Fade::Rising);
    assert!(!t.finish_frame(false));
    assert_eq!(t.playback(), PlaybackState::FadingIn);
    assert!(!t.finish_frame(true));
    assert_eq!(t.playback(), PlaybackState::Playing);
    assert_eq!(t.fade(), Fade::Steady);
}

#[test]
fn fade_out_keeps_level_and_stops_when_done() {
    let mut t = Transport::new();
    t.play();
    let e = t.fade_out();
    assert_eq!(t.playback(), PlaybackState::FadingOut);
    assert_eq!(e.level, LevelChange::Keep);
    assert!(!e.reset_brown);
    assert_eq!(t.fade(), Fade::Falling);
    assert!(!t.finish_frame(false));
    assert_eq!(t.playback(), PlaybackState::FadingOut);
    assert!(t.finish_frame(true));
    assert_eq!(t.playback(), PlaybackState::Stopped);
}

#[test]
fn fade_out_while_silent_does_nothing() {
    let mut t = Transport::new();
    t.fade_out();
    assert_eq!(t.playback(), PlaybackState::Stopped);
    t.play();
    t.pause();
    t.fade_out();
    assert_eq!(t.playback(), PlaybackState::Paused);
}

#[test]
fn fade_out_interrupts_a_fade_in() {
    let mut t = Transport::new();
    t.fade_in();
    t.fade_out();
    assert_eq!(t.playback(), PlaybackState::FadingOut);
}

#[test]
fn steady_frames_change_nothing() {
    let mut t = Transport::new();
    t.play();
    assert!(!t.finish_frame(true));
    assert_eq!(t.playback(), PlaybackState::Playing);
    t.pause();
    assert!(!t.finish_frame(true));
    assert_eq!(t.playback(), PlaybackState::Paused);
}

#[test]
fn commands_are_idempotent() {
    let commands = [Command::Play, Command::Pause, Command::Stop, Command::FadeIn, Command::FadeOut];
    let starts = [Command::Play, Command::Pause, Command::Stop, Command::FadeIn];
    for start in starts {
        for c in commands {
            let mut once = Transport::new();
            once.apply(start);
            let mut twice = once;
            once.apply(c);
            twice.apply(c);
            twice.apply(c);
            assert_eq!(once.playback(), twice.playback());
        }
    }
}
