use focus_noise::schedule::{SaveSchedule, SETTINGS_SAVE_INTERVAL_FRAMES};

#[test]
fn idle_schedule_never_saves() {
    let mut s = SaveSchedule::new();
    assert!(!s.is_pending());
    for _ in 0..100 {
        assert!(!s.save_soon());
    }
    assert!(!s.is_pending());
}

#[test]
fn marked_change_saves_on_the_twentieth_frame() {
    assert_eq!(SETTINGS_SAVE_INTERVAL_FRAMES, 20);
    let mut s = SaveSchedule::new();
    s.mark_dirty();
    for frame in 1..=40u32 {
        let saved = s.save_soon();
        assert_eq!(saved, frame == 20, "frame {frame}");
    }
    assert!(!s.is_pending());
}

#[test]
fn new_change_restarts_the_wait() {
    let mut s = SaveSchedule::new();
    s.mark_dirty();
    for _ in 0..15 {
        assert!(!s.save_soon());
    }
    s.mark_dirty();
    for _ in 0..19 {
        assert!(!s.save_soon());
    }
    assert!(s.is_pending());
    assert!(s.save_soon());
    assert!(!s.is_pending());
}
