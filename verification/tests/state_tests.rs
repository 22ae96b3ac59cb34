use bobo_ro_ctd::{normalize_widths, AppConfig, AppState, ConsoleAction, TickOutcome};

fn state(counting_seconds: usize, play_voice: bool) -> AppState {
    let mut cfg = AppConfig::default();
    cfg.counting_seconds = counting_seconds;
    cfg.play_voice = play_voice;
    AppState::new(&cfg)
}

#[test]
fn width_rule() {
    assert_eq!(normalize_widths(5, 50), (5, 50));
    assert_eq!(normalize_widths(50, 50), (50, 51));
    assert_eq!(normalize_widths(100, 2), (100, 101));
    assert_eq!(normalize_widths(0, 0), (0, 1));
    assert_eq!(normalize_widths(usize::MAX, 3), (usize::MAX - 1, usize::MAX));
    let (lo, hi) = normalize_widths(100, 2);
    assert_eq!(normalize_widths(lo, hi), (lo, hi));
}

#[test]
fn width_edit_marks_dirty_only_on_change() {
    let mut s = state(29, false);
    s.set_block_widths(5, 50);
    assert!(!s.config_dirty);
    s.set_block_widths(60, 50);
    assert_eq!((s.block_min_width, s.block_max_width), (60, 61));
    assert!(s.config_dirty);
}

#[test]
fn setters_mark_dirty() {
    let mut s = state(29, false);
    s.set_counting_seconds(29);
    s.set_play_voice(false);
    assert!(!s.config_dirty);
    s.set_play_voice(true);
    assert!(s.config_dirty);
    let mut s = state(29, false);
    s.set_counting_seconds(30);
    assert!(s.config_dirty);
    assert_eq!(s.counting_seconds, 30);
    let mut s = state(29, false);
    s.set_block_threshold(60);
    assert!(s.config_dirty);
    assert_eq!(s.current_config().block_threshold, 60);
}

#[test]
fn save_policy() {
    let mut s = state(29, false);
    assert!(!s.flush_config_if_needed(false, 10_000));
    assert!(s.flush_config_if_needed(true, 0));
    s.set_block_threshold(100);
    assert!(!s.flush_config_if_needed(false, 1999));
    assert!(s.flush_config_if_needed(false, 2000));
    s.config_saved();
    assert!(!s.config_dirty);
    assert!(!s.flush_config_if_needed(false, 5000));
}

#[test]
fn debug_toggle() {
    let mut s = state(29, false);
    assert_eq!(s.toggle_debug(), ConsoleAction::Allocate);
    assert!(s.debug_enabled);
    assert_eq!(s.toggle_debug(), ConsoleAction::Release);
    assert!(!s.debug_enabled);
}

#[test]
fn worker_starts_once() {
    let mut s = state(29, false);
    assert!(s.start_worker());
    assert!(s.running);
    assert!(!s.start_worker());
    s.counting_down();
    s.stop_worker();
    assert!(!s.running);
    assert!(!s.countdown_active);
    assert_eq!(s.remind_seconds, None);
    assert!(s.start_worker());
}

#[test]
fn countdown_runs_and_ends() {
    let mut s = state(10, false);
    assert_eq!(s.counting_down_tick(false, 0), TickOutcome { started: false, voice: None });
    assert_eq!(s.remind_seconds, None);

    let out = s.counting_down_tick(true, 123);
    assert!(out.started);
    assert_eq!(s.remind_seconds, Some(10));
    assert!(s.countdown_active);

    assert!(!s.counting_down_tick(true, 3).started);
    assert_eq!(s.remind_seconds, Some(7));

    s.counting_down_tick(false, 10);
    assert_eq!(s.remind_seconds, None);
    assert!(!s.countdown_active);
}

#[test]
fn zero_length_countdown_ends_at_once() {
    let mut s = state(0, true);
    let out = s.counting_down_tick(true, 0);
    assert!(out.started);
    assert_eq!(out.voice, None);
    assert!(!s.countdown_active);
    assert_eq!(s.remind_seconds, None);
}

#[test]
fn last_seconds_spoken_once() {
    let mut s = state(8, true);
    s.counting_down_tick(true, 0);
    let mut spoken = Vec::new();
    for elapsed in [0, 1, 2, 3, 3, 3, 4, 5, 6, 6, 7, 8] {
        if let Some(sec) = s.counting_down_tick(false, elapsed).voice {
            spoken.push(sec);
        }
    }
    assert_eq!(spoken, vec![5, 4, 3, 2, 1]);
    assert!(!s.countdown_active);
}

#[test]
fn nothing_spoken_with_voice_off() {
    let mut s = state(3, false);
    s.counting_down_tick(true, 0);
    for elapsed in 0..=3 {
        assert_eq!(s.counting_down_tick(false, elapsed).voice, None);
    }
}

#[test]
fn voice_decision() {
    let mut s = state(29, true);
    assert!(!s.maybe_play_countdown_voice(0));
    assert!(!s.maybe_play_countdown_voice(6));
    assert!(s.maybe_play_countdown_voice(5));
    assert!(!s.maybe_play_countdown_voice(5));
    assert!(s.maybe_play_countdown_voice(4));
    assert_eq!(s.last_announced_second, Some(4));
    s.reset();
    assert_eq!(s.last_announced_second, None);
    assert!(s.maybe_play_countdown_voice(4));
}
