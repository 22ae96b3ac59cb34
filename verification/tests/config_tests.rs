use bobo_ro_ctd::{config_or_default, AppConfig, AppState};

#[test]
fn default_config_values() {
    let cfg = AppConfig::default();
    assert_eq!(cfg.block_threshold, 60);
    assert_eq!(cfg.counting_seconds, 29);
    assert!(!cfg.play_voice);
    assert_eq!(cfg.block_min_width, 5);
    assert_eq!(cfg.block_max_width, 50);
}

#[test]
fn missing_config_falls_back_to_defaults() {
    assert_eq!(config_or_default(None), AppConfig::default());
}

#[test]
fn parsed_config_is_kept() {
    let cfg = AppConfig {
        block_threshold: 120,
        counting_seconds: 10,
        play_voice: true,
        block_min_width: 8,
        block_max_width: 40,
    };
    assert_eq!(config_or_default(Some(cfg)), cfg);
}

#[test]
fn config_round_trips_through_window_state() {
    let cfg = AppConfig {
        block_threshold: 15,
        counting_seconds: 60,
        play_voice: true,
        block_min_width: 3,
        block_max_width: 200,
    };
    let state = AppState::new(&cfg);
    assert_eq!(state.current_config(), cfg);
    assert!(!state.running);
    assert!(!state.countdown_active);
    assert!(!state.config_dirty);
    assert_eq!(state.remind_seconds, None);
}
