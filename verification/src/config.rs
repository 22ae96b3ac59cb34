//! The persisted settings of the application.

use vstd::prelude::*;

verus! {

/// Settings that survive a restart: the detection threshold, the length of
/// the countdown, whether reminders are spoken, and the side bounds of a
/// block in pixels.
#[derive(Debug, Clone, Copy, PartialEq, Eq, Structural)]
pub struct AppConfig {
    pub block_threshold: usize,
    pub counting_seconds: usize,
    pub play_voice: bool,
    pub block_min_width: usize,
    pub block_max_width: usize,
}

/// The settings used when none were saved or the saved ones cannot be read.
pub open spec fn default_config() -> AppConfig {
    AppConfig {
        block_threshold: 60,
        counting_seconds: 29,
        play_voice: false,
        block_min_width: 5,
        block_max_width: 50,
    }
}

impl Default for AppConfig {
    fn default() -> (cfg: Self)
        ensures
            cfg == default_config(),
    {
        AppConfig {
            block_threshold: 60,
            counting_seconds: 29,
            play_voice: false,
            block_min_width: 5,
            block_max_width: 50,
        }
    }
}

/// The configuration in force after an attempt to load one: what was parsed,
/// or the defaults when nothing could be read or parsed.
pub fn config_or_default(parsed: Option<AppConfig>) -> (cfg: AppConfig)
    ensures
        cfg == (match parsed {
            Some(p) => p,
            None => default_config(),
        }),
{
    match parsed {
        Some(p) => p,
        None => AppConfig::default(),
    }
}

} // verus!
