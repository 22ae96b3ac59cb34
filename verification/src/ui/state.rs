//! The state of the countdown window and the decisions taken on it.
//!
//! The window keeps the settings being edited, whether the watcher runs, and
//! the countdown in progress. Clocks, threads, drawing and sound belong to the
//! caller, which reports elapsed time and requests here and carries out what
//! the returned values ask for.

use vstd::prelude::*;

use crate::config::AppConfig;
use crate::ui::console::{set_debug_console, ConsoleAction};

verus! {

/// Milliseconds that must pass after a save before changes are saved again
/// without being forced.
pub const CONFIG_SYNC_INTERVAL_MS: u64 = 2000;

/// Only the last this many seconds of a countdown are spoken.
pub const LAST_ANNOUNCED_SECOND: usize = 5;

/// Side bounds after the editing rule "the minimum stays below the maximum":
/// a minimum that reaches the maximum pushes the maximum one pixel above it,
/// and where that is impossible the minimum gives way.
pub open spec fn normalized_widths(min_width: usize, max_width: usize) -> (usize, usize) {
    if min_width < max_width {
        (min_width, max_width)
    } else if min_width < usize::MAX {
        (min_width, (min_width + 1) as usize)
    } else {
        ((usize::MAX - 1) as usize, usize::MAX)
    }
}

/// Applies the editing rule for the side bounds of a block.
pub fn normalize_widths(min_width: usize, max_width: usize) -> (r: (usize, usize))
    ensures
        r == normalized_widths(min_width, max_width),
{
    let mut lo = min_width;
    let mut hi = max_width;
    if lo >= hi {
        hi = lo.saturating_add(1);
    }
    if hi <= lo {
        let lowered = hi.saturating_sub(1);
        lo = if lowered < 1 { 1 } else { lowered };
    }
    (lo, hi)
}

/// The settings being edited and the run-time state of the countdown window.
#[derive(Debug, Clone, Copy, PartialEq, Eq, Structural)]
pub struct AppState {
    pub block_threshold: usize,
    pub counting_seconds: usize,
    pub play_voice: bool,
    pub block_min_width: usize,
    pub block_max_width: usize,
    /// The background watcher has been started and not stopped.
    pub running: bool,
    /// A countdown is in progress; its start time is kept by the caller.
    pub countdown_active: bool,
    /// The seconds shown by the countdown overlay.
    pub remind_seconds: Option<usize>,
    /// The last second that was spoken, so that none is spoken twice.
    pub last_announced_second: Option<usize>,
    pub debug_enabled: bool,
    /// Settings changed since they were last saved.
    pub config_dirty: bool,
}

/// What a tick of the countdown asks of the caller.
#[derive(Debug, Clone, Copy, PartialEq, Eq, Structural)]
pub struct TickOutcome {
    /// A countdown began in this tick: its start time is now.
    pub started: bool,
    /// The second to be spoken, if any.
    pub voice: Option<usize>,
}

impl AppState {
    /// The state of a freshly opened window with the given settings.
    pub open spec fn initial(cfg: AppConfig) -> AppState {
        AppState {
            block_threshold: cfg.block_threshold,
            counting_seconds: cfg.counting_seconds,
            play_voice: cfg.play_voice,
            block_min_width: cfg.block_min_width,
            block_max_width: cfg.block_max_width,
            running: false,
            countdown_active: false,
            remind_seconds: None,
            last_announced_second: None,
            debug_enabled: false,
            config_dirty: false,
        }
    }

    /// The settings the window currently holds.
    pub open spec fn config(self) -> AppConfig {
        AppConfig {
            block_threshold: self.block_threshold,
            counting_seconds: self.counting_seconds,
            play_voice: self.play_voice,
            block_min_width: self.block_min_width,
            block_max_width: self.block_max_width,
        }
    }

    /// The overlay shows seconds exactly while a countdown is in progress,
    /// and only the last seconds are ever recorded as spoken.
    pub open spec fn is_consistent(self) -> bool {
        &&& self.remind_seconds.is_some() == self.countdown_active
        &&& (self.last_announced_second matches Some(s) ==> 1 <= s <= LAST_ANNOUNCED_SECOND)
    }

    pub open spec fn after_reset(self) -> AppState {
        AppState { remind_seconds: None, countdown_active: false, last_announced_second: None, ..self }
    }

    pub open spec fn after_counting_down(self) -> AppState {
        AppState {
            remind_seconds: Some(self.counting_seconds),
            countdown_active: true,
            last_announced_second: None,
            ..self
        }
    }

    /// Second `sec` is to be spoken: reminders are on, it is one of the last
    /// seconds, and it was not the last one spoken.
    pub open spec fn voice_due(self, sec: usize) -> bool {
        &&& self.play_voice
        &&& 1 <= sec <= LAST_ANNOUNCED_SECOND
        &&& self.last_announced_second != Some(sec)
    }

    pub open spec fn after_voice(self, sec: usize) -> AppState {
        if self.voice_due(sec) {
            AppState { last_announced_second: Some(sec), ..self }
        } else {
            self
        }
    }

    /// A tick with a start request begins a countdown only when none runs.
    pub open spec fn tick_starts(self, start_requested: bool) -> bool {
        start_requested && !self.countdown_active
    }

    pub open spec fn after_tick_start(self, start_requested: bool) -> AppState {
        if self.tick_starts(start_requested) {
            self.after_counting_down()
        } else {
            self
        }
    }

    /// Seconds left after a tick; a countdown begun in the tick has used none.
    pub open spec fn tick_remaining(self, start_requested: bool, elapsed_secs: usize) -> int {
        if self.tick_starts(start_requested) {
            self.counting_seconds as int
        } else {
            self.counting_seconds - elapsed_secs
        }
    }

    pub open spec fn after_tick_shown(self, start_requested: bool, elapsed_secs: usize) -> AppState {
        AppState {
            remind_seconds: Some(self.tick_remaining(start_requested, elapsed_secs) as usize),
            ..self.after_tick_start(start_requested)
        }
    }

    /// The state after a tick.
    pub open spec fn after_tick(self, start_requested: bool, elapsed_secs: usize) -> AppState {
        let s = self.after_tick_start(start_requested);
        if !s.countdown_active {
            s
        } else {
            let rem = self.tick_remaining(start_requested, elapsed_secs) as usize;
            let spoken = self.after_tick_shown(start_requested, elapsed_secs).after_voice(rem);
            if rem == 0 {
                spoken.after_reset()
            } else {
                spoken
            }
        }
    }

    /// The second a tick asks to speak.
    pub open spec fn tick_voice(self, start_requested: bool, elapsed_secs: usize) -> Option<usize> {
        let rem = self.tick_remaining(start_requested, elapsed_secs) as usize;
        if self.after_tick_start(start_requested).countdown_active
            && self.after_tick_shown(start_requested, elapsed_secs).voice_due(rem) {
            Some(rem)
        } else {
            None
        }
    }

    /// The settings are due to be saved: a save is forced, or they changed
    /// and the last save is at least the sync interval old.
    pub open spec fn save_due(self, force: bool, millis_since_sync: u64) -> bool {
        force || (self.config_dirty && millis_since_sync >= CONFIG_SYNC_INTERVAL_MS)
    }

    pub open spec fn after_set_block_threshold(self, value: usize) -> AppState {
        AppState { block_threshold: value, config_dirty: true, ..self }
    }

    pub open spec fn after_set_counting_seconds(self, value: usize) -> AppState {
        AppState {
            counting_seconds: value,
            config_dirty: self.config_dirty || value != self.counting_seconds,
            ..self
        }
    }

    pub open spec fn after_set_play_voice(self, value: bool) -> AppState {
        AppState { play_voice: value, config_dirty: self.config_dirty || value != self.play_voice, ..self }
    }

    pub open spec fn after_set_block_widths(self, min_width: usize, max_width: usize) -> AppState {
        let (lo, hi) = normalized_widths(min_width, max_width);
        AppState {
            block_min_width: lo,
            block_max_width: hi,
            config_dirty: self.config_dirty || lo != self.block_min_width || hi != self.block_max_width,
            ..self
        }
    }

    pub open spec fn after_toggle_debug(self) -> AppState {
        AppState { debug_enabled: !self.debug_enabled, ..self }
    }

    pub open spec fn after_config_saved(self) -> AppState {
        AppState { config_dirty: false, ..self }
    }

    pub open spec fn after_start_worker(self) -> AppState {
        AppState { running: true, ..self }
    }

    pub open spec fn after_stop_worker(self) -> AppState {
        AppState { running: false, ..self }.after_reset()
    }

    /// Opens the window with the given settings; nothing runs yet.
    pub fn new(cfg: &AppConfig) -> (s: AppState)
        ensures
            s == AppState::initial(*cfg),
    {
        AppState {
            block_threshold: cfg.block_threshold,
            counting_seconds: cfg.counting_seconds,
            play_voice: cfg.play_voice,
            block_min_width: cfg.block_min_width,
            block_max_width: cfg.block_max_width,
            running: false,
            countdown_active: false,
            remind_seconds: None,
            last_announced_second: None,
            debug_enabled: false,
            config_dirty: false,
        }
    }

    /// Sets the detection threshold; the settings then need saving.
    pub fn set_block_threshold(&mut self, value: usize)
        ensures
            *final(self) == old(self).after_set_block_threshold(value),
    {
        self.block_threshold = value;
        self.config_dirty = true;
    }

    /// Sets the countdown length; a change needs saving.
    pub fn set_counting_seconds(&mut self, value: usize)
        ensures
            *final(self) == old(self).after_set_counting_seconds(value),
    {
        if value != self.counting_seconds {
            self.counting_seconds = value;
            self.config_dirty = true;
        }
    }

    /// Switches spoken reminders; a change needs saving.
    pub fn set_play_voice(&mut self, value: bool)
        ensures
            *final(self) == old(self).after_set_play_voice(value),
    {
        if value != self.play_voice {
            self.play_voice = value;
            self.config_dirty = true;
        }
    }

    /// Takes the side bounds as edited, applies the editing rule, and marks
    /// the settings for saving when the bounds in force changed.
    pub fn set_block_widths(&mut self, min_width: usize, max_width: usize)
        ensures
            *final(self) == old(self).after_set_block_widths(min_width, max_width),
    {
        let (lo, hi) = normalize_widths(min_width, max_width);
        if lo != self.block_min_width || hi != self.block_max_width {
            self.config_dirty = true;
        }
        self.block_min_width = lo;
        self.block_max_width = hi;
    }

    /// Flips the debug switch and says what to do with the console window.
    pub fn toggle_debug(&mut self) -> (action: ConsoleAction)
        ensures
            *final(self) == old(self).after_toggle_debug(),
            action == (if final(self).debug_enabled {
                ConsoleAction::Allocate
            } else {
                ConsoleAction::Release
            }),
    {
        self.debug_enabled = !self.debug_enabled;
        set_debug_console(self.debug_enabled)
    }

    /// The settings the window holds, as they are saved.
    pub fn current_config(&self) -> (cfg: AppConfig)
        ensures
            cfg == self.config(),
    {
        AppConfig {
            block_threshold: self.block_threshold,
            counting_seconds: self.counting_seconds,
            play_voice: self.play_voice,
            block_min_width: self.block_min_width,
            block_max_width: self.block_max_width,
        }
    }

    /// Whether the settings are to be saved now, `millis_since_sync` after
    /// the last save.
    pub fn flush_config_if_needed(&self, force: bool, millis_since_sync: u64) -> (due: bool)
        ensures
            due == self.save_due(force, millis_since_sync),
    {
        if !self.config_dirty && !force {
            return false;
        }
        if !force && millis_since_sync < CONFIG_SYNC_INTERVAL_MS {
            return false;
        }
        true
    }

    /// Records that the settings were saved.
    pub fn config_saved(&mut self)
        ensures
            *final(self) == old(self).after_config_saved(),
    {
        self.config_dirty = false;
    }

    /// Starts the watcher unless it runs; returns whether the caller is to
    /// spawn it.
    pub fn start_worker(&mut self) -> (spawn: bool)
        ensures
            spawn == !old(self).running,
            *final(self) == old(self).after_start_worker(),
    {
        if self.running {
            return false;
        }
        self.running = true;
        true
    }

    /// Stops the watcher and abandons any countdown.
    pub fn stop_worker(&mut self)
        ensures
            *final(self) == old(self).after_stop_worker(),
    {
        self.running = false;
        self.last_announced_second = None;
        self.reset();
    }

    /// Ends the countdown.
    pub fn reset(&mut self)
        ensures
            *final(self) == old(self).after_reset(),
    {
        self.remind_seconds = None;
        self.countdown_active = false;
        self.last_announced_second = None;
    }

    /// Begins a countdown of the configured length.
    pub fn counting_down(&mut self)
        ensures
            *final(self) == old(self).after_counting_down(),
    {
        self.remind_seconds = Some(self.counting_seconds);
        self.countdown_active = true;
        self.last_announced_second = None;
    }

    /// Whether second `sec` is to be spoken now; it is then recorded as spoken.
    pub fn maybe_play_countdown_voice(&mut self, sec: usize) -> (play: bool)
        ensures
            play == old(self).voice_due(sec),
            *final(self) == old(self).after_voice(sec),
    {
        if !self.play_voice || sec == 0 || sec > LAST_ANNOUNCED_SECOND {
            return false;
        }
        if self.last_announced_second == Some(sec) {
            return false;
        }
        self.last_announced_second = Some(sec);
        true
    }

    /// One tick of the countdown window. `start_requested` reports that the
    /// watcher asked for a countdown since the last tick; `elapsed_secs` is
    /// the whole seconds since the running countdown began. A countdown
    /// begins when asked for and none runs; a running one shows the seconds
    /// left, speaks the last ones, and ends when none are left. A running
    /// countdown whose length was cut below the elapsed time has no seconds
    /// left to show, and is not accepted.
    pub fn counting_down_tick(&mut self, start_requested: bool, elapsed_secs: usize) -> (outcome:
        TickOutcome)
        requires
            old(self).countdown_active ==> elapsed_secs <= old(self).counting_seconds,
        ensures
            outcome.started == old(self).tick_starts(start_requested),
            outcome.voice == old(self).tick_voice(start_requested, elapsed_secs),
            *final(self) == old(self).after_tick(start_requested, elapsed_secs),
    {
        let started = start_requested && !self.countdown_active;
        if started {
            self.counting_down();
        }
        let mut voice: Option<usize> = None;
        if self.countdown_active {
            let elapsed = if started { 0 } else { elapsed_secs };
            let rem = self.counting_seconds - elapsed;
            self.remind_seconds = Some(rem);
            if self.maybe_play_countdown_voice(rem) {
                voice = Some(rem);
            }
            if rem == 0 {
                self.reset();
            }
        }
        TickOutcome { started, voice }
    }
}

} // verus!
