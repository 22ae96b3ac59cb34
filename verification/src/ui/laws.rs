//! Properties of the countdown window that hold across its operations.

use vstd::prelude::*;

use crate::config::AppConfig;
use crate::ui::state::{normalized_widths, AppState, LAST_ANNOUNCED_SECOND};
use crate::vision::task::blocks_trigger;

verus! {

/// Opening the window with some settings and reading them back gives the same
/// settings.
pub proof fn lemma_config_round_trip(cfg: AppConfig)
    ensures
        AppState::initial(cfg).config() == cfg,
        AppState::initial(cfg).is_consistent(),
{
}

/// After the editing rule the minimum side bound is below the maximum.
pub proof fn lemma_widths_ordered(min_width: usize, max_width: usize)
    ensures
        normalized_widths(min_width, max_width).0 < normalized_widths(min_width, max_width).1,
{
}

/// Bounds that already obey the editing rule are kept, so applying the rule
/// twice is applying it once.
pub proof fn lemma_widths_stable(min_width: usize, max_width: usize)
    ensures
        min_width < max_width ==> normalized_widths(min_width, max_width) == (min_width, max_width),
        ({
            let (lo, hi) = normalized_widths(min_width, max_width);
            normalized_widths(lo, hi) == (lo, hi)
        }),
{
}

/// The editing rule keeps the minimum whenever it can: bounds in order stay
/// as they are; otherwise the maximum becomes the smallest value above the
/// minimum, and only at the very top of the range does the minimum drop by
/// one.
pub proof fn lemma_widths_keep_minimum(min_width: usize, max_width: usize)
    ensures
        min_width < max_width ==> normalized_widths(min_width, max_width) == (min_width, max_width),
        max_width <= min_width && min_width < usize::MAX ==> normalized_widths(min_width, max_width)
            == (min_width, (min_width + 1) as usize),
        min_width == usize::MAX ==> normalized_widths(min_width, max_width) == (
            (usize::MAX - 1) as usize,
            usize::MAX,
        ),
{
}

/// A freshly opened window runs nothing, counts nothing down, has spoken
/// nothing, is not debugging and has nothing to save.
pub proof fn lemma_initial_state(cfg: AppConfig)
    ensures
        !AppState::initial(cfg).running,
        !AppState::initial(cfg).countdown_active,
        AppState::initial(cfg).remind_seconds is None,
        AppState::initial(cfg).last_announced_second is None,
        !AppState::initial(cfg).debug_enabled,
        !AppState::initial(cfg).config_dirty,
{
}

/// Each edit takes the value given (the width bounds after the editing rule),
/// leaves the other settings and the countdown alone, and marks the settings
/// for saving exactly when they were pending or the edit changed them; the
/// threshold setter always marks them. The debug switch flips and changes
/// nothing else.
pub proof fn lemma_edits(s: AppState, value: usize, flag: bool, min_width: usize, max_width: usize)
    ensures
        ({
            let t = s.after_set_block_threshold(value);
            t.block_threshold == value && t.config_dirty && t.counting_seconds == s.counting_seconds
                && t.play_voice == s.play_voice && t.block_min_width == s.block_min_width
                && t.block_max_width == s.block_max_width && t.countdown_active == s.countdown_active
                && t.remind_seconds == s.remind_seconds && t.running == s.running
        }),
        ({
            let t = s.after_set_counting_seconds(value);
            t.counting_seconds == value && t.config_dirty == (s.config_dirty || value != s.counting_seconds)
                && t.block_threshold == s.block_threshold && t.play_voice == s.play_voice
                && t.countdown_active == s.countdown_active && t.remind_seconds == s.remind_seconds
        }),
        ({
            let t = s.after_set_play_voice(flag);
            t.play_voice == flag && t.config_dirty == (s.config_dirty || flag != s.play_voice)
                && t.block_threshold == s.block_threshold && t.counting_seconds == s.counting_seconds
                && t.last_announced_second == s.last_announced_second
        }),
        ({
            let t = s.after_set_block_widths(min_width, max_width);
            (t.block_min_width, t.block_max_width) == normalized_widths(min_width, max_width)
                && t.config_dirty == (s.config_dirty || t.block_min_width != s.block_min_width
                || t.block_max_width != s.block_max_width) && t.block_threshold == s.block_threshold
                && t.counting_seconds == s.counting_seconds && t.play_voice == s.play_voice
        }),
        ({
            let t = s.after_toggle_debug();
            t.debug_enabled == !s.debug_enabled && t.config() == s.config() && t.config_dirty
                == s.config_dirty && t.running == s.running && t.countdown_active == s.countdown_active
        }),
{
}

/// A request from the watcher starts a countdown of the configured length
/// when none runs; the overlay then shows the full length, unless that
/// length is zero and the countdown ends at once.
pub proof fn lemma_request_starts_countdown(s: AppState, elapsed_secs: usize)
    requires
        !s.countdown_active,
    ensures
        s.tick_starts(true),
        s.counting_seconds > 0 ==> s.after_tick(true, elapsed_secs).countdown_active
            && s.after_tick(true, elapsed_secs).remind_seconds == Some(s.counting_seconds),
        s.counting_seconds == 0 ==> !s.after_tick(true, elapsed_secs).countdown_active,
{
}

/// A frame with more blocks than the threshold starts a countdown when none
/// runs; one with no more blocks than the threshold leaves an idle window
/// idle.
pub proof fn lemma_blocks_over_threshold_start_countdown(
    s: AppState,
    count: nat,
    threshold: nat,
    elapsed_secs: usize,
)
    requires
        !s.countdown_active,
    ensures
        blocks_trigger(count, threshold) && s.counting_seconds > 0 ==> s.after_tick(
            blocks_trigger(count, threshold),
            elapsed_secs,
        ).countdown_active,
        !blocks_trigger(count, threshold) ==> s.after_tick(blocks_trigger(count, threshold), elapsed_secs)
            == s,
{
}

/// Without a request and without a countdown, a tick changes nothing.
pub proof fn lemma_idle_tick(s: AppState, elapsed_secs: usize)
    requires
        !s.countdown_active,
    ensures
        s.after_tick(false, elapsed_secs) == s,
        s.tick_voice(false, elapsed_secs) is None,
{
}

/// A request while a countdown runs does not restart it: the tick is the
/// same as one without the request.
pub proof fn lemma_request_ignored_while_counting(s: AppState, elapsed_secs: usize)
    requires
        s.countdown_active,
    ensures
        !s.tick_starts(true),
        s.after_tick(true, elapsed_secs) == s.after_tick(false, elapsed_secs),
        s.tick_voice(true, elapsed_secs) == s.tick_voice(false, elapsed_secs),
{
}

/// While time is left, a running countdown shows the configured length less
/// the elapsed seconds.
pub proof fn lemma_countdown_shows_remaining(s: AppState, start_requested: bool, elapsed_secs: usize)
    requires
        s.countdown_active,
        elapsed_secs < s.counting_seconds,
    ensures
        s.after_tick(start_requested, elapsed_secs).countdown_active,
        s.after_tick(start_requested, elapsed_secs).remind_seconds == Some(
            (s.counting_seconds - elapsed_secs) as usize,
        ),
{
}

/// A running countdown ends in the tick at which no seconds are left: the
/// overlay disappears and nothing is recorded as spoken.
pub proof fn lemma_countdown_ends(s: AppState, start_requested: bool, elapsed_secs: usize)
    requires
        s.countdown_active,
        elapsed_secs == s.counting_seconds,
    ensures
        !s.after_tick(start_requested, elapsed_secs).countdown_active,
        s.after_tick(start_requested, elapsed_secs).remind_seconds is None,
        s.after_tick(start_requested, elapsed_secs).last_announced_second is None,
        s.tick_voice(start_requested, elapsed_secs) is None,
{
}

/// A second that was just spoken is not spoken again.
pub proof fn lemma_voice_once_per_second(s: AppState, sec: usize)
    ensures
        !s.after_voice(sec).voice_due(sec),
{
}

/// Only the last seconds are spoken, and only with reminders on.
pub proof fn lemma_voice_only_last_seconds(s: AppState, start_requested: bool, elapsed_secs: usize)
    ensures
        s.tick_voice(start_requested, elapsed_secs) matches Some(sec) ==> s.play_voice && 1 <= sec
            <= LAST_ANNOUNCED_SECOND,
{
}

/// Whether a second is spoken depends only on the reminder switch and the
/// last second spoken: with reminders on, any second from 1 to 5 that was not
/// the last one spoken is due, whatever the countdown's length or any other
/// field.
pub proof fn lemma_voice_due_exactly(s: AppState, t: AppState, sec: usize)
    ensures
        s.voice_due(sec) <==> (s.play_voice && 1 <= sec <= 5 && s.last_announced_second != Some(sec)),
        s.play_voice == t.play_voice && s.last_announced_second == t.last_announced_second
            ==> s.voice_due(sec) == t.voice_due(sec),
{
}

/// A tick speaks the second it shows exactly when a countdown runs after the
/// tick's start, reminders are on, that second is one of 1 to 5, and it is
/// not the last one spoken (a countdown begun in this tick has spoken none).
/// In particular the tick that starts a countdown of 1 to 5 seconds with
/// reminders on speaks its full length.
pub proof fn lemma_tick_voice_exactly(s: AppState, start_requested: bool, elapsed_secs: usize)
    requires
        s.countdown_active ==> elapsed_secs <= s.counting_seconds,
    ensures
        ({
            let starts = start_requested && !s.countdown_active;
            let active = s.countdown_active || starts;
            let shown: int = if starts { s.counting_seconds as int } else { s.counting_seconds - elapsed_secs };
            let last = if starts { None } else { s.last_announced_second };
            s.tick_voice(start_requested, elapsed_secs) == (if active && s.play_voice && 1 <= shown <= 5
                && last != Some(shown as usize) {
                Some(shown as usize)
            } else {
                None
            })
        }),
        !s.countdown_active && s.play_voice && 1 <= s.counting_seconds <= 5 ==> s.tick_voice(
            true,
            elapsed_secs,
        ) == Some(s.counting_seconds),
{
}

/// The trigger: strictly more blocks than the threshold.
pub proof fn lemma_trigger_threshold(threshold: nat)
    ensures
        !blocks_trigger(threshold, threshold),
        blocks_trigger(threshold + 1, threshold),
        forall|count: nat| count <= threshold ==> !blocks_trigger(count, threshold),
        forall|count: nat| count > threshold ==> blocks_trigger(count, threshold),
{
}

/// A spoken second is the one the overlay shows after the tick.
pub proof fn lemma_voice_matches_overlay(s: AppState, start_requested: bool, elapsed_secs: usize)
    requires
        s.countdown_active ==> elapsed_secs <= s.counting_seconds,
    ensures
        s.tick_voice(start_requested, elapsed_secs) matches Some(sec) ==> s.after_tick(
            start_requested,
            elapsed_secs,
        ).remind_seconds == Some(sec) && s.after_tick(start_requested, elapsed_secs).last_announced_second == Some(sec),
{
}

/// Ticks, starting, stopping and resetting keep the overlay in step with the
/// countdown.
pub proof fn lemma_operations_keep_consistency(s: AppState, start_requested: bool, elapsed_secs: usize, sec: usize)
    requires
        s.is_consistent(),
        s.countdown_active ==> elapsed_secs <= s.counting_seconds,
    ensures
        s.after_tick(start_requested, elapsed_secs).is_consistent(),
        s.after_reset().is_consistent(),
        s.after_counting_down().is_consistent(),
        s.after_start_worker().is_consistent(),
        s.after_stop_worker().is_consistent(),
        s.after_voice(sec).is_consistent(),
{
}

/// Starting a running watcher changes nothing; stopping leaves no countdown.
pub proof fn lemma_worker_start_stop(s: AppState)
    ensures
        s.after_start_worker().after_start_worker() == s.after_start_worker(),
        s.after_start_worker().running,
        !s.after_stop_worker().running,
        !s.after_stop_worker().countdown_active,
        s.after_stop_worker().remind_seconds is None,
        s.after_stop_worker().config() == s.config(),
{
}

/// Every change to the settings is either marked for saving or already
/// saved: if the window's settings were those last saved, or a save was
/// pending, the same holds after any edit, tick, start or stop; and after a
/// save of the current settings it holds again.
pub proof fn lemma_settings_saved_or_dirty(
    s: AppState,
    saved: AppConfig,
    value: usize,
    flag: bool,
    min_width: usize,
    max_width: usize,
    start_requested: bool,
    elapsed_secs: usize,
    sec: usize,
)
    requires
        s.config_dirty || s.config() == saved,
    ensures
        ({
            let t = s.after_set_block_threshold(value);
            t.config_dirty || t.config() == saved
        }),
        ({
            let t = s.after_set_counting_seconds(value);
            t.config_dirty || t.config() == saved
        }),
        ({
            let t = s.after_set_play_voice(flag);
            t.config_dirty || t.config() == saved
        }),
        ({
            let t = s.after_set_block_widths(min_width, max_width);
            t.config_dirty || t.config() == saved
        }),
        ({
            let t = s.after_toggle_debug();
            t.config_dirty || t.config() == saved
        }),
        ({
            let t = s.after_tick(start_requested, elapsed_secs);
            t.config_dirty || t.config() == saved
        }),
        ({
            let t = s.after_voice(sec);
            t.config_dirty || t.config() == saved
        }),
        ({
            let t = s.after_start_worker();
            t.config_dirty || t.config() == saved
        }),
        ({
            let t = s.after_stop_worker();
            t.config_dirty || t.config() == saved
        }),
        ({
            let t = s.after_config_saved();
            !t.config_dirty && t.config() == s.config()
        }),
{
}

/// A forced save always happens; unchanged settings are saved only when
/// forced; changed settings wait for the sync interval.
pub proof fn lemma_save_policy(s: AppState, millis_since_sync: u64)
    ensures
        s.save_due(true, millis_since_sync),
        !s.config_dirty ==> !s.save_due(false, millis_since_sync),
        s.config_dirty ==> (s.save_due(false, millis_since_sync) <==> millis_since_sync >= 2000),
{
}

} // verus!
