//! Decision logic of a screen-watching countdown timer.
//!
//! The application watches the primary display, counts red, roughly square
//! blocks in each frame and, once the count exceeds a threshold, runs a
//! countdown with optional spoken reminders for the last seconds.
//! This crate holds the parts of that program that compute: the
//! configuration model, the block filter and counter, the state machine of
//! the countdown window and the choice of voice files. Capturing the screen,
//! image filtering, drawing and sound stay with the caller.

pub mod config;
pub mod ui;
pub mod vision;

pub use config::{config_or_default, AppConfig};
pub use ui::console::{set_debug_console, ConsoleAction};
pub use ui::state::{normalize_widths, AppState, TickOutcome};
pub use ui::voice::{decimal_string, find_voice_file, find_voice_file_by, voice_file_from_probes, voice_file_name, voice_file_path};
pub use vision::task::{analyze_components, loop_task, BlockAnalysis, DebugFrame, LoopResult, TaskCtx};
pub use vision::util::{count_red_blocks, count_square_blocks, normalized, ComponentStats};
