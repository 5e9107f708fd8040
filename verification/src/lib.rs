//! Core of a terminal Pomodoro timer: the session state machine that drives
//! focus/break/long-break cycles, the per-project time ledger, the user
//! configuration, and the pure text rendering of countdowns and durations.

pub mod config;
pub mod digits;
pub mod pomodoro;
pub mod project;
pub mod theme;

pub use config::Config;
pub use pomodoro::{draw_timer_ascii, format_time, Mode, Pomodoro};
pub use project::Project;
pub use project::format_hms;
pub use theme::{Base16, Theme};
