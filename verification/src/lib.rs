//! Core of an input-event monitor: it renders one line per device event,
//! watches for a double tap of the quit key, and works out how the terminal's
//! local modes must change to switch echo off and on again.
//!
//! Reading the device, writing the lines and talking to the terminal driver
//! are left to the caller; everything here is a function of plain values.

pub mod args;
pub mod event;
pub mod monitor;
pub mod quit;
pub mod render;
pub mod term;
pub mod time;

pub use args::{parse_args, usage, Config};
pub use event::{DeviceEvent, Outcome, ReadStatus};
pub use monitor::{error_notice, Action, LoopState, Monitor, FAREWELL, STARTUP_HINT};
pub use quit::QuitDetector;
pub use render::format_event;
pub use term::{terminal_echo_change, terminal_echo_change_with};
pub use time::Timestamp;
