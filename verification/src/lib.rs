//! Time tracking against eight activity categories, driven by number keys or
//! by an eight-sided Bluetooth tracker that reports which face is up.
//!
//! Everything here is plain decision logic with machine-checked contracts.
//! Whatever has to wait on a radio, a terminal or a file is left to the
//! program around this library: it performs the requests that the state
//! machines in [`bluetooth`] hand out and reports back what happened.

pub mod app;
pub mod bluetooth;
pub mod clock;
pub mod control;
pub mod entry;
pub mod stats;
pub mod text;
pub mod ui;
pub mod utils;

pub use crate::app::App;
pub use crate::app::Message;
pub use crate::app::Preferences;
pub use crate::entry::TimeLog;
