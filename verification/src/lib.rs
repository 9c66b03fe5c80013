//! Decision logic of a battery notifier: threshold configuration, severity
//! classification, a scripted battery for demonstrations, and the debounce
//! state machine that decides on every poll tick whether an alert is due.

pub mod battery;
pub mod clock;
pub mod config;
pub mod engine;
pub mod level;
pub mod notify;
pub mod paths;
pub mod simulator;
pub mod text;
