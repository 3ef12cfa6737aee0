//! A Pomodoro-style interval timer: duration parsing, the keyboard command
//! buffer, the per-phase session state machine and the phase schedule.
pub mod command;
pub mod duration;
pub mod event;
pub mod schedule;
pub mod session;
