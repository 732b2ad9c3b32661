//! A Pomodoro countdown-timer core: a verified state machine that alternates
//! fixed-length work and break phases, counts completed work sessions, and
//! drives a one-second countdown, together with the driver logic that arms a
//! repeating clock and derives notification messages.

pub mod display;
pub mod driver;
pub mod laws;
pub mod machine;
pub mod phase;

pub use display::format_time;
pub use driver::TimerDriver;
pub use driver::completion_message;
pub use machine::PhaseCompletion;
pub use machine::TimerMachine;
pub use phase::TimerState;
