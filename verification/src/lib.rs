//! A Pomodoro timer library: a verified timer state machine that cycles
//! through work intervals, short breaks and one long break per set, together
//! with the time-formatting and display projections the state machine exposes.

pub mod clock;
pub mod time_format;
pub mod timer;
