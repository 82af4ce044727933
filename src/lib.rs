//! Event-processing core of a keyboard firmware: a timing-aware finite-state
//! machine that turns debounced key presses and releases into logical key
//! output, telling taps from holds by the time spent in each state and by a
//! small set of sticky modifier flags.

pub mod clock;
pub mod condition;
pub mod engine;
pub mod event;
pub mod flags;
pub mod transition;
