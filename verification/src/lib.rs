//! A practice aid for timed puzzle solving: a stopwatch, a scramble
//! generator, validated solve records, a session log and its statistics.

pub mod app;
pub mod clock;
pub mod math;
pub mod render;
pub mod scramble;
pub mod session;
pub mod solve;
pub mod timer;
