//! A countdown timer's engine: the shared counter of remaining seconds and
//! the state machine that merges key presses and ticks into one stream.

pub mod counter;
pub mod machine;
pub mod timer;
pub mod laws;
pub mod display;
