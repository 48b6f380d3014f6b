//! The shell itself: what it does with a line, and how a command is run.

pub mod engine;
