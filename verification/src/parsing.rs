//! From a line of input to a structured command.

pub mod command_parser;
pub mod grammar;
pub mod laws;
