//! Completion of command names.

pub mod auto_complete_helper;
