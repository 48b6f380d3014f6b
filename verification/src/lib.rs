//! The interpretation core of an interactive command shell.
//!
//! A line of input is split into words with shell quoting and escaping,
//! turned into a structured command, and matched with the handler that runs
//! it. Nothing here touches the operating system: every handler says which
//! operation it needs from the host, and computes its result from the host's
//! answer.

pub mod text;
pub mod commands;
pub mod parsing;
pub mod shell;
pub mod auto_complete;
