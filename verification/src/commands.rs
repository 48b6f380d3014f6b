//! The command model, the handlers of the built-in and external commands,
//! and the registry that matches a command with its handler.

pub mod cd_command_handler;
pub mod command_handler;
pub mod echo_command_handler;
pub mod history_command_handler;
pub mod history_state;
pub mod host;
pub mod locate_command_handler;
pub mod path_helper;
pub mod pipeline_command_handler;
pub mod pwd_command_handler;
pub mod redirection_command_handler;
pub mod registry;
pub mod shell_error;
pub mod supported_command;
pub mod type_command_handler;
pub mod unspecified_command_handler;
