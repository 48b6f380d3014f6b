//! The `type` built-in, for a name that is a built-in.

use crate::commands::command_handler::{not_handled, not_handled_error, CommandHandler};
use crate::commands::history_state::{HistoryState, HistoryStateView};
use crate::commands::host::{Reply, ReplyView, Request, RequestView};
use crate::commands::shell_error::{ShellError, ShellErrorView};
use crate::commands::supported_command::{CommandView, SupportedCommand};
use crate::text::{extend_str, to_string};
use vstd::prelude::*;

verus! {

pub struct TypeCommandHandler;

/// What `type` says of a built-in.
pub open spec fn builtin_report(name: Seq<char>) -> Seq<char> {
    name + " is a shell builtin\n"@
}

impl CommandHandler for TypeCommandHandler {
    open spec fn accepts(&self, cmd: CommandView) -> bool {
        cmd is TypeCheck
    }

    open spec fn needs(&self, cmd: CommandView, history: HistoryStateView) -> Option<RequestView> {
        None
    }

    /// A name that is a built-in is reported as one. Any other name is not
    /// found: the parser hands such a name to the search of the path
    /// instead.
    open spec fn result(
        &self,
        cmd: CommandView,
        reply: ReplyView,
        history: HistoryStateView,
    ) -> Result<Seq<char>, ShellErrorView> {
        match cmd {
            CommandView::TypeCheck { cmd } => if SupportedCommand::is_builtin(cmd) {
                Ok(builtin_report(cmd))
            } else {
                Err(ShellErrorView::NameNotFound { name: cmd })
            },
            _ => Err(not_handled()),
        }
    }

    open spec fn history_after(
        &self,
        cmd: CommandView,
        reply: ReplyView,
        history: HistoryStateView,
    ) -> HistoryStateView {
        history
    }

    fn can_handle(&self, cmd: &SupportedCommand) -> (b: bool) {
        match cmd {
            SupportedCommand::TypeCheck { .. } => true,
            _ => false,
        }
    }

    fn request(&self, cmd: &SupportedCommand, history: &HistoryState) -> (r: Option<Request>) {
        None
    }

    fn handle(&self, cmd: &SupportedCommand, reply: &Reply, history: &mut HistoryState) -> (r:
        Result<String, ShellError>) {
        match cmd {
            SupportedCommand::TypeCheck { cmd } => {
                if SupportedCommand::supported(cmd) {
                    let mut out: Vec<char> = Vec::new();
                    extend_str(&mut out, cmd.as_str());
                    extend_str(&mut out, " is a shell builtin\n");
                    assert(out@ =~= builtin_report(cmd@));
                    Ok(to_string(&out))
                } else {
                    Err(ShellError::NameNotFound { name: cmd.clone() })
                }
            },
            _ => Err(not_handled_error()),
        }
    }
}

} // verus!
