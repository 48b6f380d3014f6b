//! The `type` built-in, for a name that is looked up on the search path.

use crate::commands::command_handler::{
    no_answer, no_answer_error, not_handled, not_handled_error, CommandHandler,
};
use crate::commands::history_state::{HistoryState, HistoryStateView};
use crate::commands::host::{Reply, ReplyView, Request, RequestView};
use crate::commands::shell_error::{ShellError, ShellErrorView};
use crate::commands::supported_command::{CommandView, SupportedCommand};
use crate::text::{extend_str, to_string};
use vstd::prelude::*;

verus! {

pub struct LocateCommandHandler;

/// What `type` says of an executable found at `path`.
pub open spec fn location_report(name: Seq<char>, path: Seq<char>) -> Seq<char> {
    name + " is "@ + path + seq!['\n']
}

impl CommandHandler for LocateCommandHandler {
    open spec fn accepts(&self, cmd: CommandView) -> bool {
        cmd is LocateExecutable
    }

    open spec fn needs(&self, cmd: CommandView, history: HistoryStateView) -> Option<RequestView> {
        match cmd {
            CommandView::LocateExecutable { cmd } => Some(
                RequestView::FindExecutable { name: cmd },
            ),
            _ => None,
        }
    }

    open spec fn result(
        &self,
        cmd: CommandView,
        reply: ReplyView,
        history: HistoryStateView,
    ) -> Result<Seq<char>, ShellErrorView> {
        match cmd {
            CommandView::LocateExecutable { cmd } => match reply {
                ReplyView::Path(Some(path)) => Ok(location_report(cmd, path)),
                ReplyView::Path(None) => Err(ShellErrorView::NameNotFound { name: cmd }),
                _ => Err(no_answer()),
            },
            _ => Err(not_handled()),
        }
    }

    open spec fn history_after(
        &self,
        cmd: CommandView,
        reply: ReplyView,
        history: HistoryStateView,
    ) -> HistoryStateView {
        history
    }

    fn can_handle(&self, cmd: &SupportedCommand) -> (b: bool) {
        match cmd {
            SupportedCommand::LocateExecutable { .. } => true,
            _ => false,
        }
    }

    fn request(&self, cmd: &SupportedCommand, history: &HistoryState) -> (r: Option<Request>) {
        match cmd {
            SupportedCommand::LocateExecutable { cmd } => Some(
                Request::FindExecutable { name: cmd.clone() },
            ),
            _ => None,
        }
    }

    fn handle(&self, cmd: &SupportedCommand, reply: &Reply, history: &mut HistoryState) -> (r:
        Result<String, ShellError>) {
        match cmd {
            SupportedCommand::LocateExecutable { cmd } => match reply {
                Reply::Path(Some(path)) => {
                    let mut out: Vec<char> = Vec::new();
                    extend_str(&mut out, cmd.as_str());
                    extend_str(&mut out, " is ");
                    extend_str(&mut out, path.as_str());
                    out.push('\n');
                    assert(out@ =~= location_report(cmd@, path@));
                    Ok(to_string(&out))
                },
                Reply::Path(None) => Err(ShellError::NameNotFound { name: cmd.clone() }),
                _ => Err(no_answer_error()),
            },
            _ => Err(not_handled_error()),
        }
    }
}

} // verus!
