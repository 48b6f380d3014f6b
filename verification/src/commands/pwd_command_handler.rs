//! The `pwd` built-in.

use crate::commands::command_handler::{
    no_answer, no_answer_error, not_handled, not_handled_error, CommandHandler,
};
use crate::commands::history_state::{HistoryState, HistoryStateView};
use crate::commands::host::{Reply, ReplyView, Request, RequestView};
use crate::commands::shell_error::{ShellError, ShellErrorView};
use crate::commands::supported_command::{CommandView, SupportedCommand};
use crate::text::{extend_str, to_string};
use vstd::prelude::*;

verus! {

pub struct PwdCommandHandler;

/// The failure of `pwd` where the host cannot tell the working directory.
pub open spec fn no_working_directory() -> ShellErrorView {
    ShellErrorView::IoFailure { cause: "pwd: unable to determine current directory"@ }
}

impl CommandHandler for PwdCommandHandler {
    open spec fn accepts(&self, cmd: CommandView) -> bool {
        cmd is Pwd
    }

    open spec fn needs(&self, cmd: CommandView, history: HistoryStateView) -> Option<RequestView> {
        match cmd {
            CommandView::Pwd => Some(RequestView::CurrentDir),
            _ => None,
        }
    }

    open spec fn result(
        &self,
        cmd: CommandView,
        reply: ReplyView,
        history: HistoryStateView,
    ) -> Result<Seq<char>, ShellErrorView> {
        match cmd {
            CommandView::Pwd => match reply {
                ReplyView::Path(Some(dir)) => Ok(dir + seq!['\n']),
                ReplyView::Path(None) => Err(no_working_directory()),
                _ => Err(no_answer()),
            },
            _ => Err(not_handled()),
        }
    }

    open spec fn history_after(
        &self,
        cmd: CommandView,
        reply: ReplyView,
        history: HistoryStateView,
    ) -> HistoryStateView {
        history
    }

    fn can_handle(&self, cmd: &SupportedCommand) -> (b: bool) {
        match cmd {
            SupportedCommand::Pwd => true,
            _ => false,
        }
    }

    fn request(&self, cmd: &SupportedCommand, history: &HistoryState) -> (r: Option<Request>) {
        match cmd {
            SupportedCommand::Pwd => Some(Request::CurrentDir),
            _ => None,
        }
    }

    fn handle(&self, cmd: &SupportedCommand, reply: &Reply, history: &mut HistoryState) -> (r:
        Result<String, ShellError>) {
        match cmd {
            SupportedCommand::Pwd => match reply {
                Reply::Path(Some(dir)) => {
                    let mut out: Vec<char> = Vec::new();
                    extend_str(&mut out, dir.as_str());
                    out.push('\n');
                    assert(out@ =~= dir@ + seq!['\n']);
                    Ok(to_string(&out))
                },
                Reply::Path(None) => Err(
                    ShellError::IoFailure {
                        cause: "pwd: unable to determine current directory".to_string(),
                    },
                ),
                _ => Err(no_answer_error()),
            },
            _ => Err(not_handled_error()),
        }
    }
}

} // verus!
