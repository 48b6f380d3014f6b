//! The `cd` built-in.

use crate::commands::command_handler::{
    no_answer, no_answer_error, not_handled, not_handled_error, CommandHandler,
};
use crate::commands::history_state::{HistoryState, HistoryStateView};
use crate::commands::host::{FailureKind, HostErrorView, Reply, ReplyView, Request, RequestView};
use crate::commands::shell_error::{ShellError, ShellErrorView};
use crate::commands::supported_command::{CommandView, SupportedCommand};
use crate::text::{extend_str, is_text, to_chars, to_string};
use vstd::prelude::*;

verus! {

/// The handler of `cd`. It knows the home directory that the session
/// started with.
pub struct ChangeDirCommandHandler {
    pub home: Option<String>,
}

/// The directory that `cd` is to enter for the argument `path`: the home
/// directory for `~`, or the root where the session has no home; else the
/// argument as it is.
pub open spec fn cd_target(home: Option<Seq<char>>, path: Seq<char>) -> Seq<char> {
    if path == "~"@ {
        match home {
            Some(dir) => dir,
            None => "/"@,
        }
    } else {
        path
    }
}

/// The failure of `cd` into `target` that the host's `error` amounts to.
pub open spec fn cd_failure(target: Seq<char>, error: HostErrorView) -> ShellErrorView {
    match error.kind {
        FailureKind::NotFound => ShellErrorView::PathNotFound { path: target },
        FailureKind::PermissionDenied => ShellErrorView::PermissionDenied { path: target },
        _ => ShellErrorView::IoFailure { cause: "cd: "@ + target + ": "@ + error.message },
    }
}

impl ChangeDirCommandHandler {
    pub fn new(home: Option<String>) -> (handler: ChangeDirCommandHandler)
        ensures
            handler.home == home,
    {
        ChangeDirCommandHandler { home }
    }

    /// The home directory that the handler knows.
    pub open spec fn home_view(&self) -> Option<Seq<char>> {
        match self.home {
            Some(dir) => Some(dir@),
            None => None,
        }
    }

    /// The directory that `cd` is to enter for the argument `path`.
    pub fn target(&self, path: &String) -> (target: String)
        ensures
            target@ == cd_target(self.home_view(), path@),
    {
        if is_text(&to_chars(path.as_str()), "~") {
            match &self.home {
                Some(dir) => dir.clone(),
                None => "/".to_string(),
            }
        } else {
            path.clone()
        }
    }
}

impl CommandHandler for ChangeDirCommandHandler {
    open spec fn accepts(&self, cmd: CommandView) -> bool {
        cmd is ChangeDir
    }

    open spec fn needs(&self, cmd: CommandView, history: HistoryStateView) -> Option<RequestView> {
        match cmd {
            CommandView::ChangeDir { path } => Some(
                RequestView::ChangeDir { path: cd_target(self.home_view(), path) },
            ),
            _ => None,
        }
    }

    open spec fn result(
        &self,
        cmd: CommandView,
        reply: ReplyView,
        history: HistoryStateView,
    ) -> Result<Seq<char>, ShellErrorView> {
        match cmd {
            CommandView::ChangeDir { path } => match reply {
                ReplyView::Done(Ok(())) => Ok(Seq::empty()),
                ReplyView::Done(Err(error)) => Err(
                    cd_failure(cd_target(self.home_view(), path), error),
                ),
                _ => Err(no_answer()),
            },
            _ => Err(not_handled()),
        }
    }

    open spec fn history_after(
        &self,
        cmd: CommandView,
        reply: ReplyView,
        history: HistoryStateView,
    ) -> HistoryStateView {
        history
    }

    fn can_handle(&self, cmd: &SupportedCommand) -> (b: bool) {
        match cmd {
            SupportedCommand::ChangeDir { .. } => true,
            _ => false,
        }
    }

    fn request(&self, cmd: &SupportedCommand, history: &HistoryState) -> (r: Option<Request>) {
        match cmd {
            SupportedCommand::ChangeDir { path } => Some(
                Request::ChangeDir { path: self.target(path) },
            ),
            _ => None,
        }
    }

    fn handle(&self, cmd: &SupportedCommand, reply: &Reply, history: &mut HistoryState) -> (r:
        Result<String, ShellError>) {
        match cmd {
            SupportedCommand::ChangeDir { path } => match reply {
                Reply::Done(Ok(())) => Ok(String::new()),
                Reply::Done(Err(error)) => {
                    let target = self.target(path);
                    match error.kind {
                        FailureKind::NotFound => Err(ShellError::PathNotFound { path: target }),
                        FailureKind::PermissionDenied => Err(
                            ShellError::PermissionDenied { path: target },
                        ),
                        _ => {
                            let mut cause: Vec<char> = Vec::new();
                            extend_str(&mut cause, "cd: ");
                            extend_str(&mut cause, target.as_str());
                            extend_str(&mut cause, ": ");
                            extend_str(&mut cause, error.message.as_str());
                            assert(cause@ =~= "cd: "@ + target@ + ": "@ + error.message@);
                            Err(ShellError::IoFailure { cause: to_string(&cause) })
                        },
                    }
                },
                _ => Err(no_answer_error()),
            },
            _ => Err(not_handled_error()),
        }
    }
}

} // verus!
