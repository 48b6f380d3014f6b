//! The handler of external commands.

use crate::commands::command_handler::{
    no_answer, no_answer_error, not_handled, not_handled_error, CommandHandler,
};
use crate::commands::history_state::{HistoryState, HistoryStateView};
use crate::commands::host::{
    FailureKind, HostError, HostErrorView, Reply, ReplyView, Request, RequestView, Source,
};
use crate::commands::shell_error::{ShellError, ShellErrorView};
use crate::commands::supported_command::{copy_words, CommandView, SupportedCommand};
use vstd::prelude::*;

verus! {

pub struct UnspecifiedCommandHandler;

/// The failure of starting or running `name` that the host's `error`
/// amounts to.
pub open spec fn launch_failure(name: Seq<char>, error: HostErrorView) -> ShellErrorView {
    match error.kind {
        FailureKind::NotFound => ShellErrorView::CommandNotFound { name },
        FailureKind::SpawnFailed => ShellErrorView::SpawnFailure { name, cause: error.message },
        _ => ShellErrorView::IoFailure { cause: error.message },
    }
}

impl UnspecifiedCommandHandler {
    /// The failure of starting or running `name` that the host's `error`
    /// amounts to.
    pub fn failure(name: &String, error: &HostError) -> (e: ShellError)
        ensures
            e@ == launch_failure(name@, error@),
    {
        match error.kind {
            FailureKind::NotFound => ShellError::CommandNotFound { name: name.clone() },
            FailureKind::SpawnFailed => ShellError::SpawnFailure {
                name: name.clone(),
                cause: error.message.clone(),
            },
            _ => ShellError::IoFailure { cause: error.message.clone() },
        }
    }

    /// The request that starts `cmd` as a process of a pipeline: the
    /// process is given the name that was typed, not the path of its
    /// executable, as its own name.
    pub fn spawn_process(&self, cmd: &String, args: &Vec<String>, stdin: Source, piped: bool) -> (r:
        Request)
        ensures
            r@ == (RequestView::Spawn { name: cmd@, args: args.deep_view(), stdin, piped }),
    {
        Request::Spawn { name: cmd.clone(), args: copy_words(args), stdin, piped }
    }
}

impl CommandHandler for UnspecifiedCommandHandler {
    open spec fn accepts(&self, cmd: CommandView) -> bool {
        cmd is Unspecified
    }

    open spec fn needs(&self, cmd: CommandView, history: HistoryStateView) -> Option<RequestView> {
        match cmd {
            CommandView::Unspecified { cmd, args } => Some(RequestView::Run { name: cmd, args }),
            _ => None,
        }
    }

    open spec fn result(
        &self,
        cmd: CommandView,
        reply: ReplyView,
        history: HistoryStateView,
    ) -> Result<Seq<char>, ShellErrorView> {
        match cmd {
            CommandView::Unspecified { cmd, args } => match reply {
                ReplyView::Done(Ok(())) => Ok(Seq::empty()),
                ReplyView::Done(Err(error)) => Err(launch_failure(cmd, error)),
                _ => Err(no_answer()),
            },
            _ => Err(not_handled()),
        }
    }

    open spec fn history_after(
        &self,
        cmd: CommandView,
        reply: ReplyView,
        history: HistoryStateView,
    ) -> HistoryStateView {
        history
    }

    fn can_handle(&self, cmd: &SupportedCommand) -> (b: bool) {
        match cmd {
            SupportedCommand::Unspecified { .. } => true,
            _ => false,
        }
    }

    fn request(&self, cmd: &SupportedCommand, history: &HistoryState) -> (r: Option<Request>) {
        match cmd {
            SupportedCommand::Unspecified { cmd, args } => Some(
                Request::Run { name: cmd.clone(), args: copy_words(args) },
            ),
            _ => None,
        }
    }

    fn handle(&self, cmd: &SupportedCommand, reply: &Reply, history: &mut HistoryState) -> (r:
        Result<String, ShellError>) {
        match cmd {
            SupportedCommand::Unspecified { cmd, args } => match reply {
                Reply::Done(Ok(())) => Ok(String::new()),
                Reply::Done(Err(error)) => Err(Self::failure(cmd, error)),
                _ => Err(no_answer_error()),
            },
            _ => Err(not_handled_error()),
        }
    }
}

} // verus!
