//! The `history` built-in.

use crate::commands::command_handler::{
    no_answer, no_answer_error, not_handled, not_handled_error, CommandHandler,
};
use crate::commands::history_state::{
    joined, survives_a_file, written_entries_read_back, HistoryState, HistoryStateView,
};
use crate::commands::host::{Reply, ReplyView, Request, RequestView};
use crate::commands::shell_error::{ShellError, ShellErrorView};
use crate::commands::supported_command::{
    CommandView, HistoryAction, HistoryActionView, SupportedCommand,
};
use vstd::prelude::*;

verus! {

pub struct HistoryCommandHandler;

impl HistoryCommandHandler {
    pub fn new() -> (handler: HistoryCommandHandler) {
        HistoryCommandHandler
    }
}

/// The operation that a history action needs from the host: reading reads
/// the file, writing puts every entry in place of what the file held, and
/// appending adds the entries that the file does not hold yet. A display
/// needs nothing.
pub open spec fn history_needs(action: HistoryActionView, history: HistoryStateView) -> Option<
    RequestView,
> {
    match action {
        HistoryActionView::Display { .. } => None,
        HistoryActionView::Read { path } => Some(RequestView::ReadFile { path }),
        HistoryActionView::Write { path } => Some(
            RequestView::WriteFile {
                path,
                content: joined(history.commands),
                append: false,
                parents: false,
            },
        ),
        HistoryActionView::Append { path } => Some(
            RequestView::WriteFile {
                path,
                content: joined(history.pending()),
                append: true,
                parents: false,
            },
        ),
    }
}

/// What a history action gives back: the list for a display, nothing for
/// the others, or the host's failure.
pub open spec fn history_result(
    action: HistoryActionView,
    reply: ReplyView,
    history: HistoryStateView,
) -> Result<Seq<char>, ShellErrorView> {
    match action {
        HistoryActionView::Display { limit } => Ok(history.display(limit)),
        HistoryActionView::Read { .. } => match reply {
            ReplyView::Text(Ok(_)) => Ok(Seq::empty()),
            ReplyView::Text(Err(error)) => Err(ShellErrorView::IoFailure { cause: error.message }),
            _ => Err(no_answer()),
        },
        _ => match reply {
            ReplyView::Done(Ok(())) => Ok(Seq::empty()),
            ReplyView::Done(Err(error)) => Err(ShellErrorView::IoFailure { cause: error.message }),
            _ => Err(no_answer()),
        },
    }
}

/// The history after a history action: a file that was read adds its
/// non-blank lines, and an append that was carried out leaves no entry
/// pending. Nothing else changes the history.
pub open spec fn history_effect(
    action: HistoryActionView,
    reply: ReplyView,
    history: HistoryStateView,
) -> HistoryStateView {
    match (action, reply) {
        (HistoryActionView::Read { .. }, ReplyView::Text(Ok(text))) => history.with_lines(text),
        (HistoryActionView::Append { .. }, ReplyView::Done(Ok(()))) => history.persisted(),
        _ => history,
    }
}

impl CommandHandler for HistoryCommandHandler {
    open spec fn accepts(&self, cmd: CommandView) -> bool {
        cmd is History
    }

    open spec fn needs(&self, cmd: CommandView, history: HistoryStateView) -> Option<RequestView> {
        match cmd {
            CommandView::History { action } => history_needs(action, history),
            _ => None,
        }
    }

    open spec fn result(
        &self,
        cmd: CommandView,
        reply: ReplyView,
        history: HistoryStateView,
    ) -> Result<Seq<char>, ShellErrorView> {
        match cmd {
            CommandView::History { action } => history_result(action, reply, history),
            _ => Err(not_handled()),
        }
    }

    open spec fn history_after(
        &self,
        cmd: CommandView,
        reply: ReplyView,
        history: HistoryStateView,
    ) -> HistoryStateView {
        match cmd {
            CommandView::History { action } => history_effect(action, reply, history),
            _ => history,
        }
    }

    fn can_handle(&self, cmd: &SupportedCommand) -> (b: bool) {
        match cmd {
            SupportedCommand::History { .. } => true,
            _ => false,
        }
    }

    fn request(&self, cmd: &SupportedCommand, history: &HistoryState) -> (r: Option<Request>) {
        match cmd {
            SupportedCommand::History { action } => match action {
                HistoryAction::Display { .. } => None,
                HistoryAction::Read { path } => Some(Request::ReadFile { path: path.clone() }),
                HistoryAction::Write { path } => Some(
                    Request::WriteFile {
                        path: path.clone(),
                        content: history.full_text(),
                        append: false,
                        parents: false,
                    },
                ),
                HistoryAction::Append { path } => Some(
                    Request::WriteFile {
                        path: path.clone(),
                        content: history.pending_text(),
                        append: true,
                        parents: false,
                    },
                ),
            },
            _ => None,
        }
    }

    fn handle(&self, cmd: &SupportedCommand, reply: &Reply, history: &mut HistoryState) -> (r:
        Result<String, ShellError>) {
        match cmd {
            SupportedCommand::History { action } => match action {
                HistoryAction::Display { limit } => Ok(history.display(*limit)),
                HistoryAction::Read { .. } => match reply {
                    Reply::Text(Ok(text)) => {
                        history.read_lines(text.as_str());
                        Ok(String::new())
                    },
                    Reply::Text(Err(error)) => Err(
                        ShellError::IoFailure { cause: error.message.clone() },
                    ),
                    _ => Err(no_answer_error()),
                },
                HistoryAction::Write { .. } => match reply {
                    Reply::Done(Ok(())) => Ok(String::new()),
                    Reply::Done(Err(error)) => Err(
                        ShellError::IoFailure { cause: error.message.clone() },
                    ),
                    _ => Err(no_answer_error()),
                },
                HistoryAction::Append { .. } => match reply {
                    Reply::Done(Ok(())) => {
                        history.mark_persisted();
                        Ok(String::new())
                    },
                    Reply::Done(Err(error)) => Err(
                        ShellError::IoFailure { cause: error.message.clone() },
                    ),
                    _ => Err(no_answer_error()),
                },
            },
            _ => Err(not_handled_error()),
        }
    }
}

/// A history display changes nothing, so a second display right after it
/// shows the same.
pub proof fn display_twice_shows_the_same(
    handler: HistoryCommandHandler,
    limit: Option<usize>,
    first_reply: ReplyView,
    second_reply: ReplyView,
    history: HistoryStateView,
)
    ensures
        ({
            let cmd = CommandView::History { action: HistoryActionView::Display { limit } };
            let after = handler.history_after(cmd, first_reply, history);
            &&& after == history
            &&& handler.result(cmd, second_reply, after) == handler.result(
                cmd,
                first_reply,
                history,
            )
            &&& handler.needs(cmd, history) is None
        }),
{
}

/// What one session writes with `history -w`, a new session reads back
/// with `history -r` as the same entries in the same order, provided each
/// entry can stand on a line of its own.
pub proof fn written_history_reads_back(
    handler: HistoryCommandHandler,
    path: Seq<char>,
    history: HistoryStateView,
)
    requires
        forall|i: int|
            0 <= i < history.commands.len() ==> survives_a_file(#[trigger] history.commands[i]),
    ensures
        ({
            let write = CommandView::History { action: HistoryActionView::Write { path } };
            let read = CommandView::History { action: HistoryActionView::Read { path } };
            &&& handler.needs(write, history) matches Some(
                RequestView::WriteFile { path: written, content, append, .. },
            )
            &&& written == path
            &&& !append
            &&& handler.needs(read, HistoryStateView::empty()) == Some(
                RequestView::ReadFile { path },
            )
            &&& handler.history_after(
                read,
                ReplyView::Text(Ok(content)),
                HistoryStateView::empty(),
            ).commands == history.commands
        }),
{
    written_entries_read_back(history.commands);
    assert(Seq::<Seq<char>>::empty() + history.commands =~= history.commands);
}

} // verus!
