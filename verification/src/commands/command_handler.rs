//! What every handler of a command offers.

use crate::commands::history_state::{HistoryState, HistoryStateView};
use crate::commands::host::{request_view, Reply, ReplyView, Request, RequestView};
use crate::commands::shell_error::{result_view, ShellError, ShellErrorView};
use crate::commands::supported_command::{CommandView, SupportedCommand};
use vstd::prelude::*;

verus! {

/// A handler runs the commands that it accepts, in two steps: it names the
/// operation that the command needs from the host, if any, and it computes
/// the command's result from the host's answer.
pub trait CommandHandler {
    /// Whether the handler runs `cmd`.
    spec fn accepts(&self, cmd: CommandView) -> bool;

    /// The operation that `cmd` needs from the host, if any.
    spec fn needs(&self, cmd: CommandView, history: HistoryStateView) -> Option<RequestView>;

    /// What `cmd` gives back once the host has answered `reply`.
    spec fn result(&self, cmd: CommandView, reply: ReplyView, history: HistoryStateView) -> Result<
        Seq<char>,
        ShellErrorView,
    >;

    /// The history after `cmd`.
    spec fn history_after(
        &self,
        cmd: CommandView,
        reply: ReplyView,
        history: HistoryStateView,
    ) -> HistoryStateView;

    /// Whether the handler runs `cmd`.
    fn can_handle(&self, cmd: &SupportedCommand) -> (b: bool)
        ensures
            b == self.accepts(cmd@),
    ;

    /// The operation that `cmd` needs from the host, if any.
    fn request(&self, cmd: &SupportedCommand, history: &HistoryState) -> (r: Option<Request>)
        ensures
            request_view(r) == self.needs(cmd@, history@),
    ;

    /// Runs `cmd`, given the host's answer to its request: `Reply::Nothing`
    /// where it made none.
    fn handle(&self, cmd: &SupportedCommand, reply: &Reply, history: &mut HistoryState) -> (r:
        Result<String, ShellError>)
        ensures
            result_view(r) == self.result(cmd@, reply@, old(history)@),
            final(history)@ == self.history_after(cmd@, reply@, old(history)@),
    ;
}

/// The failure of a handler that is given a command it does not run.
pub open spec fn not_handled() -> ShellErrorView {
    ShellErrorView::NoHandler { kind: "the command"@ }
}

/// The failure of a handler that is given an answer to another request
/// than its own.
pub open spec fn no_answer() -> ShellErrorView {
    ShellErrorView::IoFailure { cause: "the host gave no usable answer"@ }
}

pub fn not_handled_error() -> (e: ShellError)
    ensures
        e@ == not_handled(),
{
    ShellError::NoHandler { kind: "the command".to_string() }
}

pub fn no_answer_error() -> (e: ShellError)
    ensures
        e@ == no_answer(),
{
    ShellError::IoFailure { cause: "the host gave no usable answer".to_string() }
}

} // verus!
