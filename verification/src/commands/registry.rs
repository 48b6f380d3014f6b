//! The registry: which handler runs which command.

use crate::commands::cd_command_handler::ChangeDirCommandHandler;
use crate::commands::command_handler::CommandHandler;
use crate::commands::echo_command_handler::EchoCommandHandler;
use crate::commands::history_command_handler::HistoryCommandHandler;
use crate::commands::history_state::{HistoryState, HistoryStateView};
use crate::commands::host::{Reply, ReplyView, Request, RequestView};
use crate::commands::locate_command_handler::LocateCommandHandler;
use crate::commands::pwd_command_handler::PwdCommandHandler;
use crate::commands::shell_error::{ShellError, ShellErrorView};
use crate::commands::supported_command::{CommandView, SupportedCommand};
use crate::commands::type_command_handler::TypeCommandHandler;
use crate::commands::unspecified_command_handler::UnspecifiedCommandHandler;
use vstd::prelude::*;

verus! {

/// One of the handlers of the commands that run by themselves.
pub enum Handler {
    Echo(EchoCommandHandler),
    Type(TypeCommandHandler),
    Locate(LocateCommandHandler),
    Unspecified(UnspecifiedCommandHandler),
    Pwd(PwdCommandHandler),
    ChangeDir(ChangeDirCommandHandler),
    History(HistoryCommandHandler),
}

impl CommandHandler for Handler {
    open spec fn accepts(&self, cmd: CommandView) -> bool {
        match self {
            Handler::Echo(h) => h.accepts(cmd),
            Handler::Type(h) => h.accepts(cmd),
            Handler::Locate(h) => h.accepts(cmd),
            Handler::Unspecified(h) => h.accepts(cmd),
            Handler::Pwd(h) => h.accepts(cmd),
            Handler::ChangeDir(h) => h.accepts(cmd),
            Handler::History(h) => h.accepts(cmd),
        }
    }

    open spec fn needs(&self, cmd: CommandView, history: HistoryStateView) -> Option<RequestView> {
        match self {
            Handler::Echo(h) => h.needs(cmd, history),
            Handler::Type(h) => h.needs(cmd, history),
            Handler::Locate(h) => h.needs(cmd, history),
            Handler::Unspecified(h) => h.needs(cmd, history),
            Handler::Pwd(h) => h.needs(cmd, history),
            Handler::ChangeDir(h) => h.needs(cmd, history),
            Handler::History(h) => h.needs(cmd, history),
        }
    }

    open spec fn result(
        &self,
        cmd: CommandView,
        reply: ReplyView,
        history: HistoryStateView,
    ) -> Result<Seq<char>, ShellErrorView> {
        match self {
            Handler::Echo(h) => h.result(cmd, reply, history),
            Handler::Type(h) => h.result(cmd, reply, history),
            Handler::Locate(h) => h.result(cmd, reply, history),
            Handler::Unspecified(h) => h.result(cmd, reply, history),
            Handler::Pwd(h) => h.result(cmd, reply, history),
            Handler::ChangeDir(h) => h.result(cmd, reply, history),
            Handler::History(h) => h.result(cmd, reply, history),
        }
    }

    open spec fn history_after(
        &self,
        cmd: CommandView,
        reply: ReplyView,
        history: HistoryStateView,
    ) -> HistoryStateView {
        match self {
            Handler::Echo(h) => h.history_after(cmd, reply, history),
            Handler::Type(h) => h.history_after(cmd, reply, history),
            Handler::Locate(h) => h.history_after(cmd, reply, history),
            Handler::Unspecified(h) => h.history_after(cmd, reply, history),
            Handler::Pwd(h) => h.history_after(cmd, reply, history),
            Handler::ChangeDir(h) => h.history_after(cmd, reply, history),
            Handler::History(h) => h.history_after(cmd, reply, history),
        }
    }

    fn can_handle(&self, cmd: &SupportedCommand) -> (b: bool) {
        match self {
            Handler::Echo(h) => h.can_handle(cmd),
            Handler::Type(h) => h.can_handle(cmd),
            Handler::Locate(h) => h.can_handle(cmd),
            Handler::Unspecified(h) => h.can_handle(cmd),
            Handler::Pwd(h) => h.can_handle(cmd),
            Handler::ChangeDir(h) => h.can_handle(cmd),
            Handler::History(h) => h.can_handle(cmd),
        }
    }

    fn request(&self, cmd: &SupportedCommand, history: &HistoryState) -> (r: Option<Request>) {
        match self {
            Handler::Echo(h) => h.request(cmd, history),
            Handler::Type(h) => h.request(cmd, history),
            Handler::Locate(h) => h.request(cmd, history),
            Handler::Unspecified(h) => h.request(cmd, history),
            Handler::Pwd(h) => h.request(cmd, history),
            Handler::ChangeDir(h) => h.request(cmd, history),
            Handler::History(h) => h.request(cmd, history),
        }
    }

    fn handle(&self, cmd: &SupportedCommand, reply: &Reply, history: &mut HistoryState) -> (r:
        Result<String, ShellError>) {
        match self {
            Handler::Echo(h) => h.handle(cmd, reply, history),
            Handler::Type(h) => h.handle(cmd, reply, history),
            Handler::Locate(h) => h.handle(cmd, reply, history),
            Handler::Unspecified(h) => h.handle(cmd, reply, history),
            Handler::Pwd(h) => h.handle(cmd, reply, history),
            Handler::ChangeDir(h) => h.handle(cmd, reply, history),
            Handler::History(h) => h.handle(cmd, reply, history),
        }
    }
}

/// The index of the first handler at or after `from` that accepts `cmd`, or
/// the number of handlers where none does.
pub open spec fn first_accepting(handlers: Seq<Handler>, cmd: CommandView, from: int) -> int
    decreases handlers.len() - from,
{
    if from < 0 || from >= handlers.len() {
        handlers.len() as int
    } else if handlers[from].accepts(cmd) {
        from
    } else {
        first_accepting(handlers, cmd, from + 1)
    }
}

/// The index of the handler that runs `cmd`: the first one that accepts it,
/// if any does.
pub open spec fn handler_of(handlers: Seq<Handler>, cmd: CommandView) -> Option<int> {
    let i = first_accepting(handlers, cmd, 0);
    if i < handlers.len() {
        Some(i)
    } else {
        None
    }
}

/// The first accepting handler is a handler, accepts, and no handler before
/// it does.
pub proof fn first_accepting_is_first(handlers: Seq<Handler>, cmd: CommandView, from: int)
    requires
        0 <= from <= handlers.len(),
    ensures
        from <= first_accepting(handlers, cmd, from) <= handlers.len(),
        first_accepting(handlers, cmd, from) < handlers.len() ==> handlers[first_accepting(
            handlers,
            cmd,
            from,
        )].accepts(cmd),
        forall|j: int|
            from <= j < first_accepting(handlers, cmd, from) ==> !(#[trigger] handlers[j]).accepts(
                cmd,
            ),
    decreases handlers.len() - from,
{
    if from < handlers.len() && !handlers[from].accepts(cmd) {
        first_accepting_is_first(handlers, cmd, from + 1);
    }
}

/// The index of the handler that runs `cmd`, if there is one.
pub fn find_handler(handlers: &Vec<Handler>, cmd: &SupportedCommand) -> (found: Option<usize>)
    ensures
        match found {
            Some(i) => handler_of(handlers@, cmd@) == Some(i as int) && i < handlers@.len(),
            None => handler_of(handlers@, cmd@) is None,
        },
{
    let mut i: usize = 0;
    while i < handlers.len()
        invariant
            i <= handlers@.len(),
            first_accepting(handlers@, cmd@, i as int) == first_accepting(handlers@, cmd@, 0),
        decreases handlers.len() - i,
    {
        if handlers[i].can_handle(cmd) {
            return Some(i);
        }
        i += 1;
    }
    None
}

/// The commands that a handler runs by itself: all but leaving the shell,
/// the empty command, redirections and pipelines, which the shell deals
/// with.
pub open spec fn runs_by_itself(cmd: CommandView) -> bool {
    !(cmd is Exit) && !(cmd is NoArgument) && !(cmd is Redirection) && !(cmd is Pipeline)
}

/// No handler leaves the history with more entries counted as written than
/// it has.
pub proof fn handlers_keep_the_history_well_formed(
    handler: Handler,
    cmd: CommandView,
    reply: ReplyView,
    history: HistoryStateView,
)
    requires
        history.well_formed(),
    ensures
        handler.history_after(cmd, reply, history).well_formed(),
{
}

/// The handlers of a session.
pub struct CommandRegistry {
    handlers: Vec<Handler>,
}

impl CommandRegistry {
    /// The handlers that the registry holds.
    pub closed spec fn view(&self) -> Seq<Handler> {
        self.handlers@
    }

    /// The registry of a session whose home directory is `home`. It holds
    /// one handler for each kind of command that runs by itself.
    pub fn new(home: Option<String>) -> (registry: CommandRegistry)
        ensures
            registry@.len() == 7,
            registry@[0] is Echo,
            registry@[1] is Type,
            registry@[2] is Locate,
            registry@[3] is Unspecified,
            registry@[4] is Pwd,
            registry@[5] matches Handler::ChangeDir(h) && h.home == home,
            registry@[6] is History,
            forall|cmd: CommandView| #[trigger]
                runs_by_itself(cmd) <==> handler_of(registry@, cmd) is Some,
    {
        let mut handlers: Vec<Handler> = Vec::new();
        handlers.push(Handler::Echo(EchoCommandHandler));
        handlers.push(Handler::Type(TypeCommandHandler));
        handlers.push(Handler::Locate(LocateCommandHandler));
        handlers.push(Handler::Unspecified(UnspecifiedCommandHandler));
        handlers.push(Handler::Pwd(PwdCommandHandler));
        handlers.push(Handler::ChangeDir(ChangeDirCommandHandler::new(home)));
        handlers.push(Handler::History(HistoryCommandHandler::new()));
        proof {
            assert forall|cmd: CommandView| #[trigger]
                runs_by_itself(cmd) <==> handler_of(handlers@, cmd) is Some by {
                first_accepting_is_first(handlers@, cmd, 0);
                let i = first_accepting(handlers@, cmd, 0);
                if runs_by_itself(cmd) {
                    let k: int = match cmd {
                        CommandView::Echo { .. } => 0,
                        CommandView::TypeCheck { .. } => 1,
                        CommandView::LocateExecutable { .. } => 2,
                        CommandView::Unspecified { .. } => 3,
                        CommandView::Pwd => 4,
                        CommandView::ChangeDir { .. } => 5,
                        _ => 6,
                    };
                    assert(handlers@[k].accepts(cmd));
                    if i >= 7 {
                        assert(!handlers@[k].accepts(cmd));
                    }
                } else {
                    if i < 7 {
                        assert(handlers@[i].accepts(cmd));
                    }
                }
            }
        }
        CommandRegistry { handlers }
    }

    /// Gives the handlers up, for the shell to own.
    pub fn into_handlers(self) -> (handlers: Vec<Handler>)
        ensures
            handlers@ == self@,
    {
        self.handlers
    }

    /// The handlers, in the order in which they are asked.
    pub fn handlers(&self) -> (handlers: &Vec<Handler>)
        ensures
            handlers@ == self@,
    {
        &self.handlers
    }
}

} // verus!
