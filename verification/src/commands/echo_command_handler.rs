//! The `echo` built-in.

use crate::commands::command_handler::{not_handled, not_handled_error, CommandHandler};
use crate::commands::history_state::{HistoryState, HistoryStateView};
use crate::commands::host::{Reply, ReplyView, Request, RequestView};
use crate::commands::shell_error::{ShellError, ShellErrorView};
use crate::commands::supported_command::{CommandView, SupportedCommand};
use crate::text::{extend_str, to_string};
use vstd::prelude::*;

verus! {

pub struct EchoCommandHandler;

/// The words with one space between each two of them.
pub open spec fn spaced(words: Seq<Seq<char>>) -> Seq<char>
    decreases words.len(),
{
    if words.len() == 0 {
        Seq::empty()
    } else if words.len() == 1 {
        words[0]
    } else {
        spaced(words.drop_last()) + seq![' '] + words.last()
    }
}

/// What `echo` prints: its words, spaced, and a line feed.
pub open spec fn echo_output(args: Seq<Seq<char>>) -> Seq<char> {
    spaced(args) + seq!['\n']
}

impl CommandHandler for EchoCommandHandler {
    open spec fn accepts(&self, cmd: CommandView) -> bool {
        cmd is Echo
    }

    open spec fn needs(&self, cmd: CommandView, history: HistoryStateView) -> Option<RequestView> {
        None
    }

    open spec fn result(
        &self,
        cmd: CommandView,
        reply: ReplyView,
        history: HistoryStateView,
    ) -> Result<Seq<char>, ShellErrorView> {
        match cmd {
            CommandView::Echo { args } => Ok(echo_output(args)),
            _ => Err(not_handled()),
        }
    }

    open spec fn history_after(
        &self,
        cmd: CommandView,
        reply: ReplyView,
        history: HistoryStateView,
    ) -> HistoryStateView {
        history
    }

    fn can_handle(&self, cmd: &SupportedCommand) -> (b: bool) {
        match cmd {
            SupportedCommand::Echo { .. } => true,
            _ => false,
        }
    }

    fn request(&self, cmd: &SupportedCommand, history: &HistoryState) -> (r: Option<Request>) {
        None
    }

    fn handle(&self, cmd: &SupportedCommand, reply: &Reply, history: &mut HistoryState) -> (r:
        Result<String, ShellError>) {
        match cmd {
            SupportedCommand::Echo { args } => {
                let mut out: Vec<char> = Vec::new();
                let mut i: usize = 0;
                let ghost words = args.deep_view();
                while i < args.len()
                    invariant
                        i <= args@.len(),
                        words == args.deep_view(),
                        out@ == spaced(words.take(i as int)),
                    decreases args.len() - i,
                {
                    if i > 0 {
                        out.push(' ');
                    }
                    extend_str(&mut out, args[i].as_str());
                    proof {
                        let seen = words.take(i + 1);
                        assert(seen.drop_last() =~= words.take(i as int));
                        assert(seen.last() == words[i as int]);
                        if i == 0 {
                            assert(out@ =~= seen[0]);
                        }
                    }
                    i += 1;
                }
                assert(words.take(args@.len() as int) =~= words);
                out.push('\n');
                assert(out@ =~= echo_output(words));
                assert(cmd@ == CommandView::Echo { args: words });
                Ok(to_string(&out))
            },
            _ => Err(not_handled_error()),
        }
    }
}

} // verus!
