//! Redirection: one command with its output or its error text written to a
//! file.

use crate::commands::command_handler::{
    no_answer, no_answer_error, not_handled, not_handled_error, CommandHandler,
};
use crate::commands::history_state::{HistoryState, HistoryStateView};
use crate::commands::host::{Reply, ReplyView, Request, RequestView, Step, StepView};
use crate::commands::registry::{find_handler, handler_of, Handler};
use crate::commands::shell_error::{result_view, ShellError, ShellErrorView};
use crate::commands::supported_command::{
    copy_words, CommandView, RedirectionKind, SupportedCommand,
};
use crate::commands::unspecified_command_handler::{launch_failure, UnspecifiedCommandHandler};
use crate::text::{to_chars, to_string};
use vstd::prelude::*;

verus! {

/// Where a redirection under way stands.
#[derive(Debug, PartialEq, Eq)]
pub enum RedirectionState {
    /// The wrapped built-in has asked the host and awaits the answer.
    Inner,
    /// The wrapped external command runs.
    Running,
    /// The file is being written. `visible` is what the caller will see.
    Writing { visible: String },
}

/// The mathematical value of a [`RedirectionState`].
pub enum RedirectionStateView {
    Inner,
    Running,
    Writing { visible: Seq<char> },
}

impl View for RedirectionState {
    type V = RedirectionStateView;

    open spec fn view(&self) -> RedirectionStateView {
        match self {
            RedirectionState::Inner => RedirectionStateView::Inner,
            RedirectionState::Running => RedirectionStateView::Running,
            RedirectionState::Writing { visible } => RedirectionStateView::Writing {
                visible: visible@,
            },
        }
    }
}

/// `s` with a line feed at its end, unless it is empty or has one.
pub open spec fn terminated(s: Seq<char>) -> Seq<char> {
    if s.len() > 0 && s.last() != '\n' {
        s.push('\n')
    } else {
        s
    }
}

/// What a built-in wrote to its output: what it gave back, terminated, and
/// nothing where it failed.
pub open spec fn captured_output(result: Result<Seq<char>, ShellErrorView>) -> Seq<char> {
    match result {
        Ok(text) => terminated(text),
        Err(_) => Seq::empty(),
    }
}

/// What a built-in wrote to its error stream: the message of its failure,
/// terminated, and nothing where it did not fail.
pub open spec fn captured_error(result: Result<Seq<char>, ShellErrorView>) -> Seq<char> {
    match result {
        Ok(_) => Seq::empty(),
        Err(e) => terminated(e.message()),
    }
}

/// The step that writes the stream that `kind` selects to the file at
/// `path` and keeps the other one for the caller.
pub open spec fn redirected(
    kind: RedirectionKind,
    path: Seq<char>,
    stdout: Seq<char>,
    stderr: Seq<char>,
) -> StepView<RedirectionStateView> {
    StepView::Ask(
        RedirectionStateView::Writing {
            visible: if kind.diverts_output() {
                stderr
            } else {
                stdout
            },
        },
        RequestView::WriteFile {
            path,
            content: if kind.diverts_output() {
                stdout
            } else {
                stderr
            },
            append: kind.appends(),
            parents: true,
        },
    )
}

/// The step after the wrapped built-in has given `result`.
pub open spec fn after_inner(
    kind: RedirectionKind,
    path: Seq<char>,
    result: Result<Seq<char>, ShellErrorView>,
) -> StepView<RedirectionStateView> {
    redirected(kind, path, captured_output(result), captured_error(result))
}

/// What the wrapped built-in `inner` gives back for the host's `reply`: a
/// failure where no handler runs it.
pub open spec fn inner_result(
    handlers: Seq<Handler>,
    inner: CommandView,
    reply: ReplyView,
    history: HistoryStateView,
) -> Result<Seq<char>, ShellErrorView> {
    match handler_of(handlers, inner) {
        Some(i) => handlers[i].result(inner, reply, history),
        None => Err(not_handled()),
    }
}

/// The history after the wrapped built-in `inner`.
pub open spec fn inner_history(
    handlers: Seq<Handler>,
    inner: CommandView,
    reply: ReplyView,
    history: HistoryStateView,
) -> HistoryStateView {
    match handler_of(handlers, inner) {
        Some(i) => handlers[i].history_after(inner, reply, history),
        None => history,
    }
}

/// What the wrapped built-in `inner` needs from the host.
pub open spec fn inner_needs(
    handlers: Seq<Handler>,
    inner: CommandView,
    history: HistoryStateView,
) -> Option<RequestView> {
    match handler_of(handlers, inner) {
        Some(i) => handlers[i].needs(inner, history),
        None => None,
    }
}

/// The first step of `cmd`.
///
/// An external command is run by the host with its stream on the file, and
/// the file holds what it wrote. A built-in is run here: if it needs the
/// host, that comes first; else its result is at hand and the file is
/// written.
pub open spec fn redirection_start(
    handlers: Seq<Handler>,
    cmd: CommandView,
    history: HistoryStateView,
) -> StepView<RedirectionStateView> {
    match cmd {
        CommandView::Redirection { kind, inner_cmd, output_file } => match *inner_cmd {
            CommandView::Unspecified { cmd, args } => StepView::Ask(
                RedirectionStateView::Running,
                RequestView::RunRedirected { name: cmd, args, kind, path: output_file },
            ),
            inner => match inner_needs(handlers, inner, history) {
                Some(request) => StepView::Ask(RedirectionStateView::Inner, request),
                None => after_inner(
                    kind,
                    output_file,
                    inner_result(handlers, inner, ReplyView::Nothing, history),
                ),
            },
        },
        _ => StepView::Finish(Err(not_handled())),
    }
}

/// The history after the first step of `cmd`.
pub open spec fn redirection_start_history(
    handlers: Seq<Handler>,
    cmd: CommandView,
    history: HistoryStateView,
) -> HistoryStateView {
    match cmd {
        CommandView::Redirection { kind, inner_cmd, output_file } => if *inner_cmd is Unspecified
            || inner_needs(handlers, *inner_cmd, history) is Some {
            history
        } else {
            inner_history(handlers, *inner_cmd, ReplyView::Nothing, history)
        },
        _ => history,
    }
}

/// The step of `cmd` in `state` after the host's `reply`.
///
/// The answer to the built-in's request gives the built-in's result, and
/// the file is written. Once the file is written, the caller gets the
/// stream that was not redirected; a failure to write it is the command's
/// failure. An external command gives nothing back.
pub open spec fn redirection_resume(
    handlers: Seq<Handler>,
    cmd: CommandView,
    state: RedirectionStateView,
    reply: ReplyView,
    history: HistoryStateView,
) -> StepView<RedirectionStateView> {
    match cmd {
        CommandView::Redirection { kind, inner_cmd, output_file } => match state {
            RedirectionStateView::Inner => after_inner(
                kind,
                output_file,
                inner_result(handlers, *inner_cmd, reply, history),
            ),
            RedirectionStateView::Running => match reply {
                ReplyView::Done(Ok(())) => StepView::Finish(Ok(Seq::empty())),
                ReplyView::Done(Err(error)) => StepView::Finish(
                    Err(
                        launch_failure(
                            match *inner_cmd {
                                CommandView::Unspecified { cmd, .. } => cmd,
                                _ => Seq::empty(),
                            },
                            error,
                        ),
                    ),
                ),
                _ => StepView::Finish(Err(no_answer())),
            },
            RedirectionStateView::Writing { visible } => match reply {
                ReplyView::Done(Ok(())) => StepView::Finish(Ok(visible)),
                ReplyView::Done(Err(error)) => StepView::Finish(
                    Err(ShellErrorView::IoFailure { cause: error.message }),
                ),
                _ => StepView::Finish(Err(no_answer())),
            },
        },
        _ => StepView::Finish(Err(not_handled())),
    }
}

/// The history after the step of `cmd` in `state`.
pub open spec fn redirection_resume_history(
    handlers: Seq<Handler>,
    cmd: CommandView,
    state: RedirectionStateView,
    reply: ReplyView,
    history: HistoryStateView,
) -> HistoryStateView {
    match (cmd, state) {
        (CommandView::Redirection { inner_cmd, .. }, RedirectionStateView::Inner) => inner_history(
            handlers,
            *inner_cmd,
            reply,
            history,
        ),
        _ => history,
    }
}

/// `text` with a line feed at its end, unless it is empty or has one.
pub fn terminate(text: &str) -> (out: String)
    ensures
        out@ == terminated(text@),
{
    let mut chars = to_chars(text);
    if chars.len() > 0 && chars[chars.len() - 1] != '\n' {
        chars.push('\n');
    }
    to_string(&chars)
}

/// The handler of redirections, over the handlers of a session.
pub struct RedirectionCommandHandler<'a> {
    handlers: &'a Vec<Handler>,
}

impl<'a> RedirectionCommandHandler<'a> {
    /// The handlers that the wrapped commands are run with.
    pub closed spec fn handlers(&self) -> Seq<Handler> {
        self.handlers@
    }

    pub fn new(handlers: &'a Vec<Handler>) -> (handler: RedirectionCommandHandler<'a>)
        ensures
            handler.handlers() == handlers@,
    {
        RedirectionCommandHandler { handlers }
    }

    /// Whether `cmd` is a redirection.
    pub fn can_handle(&self, cmd: &SupportedCommand) -> (b: bool)
        ensures
            b == (cmd@ is Redirection),
    {
        match cmd {
            SupportedCommand::Redirection { .. } => true,
            _ => false,
        }
    }

    /// The step that writes the stream that `kind` selects to
    /// `output_file`, and keeps the other stream for the caller.
    pub fn redirect_output(
        &self,
        kind: &RedirectionKind,
        output_file: &str,
        stdout: String,
        stderr: String,
    ) -> (step: Step<RedirectionState>)
        ensures
            step@ == redirected(*kind, output_file@, stdout@, stderr@),
    {
        let (content, visible) = if kind.is_output() {
            (stdout, stderr)
        } else {
            (stderr, stdout)
        };
        Step::Ask(
            RedirectionState::Writing { visible },
            Request::WriteFile {
                path: output_file.to_string(),
                content,
                append: kind.is_append(),
                parents: true,
            },
        )
    }

    /// The step after the wrapped built-in has given `result`: its output,
    /// or the message of its failure, is captured and the file is written.
    pub fn capture(
        &self,
        kind: &RedirectionKind,
        output_file: &str,
        result: Result<String, ShellError>,
    ) -> (step: Step<RedirectionState>)
        ensures
            step@ == after_inner(*kind, output_file@, result_view(result)),
    {
        match result {
            Ok(text) => self.redirect_output(
                kind,
                output_file,
                terminate(text.as_str()),
                String::new(),
            ),
            Err(e) => self.redirect_output(
                kind,
                output_file,
                String::new(),
                terminate(e.message().as_str()),
            ),
        }
    }

    /// Starts `cmd`.
    pub fn start(&self, cmd: &SupportedCommand, history: &mut HistoryState) -> (step: Step<
        RedirectionState,
    >)
        ensures
            step@ == redirection_start(self.handlers(), cmd@, old(history)@),
            final(history)@ == redirection_start_history(self.handlers(), cmd@, old(history)@),
    {
        match cmd {
            SupportedCommand::Redirection { kind, inner_cmd, output_file } => {
                let inner: &SupportedCommand = &**inner_cmd;
                assert(cmd@ == CommandView::Redirection {
                    kind: *kind,
                    inner_cmd: Box::new(inner@),
                    output_file: output_file@,
                });
                match inner {
                    SupportedCommand::Unspecified { cmd: name, args } => {
                        assert(inner@ == CommandView::Unspecified {
                            cmd: name@,
                            args: args.deep_view(),
                        });
                        Step::Ask(
                            RedirectionState::Running,
                            Request::RunRedirected {
                                name: name.clone(),
                                args: copy_words(args),
                                kind: *kind,
                                path: output_file.clone(),
                            },
                        )
                    },
                    _ => {
                        assert(!(inner@ is Unspecified));
                        match find_handler(self.handlers, inner) {
                            Some(i) => match self.handlers[i].request(inner, history) {
                                Some(request) => Step::Ask(RedirectionState::Inner, request),
                                None => {
                                    let result = self.handlers[i].handle(
                                        inner,
                                        &Reply::Nothing,
                                        history,
                                    );
                                    self.capture(kind, output_file.as_str(), result)
                                },
                            },
                            None => self.capture(
                                kind,
                                output_file.as_str(),
                                Err(not_handled_error()),
                            ),
                        }
                    },
                }
            },
            _ => Step::Finish(Err(not_handled_error())),
        }
    }

    /// Goes on with `cmd` from `state`, given the host's answer to the
    /// request of the step before.
    pub fn resume(
        &self,
        cmd: &SupportedCommand,
        state: RedirectionState,
        reply: &Reply,
        history: &mut HistoryState,
    ) -> (step: Step<RedirectionState>)
        ensures
            step@ == redirection_resume(self.handlers(), cmd@, state@, reply@, old(history)@),
            final(history)@ == redirection_resume_history(
                self.handlers(),
                cmd@,
                state@,
                reply@,
                old(history)@,
            ),
    {
        match cmd {
            SupportedCommand::Redirection { kind, inner_cmd, output_file } => match state {
                RedirectionState::Inner => {
                    let inner: &SupportedCommand = &**inner_cmd;
                    let result = match find_handler(self.handlers, inner) {
                        Some(i) => self.handlers[i].handle(inner, reply, history),
                        None => Err(not_handled_error()),
                    };
                    self.capture(kind, output_file.as_str(), result)
                },
                RedirectionState::Running => match reply {
                    Reply::Done(Ok(())) => Step::Finish(Ok(String::new())),
                    Reply::Done(Err(error)) => {
                        let name = match &**inner_cmd {
                            SupportedCommand::Unspecified { cmd, .. } => cmd.clone(),
                            _ => String::new(),
                        };
                        Step::Finish(Err(UnspecifiedCommandHandler::failure(&name, error)))
                    },
                    _ => Step::Finish(Err(no_answer_error())),
                },
                RedirectionState::Writing { visible } => match reply {
                    Reply::Done(Ok(())) => Step::Finish(Ok(visible)),
                    Reply::Done(Err(error)) => Step::Finish(
                        Err(ShellError::IoFailure { cause: error.message.clone() }),
                    ),
                    _ => Step::Finish(Err(no_answer_error())),
                },
            },
            _ => Step::Finish(Err(not_handled_error())),
        }
    }
}

/// A built-in writes to its output or to its error stream, never to both.
pub proof fn one_stream_is_empty(result: Result<Seq<char>, ShellErrorView>)
    ensures
        captured_output(result).len() == 0 || captured_error(result).len() == 0,
{
}

/// A terminated text is empty or ends with a line feed, and terminating it
/// again changes nothing.
pub proof fn terminated_ends_with_a_line_feed(s: Seq<char>)
    ensures
        terminated(s).len() == 0 || terminated(s).last() == '\n',
        terminated(s).len() == 0 <==> s.len() == 0,
        terminated(terminated(s)) == terminated(s),
{
}

/// A built-in that fails, with its error stream redirected: the file gets
/// the message of the failure, with a line feed, and the caller sees
/// nothing.
pub proof fn failure_goes_to_the_file(
    kind: RedirectionKind,
    path: Seq<char>,
    error: ShellErrorView,
)
    requires
        !kind.diverts_output(),
    ensures
        after_inner(kind, path, Err(error)) == StepView::Ask(
            RedirectionStateView::Writing { visible: Seq::empty() },
            RequestView::WriteFile {
                path,
                content: terminated(error.message()),
                append: kind.appends(),
                parents: true,
            },
        ),
{
}

} // verus!
