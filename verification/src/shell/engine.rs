//! The engine: it takes a line, records it, parses it, and runs the command
//! step by step, handing every operation of the host to its caller.

use crate::commands::command_handler::{
    no_answer, no_answer_error, not_handled, not_handled_error, CommandHandler,
};
use crate::commands::history_state::{joined, HistoryState, HistoryStateView};
use crate::commands::host::{
    request_view, Reply, ReplyView, Request, RequestView, Step, StepView,
};
use crate::commands::pipeline_command_handler::{
    pipeline_resume, pipeline_start, PipelineCommandHandler, PipelineState, PipelineStateView,
};
use crate::commands::redirection_command_handler::{
    redirection_resume, redirection_resume_history, redirection_start, redirection_start_history,
    RedirectionCommandHandler, RedirectionState, RedirectionStateView,
};
use crate::commands::registry::{find_handler, handler_of, Handler};
use crate::commands::shell_error::{result_view, ShellError, ShellErrorView};
use crate::commands::supported_command::{CommandView, SupportedCommand};
use crate::parsing::command_parser::CommandParser;
use crate::parsing::grammar::parse_line;
use crate::text::{
    blank_iff_trims_to_nothing, extend_str, is_blank, slice_chars, to_chars, to_string,
    trim_is_idempotent, trimmed,
};
use vstd::prelude::*;

verus! {

/// What the shell does with a command before anything is run.
#[derive(Debug, Clone, Copy, PartialEq, Eq)]
pub enum Dispatch {
    /// Leave the shell.
    Exit,
    /// Nothing to run: read the next line.
    Skip,
    /// Run the command.
    Run,
}

/// What came of reading a line.
#[derive(Debug, PartialEq, Eq)]
pub enum ReadEvent {
    /// A line was read.
    Line(String),
    /// The user interrupted the reading.
    Interrupted,
    /// The input has ended.
    Eof,
    /// Reading failed in another way; the text says how.
    Failed(String),
}

/// What the shell does after reading.
#[derive(Debug, PartialEq, Eq)]
pub enum Turn {
    /// End the session.
    Leave,
    /// Read the next line.
    Again,
    /// Show this message, then read the next line.
    Report(String),
    /// Run this command, then read the next line.
    Run(SupportedCommand),
}

/// The mathematical value of a [`ReadEvent`].
pub enum ReadEventView {
    Line(Seq<char>),
    Interrupted,
    Eof,
    Failed(Seq<char>),
}

/// The mathematical value of a [`Turn`].
pub enum TurnView {
    Leave,
    Again,
    Report(Seq<char>),
    Run(CommandView),
}

impl View for ReadEvent {
    type V = ReadEventView;

    open spec fn view(&self) -> ReadEventView {
        match self {
            ReadEvent::Line(line) => ReadEventView::Line(line@),
            ReadEvent::Interrupted => ReadEventView::Interrupted,
            ReadEvent::Eof => ReadEventView::Eof,
            ReadEvent::Failed(cause) => ReadEventView::Failed(cause@),
        }
    }
}

impl View for Turn {
    type V = TurnView;

    open spec fn view(&self) -> TurnView {
        match self {
            Turn::Leave => TurnView::Leave,
            Turn::Again => TurnView::Again,
            Turn::Report(message) => TurnView::Report(message@),
            Turn::Run(cmd) => TurnView::Run(cmd@),
        }
    }
}

/// What the shell does after reading.
///
/// An interrupt and the end of the input end the session. Any other
/// failure to read is reported, and the session goes on. A blank line is
/// passed over. Any other line is parsed: `exit` ends the session, a line
/// that stands for nothing is passed over, and any other command is run.
pub open spec fn turn_of(event: ReadEventView) -> TurnView {
    match event {
        ReadEventView::Interrupted | ReadEventView::Eof => TurnView::Leave,
        ReadEventView::Failed(cause) => TurnView::Report("Error reading line: "@ + cause),
        ReadEventView::Line(line) => if is_blank(line) {
            TurnView::Again
        } else {
            match parse_line(line) {
                CommandView::Exit => TurnView::Leave,
                CommandView::NoArgument => TurnView::Again,
                cmd => TurnView::Run(cmd),
            }
        },
    }
}

/// The history after reading: a line that is not blank is recorded,
/// whatever it stands for.
pub open spec fn history_after_reading(
    event: ReadEventView,
    history: HistoryStateView,
) -> HistoryStateView {
    match event {
        ReadEventView::Line(line) => if is_blank(line) {
            history
        } else {
            history.recorded(line)
        },
        _ => history,
    }
}

/// Where the run of a command stands.
#[derive(Debug, PartialEq, Eq)]
pub enum Execution {
    /// A command that runs by itself has asked the host.
    Simple,
    /// A redirection is under way.
    Redirection(RedirectionState),
    /// A pipeline is under way.
    Pipeline(PipelineState),
}

/// The mathematical value of an [`Execution`].
pub enum ExecutionView {
    Simple,
    Redirection(RedirectionStateView),
    Pipeline(PipelineStateView),
}

impl View for Execution {
    type V = ExecutionView;

    open spec fn view(&self) -> ExecutionView {
        match self {
            Execution::Simple => ExecutionView::Simple,
            Execution::Redirection(state) => ExecutionView::Redirection(state@),
            Execution::Pipeline(state) => ExecutionView::Pipeline(state@),
        }
    }
}

/// What a step of the engine comes to: what the shell does next, and the
/// history.
pub struct Outcome {
    pub step: StepView<ExecutionView>,
    pub history: HistoryStateView,
}

/// A step of a redirection as a step of the engine.
pub open spec fn of_redirection(step: StepView<RedirectionStateView>) -> StepView<ExecutionView> {
    match step {
        StepView::Ask(state, request) => StepView::Ask(ExecutionView::Redirection(state), request),
        StepView::Finish(result) => StepView::Finish(result),
    }
}

/// A step of a pipeline as a step of the engine.
pub open spec fn of_pipeline(step: StepView<PipelineStateView>) -> StepView<ExecutionView> {
    match step {
        StepView::Ask(state, request) => StepView::Ask(ExecutionView::Pipeline(state), request),
        StepView::Finish(result) => StepView::Finish(result),
    }
}

/// The first step of `cmd`.
///
/// Leaving the shell and the empty command run nothing. A redirection and
/// a pipeline are run by their own handlers. Any other command is run by
/// the first handler that accepts it: if it needs the host, that request is
/// the step; else its result is. A command that no handler accepts fails.
pub open spec fn engine_start(
    handlers: Seq<Handler>,
    cmd: CommandView,
    history: HistoryStateView,
) -> Outcome {
    match cmd {
        CommandView::Exit | CommandView::NoArgument => Outcome {
            step: StepView::Finish(Ok(Seq::empty())),
            history,
        },
        CommandView::Redirection { .. } => Outcome {
            step: of_redirection(redirection_start(handlers, cmd, history)),
            history: redirection_start_history(handlers, cmd, history),
        },
        CommandView::Pipeline { .. } => {
            let progress = pipeline_start(handlers, cmd, history);
            Outcome { step: of_pipeline(progress.step), history: progress.history }
        },
        _ => match handler_of(handlers, cmd) {
            None => Outcome { step: StepView::Finish(Err(not_handled())), history },
            Some(h) => match handlers[h].needs(cmd, history) {
                Some(request) => Outcome {
                    step: StepView::Ask(ExecutionView::Simple, request),
                    history,
                },
                None => Outcome {
                    step: StepView::Finish(handlers[h].result(cmd, ReplyView::Nothing, history)),
                    history: handlers[h].history_after(cmd, ReplyView::Nothing, history),
                },
            },
        },
    }
}

/// The step of `cmd` in `state` after the host's `reply`. A state that
/// does not belong to the command ends it with a failure.
pub open spec fn engine_resume(
    handlers: Seq<Handler>,
    cmd: CommandView,
    state: ExecutionView,
    reply: ReplyView,
    history: HistoryStateView,
) -> Outcome {
    match state {
        ExecutionView::Redirection(inner) => if cmd is Redirection {
            Outcome {
                step: of_redirection(redirection_resume(handlers, cmd, inner, reply, history)),
                history: redirection_resume_history(handlers, cmd, inner, reply, history),
            }
        } else {
            Outcome { step: StepView::Finish(Err(no_answer())), history }
        },
        ExecutionView::Pipeline(inner) => if cmd is Pipeline {
            let progress = pipeline_resume(handlers, cmd, inner, reply, history);
            Outcome { step: of_pipeline(progress.step), history: progress.history }
        } else {
            Outcome { step: StepView::Finish(Err(no_answer())), history }
        },
        ExecutionView::Simple => match handler_of(handlers, cmd) {
            Some(h) => Outcome {
                step: StepView::Finish(handlers[h].result(cmd, reply, history)),
                history: handlers[h].history_after(cmd, reply, history),
            },
            None => Outcome { step: StepView::Finish(Err(no_answer())), history },
        },
    }
}

/// `s` without the line feeds at its end.
pub open spec fn without_line_feeds(s: Seq<char>) -> Seq<char>
    decreases s.len(),
{
    if s.len() > 0 && s.last() == '\n' {
        without_line_feeds(s.drop_last())
    } else {
        s
    }
}

/// The line that the shell shows for the result of a command: the output,
/// if there is any, or the message of the failure, without the line feeds
/// at its end.
pub open spec fn shown(result: Result<Seq<char>, ShellErrorView>) -> Option<Seq<char>> {
    match result {
        Ok(output) => if output.len() > 0 {
            Some(without_line_feeds(output))
        } else {
            None
        },
        Err(e) => Some(without_line_feeds(e.message())),
    }
}

/// `text` without the line feeds at its end.
pub fn strip_line_feeds(text: &str) -> (out: String)
    ensures
        out@ == without_line_feeds(text@),
{
    let chars = to_chars(text);
    let mut end: usize = chars.len();
    assert(chars@.subrange(0, end as int) =~= chars@);
    while end > 0 && chars[end - 1] == '\n'
        invariant
            end <= chars.len(),
            without_line_feeds(chars@) == without_line_feeds(chars@.subrange(0, end as int)),
        decreases end,
    {
        assert(chars@.subrange(0, end as int).drop_last() =~= chars@.subrange(0, end - 1));
        end -= 1;
    }
    to_string(&slice_chars(&chars, 0, end))
}

/// The shell of a session.
pub struct Shell {
    handlers: Vec<Handler>,
    history_file: Option<String>,
}

impl Shell {
    /// The handlers that commands are run with.
    pub closed spec fn handlers_view(&self) -> Seq<Handler> {
        self.handlers@
    }

    /// The path of the history file, if the session has one.
    pub closed spec fn history_path(&self) -> Option<Seq<char>> {
        match self.history_file {
            Some(path) => Some(path@),
            None => None,
        }
    }

    /// A shell that runs commands with `handlers` and keeps its history in
    /// the file at `history_file`, if there is one.
    pub fn new(handlers: Vec<Handler>, history_file: Option<String>) -> (shell: Shell)
        ensures
            shell.handlers_view() == handlers@,
            shell.history_path() == (match history_file {
                Some(path) => Some(path@),
                None => None,
            }),
    {
        Shell { handlers, history_file }
    }

    /// The handlers that commands are run with.
    pub fn handlers(&self) -> (handlers: &Vec<Handler>)
        ensures
            handlers@ == self.handlers_view(),
    {
        &self.handlers
    }

    /// The request that reads the history file at the start of a session,
    /// if the session has one.
    pub fn load_request(&self) -> (r: Option<Request>)
        ensures
            request_view(r) == (match self.history_path() {
                Some(path) => Some(RequestView::ReadFile { path }),
                None => None,
            }),
    {
        match &self.history_file {
            Some(path) => Some(Request::ReadFile { path: path.clone() }),
            None => None,
        }
    }

    /// Takes over the history file's content, the host's answer to the
    /// request of [`Shell::load_request`]: its non-blank lines are the
    /// entries, and none of them is pending. A file that could not be read
    /// changes nothing.
    pub fn load_history(&self, reply: &Reply, history: &mut HistoryState)
        ensures
            final(history)@ == (match reply@ {
                ReplyView::Text(Ok(text)) => old(history)@.with_lines(text).persisted(),
                _ => old(history)@,
            }),
    {
        match reply {
            Reply::Text(Ok(text)) => {
                history.load(text.as_str());
            },
            _ => {},
        }
    }

    /// Takes a line of input: a blank line is passed over, any other line
    /// is recorded in the history, trimmed, and parsed.
    pub fn accept_line(&self, input: &str, history: &mut HistoryState) -> (cmd: Option<
        SupportedCommand,
    >)
        ensures
            match cmd {
                None => is_blank(input@) && final(history)@ == old(history)@,
                Some(cmd) => {
                    &&& !is_blank(input@)
                    &&& cmd@ == parse_line(input@)
                    &&& cmd@.well_formed()
                    &&& final(history)@ == old(history)@.recorded(input@)
                },
            },
    {
        let line = trimmed(&to_chars(input));
        proof {
            blank_iff_trims_to_nothing(input@);
            trim_is_idempotent(input@);
        }
        if line.len() == 0 {
            return None;
        }
        history.record(input);
        let text = to_string(&line);
        let cmd = CommandParser::parse(text.as_str());
        Some(cmd)
    }

    /// What to do with `command` before anything is run.
    pub fn dispatch_command(&self, command: &SupportedCommand) -> (d: Dispatch)
        ensures
            d == (match command@ {
                CommandView::Exit => Dispatch::Exit,
                CommandView::NoArgument => Dispatch::Skip,
                _ => Dispatch::Run,
            }),
    {
        match command {
            SupportedCommand::Exit => Dispatch::Exit,
            SupportedCommand::NoArgument => Dispatch::Skip,
            _ => Dispatch::Run,
        }
    }

    /// Takes what came of reading a line and says what to do next.
    pub fn run(&self, event: &ReadEvent, history: &mut HistoryState) -> (turn: Turn)
        ensures
            turn@ == turn_of(event@),
            final(history)@ == history_after_reading(event@, old(history)@),
    {
        match event {
            ReadEvent::Interrupted | ReadEvent::Eof => Turn::Leave,
            ReadEvent::Failed(cause) => {
                let mut message = to_chars("Error reading line: ");
                extend_str(&mut message, cause.as_str());
                Turn::Report(to_string(&message))
            },
            ReadEvent::Line(line) => match self.accept_line(line.as_str(), history) {
                None => Turn::Again,
                Some(cmd) => match self.dispatch_command(&cmd) {
                    Dispatch::Exit => Turn::Leave,
                    Dispatch::Skip => Turn::Again,
                    Dispatch::Run => Turn::Run(cmd),
                },
            },
        }
    }

    /// Starts `cmd`.
    pub fn start(&self, cmd: &SupportedCommand, history: &mut HistoryState) -> (step: Step<
        Execution,
    >)
        ensures
            (Outcome { step: step@, history: final(history)@ }) == engine_start(
                self.handlers_view(),
                cmd@,
                old(history)@,
            ),
    {
        match cmd {
            SupportedCommand::Exit | SupportedCommand::NoArgument => Step::Finish(
                Ok(String::new()),
            ),
            SupportedCommand::Redirection { .. } => {
                let handler = RedirectionCommandHandler::new(&self.handlers);
                match handler.start(cmd, history) {
                    Step::Ask(state, request) => Step::Ask(Execution::Redirection(state), request),
                    Step::Finish(result) => Step::Finish(result),
                }
            },
            SupportedCommand::Pipeline { .. } => {
                let handler = PipelineCommandHandler::new(&self.handlers);
                match handler.start(cmd, history) {
                    Step::Ask(state, request) => Step::Ask(Execution::Pipeline(state), request),
                    Step::Finish(result) => Step::Finish(result),
                }
            },
            _ => match find_handler(&self.handlers, cmd) {
                None => Step::Finish(Err(not_handled_error())),
                Some(h) => match self.handlers[h].request(cmd, history) {
                    Some(request) => Step::Ask(Execution::Simple, request),
                    None => Step::Finish(self.handlers[h].handle(cmd, &Reply::Nothing, history)),
                },
            },
        }
    }

    /// Goes on with `cmd` from `state`, given the host's answer to the
    /// request of the step before.
    pub fn resume(
        &self,
        cmd: &SupportedCommand,
        state: Execution,
        reply: &Reply,
        history: &mut HistoryState,
    ) -> (step: Step<Execution>)
        ensures
            (Outcome { step: step@, history: final(history)@ }) == engine_resume(
                self.handlers_view(),
                cmd@,
                state@,
                reply@,
                old(history)@,
            ),
    {
        match state {
            Execution::Redirection(inner) => {
                let handler = RedirectionCommandHandler::new(&self.handlers);
                if !handler.can_handle(cmd) {
                    return Step::Finish(Err(no_answer_error()));
                }
                match handler.resume(cmd, inner, reply, history) {
                    Step::Ask(state, request) => Step::Ask(Execution::Redirection(state), request),
                    Step::Finish(result) => Step::Finish(result),
                }
            },
            Execution::Pipeline(inner) => {
                let handler = PipelineCommandHandler::new(&self.handlers);
                if !handler.can_handle(cmd) {
                    return Step::Finish(Err(no_answer_error()));
                }
                match handler.resume(cmd, inner, reply, history) {
                    Step::Ask(state, request) => Step::Ask(Execution::Pipeline(state), request),
                    Step::Finish(result) => Step::Finish(result),
                }
            },
            Execution::Simple => match find_handler(&self.handlers, cmd) {
                Some(h) => Step::Finish(self.handlers[h].handle(cmd, reply, history)),
                None => Step::Finish(Err(no_answer_error())),
            },
        }
    }

    /// The line that the shell shows for the result of a command, if it
    /// shows one.
    pub fn execute_handler(&self, result: &Result<String, ShellError>) -> (line: Option<String>)
        ensures
            (match line {
                Some(text) => Some(text@),
                None => None,
            }) == shown(result_view(*result)),
    {
        match result {
            Ok(output) => {
                if to_chars(output.as_str()).len() > 0 {
                    Some(strip_line_feeds(output.as_str()))
                } else {
                    None
                }
            },
            Err(e) => Some(strip_line_feeds(e.message().as_str())),
        }
    }

    /// The request that, at the end of a session, appends to the history
    /// file the entries that it does not hold yet, if the session has a
    /// history file.
    pub fn save_history(&self, history: &HistoryState) -> (r: Option<Request>)
        ensures
            request_view(r) == (match self.history_path() {
                Some(path) => Some(
                    RequestView::WriteFile {
                        path,
                        content: joined(history@.pending()),
                        append: true,
                        parents: false,
                    },
                ),
                None => None,
            }),
    {
        match &self.history_file {
            Some(path) => Some(
                Request::WriteFile {
                    path: path.clone(),
                    content: history.pending_text(),
                    append: true,
                    parents: false,
                },
            ),
            None => None,
        }
    }
}

} // verus!
