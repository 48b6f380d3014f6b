//! What a command asks of the host, and what the host answers.
//!
//! A handler never reaches the operating system itself. It names the one
//! operation that it needs, and computes its result from the answer.

use crate::commands::shell_error::{result_view, ShellError, ShellErrorView};
use crate::commands::supported_command::RedirectionKind;
use vstd::prelude::*;

verus! {

/// Why an operation of the host failed.
#[derive(Debug, Clone, Copy, PartialEq, Eq)]
pub enum FailureKind {
    /// The file, directory or executable does not exist.
    NotFound,
    /// Access was refused.
    PermissionDenied,
    /// The executable exists and could not be started.
    SpawnFailed,
    /// Anything else.
    Other,
}

/// A failed operation of the host: its kind, and the host's own words.
#[derive(Debug, PartialEq, Eq)]
pub struct HostError {
    pub kind: FailureKind,
    pub message: String,
}

/// The mathematical value of a [`HostError`].
pub struct HostErrorView {
    pub kind: FailureKind,
    pub message: Seq<char>,
}

impl View for HostError {
    type V = HostErrorView;

    open spec fn view(&self) -> HostErrorView {
        HostErrorView { kind: self.kind, message: self.message@ }
    }
}

/// Where a started process reads its input from.
#[derive(Debug, Clone, Copy, PartialEq, Eq)]
pub enum Source {
    /// The session's own input.
    Inherit,
    /// A new pipe, which a `Feed` request fills and closes.
    Pipe,
    /// The output of the process that was started as number `0`, `1`, ...
    /// of this pipeline.
    Child(usize),
}

/// An operation that a command needs from the host.
#[derive(Debug, PartialEq, Eq)]
pub enum Request {
    /// Look `name` up on the search path.
    FindExecutable { name: String },
    /// Tell the working directory.
    CurrentDir,
    /// Make `path` the working directory.
    ChangeDir { path: String },
    /// Read the file at `path` as text.
    ReadFile { path: String },
    /// Write `content` to the file at `path`, created if need be: at its end
    /// when `append` is set, in place of what it held otherwise. With
    /// `parents` set, the directories above it are created first.
    WriteFile { path: String, content: String, append: bool, parents: bool },
    /// Start the executable of `name` with the session's streams and wait
    /// for it to end. The process is given `name`, as it was typed, as its
    /// own name, not the path of its executable. Of the failures,
    /// `NotFound` says that the search path has no such executable and
    /// `SpawnFailed` that it could not be started.
    Run { name: String, args: Vec<String> },
    /// As `Run`, with the stream that `kind` selects written to the file at
    /// `path`. The file is opened as `kind` says, the directories above it
    /// created first, before the executable is looked up.
    RunRedirected { name: String, args: Vec<String>, kind: RedirectionKind, path: String },
    /// Start the executable of `name` as the next process of a pipeline,
    /// reading from `stdin` and writing to a new pipe when `piped` is set,
    /// to the session's output otherwise.
    Spawn { name: String, args: Vec<String>, stdin: Source, piped: bool },
    /// Write `text` to the input pipe of process number `child` and close
    /// the pipe.
    Feed { child: usize, text: String },
    /// Wait for process number `child` to end.
    Wait { child: usize },
    /// Close the output pipe of process number `child`, which nothing will
    /// read.
    Close { child: usize },
}

/// The mathematical value of a [`Request`].
pub enum RequestView {
    FindExecutable { name: Seq<char> },
    CurrentDir,
    ChangeDir { path: Seq<char> },
    ReadFile { path: Seq<char> },
    WriteFile { path: Seq<char>, content: Seq<char>, append: bool, parents: bool },
    Run { name: Seq<char>, args: Seq<Seq<char>> },
    RunRedirected {
        name: Seq<char>,
        args: Seq<Seq<char>>,
        kind: RedirectionKind,
        path: Seq<char>,
    },
    Spawn { name: Seq<char>, args: Seq<Seq<char>>, stdin: Source, piped: bool },
    Feed { child: usize, text: Seq<char> },
    Wait { child: usize },
    Close { child: usize },
}

impl View for Request {
    type V = RequestView;

    open spec fn view(&self) -> RequestView {
        match self {
            Request::FindExecutable { name } => RequestView::FindExecutable { name: name@ },
            Request::CurrentDir => RequestView::CurrentDir,
            Request::ChangeDir { path } => RequestView::ChangeDir { path: path@ },
            Request::ReadFile { path } => RequestView::ReadFile { path: path@ },
            Request::WriteFile { path, content, append, parents } => RequestView::WriteFile {
                path: path@,
                content: content@,
                append: *append,
                parents: *parents,
            },
            Request::Run { name, args } => RequestView::Run {
                name: name@,
                args: args.deep_view(),
            },
            Request::RunRedirected { name, args, kind, path } => RequestView::RunRedirected {
                name: name@,
                args: args.deep_view(),
                kind: *kind,
                path: path@,
            },
            Request::Spawn { name, args, stdin, piped } => RequestView::Spawn {
                name: name@,
                args: args.deep_view(),
                stdin: *stdin,
                piped: *piped,
            },
            Request::Feed { child, text } => RequestView::Feed { child: *child, text: text@ },
            Request::Wait { child } => RequestView::Wait { child: *child },
            Request::Close { child } => RequestView::Close { child: *child },
        }
    }
}

/// The mathematical value of a request that may be absent.
pub open spec fn request_view(r: Option<Request>) -> Option<RequestView> {
    match r {
        Some(request) => Some(request@),
        None => None,
    }
}

/// The host's answer to a request.
#[derive(Debug, PartialEq, Eq)]
pub enum Reply {
    /// No request was made.
    Nothing,
    /// To `FindExecutable` and `CurrentDir`: the path, if there is one.
    Path(Option<String>),
    /// To `ReadFile`: the text of the file.
    Text(Result<String, HostError>),
    /// To every other request: whether it was carried out.
    Done(Result<(), HostError>),
}

/// The mathematical value of a [`Reply`].
pub enum ReplyView {
    Nothing,
    Path(Option<Seq<char>>),
    Text(Result<Seq<char>, HostErrorView>),
    Done(Result<(), HostErrorView>),
}

impl View for Reply {
    type V = ReplyView;

    open spec fn view(&self) -> ReplyView {
        match self {
            Reply::Nothing => ReplyView::Nothing,
            Reply::Path(Some(path)) => ReplyView::Path(Some(path@)),
            Reply::Path(None) => ReplyView::Path(None),
            Reply::Text(Ok(text)) => ReplyView::Text(Ok(text@)),
            Reply::Text(Err(e)) => ReplyView::Text(Err(e@)),
            Reply::Done(Ok(())) => ReplyView::Done(Ok(())),
            Reply::Done(Err(e)) => ReplyView::Done(Err(e@)),
        }
    }
}

/// What the shell does next for a command that takes several operations
/// of the host: it carries out a request and comes back with the answer
/// and the state, or it is done and has the command's result.
#[derive(Debug, PartialEq, Eq)]
pub enum Step<S> {
    Ask(S, Request),
    Finish(Result<String, ShellError>),
}

/// The mathematical value of a [`Step`].
pub enum StepView<V> {
    Ask(V, RequestView),
    Finish(Result<Seq<char>, ShellErrorView>),
}

impl<S: View> View for Step<S> {
    type V = StepView<S::V>;

    open spec fn view(&self) -> StepView<S::V> {
        match self {
            Step::Ask(state, request) => StepView::Ask(state@, request@),
            Step::Finish(result) => StepView::Finish(result_view(*result)),
        }
    }
}

} // verus!
