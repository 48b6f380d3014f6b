//! The ways in which running a command fails.

use crate::text::{extend_str, to_string};
use vstd::prelude::*;

verus! {

/// A failure of a command. None of them ends the session: the shell shows
/// the message and reads the next line.
#[derive(Debug, PartialEq, Eq)]
pub enum ShellError {
    /// No executable called `name` is on the search path.
    CommandNotFound { name: String },
    /// `name` is neither a built-in nor an executable on the search path.
    NameNotFound { name: String },
    /// The directory `path` does not exist.
    PathNotFound { path: String },
    /// The directory `path` may not be entered.
    PermissionDenied { path: String },
    /// No handler runs this kind of command.
    NoHandler { kind: String },
    /// The executable of `name` was found and could not be started.
    SpawnFailure { name: String, cause: String },
    /// The host failed in another way; `cause` says how.
    IoFailure { cause: String },
}

/// The mathematical value of a [`ShellError`].
pub enum ShellErrorView {
    CommandNotFound { name: Seq<char> },
    NameNotFound { name: Seq<char> },
    PathNotFound { path: Seq<char> },
    PermissionDenied { path: Seq<char> },
    NoHandler { kind: Seq<char> },
    SpawnFailure { name: Seq<char>, cause: Seq<char> },
    IoFailure { cause: Seq<char> },
}

impl ShellErrorView {
    /// The one line that the shell shows for the failure.
    pub open spec fn message(self) -> Seq<char> {
        match self {
            ShellErrorView::CommandNotFound { name } => name + ": command not found"@,
            ShellErrorView::NameNotFound { name } => name + ": not found"@,
            ShellErrorView::PathNotFound { path } => "cd: "@ + path
                + ": No such file or directory"@,
            ShellErrorView::PermissionDenied { path } => "cd: "@ + path + ": Permission denied"@,
            ShellErrorView::NoHandler { kind } => "No handler found for "@ + kind,
            ShellErrorView::SpawnFailure { name, cause } => "failed to spawn "@ + name + ": "@
                + cause,
            ShellErrorView::IoFailure { cause } => cause,
        }
    }
}

impl View for ShellError {
    type V = ShellErrorView;

    open spec fn view(&self) -> ShellErrorView {
        match self {
            ShellError::CommandNotFound { name } => ShellErrorView::CommandNotFound { name: name@ },
            ShellError::NameNotFound { name } => ShellErrorView::NameNotFound { name: name@ },
            ShellError::PathNotFound { path } => ShellErrorView::PathNotFound { path: path@ },
            ShellError::PermissionDenied { path } => ShellErrorView::PermissionDenied {
                path: path@,
            },
            ShellError::NoHandler { kind } => ShellErrorView::NoHandler { kind: kind@ },
            ShellError::SpawnFailure { name, cause } => ShellErrorView::SpawnFailure {
                name: name@,
                cause: cause@,
            },
            ShellError::IoFailure { cause } => ShellErrorView::IoFailure { cause: cause@ },
        }
    }
}

impl ShellError {
    /// The one line that the shell shows for the failure.
    pub fn message(&self) -> (text: String)
        ensures
            text@ == self@.message(),
    {
        let mut out: Vec<char> = Vec::new();
        match self {
            ShellError::CommandNotFound { name } => {
                extend_str(&mut out, name.as_str());
                extend_str(&mut out, ": command not found");
            },
            ShellError::NameNotFound { name } => {
                extend_str(&mut out, name.as_str());
                extend_str(&mut out, ": not found");
            },
            ShellError::PathNotFound { path } => {
                extend_str(&mut out, "cd: ");
                extend_str(&mut out, path.as_str());
                extend_str(&mut out, ": No such file or directory");
            },
            ShellError::PermissionDenied { path } => {
                extend_str(&mut out, "cd: ");
                extend_str(&mut out, path.as_str());
                extend_str(&mut out, ": Permission denied");
            },
            ShellError::NoHandler { kind } => {
                extend_str(&mut out, "No handler found for ");
                extend_str(&mut out, kind.as_str());
            },
            ShellError::SpawnFailure { name, cause } => {
                extend_str(&mut out, "failed to spawn ");
                extend_str(&mut out, name.as_str());
                extend_str(&mut out, ": ");
                extend_str(&mut out, cause.as_str());
            },
            ShellError::IoFailure { cause } => {
                extend_str(&mut out, cause.as_str());
            },
        }
        assert(Seq::<char>::empty() + self@.message() =~= self@.message());
        to_string(&out)
    }
}

/// The mathematical value of what a command gives back: its output, or its
/// failure.
pub open spec fn result_view(r: Result<String, ShellError>) -> Result<Seq<char>, ShellErrorView> {
    match r {
        Ok(text) => Ok(text@),
        Err(e) => Err(e@),
    }
}

} // verus!
