//! The structured commands that a line of input is parsed into.

use vstd::prelude::*;

verus! {

/// Which stream a redirection diverts to its file, and whether the file is
/// truncated or appended to.
#[derive(Debug, Clone, Copy, PartialEq, Eq)]
pub enum RedirectionKind {
    /// `>`: standard output, truncating the file.
    OverwriteOnlySuccess,
    /// `2>`: standard error, truncating the file.
    OverwriteOnlyError,
    /// `>>`: standard output, appending to the file.
    AppendOnlySuccess,
    /// `2>>`: standard error, appending to the file.
    AppendOnlyError,
}

impl RedirectionKind {
    /// Whether the file is appended to rather than truncated.
    pub open spec fn appends(self) -> bool {
        self is AppendOnlySuccess || self is AppendOnlyError
    }

    /// Whether standard output, rather than standard error, goes to the file.
    pub open spec fn diverts_output(self) -> bool {
        self is OverwriteOnlySuccess || self is AppendOnlySuccess
    }

    pub fn is_append(&self) -> (b: bool)
        ensures
            b == self.appends(),
    {
        match self {
            RedirectionKind::AppendOnlySuccess | RedirectionKind::AppendOnlyError => true,
            _ => false,
        }
    }

    pub fn is_output(&self) -> (b: bool)
        ensures
            b == self.diverts_output(),
    {
        match self {
            RedirectionKind::OverwriteOnlySuccess | RedirectionKind::AppendOnlySuccess => true,
            _ => false,
        }
    }
}

/// What the `history` built-in is asked to do.
#[derive(Debug, PartialEq, Eq)]
pub enum HistoryAction {
    /// Show the stored entries, or only the last `limit` of them.
    Display { limit: Option<usize> },
    /// Add the lines of the file at `path` to the stored entries.
    Read { path: String },
    /// Write every stored entry to the file at `path`.
    Write { path: String },
    /// Append to the file at `path` the entries stored since the last append.
    Append { path: String },
}

/// The mathematical value of a [`HistoryAction`].
pub enum HistoryActionView {
    Display { limit: Option<usize> },
    Read { path: Seq<char> },
    Write { path: Seq<char> },
    Append { path: Seq<char> },
}

impl View for HistoryAction {
    type V = HistoryActionView;

    open spec fn view(&self) -> HistoryActionView {
        match self {
            HistoryAction::Display { limit } => HistoryActionView::Display { limit: *limit },
            HistoryAction::Read { path } => HistoryActionView::Read { path: path@ },
            HistoryAction::Write { path } => HistoryActionView::Write { path: path@ },
            HistoryAction::Append { path } => HistoryActionView::Append { path: path@ },
        }
    }
}

/// A parsed command.
#[derive(Debug, PartialEq, Eq)]
pub enum SupportedCommand {
    /// Print the words.
    Echo { args: Vec<String> },
    /// Leave the shell.
    Exit,
    /// Report that `cmd` is a built-in.
    TypeCheck { cmd: String },
    /// Report where on the search path `cmd` is found.
    LocateExecutable { cmd: String },
    /// Run the external program `cmd` with `args`.
    Unspecified { cmd: String, args: Vec<String> },
    /// Nothing to run.
    NoArgument,
    /// Print the working directory.
    Pwd,
    /// Change the working directory to `path`.
    ChangeDir { path: String },
    /// Show, load or save the history.
    History { action: HistoryAction },
    /// Run `inner_cmd` with one of its output streams written to
    /// `output_file`.
    Redirection { kind: RedirectionKind, inner_cmd: Box<SupportedCommand>, output_file: String },
    /// Run the commands with each one's output feeding the next one's input.
    Pipeline { commands: Box<Vec<SupportedCommand>> },
}

/// The mathematical value of a [`SupportedCommand`].
pub enum CommandView {
    Echo { args: Seq<Seq<char>> },
    Exit,
    TypeCheck { cmd: Seq<char> },
    LocateExecutable { cmd: Seq<char> },
    Unspecified { cmd: Seq<char>, args: Seq<Seq<char>> },
    NoArgument,
    Pwd,
    ChangeDir { path: Seq<char> },
    History { action: HistoryActionView },
    Redirection { kind: RedirectionKind, inner_cmd: Box<CommandView>, output_file: Seq<char> },
    Pipeline { commands: Seq<CommandView> },
}

impl CommandView {
    /// Whether the command is neither a redirection nor a pipeline.
    pub open spec fn is_simple(self) -> bool {
        !(self is Redirection) && !(self is Pipeline)
    }

    /// What parsing guarantees of a command: a pipeline's stages are simple
    /// commands, and so is what a redirection wraps.
    pub open spec fn well_formed(self) -> bool {
        match self {
            CommandView::Redirection { inner_cmd, .. } => inner_cmd.is_simple(),
            CommandView::Pipeline { commands } => forall|i: int|
                0 <= i < commands.len() ==> (#[trigger] commands[i]).is_simple(),
            _ => true,
        }
    }
}

impl SupportedCommand {
    /// The mathematical value of the command.
    pub open spec fn model(&self) -> CommandView
        decreases self,
    {
        match self {
            SupportedCommand::Echo { args } => CommandView::Echo { args: args.deep_view() },
            SupportedCommand::Exit => CommandView::Exit,
            SupportedCommand::TypeCheck { cmd } => CommandView::TypeCheck { cmd: cmd@ },
            SupportedCommand::LocateExecutable { cmd } => CommandView::LocateExecutable {
                cmd: cmd@,
            },
            SupportedCommand::Unspecified { cmd, args } => CommandView::Unspecified {
                cmd: cmd@,
                args: args.deep_view(),
            },
            SupportedCommand::NoArgument => CommandView::NoArgument,
            SupportedCommand::Pwd => CommandView::Pwd,
            SupportedCommand::ChangeDir { path } => CommandView::ChangeDir { path: path@ },
            SupportedCommand::History { action } => CommandView::History { action: action@ },
            SupportedCommand::Redirection { kind, inner_cmd, output_file } => {
                CommandView::Redirection {
                    kind: *kind,
                    inner_cmd: Box::new(inner_cmd.model()),
                    output_file: output_file@,
                }
            },
            SupportedCommand::Pipeline { commands } => CommandView::Pipeline {
                commands: Seq::new(
                    commands@.len(),
                    |i: int|
                        if 0 <= i < commands@.len() {
                            commands@[i].model()
                        } else {
                            CommandView::NoArgument
                        },
                ),
            },
        }
    }

    /// The names that `type` reports as built-ins.
    pub open spec fn builtin_names() -> Seq<Seq<char>> {
        seq!["echo"@, "exit"@, "type"@, "pwd"@, "history"@]
    }

    /// Whether `name` is one of the built-in names.
    pub open spec fn is_builtin(name: Seq<char>) -> bool {
        Self::builtin_names().contains(name)
    }

    /// The names that `type` reports as built-ins.
    pub fn commands() -> (names: Vec<String>)
        ensures
            names.deep_view() == Self::builtin_names(),
    {
        let mut names: Vec<String> = Vec::new();
        names.push("echo".to_string());
        names.push("exit".to_string());
        names.push("type".to_string());
        names.push("pwd".to_string());
        names.push("history".to_string());
        assert(names.deep_view() =~= Self::builtin_names());
        names
    }

    /// Whether `cmd` is one of the built-in names.
    pub fn supported(cmd: &String) -> (b: bool)
        ensures
            b == Self::is_builtin(cmd@),
    {
        let names = Self::commands();
        let mut i: usize = 0;
        while i < names.len()
            invariant
                i <= names.len(),
                names.deep_view() == Self::builtin_names(),
                forall|j: int| 0 <= j < i ==> Self::builtin_names()[j] != cmd@,
            decreases names.len() - i,
        {
            assert(names.deep_view()[i as int] == names@[i as int]@);
            if names[i] == *cmd {
                return true;
            }
            i += 1;
        }
        false
    }
}

impl Clone for HistoryAction {
    fn clone(&self) -> (copy: HistoryAction)
        ensures
            copy@ == self@,
    {
        match self {
            HistoryAction::Display { limit } => HistoryAction::Display { limit: *limit },
            HistoryAction::Read { path } => HistoryAction::Read { path: path.clone() },
            HistoryAction::Write { path } => HistoryAction::Write { path: path.clone() },
            HistoryAction::Append { path } => HistoryAction::Append { path: path.clone() },
        }
    }
}

/// A copy of `words`.
pub fn copy_words(words: &Vec<String>) -> (copy: Vec<String>)
    ensures
        copy.deep_view() == words.deep_view(),
{
    let mut copy: Vec<String> = Vec::new();
    let mut i: usize = 0;
    while i < words.len()
        invariant
            i <= words@.len(),
            copy@.len() == i,
            forall|j: int| 0 <= j < i ==> (#[trigger] copy@[j])@ == words@[j]@,
        decreases words.len() - i,
    {
        copy.push(words[i].clone());
        i += 1;
    }
    assert(copy.deep_view() =~= words.deep_view());
    copy
}

impl Clone for SupportedCommand {
    fn clone(&self) -> (copy: SupportedCommand)
        ensures
            copy@ == self@,
        decreases self,
    {
        match self {
            SupportedCommand::Echo { args } => SupportedCommand::Echo { args: copy_words(args) },
            SupportedCommand::Exit => SupportedCommand::Exit,
            SupportedCommand::TypeCheck { cmd } => SupportedCommand::TypeCheck { cmd: cmd.clone() },
            SupportedCommand::LocateExecutable { cmd } => SupportedCommand::LocateExecutable {
                cmd: cmd.clone(),
            },
            SupportedCommand::Unspecified { cmd, args } => SupportedCommand::Unspecified {
                cmd: cmd.clone(),
                args: copy_words(args),
            },
            SupportedCommand::NoArgument => SupportedCommand::NoArgument,
            SupportedCommand::Pwd => SupportedCommand::Pwd,
            SupportedCommand::ChangeDir { path } => SupportedCommand::ChangeDir {
                path: path.clone(),
            },
            SupportedCommand::History { action } => SupportedCommand::History {
                action: action.clone(),
            },
            SupportedCommand::Redirection { kind, inner_cmd, output_file } => {
                let inner: &SupportedCommand = &**inner_cmd;
                SupportedCommand::Redirection {
                    kind: *kind,
                    inner_cmd: Box::new(inner.clone()),
                    output_file: output_file.clone(),
                }
            },
            SupportedCommand::Pipeline { commands } => {
                let mut copies: Vec<SupportedCommand> = Vec::new();
                let mut i: usize = 0;
                assert forall|j: int| 0 <= j < commands@.len() implies #[trigger] decreases_to!(
                    self => commands@[j]
                ) by {
                    assert(decreases_to!(self => commands));
                    assert(decreases_to!(**commands => (**commands)[j]));
                }
                while i < commands.len()
                    invariant
                        i <= commands@.len(),
                        copies@.len() == i,
                        forall|j: int| 0 <= j < i ==> (#[trigger] copies@[j])@ == commands@[j]@,
                        forall|j: int|
                            0 <= j < commands@.len() ==> #[trigger] decreases_to!(
                                self => commands@[j]
                            ),
                    decreases commands.len() - i,
                {
                    let stage = &commands[i];
                    copies.push(stage.clone());
                    i += 1;
                }
                let copy = SupportedCommand::Pipeline { commands: Box::new(copies) };
                assert(copy@->commands =~= self@->commands);
                copy
            },
        }
    }
}

impl View for SupportedCommand {
    type V = CommandView;

    open spec fn view(&self) -> CommandView {
        self.model()
    }
}

} // verus!
