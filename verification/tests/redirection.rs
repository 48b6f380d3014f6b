use codecrafters_shell::commands::history_state::HistoryState;
use codecrafters_shell::commands::host::{FailureKind, HostError, Reply, Request, Step};
use codecrafters_shell::commands::redirection_command_handler::{
    terminate, RedirectionCommandHandler, RedirectionState,
};
use codecrafters_shell::commands::registry::CommandRegistry;
use codecrafters_shell::commands::shell_error::ShellError;
use codecrafters_shell::commands::supported_command::{
    HistoryAction, RedirectionKind, SupportedCommand,
};

fn text(s: &str) -> String {
    s.to_string()
}

fn redirect(kind: RedirectionKind, inner: SupportedCommand, file: &str) -> SupportedCommand {
    SupportedCommand::Redirection { kind, inner_cmd: Box::new(inner), output_file: text(file) }
}

fn write(path: &str, content: &str, append: bool) -> Request {
    Request::WriteFile { path: text(path), content: text(content), append, parents: true }
}

fn writing(visible: &str) -> RedirectionState {
    RedirectionState::Writing { visible: text(visible) }
}

fn failed(kind: FailureKind, message: &str) -> Reply {
    Reply::Done(Err(HostError { kind, message: text(message) }))
}

#[test]
fn terminate_adds_one_line_feed_where_it_is_missing() {
    assert_eq!(terminate(""), "");
    assert_eq!(terminate("a"), "a\n");
    assert_eq!(terminate("a\n"), "a\n");
    assert_eq!(terminate("a\n\n"), "a\n\n");
    assert_eq!(terminate("\n"), "\n");
}

#[test]
fn redirected_output_of_a_builtin_goes_to_the_file() {
    let registry = CommandRegistry::new(None);
    let handler = RedirectionCommandHandler::new(registry.handlers());
    let mut history = HistoryState::new();
    let cmd = redirect(
        RedirectionKind::OverwriteOnlySuccess,
        SupportedCommand::Echo { args: vec![text("hi")] },
        "out.txt",
    );
    assert!(handler.can_handle(&cmd));
    let step = handler.start(&cmd, &mut history);
    assert_eq!(step, Step::Ask(writing(""), write("out.txt", "hi\n", false)));
    let done = handler.resume(&cmd, writing(""), &Reply::Done(Ok(())), &mut history);
    assert_eq!(done, Step::Finish(Ok(String::new())));
}

#[test]
fn redirected_error_stream_leaves_the_output_visible() {
    let registry = CommandRegistry::new(None);
    let handler = RedirectionCommandHandler::new(registry.handlers());
    let mut history = HistoryState::new();
    let cmd = redirect(
        RedirectionKind::AppendOnlyError,
        SupportedCommand::Echo { args: vec![text("hi")] },
        "err.txt",
    );
    let step = handler.start(&cmd, &mut history);
    assert_eq!(step, Step::Ask(writing("hi\n"), write("err.txt", "", true)));
    let done = handler.resume(&cmd, writing("hi\n"), &Reply::Done(Ok(())), &mut history);
    assert_eq!(done, Step::Finish(Ok(text("hi\n"))));
}

#[test]
fn failure_of_a_builtin_goes_to_the_redirected_error_stream() {
    let registry = CommandRegistry::new(None);
    let handler = RedirectionCommandHandler::new(registry.handlers());
    let mut history = HistoryState::new();
    let cmd = redirect(
        RedirectionKind::OverwriteOnlyError,
        SupportedCommand::TypeCheck { cmd: text("doesnotexist") },
        "err.txt",
    );
    let step = handler.start(&cmd, &mut history);
    assert_eq!(step, Step::Ask(writing(""), write("err.txt", "doesnotexist: not found\n", false)));
    let done = handler.resume(&cmd, writing(""), &Reply::Done(Ok(())), &mut history);
    assert_eq!(done, Step::Finish(Ok(String::new())));
}

#[test]
fn failure_of_a_builtin_stays_visible_when_the_output_is_redirected() {
    let registry = CommandRegistry::new(None);
    let handler = RedirectionCommandHandler::new(registry.handlers());
    let mut history = HistoryState::new();
    let cmd = redirect(
        RedirectionKind::OverwriteOnlySuccess,
        SupportedCommand::LocateExecutable { cmd: text("nope") },
        "out.txt",
    );
    let first = handler.start(&cmd, &mut history);
    assert_eq!(
        first,
        Step::Ask(RedirectionState::Inner, Request::FindExecutable { name: text("nope") })
    );
    let second = handler.resume(&cmd, RedirectionState::Inner, &Reply::Path(None), &mut history);
    assert_eq!(second, Step::Ask(writing("nope: not found\n"), write("out.txt", "", false)));
    let done = handler.resume(&cmd, writing("nope: not found\n"), &Reply::Done(Ok(())), &mut history);
    assert_eq!(done, Step::Finish(Ok(text("nope: not found\n"))));
}

#[test]
fn builtin_that_needs_the_host_asks_first() {
    let registry = CommandRegistry::new(None);
    let handler = RedirectionCommandHandler::new(registry.handlers());
    let mut history = HistoryState::new();
    let cmd = redirect(RedirectionKind::AppendOnlySuccess, SupportedCommand::Pwd, "d/out.txt");
    assert_eq!(
        handler.start(&cmd, &mut history),
        Step::Ask(RedirectionState::Inner, Request::CurrentDir)
    );
    let step =
        handler.resume(&cmd, RedirectionState::Inner, &Reply::Path(Some(text("/tmp"))), &mut history);
    assert_eq!(step, Step::Ask(writing(""), write("d/out.txt", "/tmp\n", true)));
}

#[test]
fn redirected_history_read_changes_the_history_once() {
    let registry = CommandRegistry::new(None);
    let handler = RedirectionCommandHandler::new(registry.handlers());
    let mut history = HistoryState::new();
    let cmd = redirect(
        RedirectionKind::OverwriteOnlySuccess,
        SupportedCommand::History { action: HistoryAction::Read { path: text("h") } },
        "out.txt",
    );
    assert_eq!(
        handler.start(&cmd, &mut history),
        Step::Ask(RedirectionState::Inner, Request::ReadFile { path: text("h") })
    );
    let step =
        handler.resume(&cmd, RedirectionState::Inner, &Reply::Text(Ok(text("a\nb\n"))), &mut history);
    assert_eq!(step, Step::Ask(writing(""), write("out.txt", "", false)));
    let done = handler.resume(&cmd, writing(""), &Reply::Done(Ok(())), &mut history);
    assert_eq!(done, Step::Finish(Ok(String::new())));
    assert_eq!(history.commands, vec![text("a"), text("b")]);
}

#[test]
fn failure_to_write_the_file_is_the_failure_of_the_command() {
    let registry = CommandRegistry::new(None);
    let handler = RedirectionCommandHandler::new(registry.handlers());
    let mut history = HistoryState::new();
    let cmd = redirect(
        RedirectionKind::OverwriteOnlySuccess,
        SupportedCommand::Echo { args: vec![] },
        "/nope/out",
    );
    let done =
        handler.resume(&cmd, writing("seen"), &failed(FailureKind::PermissionDenied, "denied"), &mut history);
    assert_eq!(done, Step::Finish(Err(ShellError::IoFailure { cause: text("denied") })));
}

#[test]
fn external_command_is_run_with_its_stream_on_the_file() {
    let registry = CommandRegistry::new(None);
    let handler = RedirectionCommandHandler::new(registry.handlers());
    let mut history = HistoryState::new();
    let cmd = redirect(
        RedirectionKind::OverwriteOnlyError,
        SupportedCommand::Unspecified { cmd: text("ls"), args: vec![text("-l")] },
        "err.txt",
    );
    assert_eq!(
        handler.start(&cmd, &mut history),
        Step::Ask(
            RedirectionState::Running,
            Request::RunRedirected {
                name: text("ls"),
                args: vec![text("-l")],
                kind: RedirectionKind::OverwriteOnlyError,
                path: text("err.txt"),
            }
        )
    );
    assert_eq!(
        handler.resume(&cmd, RedirectionState::Running, &Reply::Done(Ok(())), &mut history),
        Step::Finish(Ok(String::new()))
    );
    assert_eq!(
        handler.resume(&cmd, RedirectionState::Running, &failed(FailureKind::NotFound, ""), &mut history),
        Step::Finish(Err(ShellError::CommandNotFound { name: text("ls") }))
    );
    assert_eq!(
        handler.resume(&cmd, RedirectionState::Running, &failed(FailureKind::SpawnFailed, "bad"), &mut history),
        Step::Finish(Err(ShellError::SpawnFailure { name: text("ls"), cause: text("bad") }))
    );
    assert_eq!(
        handler.resume(&cmd, RedirectionState::Running, &failed(FailureKind::Other, "no space"), &mut history),
        Step::Finish(Err(ShellError::IoFailure { cause: text("no space") }))
    );
}

#[test]
fn command_without_a_handler_fails_into_the_error_stream() {
    let registry = CommandRegistry::new(None);
    let handler = RedirectionCommandHandler::new(registry.handlers());
    let mut history = HistoryState::new();
    let cmd = redirect(RedirectionKind::OverwriteOnlySuccess, SupportedCommand::NoArgument, "out.txt");
    assert_eq!(
        handler.start(&cmd, &mut history),
        Step::Ask(writing("No handler found for the command\n"), write("out.txt", "", false))
    );
}

#[test]
fn redirect_output_picks_the_stream_by_kind() {
    let registry = CommandRegistry::new(None);
    let handler = RedirectionCommandHandler::new(registry.handlers());
    for (kind, content, visible, append) in [
        (RedirectionKind::OverwriteOnlySuccess, "out", "err", false),
        (RedirectionKind::AppendOnlySuccess, "out", "err", true),
        (RedirectionKind::OverwriteOnlyError, "err", "out", false),
        (RedirectionKind::AppendOnlyError, "err", "out", true),
    ] {
        assert_eq!(
            handler.redirect_output(&kind, "f", text("out"), text("err")),
            Step::Ask(writing(visible), write("f", content, append))
        );
    }
}

#[test]
fn redirection_handler_refuses_other_commands_and_other_answers() {
    let registry = CommandRegistry::new(None);
    let handler = RedirectionCommandHandler::new(registry.handlers());
    let mut history = HistoryState::new();
    let refused = Step::Finish(Err(ShellError::NoHandler { kind: text("the command") }));
    assert!(!handler.can_handle(&SupportedCommand::Pwd));
    assert_eq!(handler.start(&SupportedCommand::Pwd, &mut history), refused);
    assert_eq!(
        handler.resume(&SupportedCommand::Pwd, writing(""), &Reply::Nothing, &mut history),
        refused
    );
    let cmd = redirect(RedirectionKind::OverwriteOnlySuccess, SupportedCommand::Pwd, "f");
    let unusable =
        Step::Finish(Err(ShellError::IoFailure { cause: text("the host gave no usable answer") }));
    assert_eq!(handler.resume(&cmd, writing(""), &Reply::Nothing, &mut history), unusable);
    assert_eq!(
        handler.resume(&cmd, RedirectionState::Running, &Reply::Path(None), &mut history),
        unusable
    );
}
