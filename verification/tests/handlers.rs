use codecrafters_shell::commands::cd_command_handler::ChangeDirCommandHandler;
use codecrafters_shell::commands::command_handler::CommandHandler;
use codecrafters_shell::commands::echo_command_handler::EchoCommandHandler;
use codecrafters_shell::commands::history_state::HistoryState;
use codecrafters_shell::commands::host::{FailureKind, HostError, Reply, Request, Source};
use codecrafters_shell::commands::locate_command_handler::LocateCommandHandler;
use codecrafters_shell::commands::pwd_command_handler::PwdCommandHandler;
use codecrafters_shell::commands::registry::{find_handler, CommandRegistry, Handler};
use codecrafters_shell::commands::shell_error::ShellError;
use codecrafters_shell::commands::supported_command::{
    HistoryAction, RedirectionKind, SupportedCommand,
};
use codecrafters_shell::commands::type_command_handler::TypeCommandHandler;
use codecrafters_shell::commands::unspecified_command_handler::UnspecifiedCommandHandler;

fn words(items: &[&str]) -> Vec<String> {
    items.iter().map(|s| s.to_string()).collect()
}

fn failed(kind: FailureKind, message: &str) -> Reply {
    Reply::Done(Err(HostError { kind, message: message.to_string() }))
}

fn no_answer() -> ShellError {
    ShellError::IoFailure { cause: "the host gave no usable answer".to_string() }
}

#[test]
fn echo_joins_its_words_with_spaces() {
    let mut history = HistoryState::new();
    let handler = EchoCommandHandler;
    let cmd = SupportedCommand::Echo { args: words(&["a b", "c", ""]) };
    assert!(handler.can_handle(&cmd));
    assert_eq!(handler.request(&cmd, &history), None);
    assert_eq!(handler.handle(&cmd, &Reply::Nothing, &mut history), Ok("a b c \n".to_string()));
    let bare = SupportedCommand::Echo { args: vec![] };
    assert_eq!(handler.handle(&bare, &Reply::Nothing, &mut history), Ok("\n".to_string()));
    let one = SupportedCommand::Echo { args: words(&["hi"]) };
    assert_eq!(handler.handle(&one, &Reply::Nothing, &mut history), Ok("hi\n".to_string()));
    assert_eq!(history, HistoryState::new());
}

#[test]
fn type_reports_a_builtin() {
    let mut history = HistoryState::new();
    let handler = TypeCommandHandler;
    let cmd = SupportedCommand::TypeCheck { cmd: "echo".to_string() };
    assert!(handler.can_handle(&cmd));
    assert_eq!(handler.request(&cmd, &history), None);
    assert_eq!(
        handler.handle(&cmd, &Reply::Nothing, &mut history),
        Ok("echo is a shell builtin\n".to_string())
    );
}

#[test]
fn type_of_a_name_that_is_no_builtin_fails() {
    let mut history = HistoryState::new();
    let cmd = SupportedCommand::TypeCheck { cmd: "doesnotexist".to_string() };
    let result = TypeCommandHandler.handle(&cmd, &Reply::Nothing, &mut history);
    assert_eq!(result, Err(ShellError::NameNotFound { name: "doesnotexist".to_string() }));
    assert_eq!(result.unwrap_err().message(), "doesnotexist: not found");
}

#[test]
fn locate_reports_where_the_executable_is() {
    let mut history = HistoryState::new();
    let handler = LocateCommandHandler;
    let cmd = SupportedCommand::LocateExecutable { cmd: "ls".to_string() };
    assert!(handler.can_handle(&cmd));
    assert_eq!(
        handler.request(&cmd, &history),
        Some(Request::FindExecutable { name: "ls".to_string() })
    );
    assert_eq!(
        handler.handle(&cmd, &Reply::Path(Some("/bin/ls".to_string())), &mut history),
        Ok("ls is /bin/ls\n".to_string())
    );
    assert_eq!(
        handler.handle(&cmd, &Reply::Path(None), &mut history),
        Err(ShellError::NameNotFound { name: "ls".to_string() })
    );
    assert_eq!(handler.handle(&cmd, &Reply::Nothing, &mut history), Err(no_answer()));
}

#[test]
fn pwd_prints_the_working_directory() {
    let mut history = HistoryState::new();
    let handler = PwdCommandHandler;
    assert!(handler.can_handle(&SupportedCommand::Pwd));
    assert_eq!(handler.request(&SupportedCommand::Pwd, &history), Some(Request::CurrentDir));
    assert_eq!(
        handler.handle(&SupportedCommand::Pwd, &Reply::Path(Some("/home/me".to_string())), &mut history),
        Ok("/home/me\n".to_string())
    );
    let failure = handler.handle(&SupportedCommand::Pwd, &Reply::Path(None), &mut history);
    assert_eq!(
        failure.unwrap_err().message(),
        "pwd: unable to determine current directory"
    );
}

#[test]
fn cd_asks_for_the_directory_and_for_home_on_a_tilde() {
    let history = HistoryState::new();
    let with_home = ChangeDirCommandHandler::new(Some("/home/me".to_string()));
    let without_home = ChangeDirCommandHandler::new(None);
    let tilde = SupportedCommand::ChangeDir { path: "~".to_string() };
    let tmp = SupportedCommand::ChangeDir { path: "/tmp".to_string() };
    let nested = SupportedCommand::ChangeDir { path: "~/x".to_string() };
    assert!(with_home.can_handle(&tmp));
    assert_eq!(
        with_home.request(&tilde, &history),
        Some(Request::ChangeDir { path: "/home/me".to_string() })
    );
    assert_eq!(
        without_home.request(&tilde, &history),
        Some(Request::ChangeDir { path: "/".to_string() })
    );
    assert_eq!(
        with_home.request(&tmp, &history),
        Some(Request::ChangeDir { path: "/tmp".to_string() })
    );
    assert_eq!(
        with_home.request(&nested, &history),
        Some(Request::ChangeDir { path: "~/x".to_string() })
    );
}

#[test]
fn cd_tells_a_missing_directory_from_a_forbidden_one() {
    let mut history = HistoryState::new();
    let handler = ChangeDirCommandHandler::new(Some("/home/me".to_string()));
    let cmd = SupportedCommand::ChangeDir { path: "/x".to_string() };
    assert_eq!(handler.handle(&cmd, &Reply::Done(Ok(())), &mut history), Ok(String::new()));
    let missing = handler.handle(&cmd, &failed(FailureKind::NotFound, "os error 2"), &mut history);
    assert_eq!(missing, Err(ShellError::PathNotFound { path: "/x".to_string() }));
    assert_eq!(missing.unwrap_err().message(), "cd: /x: No such file or directory");
    let denied =
        handler.handle(&cmd, &failed(FailureKind::PermissionDenied, "os error 13"), &mut history);
    assert_eq!(denied.unwrap_err().message(), "cd: /x: Permission denied");
    let other = handler.handle(&cmd, &failed(FailureKind::Other, "Not a directory"), &mut history);
    assert_eq!(other.unwrap_err().message(), "cd: /x: Not a directory");
    let tilde = SupportedCommand::ChangeDir { path: "~".to_string() };
    let home = handler.handle(&tilde, &failed(FailureKind::NotFound, "gone"), &mut history);
    assert_eq!(home.unwrap_err().message(), "cd: /home/me: No such file or directory");
}

#[test]
fn external_command_is_run_by_the_host() {
    let mut history = HistoryState::new();
    let handler = UnspecifiedCommandHandler;
    let cmd = SupportedCommand::Unspecified { cmd: "ls".to_string(), args: words(&["-l", "/"]) };
    assert!(handler.can_handle(&cmd));
    assert_eq!(
        handler.request(&cmd, &history),
        Some(Request::Run { name: "ls".to_string(), args: words(&["-l", "/"]) })
    );
    assert_eq!(handler.handle(&cmd, &Reply::Done(Ok(())), &mut history), Ok(String::new()));
    let missing = handler.handle(&cmd, &failed(FailureKind::NotFound, ""), &mut history);
    assert_eq!(missing.unwrap_err().message(), "ls: command not found");
    let spawn = handler.handle(&cmd, &failed(FailureKind::SpawnFailed, "Exec format error"), &mut history);
    assert_eq!(spawn.unwrap_err().message(), "failed to spawn ls: Exec format error");
    let wait = handler.handle(&cmd, &failed(FailureKind::Other, "interrupted"), &mut history);
    assert_eq!(wait, Err(ShellError::IoFailure { cause: "interrupted".to_string() }));
}

#[test]
fn spawn_process_names_the_program_as_typed() {
    let request =
        UnspecifiedCommandHandler.spawn_process(&"cat".to_string(), &words(&["-n"]), Source::Child(2), true);
    assert_eq!(
        request,
        Request::Spawn { name: "cat".to_string(), args: words(&["-n"]), stdin: Source::Child(2), piped: true }
    );
}

#[test]
fn every_error_has_its_message() {
    let text = |s: &str| s.to_string();
    assert_eq!(
        ShellError::CommandNotFound { name: text("foo") }.message(),
        "foo: command not found"
    );
    assert_eq!(ShellError::NameNotFound { name: text("foo") }.message(), "foo: not found");
    assert_eq!(
        ShellError::PathNotFound { path: text("/p") }.message(),
        "cd: /p: No such file or directory"
    );
    assert_eq!(
        ShellError::PermissionDenied { path: text("/p") }.message(),
        "cd: /p: Permission denied"
    );
    assert_eq!(
        ShellError::NoHandler { kind: text("builtin") }.message(),
        "No handler found for builtin"
    );
    assert_eq!(
        ShellError::SpawnFailure { name: text("foo"), cause: text("bad") }.message(),
        "failed to spawn foo: bad"
    );
    assert_eq!(ShellError::IoFailure { cause: text("disk full") }.message(), "disk full");
}

#[test]
fn handlers_refuse_commands_of_another_kind() {
    let mut history = HistoryState::new();
    let refused = Err(ShellError::NoHandler { kind: "the command".to_string() });
    let pwd = SupportedCommand::Pwd;
    let echo = SupportedCommand::Echo { args: vec![] };
    assert!(!EchoCommandHandler.can_handle(&pwd));
    assert_eq!(EchoCommandHandler.handle(&pwd, &Reply::Nothing, &mut history), refused);
    assert_eq!(TypeCommandHandler.handle(&pwd, &Reply::Nothing, &mut history), refused);
    assert_eq!(LocateCommandHandler.handle(&pwd, &Reply::Path(None), &mut history), refused);
    assert_eq!(PwdCommandHandler.handle(&echo, &Reply::Path(None), &mut history), refused);
    assert_eq!(UnspecifiedCommandHandler.handle(&pwd, &Reply::Done(Ok(())), &mut history), refused);
    assert_eq!(
        ChangeDirCommandHandler::new(None).handle(&pwd, &Reply::Done(Ok(())), &mut history),
        refused
    );
    assert_eq!(LocateCommandHandler.request(&pwd, &history), None);
    assert_eq!(PwdCommandHandler.request(&echo, &history), None);
}

#[test]
fn registry_has_one_handler_for_each_command_that_runs_by_itself() {
    let registry = CommandRegistry::new(Some("/home/me".to_string()));
    let handlers = registry.handlers();
    assert_eq!(handlers.len(), 7);
    let text = |s: &str| s.to_string();
    let cases = vec![
        (SupportedCommand::Echo { args: vec![] }, Some(0)),
        (SupportedCommand::TypeCheck { cmd: text("echo") }, Some(1)),
        (SupportedCommand::LocateExecutable { cmd: text("ls") }, Some(2)),
        (SupportedCommand::Unspecified { cmd: text("ls"), args: vec![] }, Some(3)),
        (SupportedCommand::Pwd, Some(4)),
        (SupportedCommand::ChangeDir { path: text("/") }, Some(5)),
        (SupportedCommand::History { action: HistoryAction::Display { limit: None } }, Some(6)),
        (SupportedCommand::Exit, None),
        (SupportedCommand::NoArgument, None),
        (
            SupportedCommand::Redirection {
                kind: RedirectionKind::AppendOnlyError,
                inner_cmd: Box::new(SupportedCommand::Pwd),
                output_file: text("f"),
            },
            None,
        ),
        (SupportedCommand::Pipeline { commands: Box::new(vec![]) }, None),
    ];
    for (cmd, expected) in cases {
        assert_eq!(find_handler(handlers, &cmd), expected, "for {:?}", cmd);
        assert_eq!(handlers.iter().position(|h| h.can_handle(&cmd)), expected);
    }
}

#[test]
fn registry_hands_the_home_directory_to_cd() {
    let registry = CommandRegistry::new(Some("/home/me".to_string()));
    match &registry.handlers()[5] {
        Handler::ChangeDir(handler) => assert_eq!(handler.home, Some("/home/me".to_string())),
        _ => panic!("the sixth handler runs cd"),
    }
    let history = HistoryState::new();
    let tilde = SupportedCommand::ChangeDir { path: "~".to_string() };
    assert_eq!(
        registry.handlers()[5].request(&tilde, &history),
        Some(Request::ChangeDir { path: "/home/me".to_string() })
    );
}

#[test]
fn builtin_names_are_the_five_that_type_knows() {
    assert_eq!(SupportedCommand::commands(), words(&["echo", "exit", "type", "pwd", "history"]));
    for name in ["echo", "exit", "type", "pwd", "history"] {
        assert!(SupportedCommand::supported(&name.to_string()));
    }
    for name in ["cd", "ls", "", "Echo", "echo "] {
        assert!(!SupportedCommand::supported(&name.to_string()));
    }
}

#[test]
fn redirection_kinds_know_their_stream_and_mode() {
    assert!(RedirectionKind::OverwriteOnlySuccess.is_output());
    assert!(!RedirectionKind::OverwriteOnlySuccess.is_append());
    assert!(RedirectionKind::AppendOnlySuccess.is_output());
    assert!(RedirectionKind::AppendOnlySuccess.is_append());
    assert!(!RedirectionKind::OverwriteOnlyError.is_output());
    assert!(!RedirectionKind::OverwriteOnlyError.is_append());
    assert!(!RedirectionKind::AppendOnlyError.is_output());
    assert!(RedirectionKind::AppendOnlyError.is_append());
}

#[test]
fn clone_of_a_command_is_equal_to_it() {
    let commands = vec![
        SupportedCommand::Echo { args: words(&["a", "b"]) },
        SupportedCommand::History { action: HistoryAction::Display { limit: Some(3) } },
        SupportedCommand::History { action: HistoryAction::Append { path: "h".to_string() } },
        SupportedCommand::Redirection {
            kind: RedirectionKind::AppendOnlySuccess,
            inner_cmd: Box::new(SupportedCommand::Unspecified {
                cmd: "ls".to_string(),
                args: words(&["-l"]),
            }),
            output_file: "out".to_string(),
        },
        SupportedCommand::Exit,
    ];
    for cmd in &commands {
        assert_eq!(&cmd.clone(), cmd);
    }
    let pipeline = SupportedCommand::Pipeline { commands: Box::new(commands) };
    assert_eq!(pipeline.clone(), pipeline);
}
