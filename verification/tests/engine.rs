use codecrafters_shell::commands::history_state::HistoryState;
use codecrafters_shell::commands::host::{FailureKind, HostError, Reply, Request, Source, Step};
use codecrafters_shell::commands::pipeline_command_handler::{Pending, PipelineState};
use codecrafters_shell::commands::redirection_command_handler::RedirectionState;
use codecrafters_shell::commands::registry::CommandRegistry;
use codecrafters_shell::commands::shell_error::ShellError;
use codecrafters_shell::commands::supported_command::{RedirectionKind, SupportedCommand};
use codecrafters_shell::parsing::command_parser::CommandParser;
use codecrafters_shell::shell::engine::{
    strip_line_feeds, Dispatch, Execution, ReadEvent, Shell, Turn,
};

fn text(s: &str) -> String {
    s.to_string()
}

fn shell(history_file: Option<&str>) -> Shell {
    let registry = CommandRegistry::new(Some(text("/home/me")));
    Shell::new(registry.into_handlers(), history_file.map(text))
}

#[test]
fn blank_line_is_passed_over() {
    let shell = shell(None);
    let mut history = HistoryState::new();
    assert_eq!(shell.accept_line("", &mut history), None);
    assert_eq!(shell.accept_line(" \t\n", &mut history), None);
    assert_eq!(history, HistoryState::new());
}

#[test]
fn line_is_recorded_trimmed_and_parsed() {
    let shell = shell(None);
    let mut history = HistoryState::new();
    let cmd = shell.accept_line("  echo hi  ", &mut history);
    assert_eq!(cmd, Some(SupportedCommand::Echo { args: vec![text("hi")] }));
    assert_eq!(history.commands, vec![text("echo hi")]);
    assert_eq!(history.last_appended_index, 0);
    assert_eq!(shell.accept_line("'", &mut history), Some(SupportedCommand::NoArgument));
    assert_eq!(history.commands, vec![text("echo hi"), text("'")]);
}

#[test]
fn dispatch_tells_leaving_and_nothing_from_running() {
    let shell = shell(None);
    assert_eq!(shell.dispatch_command(&SupportedCommand::Exit), Dispatch::Exit);
    assert_eq!(shell.dispatch_command(&SupportedCommand::NoArgument), Dispatch::Skip);
    for line in ["echo hi", "ls", "pwd", "cd /", "history", "type ls", "type echo", "ls > f", "a | b"] {
        assert_eq!(
            shell.dispatch_command(&CommandParser::parse(line)),
            Dispatch::Run,
            "for {}",
            line
        );
    }
}

#[test]
fn command_that_needs_nothing_finishes_at_once() {
    let shell = shell(None);
    let mut history = HistoryState::new();
    let step = shell.start(&CommandParser::parse("echo a  b"), &mut history);
    assert_eq!(step, Step::Finish(Ok(text("a b\n"))));
    assert_eq!(shell.start(&SupportedCommand::Exit, &mut history), Step::Finish(Ok(String::new())));
    assert_eq!(
        shell.start(&SupportedCommand::NoArgument, &mut history),
        Step::Finish(Ok(String::new()))
    );
}

#[test]
fn command_that_needs_the_host_takes_two_steps() {
    let shell = shell(None);
    let mut history = HistoryState::new();
    let cmd = CommandParser::parse("cd ~");
    let step = shell.start(&cmd, &mut history);
    assert_eq!(step, Step::Ask(Execution::Simple, Request::ChangeDir { path: text("/home/me") }));
    let done = shell.resume(&cmd, Execution::Simple, &Reply::Done(Ok(())), &mut history);
    assert_eq!(done, Step::Finish(Ok(String::new())));
    let error = HostError { kind: FailureKind::NotFound, message: text("x") };
    let failed = shell.resume(&cmd, Execution::Simple, &Reply::Done(Err(error)), &mut history);
    assert_eq!(failed, Step::Finish(Err(ShellError::PathNotFound { path: text("/home/me") })));
}

#[test]
fn history_command_sees_the_line_that_ran_it() {
    let shell = shell(None);
    let mut history = HistoryState::new();
    shell.accept_line("echo hi", &mut history);
    let cmd = shell.accept_line("history", &mut history).unwrap();
    assert_eq!(
        shell.start(&cmd, &mut history),
        Step::Finish(Ok(text("    1  echo hi\n    2  history\n")))
    );
}

#[test]
fn redirection_and_pipeline_run_through_the_engine() {
    let shell = shell(None);
    let mut history = HistoryState::new();
    let redirected = CommandParser::parse("echo hi 2> err.txt");
    let writing = || Execution::Redirection(RedirectionState::Writing { visible: text("hi\n") });
    assert_eq!(
        shell.start(&redirected, &mut history),
        Step::Ask(
            writing(),
            Request::WriteFile { path: text("err.txt"), content: String::new(), append: false, parents: true }
        )
    );
    assert_eq!(
        shell.resume(&redirected, writing(), &Reply::Done(Ok(())), &mut history),
        Step::Finish(Ok(text("hi\n")))
    );
    let piped = CommandParser::parse("ls | wc");
    let spawning = |stage, children, pending| {
        Execution::Pipeline(PipelineState::Spawning { stage, children, pending })
    };
    assert_eq!(
        shell.start(&piped, &mut history),
        Step::Ask(
            spawning(0, 0, Pending::Inherit),
            Request::Spawn { name: text("ls"), args: vec![], stdin: Source::Inherit, piped: true }
        )
    );
    assert_eq!(
        shell.resume(&piped, spawning(0, 0, Pending::Inherit), &Reply::Done(Ok(())), &mut history),
        Step::Ask(
            spawning(1, 1, Pending::Child(0)),
            Request::Spawn { name: text("wc"), args: vec![], stdin: Source::Child(0), piped: false }
        )
    );
}

#[test]
fn state_of_another_command_is_refused() {
    let shell = shell(None);
    let mut history = HistoryState::new();
    let unusable =
        Step::Finish(Err(ShellError::IoFailure { cause: text("the host gave no usable answer") }));
    let state = Execution::Redirection(RedirectionState::Running);
    assert_eq!(
        shell.resume(&SupportedCommand::Pwd, state, &Reply::Done(Ok(())), &mut history),
        unusable
    );
    let state = Execution::Pipeline(PipelineState::WaitingLast { children: 1 });
    assert_eq!(
        shell.resume(&SupportedCommand::Pwd, state, &Reply::Done(Ok(())), &mut history),
        unusable
    );
    assert_eq!(
        shell.resume(&SupportedCommand::Exit, Execution::Simple, &Reply::Nothing, &mut history),
        unusable
    );
    let redirected = SupportedCommand::Redirection {
        kind: RedirectionKind::AppendOnlyError,
        inner_cmd: Box::new(SupportedCommand::Pwd),
        output_file: text("f"),
    };
    assert_eq!(
        shell.start(&SupportedCommand::Pipeline { commands: Box::new(vec![redirected]) }, &mut history),
        Step::Finish(Err(ShellError::NoHandler { kind: text("builtin") }))
    );
}

#[test]
fn shown_line_has_no_line_feed_at_its_end() {
    let shell = shell(None);
    assert_eq!(shell.execute_handler(&Ok(text("hi\n"))), Some(text("hi")));
    assert_eq!(shell.execute_handler(&Ok(text("a\nb\n\n"))), Some(text("a\nb")));
    assert_eq!(shell.execute_handler(&Ok(text("\n"))), Some(String::new()));
    assert_eq!(shell.execute_handler(&Ok(String::new())), None);
    assert_eq!(
        shell.execute_handler(&Err(ShellError::CommandNotFound { name: text("foo") })),
        Some(text("foo: command not found"))
    );
    assert_eq!(
        shell.execute_handler(&Err(ShellError::IoFailure { cause: text("\n") })),
        Some(String::new())
    );
    for s in ["", "a", "a\n", "\n\n", "a\n\nb\n\n\n", "a\r\n"] {
        assert_eq!(strip_line_feeds(s), s.trim_end_matches('\n'));
    }
}

#[test]
fn history_file_is_read_at_the_start_and_appended_to_at_the_end() {
    let shell = shell(Some("/tmp/hist"));
    let mut history = HistoryState::new();
    assert_eq!(shell.load_request(), Some(Request::ReadFile { path: text("/tmp/hist") }));
    shell.load_history(&Reply::Text(Ok(text("ls\n\npwd\n"))), &mut history);
    assert_eq!(history.commands, vec![text("ls"), text("pwd")]);
    assert_eq!(history.last_appended_index, 2);
    shell.accept_line("echo hi", &mut history);
    assert_eq!(
        shell.save_history(&history),
        Some(Request::WriteFile {
            path: text("/tmp/hist"),
            content: text("echo hi\n"),
            append: true,
            parents: false,
        })
    );
}

#[test]
fn missing_history_file_changes_nothing() {
    let shell = shell(Some("/tmp/hist"));
    let mut history = HistoryState::new();
    let error = HostError { kind: FailureKind::NotFound, message: text("missing") };
    shell.load_history(&Reply::Text(Err(error)), &mut history);
    assert_eq!(history, HistoryState::new());
    shell.load_history(&Reply::Nothing, &mut history);
    assert_eq!(history, HistoryState::new());
}

#[test]
fn session_without_a_history_file_asks_for_none() {
    let shell = shell(None);
    assert_eq!(shell.load_request(), None);
    assert_eq!(shell.save_history(&HistoryState::new()), None);
}

#[test]
fn interrupt_and_end_of_input_end_the_session() {
    let shell = shell(None);
    let mut history = HistoryState::new();
    assert_eq!(shell.run(&ReadEvent::Interrupted, &mut history), Turn::Leave);
    assert_eq!(shell.run(&ReadEvent::Eof, &mut history), Turn::Leave);
    assert_eq!(history, HistoryState::new());
}

#[test]
fn failure_to_read_is_reported_and_the_session_goes_on() {
    let shell = shell(None);
    let mut history = HistoryState::new();
    assert_eq!(
        shell.run(&ReadEvent::Failed(text("bad tty")), &mut history),
        Turn::Report(text("Error reading line: bad tty"))
    );
    assert_eq!(history, HistoryState::new());
}

#[test]
fn line_that_was_read_is_recorded_and_run() {
    let shell = shell(None);
    let mut history = HistoryState::new();
    assert_eq!(shell.run(&ReadEvent::Line(text("  ")), &mut history), Turn::Again);
    assert_eq!(history.commands, Vec::<String>::new());
    assert_eq!(
        shell.run(&ReadEvent::Line(text(" echo hi ")), &mut history),
        Turn::Run(SupportedCommand::Echo { args: vec![text("hi")] })
    );
    assert_eq!(shell.run(&ReadEvent::Line(text("exit 3")), &mut history), Turn::Leave);
    assert_eq!(shell.run(&ReadEvent::Line(text("''")), &mut history), Turn::Again);
    assert_eq!(shell.run(&ReadEvent::Line(text("ls |")), &mut history), Turn::Again);
    assert_eq!(history.commands, vec![text("echo hi"), text("exit 3"), text("''"), text("ls |")]);
}
