use codecrafters_shell::commands::supported_command::{
    HistoryAction, RedirectionKind, SupportedCommand,
};
use codecrafters_shell::parsing::command_parser::CommandParser;
use codecrafters_shell::parsing::grammar::CharType;

fn words(items: &[&str]) -> Vec<String> {
    items.iter().map(|s| s.to_string()).collect()
}

fn echo(items: &[&str]) -> SupportedCommand {
    SupportedCommand::Echo { args: words(items) }
}

fn external(name: &str, args: &[&str]) -> SupportedCommand {
    SupportedCommand::Unspecified { cmd: name.to_string(), args: words(args) }
}

#[test]
fn whitespace_only_input_is_no_argument() {
    assert_eq!(CommandParser::parse(""), SupportedCommand::NoArgument);
    assert_eq!(CommandParser::parse("   "), SupportedCommand::NoArgument);
    assert_eq!(CommandParser::parse(" \t \t"), SupportedCommand::NoArgument);
    assert_eq!(CommandParser::parse("\n\r\u{a0}\u{2003}\u{3000}"), SupportedCommand::NoArgument);
}

#[test]
fn single_quotes_keep_blanks_in_a_word() {
    assert_eq!(CommandParser::parse("echo 'a b' c"), echo(&["a b", "c"]));
}

#[test]
fn backslash_in_double_quotes_escapes_a_quote() {
    assert_eq!(CommandParser::parse("echo \"a\\\"b\""), echo(&["a\"b"]));
}

#[test]
fn backslash_outside_quotes_escapes_a_blank() {
    assert_eq!(CommandParser::parse("echo a\\ b"), echo(&["a b"]));
}

#[test]
fn backslash_in_double_quotes_stays_before_other_characters() {
    assert_eq!(CommandParser::parse("echo \"a\\nb\\\\c\""), echo(&["a\\nb\\c"]));
}

#[test]
fn backslash_in_single_quotes_is_literal() {
    assert_eq!(CommandParser::parse("echo 'a\\b'"), echo(&["a\\b"]));
}

#[test]
fn trailing_backslash_is_literal() {
    assert_eq!(CommandParser::parse("echo a\\"), echo(&["a\\"]));
}

#[test]
fn unterminated_quote_keeps_what_was_collected() {
    assert_eq!(CommandParser::parse("echo 'a b"), echo(&["a b"]));
    assert_eq!(CommandParser::parse("echo \"tail"), echo(&["tail"]));
}

#[test]
fn adjacent_quoted_parts_join_into_one_word() {
    assert_eq!(CommandParser::parse("echo 'a'\"b\"c"), echo(&["abc"]));
}

#[test]
fn quotes_inside_the_other_kind_are_literal() {
    assert_eq!(CommandParser::parse("echo \"it's\" 'say \"hi\"'"), echo(&["it's", "say \"hi\""]));
}

#[test]
fn consecutive_blanks_make_no_empty_word() {
    assert_eq!(CommandParser::parse("echo   a \t b"), echo(&["a", "b"]));
}

#[test]
fn descriptor_one_redirection_is_the_plain_one() {
    let plain = CommandParser::parse("ls > out.txt");
    assert_eq!(CommandParser::parse("ls 1> out.txt"), plain);
    assert_eq!(
        plain,
        SupportedCommand::Redirection {
            kind: RedirectionKind::OverwriteOnlySuccess,
            inner_cmd: Box::new(external("ls", &[])),
            output_file: "out.txt".to_string(),
        }
    );
    assert_eq!(CommandParser::parse("ls 1>> out.txt"), CommandParser::parse("ls >> out.txt"));
}

#[test]
fn normalization_runs_both_passes_in_order() {
    assert_eq!(CommandParser::parse("echo 11>>"), echo(&[">>"]));
    assert_eq!(CommandParser::parse("echo a1>b"), echo(&["a>b"]));
}

#[test]
fn each_redirection_operator_has_its_kind() {
    for (text, kind) in [
        ("echo hi > f", RedirectionKind::OverwriteOnlySuccess),
        ("echo hi >> f", RedirectionKind::AppendOnlySuccess),
        ("echo hi 2> f", RedirectionKind::OverwriteOnlyError),
        ("echo hi 2>> f", RedirectionKind::AppendOnlyError),
    ] {
        assert_eq!(
            CommandParser::parse(text),
            SupportedCommand::Redirection {
                kind,
                inner_cmd: Box::new(echo(&["hi"])),
                output_file: "f".to_string(),
            }
        );
    }
}

#[test]
fn redirection_without_a_command_wraps_no_argument() {
    assert_eq!(
        CommandParser::parse("> out.txt"),
        SupportedCommand::Redirection {
            kind: RedirectionKind::OverwriteOnlySuccess,
            inner_cmd: Box::new(SupportedCommand::NoArgument),
            output_file: "out.txt".to_string(),
        }
    );
}

#[test]
fn redirection_operator_without_a_target_is_an_ordinary_word() {
    assert_eq!(CommandParser::parse("echo hi >"), echo(&["hi", ">"]));
}

#[test]
fn only_the_first_operator_counts_and_later_words_are_dropped() {
    assert_eq!(
        CommandParser::parse("echo a > f b >> g"),
        SupportedCommand::Redirection {
            kind: RedirectionKind::OverwriteOnlySuccess,
            inner_cmd: Box::new(echo(&["a"])),
            output_file: "f".to_string(),
        }
    );
}

#[test]
fn pipe_splits_a_line_into_stages() {
    assert_eq!(
        CommandParser::parse("echo hi | cat -n | wc"),
        SupportedCommand::Pipeline {
            commands: Box::new(vec![echo(&["hi"]), external("cat", &["-n"]), external("wc", &[])]),
        }
    );
}

#[test]
fn pipeline_with_an_empty_stage_is_no_argument() {
    assert_eq!(CommandParser::parse("echo hi |"), SupportedCommand::NoArgument);
    assert_eq!(CommandParser::parse("| cat"), SupportedCommand::NoArgument);
    assert_eq!(CommandParser::parse("echo a | | cat"), SupportedCommand::NoArgument);
}

#[test]
fn escaped_pipe_does_not_split() {
    assert_eq!(CommandParser::parse("echo a\\|b"), echo(&["a|b"]));
}

#[test]
fn quoted_pipe_still_splits() {
    assert_eq!(
        CommandParser::parse("echo 'a|b'"),
        SupportedCommand::Pipeline { commands: Box::new(vec![echo(&["a"]), external("b", &[])]) }
    );
}

#[test]
fn redirection_inside_a_pipeline_stage_is_not_recognised() {
    assert_eq!(
        CommandParser::parse("ls > f | cat"),
        SupportedCommand::Pipeline {
            commands: Box::new(vec![external("ls", &[">", "f"]), external("cat", &[])]),
        }
    );
}

#[test]
fn first_word_selects_the_command() {
    assert_eq!(CommandParser::parse("exit"), SupportedCommand::Exit);
    assert_eq!(CommandParser::parse("exit 0"), SupportedCommand::Exit);
    assert_eq!(CommandParser::parse("pwd"), SupportedCommand::Pwd);
    assert_eq!(CommandParser::parse("echo"), echo(&[]));
    assert_eq!(
        CommandParser::parse("cd /tmp"),
        SupportedCommand::ChangeDir { path: "/tmp".to_string() }
    );
    assert_eq!(CommandParser::parse("cd"), SupportedCommand::ChangeDir { path: String::new() });
    assert_eq!(CommandParser::parse("ls -l /"), external("ls", &["-l", "/"]));
}

#[test]
fn type_tells_builtins_from_executables() {
    for name in ["echo", "exit", "type", "pwd", "history"] {
        assert_eq!(
            CommandParser::parse(&format!("type {}", name)),
            SupportedCommand::TypeCheck { cmd: name.to_string() }
        );
    }
    assert_eq!(
        CommandParser::parse("type cd"),
        SupportedCommand::LocateExecutable { cmd: "cd".to_string() }
    );
    assert_eq!(
        CommandParser::parse("type ls extra"),
        SupportedCommand::LocateExecutable { cmd: "ls".to_string() }
    );
    assert_eq!(CommandParser::parse("type"), SupportedCommand::NoArgument);
}

fn history(action: HistoryAction) -> SupportedCommand {
    SupportedCommand::History { action }
}

#[test]
fn history_flags_select_the_action() {
    assert_eq!(CommandParser::parse("history"), history(HistoryAction::Display { limit: None }));
    assert_eq!(
        CommandParser::parse("history -r in.txt"),
        history(HistoryAction::Read { path: "in.txt".to_string() })
    );
    assert_eq!(
        CommandParser::parse("history -w out.txt"),
        history(HistoryAction::Write { path: "out.txt".to_string() })
    );
    assert_eq!(
        CommandParser::parse("history -a out.txt"),
        history(HistoryAction::Append { path: "out.txt".to_string() })
    );
    assert_eq!(
        CommandParser::parse("history -r"),
        history(HistoryAction::Read { path: String::new() })
    );
}

#[test]
fn history_limit_is_an_unsigned_number() {
    let limit = |text: &str| match CommandParser::parse(&format!("history {}", text)) {
        SupportedCommand::History { action: HistoryAction::Display { limit } } => limit,
        other => panic!("unexpected command {:?}", other),
    };
    assert_eq!(limit("5"), Some(5));
    assert_eq!(limit("0"), Some(0));
    assert_eq!(limit("007"), Some(7));
    assert_eq!(limit("+12"), Some(12));
    assert_eq!(limit("+"), None);
    assert_eq!(limit("-3"), None);
    assert_eq!(limit("12a"), None);
    assert_eq!(limit("abc"), None);
    assert_eq!(limit("١٢"), None);
    assert_eq!(limit(&usize::MAX.to_string()), Some(usize::MAX));
    assert_eq!(limit(&format!("{}0", usize::MAX)), None);
    assert_eq!(limit("99999999999999999999999999"), None);
    for text in ["5", "+5", "x", "", "18446744073709551615", "18446744073709551616"] {
        if !text.is_empty() {
            assert_eq!(limit(text), text.parse::<usize>().ok());
        }
    }
}

#[test]
fn lexer_classifies_every_character() {
    let tokens = CommandParser::lexer("a '\"\\\t");
    let kinds: Vec<CharType> = tokens.iter().map(|t| t.kind).collect();
    assert_eq!(
        kinds,
        vec![
            CharType::NormalChar,
            CharType::Whitespace,
            CharType::SingleQuote,
            CharType::DoubleQuote,
            CharType::Backslash,
            CharType::Whitespace,
        ]
    );
    let chars: String = tokens.iter().map(|t| t.ch).collect();
    assert_eq!(chars, "a '\"\\\t");
}

#[test]
fn build_arguments_reads_tokens_in_order() {
    let words = CommandParser::build_arguments(CommandParser::lexer("one 'two three'"));
    assert_eq!(words, vec!["one".to_string(), "two three".to_string()]);
}

#[test]
fn trimming_follows_unicode_white_space() {
    for text in ["\u{2003}echo a\u{a0}", "\necho a\r\n", "\u{85}echo a\u{1680}"] {
        assert_eq!(text.trim(), "echo a");
        assert_eq!(CommandParser::parse(text), echo(&["a"]));
    }
}
