use codecrafters_shell::commands::supported_command::{
    HistoryAction, RedirectionKind, SupportedCommand,
};
use codecrafters_shell::parsing::command_parser::CommandParser;

/// The words of `text`, read off the rules with the standard library's
/// means: a stack of characters, popped one by one.
fn words_by_the_rules(text: &str) -> Vec<String> {
    let mut stack: Vec<char> = text.chars().rev().collect();
    let mut words = Vec::new();
    let mut current = String::new();
    let mut quote: Option<char> = None;
    while let Some(c) = stack.pop() {
        match (c, quote) {
            ('\'', None) => quote = Some('\''),
            ('\'', Some('\'')) => quote = None,
            ('"', None) => quote = Some('"'),
            ('"', Some('"')) => quote = None,
            (' ' | '\t', None) => {
                if !current.is_empty() {
                    words.push(std::mem::take(&mut current));
                }
            }
            ('\\', Some('"')) => match stack.pop() {
                Some(next) if next == '"' || next == '\\' => current.push(next),
                Some(next) => {
                    current.push('\\');
                    current.push(next);
                }
                None => current.push('\\'),
            },
            ('\\', None) => match stack.pop() {
                Some(next) => current.push(next),
                None => current.push('\\'),
            },
            (other, _) => current.push(other),
        }
    }
    if !current.is_empty() {
        words.push(current);
    }
    words
}

fn pieces_by_the_rules(line: &str) -> Vec<String> {
    let mut pieces = vec![String::new()];
    let mut chars = line.chars();
    while let Some(c) = chars.next() {
        if c == '\\' {
            pieces.last_mut().unwrap().push(c);
            if let Some(next) = chars.next() {
                pieces.last_mut().unwrap().push(next);
            }
        } else if c == '|' {
            pieces.push(String::new());
        } else {
            pieces.last_mut().unwrap().push(c);
        }
    }
    pieces
}

fn command_by_the_rules(words: &[String]) -> SupportedCommand {
    let args = words[1..].to_vec();
    match words[0].as_str() {
        "echo" => SupportedCommand::Echo { args },
        "exit" => SupportedCommand::Exit,
        "type" => match args.first() {
            None => SupportedCommand::NoArgument,
            Some(name) if ["echo", "exit", "type", "pwd", "history"].contains(&name.as_str()) => {
                SupportedCommand::TypeCheck { cmd: name.clone() }
            }
            Some(name) => SupportedCommand::LocateExecutable { cmd: name.clone() },
        },
        "pwd" => SupportedCommand::Pwd,
        "history" => {
            let path = || args.get(1).cloned().unwrap_or_default();
            let action = match args.first().map(|s| s.as_str()) {
                Some("-r") => HistoryAction::Read { path: path() },
                Some("-w") => HistoryAction::Write { path: path() },
                Some("-a") => HistoryAction::Append { path: path() },
                Some(other) => HistoryAction::Display { limit: other.parse::<usize>().ok() },
                None => HistoryAction::Display { limit: None },
            };
            SupportedCommand::History { action }
        }
        "cd" => SupportedCommand::ChangeDir { path: args.first().cloned().unwrap_or_default() },
        _ => SupportedCommand::Unspecified { cmd: words[0].clone(), args },
    }
}

fn parse_by_the_rules(input: &str) -> SupportedCommand {
    let line = input.trim().replace("1>>", ">>").replace("1>", ">");
    let words = words_by_the_rules(&line);
    if words.is_empty() {
        return SupportedCommand::NoArgument;
    }
    let pieces = pieces_by_the_rules(&line);
    if pieces.len() > 1 {
        let mut commands = Vec::new();
        for piece in pieces {
            let stage = words_by_the_rules(piece.trim());
            if stage.is_empty() {
                return SupportedCommand::NoArgument;
            }
            commands.push(command_by_the_rules(&stage));
        }
        return SupportedCommand::Pipeline { commands: Box::new(commands) };
    }
    let operator = words.iter().position(|w| matches!(w.as_str(), ">" | ">>" | "2>" | "2>>"));
    if let Some(pos) = operator {
        if pos + 1 < words.len() {
            let kind = match words[pos].as_str() {
                ">" => RedirectionKind::OverwriteOnlySuccess,
                "2>" => RedirectionKind::OverwriteOnlyError,
                "2>>" => RedirectionKind::AppendOnlyError,
                _ => RedirectionKind::AppendOnlySuccess,
            };
            let inner = if pos == 0 {
                SupportedCommand::NoArgument
            } else {
                command_by_the_rules(&words[..pos])
            };
            return SupportedCommand::Redirection {
                kind,
                inner_cmd: Box::new(inner),
                output_file: words[pos + 1].clone(),
            };
        }
    }
    command_by_the_rules(&words)
}

fn every_text(alphabet: &[char], length: usize, visit: &mut dyn FnMut(&str)) {
    let mut indices = vec![0usize; length];
    loop {
        let text: String = indices.iter().map(|&i| alphabet[i]).collect();
        visit(&text);
        let mut position = 0;
        loop {
            if position == length {
                return;
            }
            indices[position] += 1;
            if indices[position] < alphabet.len() {
                break;
            }
            indices[position] = 0;
            position += 1;
        }
    }
}

#[test]
fn words_of_every_short_text_follow_the_rules() {
    let alphabet = ['a', ' ', '\t', '\'', '"', '\\'];
    for length in 0..=6 {
        every_text(&alphabet, length, &mut |text| {
            let words = CommandParser::build_arguments(CommandParser::lexer(text));
            assert_eq!(words, words_by_the_rules(text), "for {:?}", text);
            assert!(words.iter().all(|w| !w.is_empty()), "for {:?}", text);
        });
    }
}

#[test]
fn every_short_line_parses_by_the_rules() {
    let alphabet = ['e', ' ', '\'', '"', '\\', '|', '>', '1', '2', '\n'];
    for length in 0..=5 {
        every_text(&alphabet, length, &mut |text| {
            assert_eq!(CommandParser::parse(text), parse_by_the_rules(text), "for {:?}", text);
        });
    }
}

#[test]
fn lines_with_commands_parse_by_the_rules() {
    let heads = ["echo", "exit", "type", "pwd", "history", "cd", "ls", "1>", "'ec'ho"];
    let tails = [
        "", " a", " 'a b'", " -r f", " -w", " -a x y", " 12", " +3", " x", " echo", " cd",
        " > f", " >> f g", " 2> f", " 2>> f", " 1> f", " 1>> f", " >", " | cat", " | ", " \\| x",
        " a\\ b", " \"a\\\"b\"", " \u{a0}", "\u{2003}", " ~",
    ];
    for head in heads {
        for first in tails {
            for second in tails {
                let line = format!("{}{}{}", head, first, second);
                assert_eq!(
                    CommandParser::parse(&line),
                    parse_by_the_rules(&line),
                    "for {:?}",
                    line
                );
            }
        }
    }
}
