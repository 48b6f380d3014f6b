//! The parser: from a line of input to a [`SupportedCommand`].

use crate::commands::supported_command::{HistoryAction, RedirectionKind, SupportedCommand};
use crate::parsing::grammar::{
    all_digits, class_of, classify, command_of, digits_value, escapes_next, history_op,
    is_redirect_operator, next_operator, next_pipe, normalize, parse_limit, parse_line,
    pipeline_of, redirect_kind, redirected_command_of, replace_all, scan, split_from,
    split_pipes, stage_words, step, token_of, unsigned_part, word_or_empty, words_in, words_of,
    CharType, ClassifiedChar, QuoteMode, WordState,
};
use crate::text::{
    char_at, chars_deep_view, extend_chars, is_text, slice_chars, to_chars, to_string, trim,
    trimmed,
};
use vstd::prelude::*;

verus! {

pub struct CommandParser;

/// The class of `c`.
pub fn classify_char(c: char) -> (kind: CharType)
    ensures
        kind == class_of(c),
{
    if c == '\\' {
        CharType::Backslash
    } else if c == '\'' {
        CharType::SingleQuote
    } else if c == '"' {
        CharType::DoubleQuote
    } else if c == ' ' || c == '\t' {
        CharType::Whitespace
    } else {
        CharType::NormalChar
    }
}

/// Each character of `line` with its class, in order.
pub fn classify_chars(line: &Vec<char>) -> (tokens: Vec<ClassifiedChar>)
    ensures
        tokens@ == classify(line@),
{
    let mut tokens: Vec<ClassifiedChar> = Vec::new();
    let mut i: usize = 0;
    while i < line.len()
        invariant
            i <= line.len(),
            tokens@.len() == i,
            forall|j: int|
                0 <= j < i ==> #[trigger] tokens@[j] == token_of(line@[j]),
        decreases line.len() - i,
    {
        let c = char_at(line, i);
        tokens.push(ClassifiedChar { ch: c, kind: classify_char(c) });
        i += 1;
    }
    assert(tokens@ =~= classify(line@));
    tokens
}

/// The words completed so far, with the word in `current`, if it has any
/// character, added to them.
fn flush(args: &mut Vec<String>, current: &mut Vec<char>)
    ensures
        old(current)@.len() > 0 ==> final(args).deep_view() == old(args).deep_view().push(
            old(current)@,
        ),
        old(current)@.len() == 0 ==> final(args).deep_view() == old(args).deep_view(),
        final(current)@.len() == 0,
{
    if current.len() > 0 {
        let word = to_string(current);
        args.push(word);
        current.clear();
        assert(args.deep_view() =~= old(args).deep_view().push(old(current)@));
    }
}

/// Whether `pattern` stands in `v` at index `at`.
fn occurs_at(v: &Vec<char>, at: usize, pattern: &Vec<char>) -> (found: bool)
    requires
        at + pattern.len() <= v.len(),
    ensures
        found == (v@.subrange(at as int, at + pattern.len()) == pattern@),
{
    let mut k: usize = 0;
    while k < pattern.len()
        invariant
            k <= pattern.len(),
            at + pattern.len() <= v.len(),
            forall|j: int| 0 <= j < k ==> v@[at + j] == pattern@[j],
        decreases pattern.len() - k,
    {
        if v[at + k] != pattern[k] {
            assert(v@.subrange(at as int, at + pattern.len())[k as int] != pattern@[k as int]);
            return false;
        }
        k += 1;
    }
    assert(v@.subrange(at as int, at + pattern.len()) =~= pattern@);
    true
}

/// `v` with every occurrence of `pattern` replaced by `with`, the
/// occurrences taken from the left and not overlapping. An empty pattern
/// occurs nowhere.
pub fn replace_chars(v: &Vec<char>, pattern: &Vec<char>, with: &Vec<char>) -> (out: Vec<char>)
    ensures
        out@ == replace_all(v@, pattern@, with@),
{
    let mut out: Vec<char> = Vec::new();
    let mut i: usize = 0;
    if pattern.len() == 0 {
        extend_chars(&mut out, v);
        assert(out@ =~= v@);
        return out;
    }
    assert(v@.skip(0) == v@);
    assert(out@ + replace_all(v@, pattern@, with@) =~= replace_all(v@, pattern@, with@));
    while i < v.len()
        invariant
            i <= v.len(),
            pattern.len() > 0,
            out@ + replace_all(v@.skip(i as int), pattern@, with@) == replace_all(
                v@,
                pattern@,
                with@,
            ),
        decreases v.len() - i,
    {
        let ghost rest = v@.skip(i as int);
        let ghost before = out@;
        if v.len() - i >= pattern.len() && occurs_at(v, i, pattern) {
            extend_chars(&mut out, with);
            proof {
                assert(rest.take(pattern.len() as int) =~= v@.subrange(
                    i as int,
                    i + pattern.len(),
                ));
                assert(rest.skip(pattern.len() as int) =~= v@.skip(i + pattern.len()));
                let tail = replace_all(v@.skip(i + pattern.len()), pattern@, with@);
                assert((before + with@) + tail =~= before + (with@ + tail));
            }
            i += pattern.len();
        } else {
            out.push(v[i]);
            proof {
                if rest.len() >= pattern.len() {
                    assert(rest.take(pattern.len() as int) =~= v@.subrange(
                        i as int,
                        i + pattern.len(),
                    ));
                }
                assert(rest.skip(1) =~= v@.skip(i + 1));
                let tail = replace_all(v@.skip(i + 1), pattern@, with@);
                if rest.len() < pattern.len() {
                    assert(tail == rest.skip(1));
                    assert(seq![rest[0]] + rest.skip(1) =~= rest);
                }
                assert(before.push(v@[i as int]) + tail =~= before + (seq![rest[0]] + tail));
            }
            i += 1;
        }
    }
    assert(out@ + Seq::<char>::empty() =~= out@);
    out
}

/// `line` with a redirection of descriptor 1 written as the plain one.
pub fn normalize_chars(line: &Vec<char>) -> (out: Vec<char>)
    ensures
        out@ == normalize(line@),
{
    let first = replace_chars(line, &to_chars("1>>"), &to_chars(">>"));
    replace_chars(&first, &to_chars("1>"), &to_chars(">"))
}

/// The pieces of `line`, cut at each unescaped `|`.
pub fn split_pipe_chars(line: &Vec<char>) -> (segments: Vec<Vec<char>>)
    ensures
        segments.deep_view() == split_pipes(line@),
{
    let mut segments: Vec<Vec<char>> = Vec::new();
    let mut start: usize = 0;
    let mut i: usize = 0;
    assert(segments.deep_view() + split_from(line@, 0) =~= split_from(line@, 0));
    while i < line.len()
        invariant
            start <= i <= line.len(),
            segments.deep_view() + split_from(line@, start as int) == split_from(line@, 0),
            next_pipe(line@, start as int) == next_pipe(line@, i as int),
        decreases line.len() - i,
    {
        let c = line[i];
        if c == '\\' {
            if i + 1 < line.len() {
                i += 2;
            } else {
                i += 1;
            }
        } else if c == '|' {
            let ghost before = segments.deep_view();
            let piece = slice_chars(line, start, i);
            proof {
                chars_deep_view(&piece);
            }
            segments.push(piece);
            proof {
                let cut = line@.subrange(start as int, i as int);
                assert(segments.deep_view() =~= before.push(cut));
                let tail = split_from(line@, i + 1);
                assert(before.push(cut) + tail =~= before + (seq![cut] + tail));
            }
            start = i + 1;
            i += 1;
        } else {
            i += 1;
        }
    }
    let ghost before = segments.deep_view();
    let piece = slice_chars(line, start, line.len());
    proof {
        chars_deep_view(&piece);
    }
    segments.push(piece);
    proof {
        assert(line@.skip(start as int) =~= line@.subrange(start as int, line.len() as int));
        assert(segments.deep_view() =~= before.push(line@.skip(start as int)));
        assert(before.push(line@.skip(start as int)) =~= before + seq![line@.skip(start as int)]);
    }
    segments
}

/// The value of a prefix of a digit string is at most the value of the
/// whole.
proof fn digits_value_grows(s: Seq<char>, k: int)
    requires
        0 <= k <= s.len(),
    ensures
        digits_value(s.take(k)) <= digits_value(s),
    decreases s.len(),
{
    if k == s.len() {
        assert(s.take(k) =~= s);
    } else {
        assert(s.drop_last().take(k) =~= s.take(k));
        digits_value_grows(s.drop_last(), k);
        let head = digits_value(s.drop_last());
        assert(head * 10 >= head) by (nonlinear_arith);
    }
}

/// The number that `word` writes, if it writes one that fits.
pub fn parse_number(word: &Vec<char>) -> (n: Option<usize>)
    ensures
        n == parse_limit(word@),
{
    let first: usize = if word.len() > 0 && word[0] == '+' {
        1
    } else {
        0
    };
    if first >= word.len() {
        return None;
    }
    let ghost digits = word@.skip(first as int);
    assert(word@.skip(0) =~= word@);
    let mut value: usize = 0;
    let mut i: usize = first;
    assert(digits.take(0) =~= Seq::<char>::empty());
    while i < word.len()
        invariant
            first <= i <= word.len(),
            digits == word@.skip(first as int),
            digits == unsigned_part(word@),
            all_digits(digits.take(i - first)),
            value == digits_value(digits.take(i - first)),
        decreases word.len() - i,
    {
        let c = word[i];
        let ghost seen = digits.take(i - first + 1);
        proof {
            assert(seen.drop_last() =~= digits.take(i - first));
            assert(seen.last() == c);
            assert(digits_value(seen) == digits_value(seen.drop_last()) * 10 + (seen.last() as nat
                - '0' as nat) as nat);
            digits_value_grows(digits, i - first + 1);
        }
        if c < '0' || c > '9' {
            assert(digits[i - first] == c);
            return None;
        }
        let digit: usize = (c as u32 - '0' as u32) as usize;
        assert(digit as nat == (c as nat - '0' as nat) as nat);
        let scaled = match value.checked_mul(10) {
            Some(scaled) => scaled,
            None => {
                return None;
            },
        };
        value = match scaled.checked_add(digit) {
            Some(sum) => sum,
            None => {
                return None;
            },
        };
        i += 1;
        assert(all_digits(seen));
    }
    assert(digits.take(i - first) =~= digits);
    Some(value)
}

/// The words of `args` from index `from` on.
fn words_from(args: &[String], from: usize) -> (rest: Vec<String>)
    requires
        from <= args@.len(),
    ensures
        rest.deep_view() == args.deep_view().skip(from as int),
{
    let mut rest: Vec<String> = Vec::new();
    let mut i: usize = from;
    while i < args.len()
        invariant
            from <= i <= args@.len(),
            rest@.len() == i - from,
            forall|j: int| 0 <= j < i - from ==> (#[trigger] rest@[j])@ == args@[from + j]@,
        decreases args.len() - i,
    {
        rest.push(args[i].clone());
        i += 1;
    }
    assert(rest.deep_view() =~= args.deep_view().skip(from as int));
    rest
}

/// The word of `args` at index `i`, or the empty word where there is none.
fn word_at(args: &Vec<String>, i: usize) -> (word: String)
    ensures
        word@ == word_or_empty(args.deep_view(), i as int),
{
    if i < args.len() {
        args[i].clone()
    } else {
        String::new()
    }
}

/// What the arguments of `history` ask for.
fn build_history_action(args: &Vec<String>) -> (action: HistoryAction)
    ensures
        action@ == history_op(args.deep_view()),
{
    if args.len() == 0 {
        return HistoryAction::Display { limit: None };
    }
    let flag = to_chars(args[0].as_str());
    if is_text(&flag, "-r") {
        HistoryAction::Read { path: word_at(args, 1) }
    } else if is_text(&flag, "-w") {
        HistoryAction::Write { path: word_at(args, 1) }
    } else if is_text(&flag, "-a") {
        HistoryAction::Append { path: word_at(args, 1) }
    } else {
        HistoryAction::Display { limit: parse_number(&flag) }
    }
}

/// The index of the first redirection operator among `args`, or their
/// number where there is none.
fn find_operator(args: &Vec<String>) -> (pos: usize)
    ensures
        pos == next_operator(args.deep_view(), 0),
        pos <= args@.len(),
        pos < args@.len() ==> is_redirect_operator(args@[pos as int]@),
{
    let mut i: usize = 0;
    while i < args.len()
        invariant
            i <= args@.len(),
            next_operator(args.deep_view(), i as int) == next_operator(args.deep_view(), 0),
        decreases args.len() - i,
    {
        let word = to_chars(args[i].as_str());
        if is_text(&word, ">") || is_text(&word, ">>") || is_text(&word, "2>") || is_text(
            &word,
            "2>>",
        ) {
            return i;
        }
        i += 1;
    }
    i
}

/// The kind of redirection that the operator `word` asks for.
fn operator_kind(word: &String) -> (kind: RedirectionKind)
    requires
        is_redirect_operator(word@),
    ensures
        kind == redirect_kind(word@),
{
    let text = to_chars(word.as_str());
    if is_text(&text, ">") {
        RedirectionKind::OverwriteOnlySuccess
    } else if is_text(&text, "2>") {
        RedirectionKind::OverwriteOnlyError
    } else if is_text(&text, "2>>") {
        RedirectionKind::AppendOnlyError
    } else {
        RedirectionKind::AppendOnlySuccess
    }
}

impl CommandParser {
    /// Classifies each character of `input`. The result is in reading
    /// order.
    pub fn lexer(input: &str) -> (tokens: Vec<ClassifiedChar>)
        ensures
            tokens@ == classify(input@),
    {
        let line = to_chars(input);
        classify_chars(&line)
    }

    /// Builds the words of a sequence of classified characters, given in
    /// reading order.
    pub fn build_arguments(tokens: Vec<ClassifiedChar>) -> (args: Vec<String>)
        ensures
            args.deep_view() == words_of(tokens@),
    {
        let mut args: Vec<String> = Vec::new();
        let mut current: Vec<char> = Vec::new();
        let mut mode = QuoteMode::Unquoted;
        let mut i: usize = 0;
        assert(args.deep_view() =~= Seq::<Seq<char>>::empty());
        while i < tokens.len()
            invariant
                i <= tokens.len(),
                scan(
                    tokens@,
                    i as int,
                    WordState { mode, current: current@, words: args.deep_view() },
                ) == scan(tokens@, 0, WordState::start()),
            decreases tokens.len() - i,
        {
            let ghost before = WordState { mode, current: current@, words: args.deep_view() };
            let token = tokens[i];
            let mut consumed: usize = 1;
            match token.kind {
                CharType::SingleQuote => match mode {
                    QuoteMode::Unquoted => {
                        mode = QuoteMode::InSingleQuote;
                    },
                    QuoteMode::InSingleQuote => {
                        mode = QuoteMode::Unquoted;
                    },
                    QuoteMode::InDoubleQuote => {
                        current.push('\'');
                    },
                },
                CharType::DoubleQuote => match mode {
                    QuoteMode::Unquoted => {
                        mode = QuoteMode::InDoubleQuote;
                    },
                    QuoteMode::InDoubleQuote => {
                        mode = QuoteMode::Unquoted;
                    },
                    QuoteMode::InSingleQuote => {
                        current.push('"');
                    },
                },
                CharType::Whitespace => match mode {
                    QuoteMode::Unquoted => {
                        flush(&mut args, &mut current);
                    },
                    _ => {
                        current.push(token.ch);
                    },
                },
                CharType::Backslash => match mode {
                    QuoteMode::InSingleQuote => {
                        current.push('\\');
                    },
                    QuoteMode::InDoubleQuote => {
                        if i + 1 < tokens.len() {
                            let next = tokens[i + 1].ch;
                            if next != '"' && next != '\\' {
                                current.push('\\');
                            }
                            current.push(next);
                            consumed = 2;
                        } else {
                            current.push('\\');
                        }
                    },
                    QuoteMode::Unquoted => {
                        if i + 1 < tokens.len() {
                            current.push(tokens[i + 1].ch);
                            consumed = 2;
                        } else {
                            current.push('\\');
                        }
                    },
                },
                CharType::NormalChar => {
                    current.push(token.ch);
                },
            }
            proof {
                let after = WordState { mode, current: current@, words: args.deep_view() };
                assert(after.current =~= step(tokens@, i as int, before).current);
                assert(after == step(tokens@, i as int, before));
                assert(consumed == 2 <==> escapes_next(tokens@, i as int, before.mode));
            }
            i += consumed;
        }
        flush(&mut args, &mut current);
        args
    }

    /// Builds the command that `args` stand for: the first word selects the
    /// command and the words after it are its arguments.
    pub fn build_command(args: &[String]) -> (cmd: SupportedCommand)
        requires
            args@.len() > 0,
        ensures
            cmd@ == command_of(args.deep_view()),
            cmd@.is_simple(),
    {
        let name = to_chars(args[0].as_str());
        let rest = words_from(args, 1);
        if is_text(&name, "echo") {
            SupportedCommand::Echo { args: rest }
        } else if is_text(&name, "exit") {
            SupportedCommand::Exit
        } else if is_text(&name, "type") {
            if rest.len() == 0 {
                SupportedCommand::NoArgument
            } else if SupportedCommand::supported(&rest[0]) {
                SupportedCommand::TypeCheck { cmd: rest[0].clone() }
            } else {
                SupportedCommand::LocateExecutable { cmd: rest[0].clone() }
            }
        } else if is_text(&name, "pwd") {
            SupportedCommand::Pwd
        } else if is_text(&name, "history") {
            SupportedCommand::History { action: build_history_action(&rest) }
        } else if is_text(&name, "cd") {
            SupportedCommand::ChangeDir { path: word_at(&rest, 0) }
        } else {
            SupportedCommand::Unspecified { cmd: args[0].clone(), args: rest }
        }
    }

    /// Parses a line of input.
    pub fn parse(input: &str) -> (cmd: SupportedCommand)
        ensures
            cmd@ == parse_line(input@),
            cmd@.well_formed(),
    {
        let raw = to_chars(input);
        let line = normalize_chars(&trimmed(&raw));
        let args = Self::build_arguments(classify_chars(&line));
        if args.len() == 0 {
            return SupportedCommand::NoArgument;
        }
        let segments = split_pipe_chars(&line);
        if segments.len() > 1 {
            let mut commands: Vec<SupportedCommand> = Vec::new();
            let mut k: usize = 0;
            while k < segments.len()
                invariant
                    k <= segments@.len(),
                    commands@.len() == k,
                    line@ == normalize(trim(input@)),
                    words_in(line@).len() > 0,
                    segments.deep_view() == split_pipes(line@),
                    segments@.len() > 1,
                    forall|j: int|
                        0 <= j < k ==> (#[trigger] stage_words(segments.deep_view()[j])).len() > 0,
                    forall|j: int|
                        0 <= j < k ==> (#[trigger] commands@[j])@ == command_of(
                            stage_words(segments.deep_view()[j]),
                        ),
                    forall|j: int| 0 <= j < k ==> (#[trigger] commands@[j])@.is_simple(),
                decreases segments.len() - k,
            {
                proof {
                    chars_deep_view(&segments[k as int]);
                }
                let words = Self::build_arguments(classify_chars(&trimmed(&segments[k])));
                if words.len() == 0 {
                    assert(stage_words(segments.deep_view()[k as int]).len() == 0);
                    return SupportedCommand::NoArgument;
                }
                let stage = Self::build_command(words.as_slice());
                commands.push(stage);
                k += 1;
            }
            let cmd = SupportedCommand::Pipeline { commands: Box::new(commands) };
            assert(cmd@->commands =~= pipeline_of(segments.deep_view())->commands);
            return cmd;
        }
        let pos = find_operator(&args);
        let ghost words = args.deep_view();
        assert(parse_line(input@) == redirected_command_of(words));
        if pos < args.len() && args.len() - pos > 1 {
            let kind = operator_kind(&args[pos]);
            let inner = if pos == 0 {
                SupportedCommand::NoArgument
            } else {
                let head = vstd::slice::slice_subrange(args.as_slice(), 0, pos);
                assert(head.deep_view() =~= words.take(pos as int));
                Self::build_command(head)
            };
            let target = args[pos + 1].clone();
            assert(target@ == words[pos + 1]);
            assert(kind == redirect_kind(words[pos as int]));
            let cmd = SupportedCommand::Redirection {
                kind,
                inner_cmd: Box::new(inner),
                output_file: target,
            };
            assert(cmd@ == redirected_command_of(words));
            cmd
        } else {
            assert(!(pos + 1 < words.len()));
            Self::build_command(args.as_slice())
        }
    }
}

} // verus!
