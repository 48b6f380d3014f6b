//! What a line of input means: its classified characters, its words, and
//! the command that the words stand for.

use crate::commands::supported_command::{
    CommandView, HistoryActionView, RedirectionKind, SupportedCommand,
};
use crate::text::trim;
use vstd::prelude::*;

verus! {

/// The syntactic class of a character.
#[derive(Debug, Clone, Copy, PartialEq, Eq)]
pub enum CharType {
    NormalChar,
    SingleQuote,
    DoubleQuote,
    Whitespace,
    Backslash,
}

/// A character with its syntactic class.
#[derive(Debug, Clone, Copy, PartialEq, Eq)]
pub struct ClassifiedChar {
    pub ch: char,
    pub kind: CharType,
}

/// Where the word builder stands with respect to quotes.
#[derive(Debug, Clone, Copy, PartialEq, Eq)]
pub enum QuoteMode {
    Unquoted,
    InSingleQuote,
    InDoubleQuote,
}

/// The class of `c`: a space or a tab separates words, the two quote
/// characters and the backslash have their own class, and every other
/// character is an ordinary one.
pub open spec fn class_of(c: char) -> CharType {
    if c == '\\' {
        CharType::Backslash
    } else if c == '\'' {
        CharType::SingleQuote
    } else if c == '"' {
        CharType::DoubleQuote
    } else if c == ' ' || c == '\t' {
        CharType::Whitespace
    } else {
        CharType::NormalChar
    }
}

/// The character `c` with its class.
pub open spec fn token_of(c: char) -> ClassifiedChar {
    ClassifiedChar { ch: c, kind: class_of(c) }
}

/// Each character of `s` with its class, in order.
pub open spec fn classify(s: Seq<char>) -> Seq<ClassifiedChar> {
    Seq::new(s.len(), |i: int| token_of(s[i]))
}

/// The word builder's state: the quoting mode, the word being built, and the
/// words completed so far.
pub struct WordState {
    pub mode: QuoteMode,
    pub current: Seq<char>,
    pub words: Seq<Seq<char>>,
}

impl WordState {
    /// The state before the first character.
    pub open spec fn start() -> WordState {
        WordState { mode: QuoteMode::Unquoted, current: Seq::empty(), words: Seq::empty() }
    }

    /// The state with `c` added to the word being built.
    pub open spec fn with(self, c: char) -> WordState {
        WordState { current: self.current.push(c), ..self }
    }

    /// The state in quoting mode `mode`.
    pub open spec fn in_mode(self, mode: QuoteMode) -> WordState {
        WordState { mode, ..self }
    }

    /// The state with the word being built, if it has any character,
    /// completed.
    pub open spec fn flushed(self) -> WordState {
        if self.current.len() > 0 {
            WordState { current: Seq::empty(), words: self.words.push(self.current), ..self }
        } else {
            self
        }
    }
}

/// Whether the token at `i` is a backslash that takes the token after it
/// along: outside single quotes, and not at the end of the input.
pub open spec fn escapes_next(tokens: Seq<ClassifiedChar>, i: int, mode: QuoteMode) -> bool {
    tokens[i].kind is Backslash && !(mode is InSingleQuote) && i + 1 < tokens.len()
}

/// The state after the token at `i`, and after the token that follows it
/// where a backslash takes that one along.
///
/// A quote character opens or closes its own kind of quoting and is
/// literal inside the other kind. White space outside quotes completes the
/// word being built. A backslash outside quotes makes the next character
/// literal; inside double quotes it does so for `"` and `\` only, and stays
/// in front of any other character; inside single quotes, and at the end of
/// the input, it is literal itself.
pub open spec fn step(tokens: Seq<ClassifiedChar>, i: int, st: WordState) -> WordState {
    let t = tokens[i];
    match t.kind {
        CharType::SingleQuote => match st.mode {
            QuoteMode::Unquoted => st.in_mode(QuoteMode::InSingleQuote),
            QuoteMode::InSingleQuote => st.in_mode(QuoteMode::Unquoted),
            QuoteMode::InDoubleQuote => st.with('\''),
        },
        CharType::DoubleQuote => match st.mode {
            QuoteMode::Unquoted => st.in_mode(QuoteMode::InDoubleQuote),
            QuoteMode::InDoubleQuote => st.in_mode(QuoteMode::Unquoted),
            QuoteMode::InSingleQuote => st.with('"'),
        },
        CharType::Whitespace => if st.mode is Unquoted {
            st.flushed()
        } else {
            st.with(t.ch)
        },
        CharType::Backslash => if escapes_next(tokens, i, st.mode) {
            let next = tokens[i + 1].ch;
            if st.mode is InDoubleQuote && next != '"' && next != '\\' {
                st.with('\\').with(next)
            } else {
                st.with(next)
            }
        } else {
            st.with('\\')
        },
        CharType::NormalChar => st.with(t.ch),
    }
}

/// The state after all the tokens from index `i` on, starting in state `st`.
pub open spec fn scan(tokens: Seq<ClassifiedChar>, i: int, st: WordState) -> WordState
    decreases tokens.len() - i,
{
    if i < 0 || i >= tokens.len() {
        st
    } else if escapes_next(tokens, i, st.mode) {
        scan(tokens, i + 2, step(tokens, i, st))
    } else {
        scan(tokens, i + 1, step(tokens, i, st))
    }
}

/// The words of a sequence of classified characters. A quote that is never
/// closed is accepted: what was collected up to the end of the input is the
/// last word.
pub open spec fn words_of(tokens: Seq<ClassifiedChar>) -> Seq<Seq<char>> {
    scan(tokens, 0, WordState::start()).flushed().words
}

/// The words of a piece of text.
pub open spec fn words_in(s: Seq<char>) -> Seq<Seq<char>> {
    words_of(classify(s))
}

/// `s` with every occurrence of `pattern` replaced by `with`, the
/// occurrences taken from the left and not overlapping. An empty pattern
/// occurs nowhere.
pub open spec fn replace_all(s: Seq<char>, pattern: Seq<char>, with: Seq<char>) -> Seq<char>
    decreases s.len(),
{
    if pattern.len() == 0 || s.len() < pattern.len() {
        s
    } else if s.take(pattern.len() as int) == pattern {
        with + replace_all(s.skip(pattern.len() as int), pattern, with)
    } else {
        seq![s[0]] + replace_all(s.skip(1), pattern, with)
    }
}

/// `s` with a redirection of descriptor 1 written as the plain one: first
/// every `1>>` becomes `>>`, then every `1>` becomes `>`.
pub open spec fn normalize(s: Seq<char>) -> Seq<char> {
    replace_all(replace_all(s, "1>>"@, ">>"@), "1>"@, ">"@)
}

/// The index of the first `|` at or after `i` that no backslash escapes, or
/// the length of `s` where there is none. A backslash escapes the character
/// after it, whatever that is; quotes do not protect a `|`.
pub open spec fn next_pipe(s: Seq<char>, i: int) -> int
    decreases s.len() - i,
{
    if i < 0 || i >= s.len() {
        s.len() as int
    } else if s[i] == '\\' {
        if i + 1 < s.len() {
            next_pipe(s, i + 2)
        } else {
            s.len() as int
        }
    } else if s[i] == '|' {
        i
    } else {
        next_pipe(s, i + 1)
    }
}

/// The pieces of `s` from index `start` on, cut at each unescaped `|`.
pub open spec fn split_from(s: Seq<char>, start: int) -> Seq<Seq<char>>
    decreases s.len() - start,
{
    let p = next_pipe(s, start);
    if start < 0 || p < start || p >= s.len() {
        seq![s.skip(start)]
    } else {
        seq![s.subrange(start, p)] + split_from(s, p + 1)
    }
}

/// The pieces of `s`, cut at each unescaped `|`: one more than there are
/// such characters.
pub open spec fn split_pipes(s: Seq<char>) -> Seq<Seq<char>> {
    split_from(s, 0)
}

/// Whether every character of `s` is a decimal digit.
pub open spec fn all_digits(s: Seq<char>) -> bool {
    forall|i: int| 0 <= i < s.len() ==> '0' <= #[trigger] s[i] <= '9'
}

/// The number that the decimal digits `s` write.
pub open spec fn digits_value(s: Seq<char>) -> nat
    decreases s.len(),
{
    if s.len() == 0 {
        0
    } else {
        digits_value(s.drop_last()) * 10 + (s.last() as nat - '0' as nat) as nat
    }
}

/// `s` without the `+` that may stand in front of a number.
pub open spec fn unsigned_part(s: Seq<char>) -> Seq<char> {
    if s.len() > 0 && s[0] == '+' {
        s.skip(1)
    } else {
        s
    }
}

/// The number that `s` writes: decimal digits, at least one, after an
/// optional `+`, with a value that fits a `usize`.
pub open spec fn parse_limit(s: Seq<char>) -> Option<usize> {
    let digits = unsigned_part(s);
    if digits.len() > 0 && all_digits(digits) && digits_value(digits) <= usize::MAX {
        Some(digits_value(digits) as usize)
    } else {
        None
    }
}

/// The word at index `i`, or the empty word where there is none.
pub open spec fn word_or_empty(words: Seq<Seq<char>>, i: int) -> Seq<char> {
    if 0 <= i < words.len() {
        words[i]
    } else {
        Seq::empty()
    }
}

/// What the arguments of `history` ask for: `-r`, `-w` and `-a` read,
/// write and append the file named by the next word; any other word is a
/// limit for the display, or no limit where it is not a number.
pub open spec fn history_op(args: Seq<Seq<char>>) -> HistoryActionView {
    if args.len() == 0 {
        HistoryActionView::Display { limit: None }
    } else if args[0] == "-r"@ {
        HistoryActionView::Read { path: word_or_empty(args, 1) }
    } else if args[0] == "-w"@ {
        HistoryActionView::Write { path: word_or_empty(args, 1) }
    } else if args[0] == "-a"@ {
        HistoryActionView::Append { path: word_or_empty(args, 1) }
    } else {
        HistoryActionView::Display { limit: parse_limit(args[0]) }
    }
}

/// The command that a non-empty sequence of words stands for. The first
/// word selects the command and the words after it are its arguments.
pub open spec fn command_of(words: Seq<Seq<char>>) -> CommandView
    recommends
        words.len() > 0,
{
    let name = words[0];
    let args = words.skip(1);
    if name == "echo"@ {
        CommandView::Echo { args }
    } else if name == "exit"@ {
        CommandView::Exit
    } else if name == "type"@ {
        if args.len() == 0 {
            CommandView::NoArgument
        } else if SupportedCommand::is_builtin(args[0]) {
            CommandView::TypeCheck { cmd: args[0] }
        } else {
            CommandView::LocateExecutable { cmd: args[0] }
        }
    } else if name == "pwd"@ {
        CommandView::Pwd
    } else if name == "history"@ {
        CommandView::History { action: history_op(args) }
    } else if name == "cd"@ {
        CommandView::ChangeDir { path: word_or_empty(args, 0) }
    } else {
        CommandView::Unspecified { cmd: name, args }
    }
}

/// Whether `word` is one of the redirection operators `>`, `>>`, `2>`,
/// `2>>`.
pub open spec fn is_redirect_operator(word: Seq<char>) -> bool {
    word == ">"@ || word == ">>"@ || word == "2>"@ || word == "2>>"@
}

/// The kind of redirection that the operator `word` asks for.
pub open spec fn redirect_kind(word: Seq<char>) -> RedirectionKind
    recommends
        is_redirect_operator(word),
{
    if word == ">"@ {
        RedirectionKind::OverwriteOnlySuccess
    } else if word == "2>"@ {
        RedirectionKind::OverwriteOnlyError
    } else if word == "2>>"@ {
        RedirectionKind::AppendOnlyError
    } else {
        RedirectionKind::AppendOnlySuccess
    }
}

/// The index of the first redirection operator at or after `i`, or the
/// number of words where there is none.
pub open spec fn next_operator(words: Seq<Seq<char>>, i: int) -> int
    decreases words.len() - i,
{
    if i < 0 || i >= words.len() {
        words.len() as int
    } else if is_redirect_operator(words[i]) {
        i
    } else {
        next_operator(words, i + 1)
    }
}

/// The command of a non-empty sequence of words in which a redirection
/// operator counts: the first operator that a word follows makes a
/// redirection of the words before it into the file that the word after it
/// names, and the words after that are dropped.
pub open spec fn redirected_command_of(words: Seq<Seq<char>>) -> CommandView
    recommends
        words.len() > 0,
{
    let p = next_operator(words, 0);
    if p + 1 < words.len() {
        CommandView::Redirection {
            kind: redirect_kind(words[p]),
            inner_cmd: Box::new(
                if p == 0 {
                    CommandView::NoArgument
                } else {
                    command_of(words.take(p))
                },
            ),
            output_file: words[p + 1],
        }
    } else {
        command_of(words)
    }
}

/// The words of one stage of a pipeline.
pub open spec fn stage_words(segment: Seq<char>) -> Seq<Seq<char>> {
    words_in(trim(segment))
}

/// The pipeline of the stages that the pieces of a line stand for, or
/// nothing to run where one of the pieces has no word.
pub open spec fn pipeline_of(segments: Seq<Seq<char>>) -> CommandView {
    if exists|i: int| 0 <= i < segments.len() && (#[trigger] stage_words(segments[i])).len() == 0 {
        CommandView::NoArgument
    } else {
        CommandView::Pipeline {
            commands: Seq::new(segments.len(), |i: int| command_of(stage_words(segments[i]))),
        }
    }
}

/// The command that a line of input stands for.
///
/// The line is trimmed and normalized. With no word in it there is nothing
/// to run. With an unescaped `|` in it, it is a pipeline of the pieces
/// between them. Otherwise it is one command, redirected or not.
pub open spec fn parse_line(input: Seq<char>) -> CommandView {
    let line = normalize(trim(input));
    let words = words_in(line);
    if words.len() == 0 {
        CommandView::NoArgument
    } else if split_pipes(line).len() > 1 {
        pipeline_of(split_pipes(line))
    } else {
        redirected_command_of(words)
    }
}

} // verus!
