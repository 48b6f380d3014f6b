//! What holds of every line and of every sequence of words.

use crate::commands::supported_command::CommandView;
use crate::parsing::grammar::{
    classify, command_of, escapes_next, next_operator, normalize, parse_line, replace_all, scan,
    split_pipes, step, token_of, words_in, words_of, ClassifiedChar, QuoteMode, WordState,
};
use crate::text::{blank_iff_trims_to_nothing, is_blank, trim};
use vstd::prelude::*;

verus! {

/// A line of white space only stands for nothing to run.
pub proof fn blank_line_is_no_argument(input: Seq<char>)
    requires
        is_blank(input),
    ensures
        parse_line(input) == CommandView::NoArgument,
{
    blank_iff_trims_to_nothing(input);
    reveal_strlit("1>>");
    reveal_strlit("1>");
    let line = trim(input);
    assert(replace_all(line, "1>>"@, ">>"@) == line);
    assert(normalize(line) == line);
    assert(classify(line).len() == 0);
}

/// Whether `name` is one of the six words that select a built-in.
pub open spec fn is_reserved(name: Seq<char>) -> bool {
    ||| name == "echo"@
    ||| name == "exit"@
    ||| name == "type"@
    ||| name == "pwd"@
    ||| name == "history"@
    ||| name == "cd"@
}

/// The first word selects the kind of command, whatever the other words
/// are. With `type` as the first word the kind also depends on whether a
/// word follows and on whether that word is a built-in; the command is then
/// one of three kinds. The command is external exactly when the first word
/// is none of the six reserved ones.
pub proof fn first_word_selects_the_command(words: Seq<Seq<char>>)
    requires
        words.len() > 0,
    ensures
        words[0] == "echo"@ <==> command_of(words) is Echo,
        words[0] == "exit"@ <==> command_of(words) is Exit,
        words[0] == "pwd"@ <==> command_of(words) is Pwd,
        words[0] == "history"@ <==> command_of(words) is History,
        words[0] == "cd"@ <==> command_of(words) is ChangeDir,
        words[0] == "type"@ <==> (command_of(words) is TypeCheck || command_of(
            words,
        ) is LocateExecutable || command_of(words) is NoArgument),
        !is_reserved(words[0]) <==> command_of(words) is Unspecified,
{
    reveal_strlit("echo");
    reveal_strlit("exit");
    reveal_strlit("type");
    reveal_strlit("pwd");
    reveal_strlit("history");
    reveal_strlit("cd");
    assert("echo"@[1] != "exit"@[1]);
    assert("echo"@[0] != "type"@[0]);
    assert("exit"@[0] != "type"@[0]);
    assert("echo"@.len() == 4 && "exit"@.len() == 4 && "type"@.len() == 4);
    assert("pwd"@.len() == 3 && "history"@.len() == 7 && "cd"@.len() == 2);
}

/// Two sequences of words with the same first word, other than `type`,
/// stand for commands of the same kind.
pub proof fn same_first_word_same_kind(a: Seq<Seq<char>>, b: Seq<Seq<char>>)
    requires
        a.len() > 0,
        b.len() > 0,
        a[0] == b[0],
        a[0] != "type"@,
    ensures
        command_of(a) is Echo <==> command_of(b) is Echo,
        command_of(a) is Exit <==> command_of(b) is Exit,
        command_of(a) is Pwd <==> command_of(b) is Pwd,
        command_of(a) is History <==> command_of(b) is History,
        command_of(a) is ChangeDir <==> command_of(b) is ChangeDir,
        command_of(a) is Unspecified <==> command_of(b) is Unspecified,
        !(command_of(a) is TypeCheck) && !(command_of(a) is LocateExecutable) && !(command_of(
            a,
        ) is NoArgument),
{
    first_word_selects_the_command(a);
    first_word_selects_the_command(b);
}

/// Whether the line `input` has a word, no unescaped `|`, and no
/// redirection operator that a word follows.
pub open spec fn is_plain(input: Seq<char>) -> bool {
    let line = normalize(trim(input));
    let words = words_in(line);
    &&& words.len() > 0
    &&& split_pipes(line).len() <= 1
    &&& next_operator(words, 0) + 1 >= words.len()
}

/// A plain line stands for the command of its words, so its first word
/// selects the kind of command: never an external one for a reserved word.
pub proof fn plain_line_is_the_command_of_its_words(input: Seq<char>)
    requires
        is_plain(input),
    ensures
        parse_line(input) == command_of(words_in(normalize(trim(input)))),
        is_reserved(words_in(normalize(trim(input)))[0]) ==> !(parse_line(input) is Unspecified),
        parse_line(input).is_simple(),
{
    first_word_selects_the_command(words_in(normalize(trim(input))));
}

/// Whether none of the words completed so far is empty.
pub open spec fn no_empty_word(words: Seq<Seq<char>>) -> bool {
    forall|i: int| 0 <= i < words.len() ==> (#[trigger] words[i]).len() > 0
}

/// Scanning never completes an empty word.
pub proof fn scan_keeps_words_non_empty(tokens: Seq<ClassifiedChar>, i: int, st: WordState)
    requires
        0 <= i,
        no_empty_word(st.words),
    ensures
        no_empty_word(scan(tokens, i, st).words),
    decreases tokens.len() - i,
{
    if i < tokens.len() {
        let next = step(tokens, i, st);
        assert(no_empty_word(next.words)) by {
            assert forall|k: int| 0 <= k < next.words.len() implies (#[trigger] next.words[k]).len()
                > 0 by {
                if k < st.words.len() {
                    assert(next.words[k] == st.words[k]);
                }
            }
        }
        if escapes_next(tokens, i, st.mode) {
            scan_keeps_words_non_empty(tokens, i + 2, next);
        } else {
            scan_keeps_words_non_empty(tokens, i + 1, next);
        }
    }
}

/// No word of a line is empty: blanks that follow each other, and quotes
/// with nothing between them, make no word.
pub proof fn words_are_non_empty(tokens: Seq<ClassifiedChar>)
    ensures
        no_empty_word(words_of(tokens)),
{
    scan_keeps_words_non_empty(tokens, 0, WordState::start());
    let end = scan(tokens, 0, WordState::start());
    let words = end.flushed().words;
    assert forall|k: int| 0 <= k < words.len() implies (#[trigger] words[k]).len() > 0 by {
        if k < end.words.len() {
            assert(words[k] == end.words[k]);
        }
    }
}

/// Inside single quotes every character but the single quote is taken as it
/// is: scanning `count` such characters adds them to the word being built
/// and changes nothing else.
pub proof fn single_quotes_keep_characters(
    tokens: Seq<ClassifiedChar>,
    i: int,
    count: int,
    st: WordState,
)
    requires
        0 <= i,
        0 <= count,
        i + count <= tokens.len(),
        st.mode is InSingleQuote,
        forall|k: int|
            i <= k < i + count ==> (#[trigger] tokens[k]) == token_of(tokens[k].ch)
                && tokens[k].ch != '\'',
    ensures
        scan(tokens, i, st) == scan(
            tokens,
            i + count,
            WordState {
                current: st.current + Seq::new(count as nat, |k: int| tokens[i + k].ch),
                ..st
            },
        ),
    decreases count,
{
    let added = Seq::new(count as nat, |k: int| tokens[i + k].ch);
    if count == 0 {
        assert(st.current + added =~= st.current);
    } else {
        let next = step(tokens, i, st);
        assert(tokens[i] == token_of(tokens[i].ch));
        assert(next == st.with(tokens[i].ch));
        single_quotes_keep_characters(tokens, i + 1, count - 1, next);
        let rest = Seq::new((count - 1) as nat, |k: int| tokens[i + 1 + k].ch);
        assert(next.current + rest =~= st.current + added);
    }
}

/// A text in single quotes is one word, the text itself, whatever it holds
/// but a single quote: blanks, double quotes and backslashes are literal
/// there.
pub proof fn single_quoted_text_is_one_word(text: Seq<char>)
    requires
        text.len() > 0,
        forall|i: int| 0 <= i < text.len() ==> text[i] != '\'',
    ensures
        words_in(seq!['\''] + text + seq!['\'']) == seq![text],
{
    let line = seq!['\''] + text + seq!['\''];
    let tokens = classify(line);
    let n = text.len() as int;
    let opened = WordState::start().in_mode(QuoteMode::InSingleQuote);
    assert(tokens[0] == token_of('\''));
    assert(scan(tokens, 0, WordState::start()) == scan(tokens, 1, opened));
    assert forall|k: int| 1 <= k < 1 + n implies (#[trigger] tokens[k]) == token_of(tokens[k].ch)
        && tokens[k].ch != '\'' by {
        assert(line[k] == text[k - 1]);
    }
    single_quotes_keep_characters(tokens, 1, n, opened);
    let inside = Seq::new(n as nat, |k: int| tokens[1 + k].ch);
    assert(inside =~= text) by {
        assert forall|k: int| 0 <= k < n implies inside[k] == text[k] by {
            assert(line[1 + k] == text[k]);
        }
    }
    let filled = WordState { current: opened.current + inside, ..opened };
    assert(filled.current =~= text);
    assert(tokens[n + 1] == token_of('\''));
    let closed = step(tokens, n + 1, filled);
    assert(scan(tokens, n + 1, filled) == scan(tokens, n + 2, closed));
    assert(closed.flushed().words =~= seq![text]);
}

/// Whether `c` is a space or a tab.
pub open spec fn is_separator(c: char) -> bool {
    c == ' ' || c == '\t'
}

/// Whether `s` holds no quote and no backslash.
pub open spec fn is_unquoted_text(s: Seq<char>) -> bool {
    forall|i: int| 0 <= i < s.len() ==> s[i] != '\'' && s[i] != '"' && s[i] != '\\'
}

/// The number of characters of `s` before its first space or tab.
pub open spec fn run_length(s: Seq<char>) -> nat
    decreases s.len(),
{
    if s.len() == 0 || is_separator(s[0]) {
        0
    } else {
        1 + run_length(s.skip(1))
    }
}

/// The pieces of `s` between its spaces and tabs, the empty ones left out.
pub open spec fn runs(s: Seq<char>) -> Seq<Seq<char>>
    decreases s.len(),
{
    if s.len() == 0 {
        Seq::empty()
    } else if is_separator(s[0]) {
        runs(s.skip(1))
    } else {
        proof {
            run_length_bound(s);
        }
        seq![s.take(run_length(s) as int)] + runs(s.skip(run_length(s) as int))
    }
}

/// The pieces of `rest` between its spaces and tabs, where `begun` is the
/// start of the first piece.
pub open spec fn runs_after(begun: Seq<char>, rest: Seq<char>) -> Seq<Seq<char>> {
    if begun.len() == 0 {
        runs(rest)
    } else {
        seq![begun + rest.take(run_length(rest) as int)] + runs(
            rest.skip(run_length(rest) as int),
        )
    }
}

/// A run ends at or before the end of the text.
pub proof fn run_length_bound(s: Seq<char>)
    ensures
        run_length(s) <= s.len(),
    decreases s.len(),
{
    if s.len() > 0 && !is_separator(s[0]) {
        run_length_bound(s.skip(1));
    }
}

/// Scanning text without quotes and backslashes completes the pieces
/// between its spaces and tabs, one after the other.
proof fn scan_of_unquoted_text(s: Seq<char>, i: int, st: WordState)
    requires
        is_unquoted_text(s),
        0 <= i <= s.len(),
        st.mode is Unquoted,
    ensures
        scan(classify(s), i, st).flushed().words == st.words + runs_after(st.current, s.skip(i)),
    decreases s.len() - i,
{
    let tokens = classify(s);
    let rest = s.skip(i);
    if i == s.len() {
        assert(rest.len() == 0);
        if st.current.len() > 0 {
            assert(rest.take(0) =~= Seq::<char>::empty());
            assert(st.current + rest.take(0) =~= st.current);
            assert(runs_after(st.current, rest) =~= seq![st.current]);
            assert(st.words.push(st.current) =~= st.words + seq![st.current]);
        } else {
            assert(st.words + runs_after(st.current, rest) =~= st.words);
        }
    } else {
        let c = s[i];
        assert(tokens[i] == token_of(c));
        assert(rest[0] == c);
        assert(rest.skip(1) =~= s.skip(i + 1));
        let next = step(tokens, i, st);
        assert(!escapes_next(tokens, i, st.mode));
        scan_of_unquoted_text(s, i + 1, next);
        let after = s.skip(i + 1);
        run_length_bound(after);
        if is_separator(c) {
            assert(next == st.flushed());
            assert(runs(rest) == runs(after));
            if st.current.len() > 0 {
                assert(rest.take(0) =~= Seq::<char>::empty());
                assert(st.current + rest.take(0) =~= st.current);
                assert(rest.skip(0) =~= rest);
                assert(st.words.push(st.current) + runs(after) =~= st.words + (seq![st.current]
                    + runs(rest)));
            }
        } else {
            assert(next == st.with(c));
            let k = run_length(after) as int;
            assert(run_length(rest) == k + 1);
            assert(rest.take(k + 1) =~= seq![c] + after.take(k));
            assert(rest.skip(k + 1) =~= after.skip(k));
            assert(st.current.push(c) + after.take(k) =~= st.current + rest.take(k + 1));
        }
    }
}

/// The words of a text without quotes and backslashes are the pieces
/// between its spaces and tabs.
pub proof fn unquoted_words_are_the_runs(s: Seq<char>)
    requires
        is_unquoted_text(s),
    ensures
        words_in(s) == runs(s),
{
    scan_of_unquoted_text(s, 0, WordState::start());
    assert(s.skip(0) =~= s);
    assert(Seq::<Seq<char>>::empty() + runs(s) =~= runs(s));
}

} // verus!
