//! The session's history: the lines that were run, and how many of them
//! the history file already holds.

use crate::text::{
    blank, extend_chars, extend_str, is_blank, slice_chars, to_chars, to_string, trim, trimmed,
};
use vstd::prelude::*;

verus! {

/// The history of a session.
#[derive(Debug, PartialEq, Eq)]
pub struct HistoryState {
    /// The lines that were run, oldest first.
    pub commands: Vec<String>,
    /// How many of them have been appended to the history file.
    pub last_appended_index: usize,
}

/// The mathematical value of a [`HistoryState`].
pub struct HistoryStateView {
    pub commands: Seq<Seq<char>>,
    pub last_appended_index: nat,
}

impl View for HistoryState {
    type V = HistoryStateView;

    open spec fn view(&self) -> HistoryStateView {
        HistoryStateView {
            commands: self.commands.deep_view(),
            last_appended_index: self.last_appended_index as nat,
        }
    }
}

/// The number of characters of `s` before its first line feed: the length
/// of `s` where it has none.
pub open spec fn line_length(s: Seq<char>) -> nat
    decreases s.len(),
{
    if s.len() == 0 || s[0] == '\n' {
        0
    } else {
        1 + line_length(s.skip(1))
    }
}

/// `line` without the carriage return that it may end with.
pub open spec fn without_return(line: Seq<char>) -> Seq<char> {
    if line.len() > 0 && line.last() == '\r' {
        line.drop_last()
    } else {
        line
    }
}

/// The first line of a non-empty text: what stands before the first line
/// feed, less a carriage return in front of that line feed; or the whole
/// text where it has no line feed.
pub open spec fn first_line(s: Seq<char>) -> Seq<char> {
    let n = line_length(s);
    if n < s.len() {
        without_return(s.take(n as int))
    } else {
        s
    }
}

/// The text after the first line.
pub open spec fn after_first_line(s: Seq<char>) -> Seq<char> {
    let n = line_length(s);
    if n < s.len() {
        s.skip(n as int + 1)
    } else {
        Seq::empty()
    }
}

/// The lines of a text that are not blank, in order.
pub open spec fn kept_lines(s: Seq<char>) -> Seq<Seq<char>>
    decreases s.len(),
{
    if s.len() == 0 {
        Seq::empty()
    } else if is_blank(first_line(s)) {
        kept_lines(after_first_line(s))
    } else {
        seq![first_line(s)] + kept_lines(after_first_line(s))
    }
}

/// The text of a history file that holds `entries`: each entry followed by
/// a line feed.
pub open spec fn joined(entries: Seq<Seq<char>>) -> Seq<char>
    decreases entries.len(),
{
    if entries.len() == 0 {
        Seq::empty()
    } else {
        entries[0] + seq!['\n'] + joined(entries.skip(1))
    }
}

/// The character that writes the digit `d`.
pub open spec fn digit_char(d: nat) -> char {
    if d == 0 {
        '0'
    } else if d == 1 {
        '1'
    } else if d == 2 {
        '2'
    } else if d == 3 {
        '3'
    } else if d == 4 {
        '4'
    } else if d == 5 {
        '5'
    } else if d == 6 {
        '6'
    } else if d == 7 {
        '7'
    } else if d == 8 {
        '8'
    } else {
        '9'
    }
}

/// `n` in decimal.
pub open spec fn decimal(n: nat) -> Seq<char>
    decreases n,
{
    if n < 10 {
        seq![digit_char(n)]
    } else {
        decimal(n / 10).push(digit_char(n % 10))
    }
}

/// `s` with spaces in front of it up to `width` characters.
pub open spec fn right_justified(s: Seq<char>, width: nat) -> Seq<char> {
    if s.len() >= width {
        s
    } else {
        Seq::new((width - s.len()) as nat, |i: int| ' ') + s
    }
}

/// The line that shows the entry with number `number`: the number, right
/// justified in five columns, two spaces, the entry and a line feed.
pub open spec fn entry_line(number: nat, entry: Seq<char>) -> Seq<char> {
    right_justified(decimal(number), 5) + seq![' ', ' '] + entry + seq!['\n']
}

/// The lines that show the entries from index `from` on, numbered from one.
pub open spec fn listing(entries: Seq<Seq<char>>, from: int) -> Seq<char>
    decreases entries.len() - from,
{
    if from < 0 || from >= entries.len() {
        Seq::empty()
    } else {
        entry_line((from + 1) as nat, entries[from]) + listing(entries, from + 1)
    }
}

impl HistoryStateView {
    /// The history of a new session.
    pub open spec fn empty() -> HistoryStateView {
        HistoryStateView { commands: Seq::empty(), last_appended_index: 0 }
    }

    /// Whether the file holds no more entries than there are.
    pub open spec fn well_formed(self) -> bool {
        self.last_appended_index <= self.commands.len()
    }

    /// The history after the line `input` was run: the trimmed line is its
    /// newest entry.
    pub open spec fn recorded(self, input: Seq<char>) -> HistoryStateView {
        HistoryStateView { commands: self.commands.push(trim(input)), ..self }
    }

    /// The history with the non-blank lines of `text` added.
    pub open spec fn with_lines(self, text: Seq<char>) -> HistoryStateView {
        HistoryStateView { commands: self.commands + kept_lines(text), ..self }
    }

    /// The history once the file holds every entry.
    pub open spec fn persisted(self) -> HistoryStateView {
        HistoryStateView { last_appended_index: self.commands.len(), ..self }
    }

    /// The entries that the file does not hold yet.
    pub open spec fn pending(self) -> Seq<Seq<char>> {
        if self.last_appended_index <= self.commands.len() {
            self.commands.skip(self.last_appended_index as int)
        } else {
            Seq::empty()
        }
    }

    /// The index of the first entry that a display with `limit` shows: the
    /// last `limit` entries where there are more than that, else all.
    pub open spec fn display_start(self, limit: Option<usize>) -> int {
        match limit {
            Some(n) => if n < self.commands.len() {
                self.commands.len() - n
            } else {
                0
            },
            None => 0,
        }
    }

    /// What a display with `limit` shows.
    pub open spec fn display(self, limit: Option<usize>) -> Seq<char> {
        listing(self.commands, self.display_start(limit))
    }
}

/// Adds the non-blank lines of `text` to `commands`.
fn push_kept_lines(commands: &mut Vec<String>, text: &Vec<char>)
    ensures
        final(commands).deep_view() == old(commands).deep_view() + kept_lines(text@),
{
    let mut start: usize = 0;
    assert(text@.skip(0) =~= text@);
    assert(commands.deep_view() + kept_lines(text@) =~= old(commands).deep_view() + kept_lines(
        text@,
    ));
    while start < text.len()
        invariant
            start <= text.len(),
            commands.deep_view() + kept_lines(text@.skip(start as int)) == old(
                commands,
            ).deep_view() + kept_lines(text@),
        decreases text.len() - start,
    {
        let ghost rest = text@.skip(start as int);
        let mut end: usize = start;
        while end < text.len() && text[end] != '\n'
            invariant
                start <= end <= text.len(),
                line_length(text@.skip(start as int)) == (end - start) + line_length(
                    text@.skip(end as int),
                ),
            decreases text.len() - end,
        {
            assert(text@.skip(end as int).skip(1) =~= text@.skip(end + 1));
            end += 1;
        }
        let has_line_feed = end < text.len();
        let next: usize = if has_line_feed {
            end + 1
        } else {
            end
        };
        let stop: usize = if has_line_feed && end > start && text[end - 1] == '\r' {
            end - 1
        } else {
            end
        };
        let line = slice_chars(text, start, stop);
        proof {
            assert(rest.take(end - start) =~= text@.subrange(start as int, end as int));
            if has_line_feed {
                assert(text@.skip(end as int)[0] == '\n');
                assert(rest.skip(end - start + 1) =~= text@.skip(next as int));
                if stop < end {
                    assert(rest.take(end - start).drop_last() =~= line@);
                }
            } else {
                assert(rest =~= line@);
                assert(text@.skip(next as int) =~= Seq::<char>::empty());
            }
            assert(line@ == first_line(rest));
            assert(text@.skip(next as int) == after_first_line(rest));
        }
        if !blank(&line) {
            let ghost before = commands.deep_view();
            commands.push(to_string(&line));
            proof {
                assert(commands.deep_view() =~= before.push(line@));
                let tail = kept_lines(text@.skip(next as int));
                assert(before.push(line@) + tail =~= before + (seq![line@] + tail));
            }
        }
        start = next;
    }
    assert(commands.deep_view() + Seq::<Seq<char>>::empty() =~= commands.deep_view());
}

/// The text of a history file that holds the entries of `commands` from
/// index `from` on.
fn join_from(commands: &Vec<String>, from: usize) -> (text: String)
    requires
        from <= commands@.len(),
    ensures
        text@ == joined(commands.deep_view().skip(from as int)),
{
    let mut out: Vec<char> = Vec::new();
    let mut i: usize = from;
    let ghost all = commands.deep_view();
    assert(out@ + joined(all.skip(from as int)) =~= joined(all.skip(from as int)));
    while i < commands.len()
        invariant
            from <= i <= commands@.len(),
            all == commands.deep_view(),
            out@ + joined(all.skip(i as int)) == joined(all.skip(from as int)),
        decreases commands.len() - i,
    {
        let ghost before = out@;
        extend_str(&mut out, commands[i].as_str());
        out.push('\n');
        proof {
            assert(all.skip(i as int).skip(1) =~= all.skip(i + 1));
            let tail = joined(all.skip(i + 1));
            assert((before + all[i as int]).push('\n') + tail =~= before + (all[i as int]
                + seq!['\n'] + tail));
        }
        i += 1;
    }
    assert(out@ + Seq::<char>::empty() =~= out@);
    to_string(&out)
}

/// The character that writes the digit `d`.
fn digit(d: usize) -> (c: char)
    requires
        d < 10,
    ensures
        c == digit_char(d as nat),
{
    if d == 0 {
        '0'
    } else if d == 1 {
        '1'
    } else if d == 2 {
        '2'
    } else if d == 3 {
        '3'
    } else if d == 4 {
        '4'
    } else if d == 5 {
        '5'
    } else if d == 6 {
        '6'
    } else if d == 7 {
        '7'
    } else if d == 8 {
        '8'
    } else {
        '9'
    }
}

/// Appends `n` in decimal to `out`.
fn push_decimal(out: &mut Vec<char>, n: usize)
    ensures
        final(out)@ == old(out)@ + decimal(n as nat),
    decreases n,
{
    if n >= 10 {
        push_decimal(out, n / 10);
    }
    out.push(digit(n % 10));
    assert(out@ =~= old(out)@ + decimal(n as nat));
}

/// Appends to `out` the line that shows `entry` with number `number`.
fn push_entry_line(out: &mut Vec<char>, number: usize, entry: &str)
    ensures
        final(out)@ == old(out)@ + entry_line(number as nat, entry@),
{
    let mut digits: Vec<char> = Vec::new();
    push_decimal(&mut digits, number);
    assert(digits@ =~= decimal(number as nat));
    let pad: usize = if digits.len() < 5 {
        5 - digits.len()
    } else {
        0
    };
    let mut k: usize = 0;
    assert(out@ =~= old(out)@ + Seq::new(0, |i: int| ' '));
    while k < pad
        invariant
            k <= pad,
            out@ == old(out)@ + Seq::new(k as nat, |i: int| ' '),
        decreases pad - k,
    {
        out.push(' ');
        k += 1;
        assert(out@ =~= old(out)@ + Seq::new(k as nat, |i: int| ' '));
    }
    assert(Seq::new(pad as nat, |i: int| ' ') + digits@ =~= right_justified(digits@, 5));
    extend_chars(out, &digits);
    out.push(' ');
    out.push(' ');
    extend_str(out, entry);
    out.push('\n');
    assert(out@ =~= old(out)@ + entry_line(number as nat, entry@));
}

impl HistoryState {
    /// The history of a new session.
    pub fn new() -> (state: HistoryState)
        ensures
            state@ == HistoryStateView::empty(),
            state@.well_formed(),
    {
        let state = HistoryState { commands: Vec::new(), last_appended_index: 0 };
        assert(state@.commands =~= Seq::<Seq<char>>::empty());
        state
    }

    /// Adds the line `input`, trimmed, as the newest entry.
    pub fn record(&mut self, input: &str)
        ensures
            final(self)@ == old(self)@.recorded(input@),
            old(self)@.well_formed() ==> final(self)@.well_formed(),
    {
        let entry = to_string(&trimmed(&to_chars(input)));
        self.commands.push(entry);
        assert(self@.commands =~= old(self)@.commands.push(trim(input@)));
    }

    /// Adds the non-blank lines of `text`, the content of a history file,
    /// to the entries.
    pub fn read_lines(&mut self, text: &str)
        ensures
            final(self)@ == old(self)@.with_lines(text@),
            old(self)@.well_formed() ==> final(self)@.well_formed(),
    {
        let chars = to_chars(text);
        push_kept_lines(&mut self.commands, &chars);
    }

    /// Notes that the history file holds every entry.
    pub fn mark_persisted(&mut self)
        ensures
            final(self)@ == old(self)@.persisted(),
            final(self)@.well_formed(),
    {
        self.last_appended_index = self.commands.len();
    }

    /// Takes over the history file's content at the start of a session:
    /// its non-blank lines are the entries, and none of them is pending.
    pub fn load(&mut self, text: &str)
        ensures
            final(self)@ == old(self)@.with_lines(text@).persisted(),
            final(self)@.well_formed(),
    {
        self.read_lines(text);
        self.mark_persisted();
    }

    /// What a display with `limit` shows: each entry with its number, from
    /// the entry that makes the list `limit` long where there are more than
    /// that.
    pub fn display(&self, limit: Option<usize>) -> (text: String)
        ensures
            text@ == self@.display(limit),
    {
        let total = self.commands.len();
        let start: usize = match limit {
            Some(n) => if n < total {
                total - n
            } else {
                0
            },
            None => 0,
        };
        let mut out: Vec<char> = Vec::new();
        let mut i: usize = start;
        let ghost all = self.commands.deep_view();
        assert(out@ + listing(all, start as int) =~= listing(all, start as int));
        while i < self.commands.len()
            invariant
                start <= i <= self.commands@.len(),
                all == self.commands.deep_view(),
                out@ + listing(all, i as int) == listing(all, start as int),
            decreases self.commands.len() - i,
        {
            let ghost before = out@;
            push_entry_line(&mut out, i + 1, self.commands[i].as_str());
            proof {
                let line = entry_line((i + 1) as nat, all[i as int]);
                let tail = listing(all, i + 1);
                assert((before + line) + tail =~= before + (line + tail));
            }
            i += 1;
        }
        assert(out@ + Seq::<char>::empty() =~= out@);
        to_string(&out)
    }

    /// The text of a history file that holds every entry.
    pub fn full_text(&self) -> (text: String)
        ensures
            text@ == joined(self@.commands),
    {
        assert(self@.commands.skip(0) =~= self@.commands);
        join_from(&self.commands, 0)
    }

    /// The text that adds to a history file the entries it does not hold
    /// yet.
    pub fn pending_text(&self) -> (text: String)
        ensures
            text@ == joined(self@.pending()),
    {
        if self.last_appended_index <= self.commands.len() {
            join_from(&self.commands, self.last_appended_index)
        } else {
            String::new()
        }
    }
}

/// A text that starts with a line without a line feed in it, followed by a
/// line feed, has that line as the length of its first line.
pub proof fn line_length_of_joined(line: Seq<char>, rest: Seq<char>)
    requires
        forall|i: int| 0 <= i < line.len() ==> line[i] != '\n',
    ensures
        line_length(line + seq!['\n'] + rest) == line.len(),
    decreases line.len(),
{
    let s = line + seq!['\n'] + rest;
    if line.len() == 0 {
        assert(s[0] == '\n');
    } else {
        assert(s[0] == line[0]);
        assert(s.skip(1) =~= line.skip(1) + seq!['\n'] + rest);
        line_length_of_joined(line.skip(1), rest);
    }
}

/// Whether `entry` comes back from a history file as it was written: it is
/// not blank, holds no line feed, and does not end with a carriage return.
pub open spec fn survives_a_file(entry: Seq<char>) -> bool {
    &&& !is_blank(entry)
    &&& forall|i: int| 0 <= i < entry.len() ==> entry[i] != '\n'
    &&& without_return(entry) == entry
}

/// Writing entries to a history file and reading the file back gives the
/// same entries, in the same order, provided each of them can stand on a
/// line of its own.
pub proof fn written_entries_read_back(entries: Seq<Seq<char>>)
    requires
        forall|i: int| 0 <= i < entries.len() ==> survives_a_file(#[trigger] entries[i]),
    ensures
        kept_lines(joined(entries)) == entries,
    decreases entries.len(),
{
    if entries.len() == 0 {
        assert(kept_lines(joined(entries)) =~= entries);
    } else {
        let head = entries[0];
        let rest = entries.skip(1);
        let text = joined(entries);
        assert(survives_a_file(head));
        assert forall|i: int| 0 <= i < rest.len() implies survives_a_file(#[trigger] rest[i]) by {
            assert(rest[i] == entries[i + 1]);
        }
        written_entries_read_back(rest);
        line_length_of_joined(head, joined(rest));
        assert(text.take(head.len() as int) =~= head);
        assert(text.skip(head.len() as int + 1) =~= joined(rest));
        assert(first_line(text) == head);
        assert(after_first_line(text) == joined(rest));
        assert(seq![head] + rest =~= entries);
    }
}

} // verus!
