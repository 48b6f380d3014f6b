//! The completer: what pressing the completion key does for the line typed
//! so far.

use crate::text::{char_at, extend_chars, slice_chars, to_chars, to_string};
use vstd::prelude::*;

verus! {

/// Whether `s` starts with `prefix`.
pub open spec fn starts_with(s: Seq<char>, prefix: Seq<char>) -> bool {
    prefix.len() <= s.len() && s.take(prefix.len() as int) == prefix
}

/// Whether `a` comes before `b` in the order of the dictionary, character
/// by character, a word before the words it starts.
pub open spec fn precedes(a: Seq<char>, b: Seq<char>) -> bool
    decreases a.len(),
{
    if b.len() == 0 {
        false
    } else if a.len() == 0 {
        true
    } else if a[0] == b[0] {
        precedes(a.skip(1), b.skip(1))
    } else {
        (a[0] as int) < (b[0] as int)
    }
}

/// Whether each word comes before the ones after it: the words are in
/// order, and no word is there twice.
pub open spec fn strictly_sorted(words: Seq<Seq<char>>) -> bool {
    forall|i: int, j: int| 0 <= i < j < words.len() ==> precedes(words[i], words[j])
}

/// The number of words at the start of `sorted` that come before `word`.
pub open spec fn place(sorted: Seq<Seq<char>>, word: Seq<char>) -> nat
    decreases sorted.len(),
{
    if sorted.len() > 0 && precedes(sorted[0], word) {
        1 + place(sorted.skip(1), word)
    } else {
        0
    }
}

/// `sorted` with `word` at its place, unless it is there already.
pub open spec fn added(sorted: Seq<Seq<char>>, word: Seq<char>) -> Seq<Seq<char>> {
    let k = place(sorted, word) as int;
    if k < sorted.len() && sorted[k] == word {
        sorted
    } else {
        sorted.insert(k, word)
    }
}

/// The commands that start with `line`, in order, each of them once.
pub open spec fn candidates_of(commands: Seq<Seq<char>>, line: Seq<char>) -> Seq<Seq<char>>
    decreases commands.len(),
{
    if commands.len() == 0 {
        Seq::empty()
    } else if starts_with(commands.last(), line) {
        added(candidates_of(commands.drop_last(), line), commands.last())
    } else {
        candidates_of(commands.drop_last(), line)
    }
}

/// The number of characters at which `a` and `b` start alike.
pub open spec fn common_length(a: Seq<char>, b: Seq<char>) -> nat
    decreases a.len(),
{
    if a.len() > 0 && b.len() > 0 && a[0] == b[0] {
        1 + common_length(a.skip(1), b.skip(1))
    } else {
        0
    }
}

/// The length of the longest start that the first `n` words share with
/// `first`.
pub open spec fn shared_length(first: Seq<char>, words: Seq<Seq<char>>, n: int) -> nat
    decreases n,
{
    if n <= 0 {
        first.len()
    } else {
        let before = shared_length(first, words, n - 1);
        let here = common_length(first, words[n - 1]);
        if here < before {
            here
        } else {
            before
        }
    }
}

/// The longest start that all the words share: nothing where there is no
/// word.
pub open spec fn common_prefix(words: Seq<Seq<char>>) -> Seq<char> {
    if words.len() == 0 {
        Seq::empty()
    } else {
        words[0].take(shared_length(words[0], words, words.len() as int) as int)
    }
}

/// The words with two spaces between each two of them.
pub open spec fn listed(words: Seq<Seq<char>>) -> Seq<char>
    decreases words.len(),
{
    if words.len() == 0 {
        Seq::empty()
    } else if words.len() == 1 {
        words[0]
    } else {
        listed(words.drop_last()) + seq![' ', ' '] + words.last()
    }
}

/// What the completion key does.
#[derive(Debug, PartialEq, Eq)]
pub enum Completion {
    /// Nothing: no command starts with the line.
    Nothing,
    /// The line is replaced by this text.
    Replace(String),
    /// The bell rings: several commands fit, and the key was pressed once.
    Bell,
    /// The commands that fit are listed, and the line is shown again.
    List(String),
}

/// The mathematical value of a [`Completion`].
pub enum CompletionView {
    Nothing,
    Replace(Seq<char>),
    Bell,
    List(Seq<char>),
}

impl View for Completion {
    type V = CompletionView;

    open spec fn view(&self) -> CompletionView {
        match self {
            Completion::Nothing => CompletionView::Nothing,
            Completion::Replace(text) => CompletionView::Replace(text@),
            Completion::Bell => CompletionView::Bell,
            Completion::List(text) => CompletionView::List(text@),
        }
    }
}

/// The completer of a session: the names it knows, the line on which the
/// key was last pressed in vain, and how often it has been since.
pub struct AutoCompleteHelper {
    commands: Vec<String>,
    last_input: String,
    tab_count: usize,
}

/// The mathematical value of an [`AutoCompleteHelper`].
pub struct AutoCompleteHelperView {
    pub commands: Seq<Seq<char>>,
    pub last_input: Seq<char>,
    pub tab_count: nat,
}

impl AutoCompleteHelperView {
    /// How often the key has been pressed in vain on `line`.
    pub open spec fn presses(self, line: Seq<char>) -> nat {
        if self.last_input == line {
            self.tab_count
        } else {
            0
        }
    }

    /// What the key does on `line`.
    ///
    /// With no command that fits, nothing. With one, the line becomes that
    /// command and a space. With several that share more than the line, the
    /// line becomes what they share. Else the first press rings the bell
    /// and the second lists the commands.
    pub open spec fn completion(self, line: Seq<char>) -> CompletionView {
        let found = candidates_of(self.commands, line);
        if found.len() == 0 {
            CompletionView::Nothing
        } else if found.len() == 1 {
            CompletionView::Replace(found[0].push(' '))
        } else if common_prefix(found).len() > line.len() {
            CompletionView::Replace(common_prefix(found))
        } else if self.presses(line) == 0 {
            CompletionView::Bell
        } else {
            CompletionView::List(listed(found))
        }
    }

    /// The completer after the key was pressed on `line`: a press in vain
    /// is counted, and the count starts again after the list was shown.
    pub open spec fn pressed(self, line: Seq<char>) -> AutoCompleteHelperView {
        match self.completion(line) {
            CompletionView::Bell => AutoCompleteHelperView {
                last_input: line,
                tab_count: 1,
                ..self
            },
            CompletionView::List(_) => AutoCompleteHelperView {
                last_input: line,
                tab_count: 0,
                ..self
            },
            _ => self,
        }
    }
}

impl View for AutoCompleteHelper {
    type V = AutoCompleteHelperView;

    closed spec fn view(&self) -> AutoCompleteHelperView {
        AutoCompleteHelperView {
            commands: self.commands.deep_view(),
            last_input: self.last_input@,
            tab_count: self.tab_count as nat,
        }
    }
}

/// The words that the rows of `v` hold.
pub open spec fn rows(v: Seq<Vec<char>>) -> Seq<Seq<char>> {
    Seq::new(v.len(), |i: int| v[i]@)
}

/// No word comes before itself.
pub proof fn precedes_is_irreflexive(a: Seq<char>)
    ensures
        !precedes(a, a),
    decreases a.len(),
{
    if a.len() > 0 {
        precedes_is_irreflexive(a.skip(1));
    }
}

/// Of two different words, one comes before the other.
pub proof fn precedes_is_total(a: Seq<char>, b: Seq<char>)
    ensures
        a == b || precedes(a, b) || precedes(b, a),
    decreases a.len(),
{
    if a.len() > 0 && b.len() > 0 && a[0] == b[0] {
        precedes_is_total(a.skip(1), b.skip(1));
        if a.skip(1) == b.skip(1) {
            assert(a =~= seq![a[0]] + a.skip(1));
            assert(b =~= seq![b[0]] + b.skip(1));
        }
    } else if a.len() == 0 && b.len() == 0 {
        assert(a =~= b);
    }
}

/// A word that comes before a second one does not come after it.
pub proof fn precedes_is_asymmetric(a: Seq<char>, b: Seq<char>)
    ensures
        !(precedes(a, b) && precedes(b, a)),
    decreases a.len(),
{
    if a.len() > 0 && b.len() > 0 && a[0] == b[0] {
        precedes_is_asymmetric(a.skip(1), b.skip(1));
    }
}

/// A word that comes before a second one comes before every word that the
/// second one comes before.
pub proof fn precedes_is_transitive(a: Seq<char>, b: Seq<char>, c: Seq<char>)
    requires
        precedes(a, b),
        precedes(b, c),
    ensures
        precedes(a, c),
    decreases a.len(),
{
    if a.len() > 0 && b.len() > 0 && c.len() > 0 && a[0] == b[0] && b[0] == c[0] {
        precedes_is_transitive(a.skip(1), b.skip(1), c.skip(1));
    }
}

/// How two words stand to each other in the order of the dictionary.
#[derive(Debug, Clone, Copy, PartialEq, Eq)]
pub enum Order {
    Before,
    Same,
    After,
}

/// How `a` stands to `b` in the order of the dictionary.
pub fn compare(a: &Vec<char>, b: &Vec<char>) -> (order: Order)
    ensures
        order is Before <==> precedes(a@, b@),
        order is Same <==> a@ == b@,
        order is After <==> precedes(b@, a@),
{
    let mut i: usize = 0;
    assert(a@.skip(0) =~= a@);
    assert(b@.skip(0) =~= b@);
    while i < a.len() && i < b.len()
        invariant
            i <= a.len(),
            i <= b.len(),
            a@.take(i as int) == b@.take(i as int),
            precedes(a@, b@) == precedes(a@.skip(i as int), b@.skip(i as int)),
            precedes(b@, a@) == precedes(b@.skip(i as int), a@.skip(i as int)),
        decreases a.len() - i,
    {
        let x = char_at(a, i);
        let y = char_at(b, i);
        assert(a@.skip(i as int)[0] == x);
        assert(b@.skip(i as int)[0] == y);
        if x != y {
            assert(a@ != b@);
            if (x as u32) < (y as u32) {
                return Order::Before;
            } else {
                return Order::After;
            }
        }
        assert(a@.skip(i as int).skip(1) =~= a@.skip(i + 1));
        assert(b@.skip(i as int).skip(1) =~= b@.skip(i + 1));
        assert(a@.take(i + 1) =~= a@.take(i as int).push(x));
        assert(b@.take(i + 1) =~= b@.take(i as int).push(y));
        i += 1;
    }
    if a.len() == b.len() {
        assert(a@ =~= a@.take(i as int));
        assert(b@ =~= b@.take(i as int));
        proof {
            precedes_is_irreflexive(a@);
        }
        Order::Same
    } else if a.len() < b.len() {
        Order::Before
    } else {
        Order::After
    }
}

/// Whether `s` starts with `prefix`.
pub fn has_prefix(s: &Vec<char>, prefix: &Vec<char>) -> (b: bool)
    ensures
        b == starts_with(s@, prefix@),
{
    if prefix.len() > s.len() {
        return false;
    }
    let mut i: usize = 0;
    while i < prefix.len()
        invariant
            i <= prefix.len() <= s.len(),
            forall|j: int| 0 <= j < i ==> s@[j] == prefix@[j],
        decreases prefix.len() - i,
    {
        if s[i] != prefix[i] {
            assert(s@.take(prefix.len() as int)[i as int] != prefix@[i as int]);
            return false;
        }
        i += 1;
    }
    assert(s@.take(prefix.len() as int) =~= prefix@);
    true
}

/// The words at the start of `sorted` that are counted by `place` come
/// before `word`, and the word after them, if there is one, does not.
pub proof fn place_divides(sorted: Seq<Seq<char>>, word: Seq<char>)
    ensures
        place(sorted, word) <= sorted.len(),
        forall|j: int| 0 <= j < place(sorted, word) ==> precedes(#[trigger] sorted[j], word),
        place(sorted, word) < sorted.len() ==> !precedes(sorted[place(sorted, word) as int], word),
    decreases sorted.len(),
{
    if sorted.len() > 0 && precedes(sorted[0], word) {
        let rest = sorted.skip(1);
        place_divides(rest, word);
        assert forall|j: int| 0 <= j < place(sorted, word) implies precedes(
            #[trigger] sorted[j],
            word,
        ) by {
            if j > 0 {
                assert(sorted[j] == rest[j - 1]);
            }
        }
        if place(sorted, word) < sorted.len() {
            assert(sorted[place(sorted, word) as int] == rest[place(rest, word) as int]);
        }
    }
}

/// Adding a word to sorted words leaves them sorted, with the word among
/// them and no other word more or less.
pub proof fn added_keeps_order(sorted: Seq<Seq<char>>, word: Seq<char>)
    requires
        strictly_sorted(sorted),
    ensures
        strictly_sorted(added(sorted, word)),
        forall|w: Seq<char>|
            #![trigger added(sorted, word).contains(w)]
            added(sorted, word).contains(w) <==> (sorted.contains(w) || w == word),
{
    let k = place(sorted, word) as int;
    let after = added(sorted, word);
    place_divides(sorted, word);
    if k < sorted.len() && sorted[k] == word {
        assert forall|w: Seq<char>| #![trigger after.contains(w)] after.contains(w) <==> (
        sorted.contains(w) || w == word) by {
            assert(sorted[k] == word);
        }
    } else {
        sorted.insert_ensures(k, word);
        assert forall|i: int, j: int| 0 <= i < j < after.len() implies precedes(
            after[i],
            after[j],
        ) by {
            if j == k {
                assert(after[i] == sorted[i]);
            } else if i == k {
                assert(after[j] == sorted[j - 1]);
                precedes_is_total(sorted[k], word);
                if j - 1 > k {
                    precedes_is_transitive(word, sorted[k], sorted[j - 1]);
                }
            } else if j < k {
                assert(after[i] == sorted[i] && after[j] == sorted[j]);
            } else if i < k {
                assert(after[i] == sorted[i] && after[j] == sorted[j - 1]);
            } else {
                assert(after[i] == sorted[i - 1] && after[j] == sorted[j - 1]);
            }
        }
        assert forall|w: Seq<char>| #![trigger after.contains(w)] after.contains(w) <==> (
        sorted.contains(w) || w == word) by {
            if after.contains(w) {
                let i = choose|i: int| 0 <= i < after.len() && after[i] == w;
                if i < k {
                    assert(sorted[i] == w);
                } else if i > k {
                    assert(sorted[i - 1] == w);
                }
            }
            if sorted.contains(w) {
                let i = choose|i: int| 0 <= i < sorted.len() && sorted[i] == w;
                if i < k {
                    assert(after[i] == w);
                } else {
                    assert(after[i + 1] == w);
                }
            }
            if w == word {
                assert(after[k] == w);
            }
        }
    }
}

/// The candidates are in order, none of them twice, and they are the
/// commands that start with the line, all of them.
pub proof fn candidates_are_the_commands_that_fit(commands: Seq<Seq<char>>, line: Seq<char>)
    ensures
        strictly_sorted(candidates_of(commands, line)),
        forall|w: Seq<char>|
            #![trigger candidates_of(commands, line).contains(w)]
            candidates_of(commands, line).contains(w) <==> (commands.contains(w) && starts_with(
                w,
                line,
            )),
    decreases commands.len(),
{
    let found = candidates_of(commands, line);
    if commands.len() > 0 {
        let before = commands.drop_last();
        let word = commands.last();
        let earlier = candidates_of(before, line);
        candidates_are_the_commands_that_fit(before, line);
        if starts_with(word, line) {
            added_keeps_order(earlier, word);
        }
        assert forall|w: Seq<char>| #![trigger found.contains(w)] found.contains(w) <==> (
        commands.contains(w) && starts_with(w, line)) by {
            assert(earlier.contains(w) <==> (before.contains(w) && starts_with(w, line)));
            if starts_with(word, line) {
                assert(found.contains(w) <==> (earlier.contains(w) || w == word));
            }
            if commands.contains(w) {
                let j = choose|j: int| 0 <= j < commands.len() && commands[j] == w;
                if j < before.len() {
                    assert(before[j] == w);
                }
            }
            if before.contains(w) {
                let j = choose|j: int| 0 <= j < before.len() && before[j] == w;
                assert(commands[j] == w);
            }
            if w == word {
                assert(commands[commands.len() - 1] == w);
            }
        }
    }
}

/// Puts `word` at its place among the sorted `out`, unless it is there.
fn add_sorted(out: &mut Vec<Vec<char>>, word: Vec<char>)
    ensures
        rows(final(out)@) == added(rows(old(out)@), word@),
{
    let ghost sorted = rows(out@);
    let mut k: usize = 0;
    assert(sorted.skip(0) =~= sorted);
    while k < out.len() && matches!(compare(&out[k], &word), Order::Before)
        invariant
            k <= out@.len(),
            sorted == rows(out@),
            out@ == old(out)@,
            place(sorted, word@) == k + place(sorted.skip(k as int), word@),
        decreases out.len() - k,
    {
        assert(sorted.skip(k as int)[0] == sorted[k as int]);
        assert(sorted.skip(k as int).skip(1) =~= sorted.skip(k + 1));
        k += 1;
    }
    proof {
        if k < sorted.len() {
            assert(sorted.skip(k as int)[0] == sorted[k as int]);
        }
        assert(place(sorted, word@) == k);
    }
    if k < out.len() && matches!(compare(&out[k], &word), Order::Same) {
        return ;
    }
    out.insert(k, word);
    proof {
        old(out)@.insert_ensures(k as int, word);
        sorted.insert_ensures(k as int, word@);
        assert(rows(out@) =~= sorted.insert(k as int, word@));
    }
}

/// The commands that start with `line`, in order, each of them once.
pub fn candidates(commands: &Vec<String>, line: &str) -> (found: Vec<String>)
    ensures
        found.deep_view() == candidates_of(commands.deep_view(), line@),
{
    let prefix = to_chars(line);
    let ghost all = commands.deep_view();
    let mut out: Vec<Vec<char>> = Vec::new();
    let mut i: usize = 0;
    assert(all.take(0) =~= Seq::<Seq<char>>::empty());
    assert(rows(out@) =~= Seq::<Seq<char>>::empty());
    while i < commands.len()
        invariant
            i <= commands@.len(),
            all == commands.deep_view(),
            prefix@ == line@,
            rows(out@) == candidates_of(all.take(i as int), line@),
        decreases commands.len() - i,
    {
        let word = to_chars(commands[i].as_str());
        proof {
            let next = all.take(i + 1);
            assert(next.drop_last() =~= all.take(i as int));
            assert(next.last() == word@);
        }
        if has_prefix(&word, &prefix) {
            add_sorted(&mut out, word);
        }
        i += 1;
    }
    assert(all.take(commands@.len() as int) =~= all);
    let mut found: Vec<String> = Vec::new();
    let mut k: usize = 0;
    while k < out.len()
        invariant
            k <= out@.len(),
            found@.len() == k,
            forall|j: int| 0 <= j < k ==> (#[trigger] found@[j])@ == out@[j]@,
        decreases out.len() - k,
    {
        found.push(to_string(&out[k]));
        k += 1;
    }
    assert(found.deep_view() =~= rows(out@));
    found
}

/// Two words are alike up to the length that they share.
pub proof fn common_length_is_shared(a: Seq<char>, b: Seq<char>)
    ensures
        common_length(a, b) <= a.len(),
        common_length(a, b) <= b.len(),
        a.take(common_length(a, b) as int) == b.take(common_length(a, b) as int),
    decreases a.len(),
{
    if a.len() > 0 && b.len() > 0 && a[0] == b[0] {
        common_length_is_shared(a.skip(1), b.skip(1));
        let n = common_length(a.skip(1), b.skip(1)) as int;
        assert(a.take(n + 1) =~= seq![a[0]] + a.skip(1).take(n));
        assert(b.take(n + 1) =~= seq![b[0]] + b.skip(1).take(n));
    } else {
        assert(a.take(0) =~= b.take(0));
    }
}

/// Two words are alike no further than the length that they share.
pub proof fn common_length_is_longest(a: Seq<char>, b: Seq<char>, k: int)
    requires
        0 <= k <= a.len(),
        k <= b.len(),
        a.take(k) == b.take(k),
    ensures
        k <= common_length(a, b),
    decreases a.len(),
{
    if k > 0 {
        assert(a.take(k)[0] == b.take(k)[0]);
        assert(a.take(k)[0] == a[0] && b.take(k)[0] == b[0]);
        assert(a.skip(1).take(k - 1) =~= a.take(k).skip(1));
        assert(b.skip(1).take(k - 1) =~= b.take(k).skip(1));
        common_length_is_longest(a.skip(1), b.skip(1), k - 1);
    }
}

/// What the first `n` words share with `first` is no longer than `first`
/// and no longer than what any one of them shares with it, and it is as
/// long as one of these.
pub proof fn shared_length_is_least(first: Seq<char>, words: Seq<Seq<char>>, n: int)
    requires
        0 <= n <= words.len(),
    ensures
        shared_length(first, words, n) <= first.len(),
        forall|j: int|
            0 <= j < n ==> shared_length(first, words, n) <= common_length(
                first,
                #[trigger] words[j],
            ),
        shared_length(first, words, n) == first.len() || exists|j: int|
            0 <= j < n && shared_length(first, words, n) == common_length(
                first,
                #[trigger] words[j],
            ),
    decreases n,
{
    if n > 0 {
        shared_length_is_least(first, words, n - 1);
        let before = shared_length(first, words, n - 1);
        let here = common_length(first, words[n - 1]);
        if here < before {
            assert(shared_length(first, words, n) == common_length(first, words[n - 1]));
        } else if before != first.len() {
            let j = choose|j: int|
                0 <= j < n - 1 && before == common_length(first, #[trigger] words[j]);
            assert(shared_length(first, words, n) == common_length(first, words[j]));
        }
    }
}

/// Every word starts with the common prefix of the words.
pub proof fn common_prefix_starts_every_word(words: Seq<Seq<char>>, i: int)
    requires
        0 <= i < words.len(),
    ensures
        starts_with(words[i], common_prefix(words)),
{
    let first = words[0];
    let n = shared_length(first, words, words.len() as int) as int;
    shared_length_is_least(first, words, words.len() as int);
    common_length_is_shared(first, words[i]);
    let k = common_length(first, words[i]) as int;
    assert(first.take(n) =~= first.take(k).take(n));
    assert(words[i].take(n) =~= words[i].take(k).take(n));
}

/// Whatever every word starts with is no longer than the common prefix of
/// the words, and the common prefix starts with it.
pub proof fn common_prefix_is_longest(words: Seq<Seq<char>>, p: Seq<char>)
    requires
        words.len() > 0,
        forall|i: int| 0 <= i < words.len() ==> starts_with(#[trigger] words[i], p),
    ensures
        p.len() <= common_prefix(words).len(),
        starts_with(common_prefix(words), p),
{
    let first = words[0];
    let total = words.len() as int;
    let n = shared_length(first, words, total) as int;
    shared_length_is_least(first, words, total);
    assert(starts_with(words[0], p));
    if n != first.len() {
        let j = choose|j: int|
            0 <= j < total && shared_length(first, words, total) == common_length(
                first,
                #[trigger] words[j],
            );
        assert(starts_with(words[j], p));
        common_length_is_longest(first, words[j], p.len() as int);
    }
    assert(first.take(n).take(p.len() as int) =~= first.take(p.len() as int));
}

/// The number of characters at which `a` and `b` start alike.
fn shared_with(a: &Vec<char>, b: &Vec<char>) -> (n: usize)
    ensures
        n == common_length(a@, b@),
{
    let mut n: usize = 0;
    assert(a@.skip(0) =~= a@);
    assert(b@.skip(0) =~= b@);
    while n < a.len() && n < b.len() && a[n] == b[n]
        invariant
            n <= a.len(),
            n <= b.len(),
            common_length(a@, b@) == n + common_length(a@.skip(n as int), b@.skip(n as int)),
        decreases a.len() - n,
    {
        assert(a@.skip(n as int)[0] == a@[n as int]);
        assert(b@.skip(n as int)[0] == b@[n as int]);
        assert(a@.skip(n as int).skip(1) =~= a@.skip(n + 1));
        assert(b@.skip(n as int).skip(1) =~= b@.skip(n + 1));
        n += 1;
    }
    proof {
        if n < a.len() && n < b.len() {
            assert(a@.skip(n as int)[0] == a@[n as int]);
            assert(b@.skip(n as int)[0] == b@[n as int]);
        }
    }
    n
}

/// The longest start that all of `strs` share: nothing where there is no
/// word.
pub fn longest_common_prefix(strs: &[String]) -> (prefix: String)
    ensures
        prefix@ == common_prefix(strs.deep_view()),
{
    if strs.len() == 0 {
        return String::new();
    }
    let ghost words = strs.deep_view();
    let first = to_chars(strs[0].as_str());
    let mut n: usize = first.len();
    let mut i: usize = 0;
    while i < strs.len()
        invariant
            i <= strs@.len(),
            words == strs.deep_view(),
            first@ == words[0],
            n <= first.len(),
            n == shared_length(first@, words, i as int),
        decreases strs.len() - i,
    {
        let word = to_chars(strs[i].as_str());
        let here = shared_with(&first, &word);
        if here < n {
            n = here;
        }
        i += 1;
    }
    to_string(&slice_chars(&first, 0, n))
}

/// The words with two spaces between each two of them.
fn list(words: &Vec<String>) -> (text: String)
    ensures
        text@ == listed(words.deep_view()),
{
    let mut out: Vec<char> = Vec::new();
    let mut i: usize = 0;
    let ghost all = words.deep_view();
    while i < words.len()
        invariant
            i <= words@.len(),
            all == words.deep_view(),
            out@ == listed(all.take(i as int)),
        decreases words.len() - i,
    {
        if i > 0 {
            out.push(' ');
            out.push(' ');
        }
        let word = to_chars(words[i].as_str());
        extend_chars(&mut out, &word);
        proof {
            let seen = all.take(i + 1);
            assert(seen.drop_last() =~= all.take(i as int));
            assert(seen.last() == all[i as int]);
            if i == 0 {
                assert(out@ =~= seen[0]);
            } else {
                assert(out@ =~= listed(seen.drop_last()) + seq![' ', ' '] + seen.last());
            }
        }
        i += 1;
    }
    assert(all.take(words@.len() as int) =~= all);
    to_string(&out)
}

impl AutoCompleteHelper {
    /// A completer that knows the names `commands`.
    pub fn new(commands: Vec<String>) -> (helper: AutoCompleteHelper)
        ensures
            helper@ == (AutoCompleteHelperView {
                commands: commands.deep_view(),
                last_input: Seq::empty(),
                tab_count: 0,
            }),
    {
        AutoCompleteHelper { commands, last_input: String::new(), tab_count: 0 }
    }

    /// What the completion key does on `line`.
    pub fn complete(&mut self, line: &str) -> (completion: Completion)
        ensures
            completion@ == old(self)@.completion(line@),
            final(self)@ == old(self)@.pressed(line@),
    {
        let found = candidates(&self.commands, line);
        if found.len() == 0 {
            return Completion::Nothing;
        }
        if found.len() == 1 {
            let mut text = to_chars(found[0].as_str());
            text.push(' ');
            return Completion::Replace(to_string(&text));
        }
        let prefix = longest_common_prefix(found.as_slice());
        if to_chars(prefix.as_str()).len() > to_chars(line).len() {
            return Completion::Replace(prefix);
        }
        let pressed_before = self.tab_count != 0 && self.last_input == line.to_string();
        self.last_input = line.to_string();
        if pressed_before {
            self.tab_count = 0;
            Completion::List(list(&found))
        } else {
            self.tab_count = 1;
            Completion::Bell
        }
    }
}

} // verus!
