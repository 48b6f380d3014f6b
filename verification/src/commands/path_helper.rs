//! The search path: its directories, and where an executable would be in
//! each of them. Whether a file is there is for the host to tell.

use crate::text::{extend_chars, slice_chars, to_chars, to_string};
use vstd::prelude::*;

verus! {

pub struct PathHelper;

/// The number of characters of `s` before its first colon: the length of
/// `s` where it has none.
pub open spec fn field_length(s: Seq<char>) -> nat
    decreases s.len(),
{
    if s.len() == 0 || s[0] == ':' {
        0
    } else {
        1 + field_length(s.skip(1))
    }
}

/// The directories of a search path: the pieces between its colons, one
/// more than there are colons, empty ones among them.
pub open spec fn search_path_dirs(s: Seq<char>) -> Seq<Seq<char>>
    decreases s.len(),
{
    let n = field_length(s);
    if n < s.len() {
        seq![s.take(n as int)] + search_path_dirs(s.skip(n as int + 1))
    } else {
        seq![s]
    }
}

/// The path of `name` inside `dir`: `name` itself where it starts at the
/// root or `dir` is empty; else `dir`, a slash unless `dir` ends with one,
/// and `name`.
pub open spec fn path_in(dir: Seq<char>, name: Seq<char>) -> Seq<char> {
    if (name.len() > 0 && name[0] == '/') || dir.len() == 0 {
        name
    } else if dir.last() == '/' {
        dir + name
    } else {
        dir + seq!['/'] + name
    }
}

/// Where `name` would be in each directory of the search path, in order.
pub open spec fn candidate_paths(name: Seq<char>, search_path: Seq<char>) -> Seq<Seq<char>> {
    search_path_dirs(search_path).map_values(|dir: Seq<char>| path_in(dir, name))
}

impl PathHelper {
    /// The directories of the search path `search_path`.
    pub fn search_dirs(search_path: &str) -> (dirs: Vec<String>)
        ensures
            dirs.deep_view() == search_path_dirs(search_path@),
    {
        let text = to_chars(search_path);
        let mut dirs: Vec<String> = Vec::new();
        let mut start: usize = 0;
        assert(text@.skip(0) =~= text@);
        assert(dirs.deep_view() + search_path_dirs(text@) =~= search_path_dirs(text@));
        loop
            invariant_except_break
                start <= text.len(),
                dirs.deep_view() + search_path_dirs(text@.skip(start as int)) == search_path_dirs(
                    text@,
                ),
            ensures
                dirs.deep_view() == search_path_dirs(text@),
            decreases text.len() - start,
        {
            let ghost rest = text@.skip(start as int);
            let ghost before = dirs.deep_view();
            let mut end: usize = start;
            while end < text.len() && text[end] != ':'
                invariant
                    start <= end <= text.len(),
                    field_length(text@.skip(start as int)) == (end - start) + field_length(
                        text@.skip(end as int),
                    ),
                decreases text.len() - end,
            {
                assert(text@.skip(end as int).skip(1) =~= text@.skip(end + 1));
                end += 1;
            }
            let dir = slice_chars(&text, start, end);
            dirs.push(to_string(&dir));
            proof {
                assert(dirs.deep_view() =~= before.push(dir@));
                if end < text.len() {
                    assert(text@.skip(end as int)[0] == ':');
                    assert(rest.take(end - start) =~= dir@);
                    assert(rest.skip(end - start + 1) =~= text@.skip(end + 1));
                    let tail = search_path_dirs(text@.skip(end + 1));
                    assert(before.push(dir@) + tail =~= before + (seq![dir@] + tail));
                } else {
                    assert(rest =~= dir@);
                    assert(before.push(dir@) =~= before + seq![rest]);
                }
            }
            if end >= text.len() {
                break;
            }
            start = end + 1;
        }
        dirs
    }

    /// The path of `name` inside `dir`.
    pub fn candidate(dir: &str, name: &str) -> (path: String)
        ensures
            path@ == path_in(dir@, name@),
    {
        let dir = to_chars(dir);
        let name = to_chars(name);
        if (name.len() > 0 && name[0] == '/') || dir.len() == 0 {
            return to_string(&name);
        }
        let mut path: Vec<char> = Vec::new();
        extend_chars(&mut path, &dir);
        if dir[dir.len() - 1] != '/' {
            path.push('/');
        }
        extend_chars(&mut path, &name);
        assert(path@ =~= path_in(dir@, name@));
        to_string(&path)
    }

    /// Where `name` would be in each directory of the search path, in
    /// order. The executable of `name` is the first of these that is a file
    /// and may be executed.
    pub fn candidates(name: &str, search_path: &str) -> (paths: Vec<String>)
        ensures
            paths.deep_view() == candidate_paths(name@, search_path@),
    {
        let dirs = Self::search_dirs(search_path);
        let mut paths: Vec<String> = Vec::new();
        let mut i: usize = 0;
        while i < dirs.len()
            invariant
                i <= dirs@.len(),
                paths@.len() == i,
                forall|j: int|
                    0 <= j < i ==> (#[trigger] paths@[j])@ == path_in(dirs@[j]@, name@),
            decreases dirs.len() - i,
        {
            paths.push(Self::candidate(dirs[i].as_str(), name));
            i += 1;
        }
        assert(paths.deep_view() =~= candidate_paths(name@, search_path@));
        paths
    }
}

} // verus!
