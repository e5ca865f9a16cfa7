//! The fake file tree that `cd` and `ls` see.

use vstd::prelude::*;
use crate::text::{chars_of, is_text};

verus! {

/// The name of the home directory, where every shell starts.
pub const HOME: &'static str = "~";

/// The entries that `ls` shows in each directory that `cd` accepts by name;
/// `None` for any other name.
pub open spec fn listing(dir: Seq<char>) -> Option<Seq<Seq<char>>> {
    if dir == "/Desktop"@ || dir == "/Downloads"@ || dir == "/Documents"@ || dir == "/var"@ {
        Some(Seq::empty())
    } else if dir == "/tmp"@ {
        Some(seq!["backup.sh"@])
    } else if dir == "/home"@ {
        Some(seq!["/user"@])
    } else if dir == "user"@ {
        Some(seq!["Desktop  Documents Downloads Music Pictures  Public Templates  Videos"@])
    } else {
        None
    }
}

/// Whether the shell may stand in `dir`: the home directory, or one that
/// `cd` accepts by name.
pub open spec fn valid_dir(dir: Seq<char>) -> bool {
    dir == HOME@ || listing(dir) is Some
}

fn single(s: &str) -> (r: Vec<Vec<char>>)
    ensures
        r.deep_view() == seq![s@],
{
    let w = chars_of(s);
    let mut r: Vec<Vec<char>> = Vec::new();
    assert(w.deep_view() =~= w@);
    r.push(w);
    assert(r.deep_view() =~= seq![s@]);
    r
}

/// The entries of `dir`, if `cd` accepts it by name.
pub fn entries(dir: &[char]) -> (r: Option<Vec<Vec<char>>>)
    ensures
        match r {
            Some(v) => listing(dir@) == Some(v.deep_view()),
            None => listing(dir@) is None,
        },
{
    if is_text(dir, "/Desktop") || is_text(dir, "/Downloads") || is_text(dir, "/Documents")
        || is_text(dir, "/var") {
        let v: Vec<Vec<char>> = Vec::new();
        assert(v.deep_view() =~= Seq::<Seq<char>>::empty());
        Some(v)
    } else if is_text(dir, "/tmp") {
        Some(single("backup.sh"))
    } else if is_text(dir, "/home") {
        Some(single("/user"))
    } else if is_text(dir, "user") {
        Some(single("Desktop  Documents Downloads Music Pictures  Public Templates  Videos"))
    } else {
        None
    }
}

/// Whether `cd` accepts `dir` by name.
pub fn is_known_dir(dir: &[char]) -> (b: bool)
    ensures
        b == (listing(dir@) is Some),
{
    entries(dir).is_some()
}

} // verus!
