//! Core of a small interactive line editor: a line buffer with cursor-relative
//! editing (auto-pairing, soft tabs, auto-indentation on newline) and a command
//! interpreter that resolves a typed directive to an integer verb code.
use vstd::prelude::*;

pub mod command;
pub mod console;
pub mod editor;

verus! {

/// `s` with the elements of `t` spliced in at position `i`.
pub open spec fn insert_at(s: Seq<char>, i: int, t: Seq<char>) -> Seq<char> {
    s.take(i) + t + s.skip(i)
}

/// The character sequences held by a sequence of character vectors.
pub open spec fn lines_view(v: Seq<Vec<char>>) -> Seq<Seq<char>> {
    Seq::new(v.len(), |i: int| v[i]@)
}

} // verus!
