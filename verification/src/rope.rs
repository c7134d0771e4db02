//! The rope that holds a buffer's text, from the `ropey` crate.
//!
//! The contracts below are taken on trust from ropey's documentation: a rope
//! holds a sequence of chars, edits splice that sequence, and line indices
//! follow the line breaks described in `text`.

use vstd::prelude::*;
use ropey::Rope;
use crate::text::{line_count, line_of, line_start};

verus! {

#[verifier::external_type_specification]
#[verifier::external_body]
pub struct ExRope(Rope);

/// The chars that a rope holds.
pub uninterp spec fn rope_chars(r: Rope) -> Seq<char>;

/// `Rope::new`: a rope that holds no chars.
#[verifier::external_body]
pub fn rope_new() -> (r: Rope)
    ensures
        rope_chars(r) == Seq::<char>::empty(),
{
    Rope::new()
}

/// `Rope::from_str`: a rope that holds the chars of `s`.
#[verifier::external_body]
pub fn rope_from_str(s: &str) -> (r: Rope)
    ensures
        rope_chars(r) == s@,
{
    Rope::from_str(s)
}

/// `Rope::len_chars`: the number of chars.
#[verifier::external_body]
pub fn rope_len_chars(r: &Rope) -> (n: usize)
    ensures
        n == rope_chars(*r).len(),
{
    r.len_chars()
}

/// `Rope::len_lines`: the number of lines, one more than the number of
/// line breaks.
#[verifier::external_body]
pub fn rope_len_lines(r: &Rope) -> (n: usize)
    ensures
        n == line_count(rope_chars(*r)),
{
    r.len_lines()
}

/// `Rope::line_to_char`: the char index at which line `l` starts, or the
/// length of the text for `l` one past the last line. Panics beyond that,
/// which `requires` rules out.
#[verifier::external_body]
pub fn rope_line_to_char(r: &Rope, l: usize) -> (n: usize)
    requires
        l <= line_count(rope_chars(*r)),
    ensures
        n == line_start(rope_chars(*r), l as nat),
{
    r.line_to_char(l)
}

/// `Rope::char_to_line`: the line on which the char at `i` (or the end of
/// the text) lies. Panics for `i` past the end, which `requires` rules out.
#[verifier::external_body]
pub fn rope_char_to_line(r: &Rope, i: usize) -> (n: usize)
    requires
        i <= rope_chars(*r).len(),
    ensures
        n == line_of(rope_chars(*r), i as int),
{
    r.char_to_line(i)
}

/// `Rope::char`: the char at index `i`. Panics for `i` not below the length,
/// which `requires` rules out.
#[verifier::external_body]
pub fn rope_char(r: &Rope, i: usize) -> (c: char)
    requires
        i < rope_chars(*r).len(),
    ensures
        c == rope_chars(*r)[i as int],
{
    r.char(i)
}

/// `Rope::insert`: splices the chars of `s` in at index `i`; the rope's
/// length stays a `usize`. Panics for `i` past the end, which `requires`
/// rules out.
#[verifier::external_body]
pub fn rope_insert(r: &mut Rope, i: usize, s: &str)
    requires
        i <= rope_chars(*old(r)).len(),
    ensures
        rope_chars(*final(r)) == rope_chars(*old(r)).take(i as int) + s@ + rope_chars(
            *old(r),
        ).skip(i as int),
        rope_chars(*final(r)).len() <= usize::MAX,
{
    r.insert(i, s)
}

/// `Rope::insert_char`: splices `ch` in at index `i`; the rope's length stays
/// a `usize`. Panics for `i` past the end, which `requires` rules out.
#[verifier::external_body]
pub fn rope_insert_char(r: &mut Rope, i: usize, ch: char)
    requires
        i <= rope_chars(*old(r)).len(),
    ensures
        rope_chars(*final(r)) == rope_chars(*old(r)).take(i as int) + seq![ch] + rope_chars(
            *old(r),
        ).skip(i as int),
        rope_chars(*final(r)).len() <= usize::MAX,
{
    r.insert_char(i, ch)
}

/// `Rope::remove`: removes the chars from `start` up to, not including,
/// `end`. Panics unless `start <= end <= len`, which `requires` rules out.
#[verifier::external_body]
pub fn rope_remove(r: &mut Rope, start: usize, end: usize)
    requires
        start <= end <= rope_chars(*old(r)).len(),
    ensures
        rope_chars(*final(r)) == rope_chars(*old(r)).take(start as int) + rope_chars(
            *old(r),
        ).skip(end as int),
{
    r.remove(start..end)
}

/// `Rope::line`, as a string: the chars of line `l`, its line break
/// included. Panics for `l` not below the number of lines, which `requires`
/// rules out.
#[verifier::external_body]
pub fn rope_line_string(r: &Rope, l: usize) -> (s: String)
    requires
        l < line_count(rope_chars(*r)),
    ensures
        s@ == rope_chars(*r).subrange(
            line_start(rope_chars(*r), l as nat),
            line_start(rope_chars(*r), l as nat + 1),
        ),
{
    r.line(l).to_string()
}

/// `Rope`'s `to_string`: a string of all its chars.
#[verifier::external_body]
pub fn rope_to_string(r: &Rope) -> (s: String)
    ensures
        s@ == rope_chars(*r),
{
    r.to_string()
}

} // verus!
