//! The line structure of a text, as the rope reports it.
//!
//! A line ends after a line break and includes it. The breaks are LF, VT, FF,
//! CR, NEL, LINE SEPARATOR and PARAGRAPH SEPARATOR, where a CR directly
//! followed by an LF forms a single break that ends at the LF. A text with `n`
//! breaks has `n + 1` lines; the last one may be empty.

use vstd::prelude::*;
use crate::position::Position;

verus! {

pub open spec fn is_break_char(c: char) -> bool {
    c == '\n' || c == '\r' || c == '\u{0B}' || c == '\u{0C}' || c == '\u{85}' || c == '\u{2028}'
        || c == '\u{2029}'
}

/// The char at index `i` is the last char of a line break.
pub open spec fn ends_line(t: Seq<char>, i: int) -> bool {
    &&& 0 <= i < t.len()
    &&& is_break_char(t[i])
    &&& !(t[i] == '\r' && i + 1 < t.len() && t[i + 1] == '\n')
}

/// The number of line breaks that end before index `k`.
pub open spec fn breaks_before(t: Seq<char>, k: int) -> nat
    decreases k,
{
    if k <= 0 {
        0
    } else {
        breaks_before(t, k - 1) + if ends_line(t, k - 1) {
            1nat
        } else {
            0nat
        }
    }
}

/// The number of lines of the text.
pub open spec fn line_count(t: Seq<char>) -> nat {
    breaks_before(t, t.len() as int) + 1
}

/// Line `l` starts at index `s`: exactly `l` breaks end before `s`, and `s`
/// is the start of the text or follows a break.
pub open spec fn is_line_start(t: Seq<char>, l: nat, s: int) -> bool {
    &&& 0 <= s <= t.len()
    &&& breaks_before(t, s) == l
    &&& (s == 0 || ends_line(t, s - 1))
}

/// The index at which line `l` starts; one past the end of the text for the
/// line after the last.
pub open spec fn line_start(t: Seq<char>, l: nat) -> int {
    if l < line_count(t) {
        choose|s: int| is_line_start(t, l, s)
    } else {
        t.len() as int
    }
}

/// The number of chars of line `l`, its break included.
pub open spec fn line_len(t: Seq<char>, l: nat) -> int {
    line_start(t, l + 1) - line_start(t, l)
}

/// The position names a char index of the text: its line exists and its
/// column is at most the length of that line.
pub open spec fn valid_pos(t: Seq<char>, p: Position) -> bool {
    p.line < line_count(t) && p.column <= line_len(t, p.line as nat)
}

/// The char index that a valid position names.
pub open spec fn char_index(t: Seq<char>, p: Position) -> int {
    line_start(t, p.line as nat) + p.column
}

/// The line that the char at index `i` (or the end of the text) lies on.
pub open spec fn line_of(t: Seq<char>, i: int) -> nat {
    breaks_before(t, i)
}

pub proof fn lemma_breaks_before_mono(t: Seq<char>, a: int, b: int)
    requires
        a <= b,
    ensures
        breaks_before(t, a) <= breaks_before(t, b),
    decreases b - a,
{
    if a < b {
        lemma_breaks_before_mono(t, a, b - 1);
    }
}

pub proof fn lemma_breaks_before_bound(t: Seq<char>, k: int)
    requires
        0 <= k,
    ensures
        breaks_before(t, k) <= k,
    decreases k,
{
    if k > 0 {
        lemma_breaks_before_bound(t, k - 1);
    }
}

/// Among the indices up to `k`, the first with `l` breaks before it starts
/// line `l`.
proof fn lemma_line_start_exists_upto(t: Seq<char>, l: nat, k: int)
    requires
        0 <= k <= t.len(),
        l <= breaks_before(t, k),
    ensures
        exists|s: int| s <= k && is_line_start(t, l, s),
    decreases k,
{
    if l == 0 {
        assert(is_line_start(t, 0, 0));
    } else if l <= breaks_before(t, k - 1) {
        lemma_line_start_exists_upto(t, l, k - 1);
    } else {
        assert(is_line_start(t, l, k));
    }
}

pub proof fn lemma_line_start_unique(t: Seq<char>, l: nat, s1: int, s2: int)
    requires
        is_line_start(t, l, s1),
        is_line_start(t, l, s2),
    ensures
        s1 == s2,
{
    if s1 < s2 {
        lemma_breaks_before_mono(t, s1, s2 - 1);
    } else if s2 < s1 {
        lemma_breaks_before_mono(t, s2, s1 - 1);
    }
}

/// Every line of the text has its start, and `line_start` gives it.
pub proof fn lemma_line_start(t: Seq<char>, l: nat)
    requires
        l < line_count(t),
    ensures
        is_line_start(t, l, line_start(t, l)),
{
    lemma_line_start_exists_upto(t, l, t.len() as int);
}

/// `s` starts line `l`, so `line_start` gives `s`.
pub proof fn lemma_line_start_is(t: Seq<char>, l: nat, s: int)
    requires
        is_line_start(t, l, s),
    ensures
        l < line_count(t),
        line_start(t, l) == s,
{
    lemma_breaks_before_mono(t, s, t.len() as int);
    lemma_line_start(t, l);
    lemma_line_start_unique(t, l, s, line_start(t, l));
}

/// Line starts are ordered and lie within the text.
pub proof fn lemma_line_start_ordered(t: Seq<char>, l: nat)
    requires
        l < line_count(t),
    ensures
        0 <= line_start(t, l) <= line_start(t, l + 1) <= t.len(),
{
    lemma_line_start(t, l);
    if l + 1 < line_count(t) {
        lemma_line_start(t, l + 1);
        let s = line_start(t, l);
        let s1 = line_start(t, l + 1);
        if s1 < s {
            lemma_breaks_before_mono(t, s1, s);
        }
        if s1 == s {
            assert(false);
        }
    }
}

/// The line that an index lies on exists and starts at or before it.
pub proof fn lemma_line_of_start(t: Seq<char>, i: int)
    requires
        0 <= i <= t.len(),
    ensures
        line_of(t, i) < line_count(t),
        line_start(t, line_of(t, i)) <= i,
{
    let l = line_of(t, i);
    lemma_breaks_before_mono(t, i, t.len() as int);
    lemma_line_start_exists_upto(t, l, i);
    let s = choose|s: int| s <= i && is_line_start(t, l, s);
    lemma_line_start_is(t, l, s);
}

/// A valid position names an index within the text.
pub proof fn lemma_valid_pos_index(t: Seq<char>, p: Position)
    requires
        valid_pos(t, p),
    ensures
        0 <= line_start(t, p.line as nat) <= char_index(t, p) <= t.len(),
{
    lemma_line_start_ordered(t, p.line as nat);
}

/// Column 0 of every line, and the end of every line, are valid positions;
/// the first names the index at which the line starts.
pub proof fn line_ends_are_valid(t: Seq<char>, p: Position)
    requires
        p.line < line_count(t),
    ensures
        p.column == 0 ==> valid_pos(t, p) && char_index(t, p) == line_start(t, p.line as nat),
        p.column == line_len(t, p.line as nat) ==> valid_pos(t, p),
        line_len(t, p.line as nat) >= 0,
{
    lemma_line_start_ordered(t, p.line as nat);
}

/// The two texts hold the same chars before index `m`.
pub open spec fn agree_upto(t1: Seq<char>, t2: Seq<char>, m: int) -> bool {
    &&& 0 <= m <= t1.len()
    &&& m <= t2.len()
    &&& forall|k: int| 0 <= k < m ==> t1[k] == t2[k]
}

proof fn lemma_agree_ends_line(t1: Seq<char>, t2: Seq<char>, m: int, k: int)
    requires
        agree_upto(t1, t2, m),
        0 <= k < m - 1,
    ensures
        ends_line(t1, k) == ends_line(t2, k),
{
    assert(t1[k] == t2[k] && t1[k + 1] == t2[k + 1]);
}

proof fn lemma_agree_breaks_before(t1: Seq<char>, t2: Seq<char>, m: int, k: int)
    requires
        agree_upto(t1, t2, m),
        k <= m - 1,
    ensures
        breaks_before(t1, k) == breaks_before(t2, k),
    decreases k,
{
    if k > 0 {
        lemma_agree_breaks_before(t1, t2, m, k - 1);
        lemma_agree_ends_line(t1, t2, m, k - 1);
    }
}

proof fn lemma_agree_line_start(t1: Seq<char>, t2: Seq<char>, m: int, l: nat, s: int)
    requires
        agree_upto(t1, t2, m),
        is_line_start(t1, l, s),
        s <= m - 1,
    ensures
        is_line_start(t2, l, s),
{
    lemma_agree_breaks_before(t1, t2, m, s);
    if s > 0 {
        lemma_agree_ends_line(t1, t2, m, s - 1);
    }
}

/// An edit at or after the index that a valid position names keeps the
/// position valid, naming the same index, as long as the line that the
/// position starts (when its column is 0) still follows a line break.
pub proof fn lemma_position_kept(t: Seq<char>, t2: Seq<char>, p: Position)
    requires
        valid_pos(t, p),
        agree_upto(t, t2, char_index(t, p)),
        p.column == 0 && char_index(t, p) > 0 ==> ends_line(t2, char_index(t, p) - 1),
    ensures
        valid_pos(t2, p),
        char_index(t2, p) == char_index(t, p),
{
    let l = p.line as nat;
    let j = char_index(t, p);
    lemma_line_start(t, l);
    lemma_line_start_ordered(t, l);
    let s = line_start(t, l);
    assert(agree_upto(t2, t, j));
    if p.column > 0 {
        lemma_agree_line_start(t, t2, j, l, s);
    } else if j == 0 {
        assert(is_line_start(t2, l, 0));
    } else {
        lemma_agree_breaks_before(t, t2, j, j - 1);
        assert(is_line_start(t2, l, j));
    }
    lemma_line_start_is(t2, l, s);
    lemma_line_start_ordered(t2, l);
    if l + 1 < line_count(t2) {
        lemma_line_start(t2, l + 1);
        let s1 = line_start(t2, l + 1);
        if s1 < j {
            lemma_agree_line_start(t2, t, j, l + 1, s1);
            lemma_line_start_is(t, l + 1, s1);
        }
    }
}

} // verus!
