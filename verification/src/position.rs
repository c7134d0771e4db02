//! Cursor coordinates, ranges and selections.

use vstd::prelude::*;
use std::cmp::Ordering;
use vstd::std_specs::cmp::PartialOrdSpecImpl;
use crate::errors::VeloError;

verus! {

/// A `(line, column)` coordinate inside a buffer, both counted from zero.
#[derive(Debug, Clone, Copy, PartialEq, Eq, Ord, Hash, Structural)]
pub struct Position {
    pub line: usize,
    pub column: usize,
}

/// `a` does not come after `b` in reading order: an earlier line, or the same
/// line and a column that is not greater.
pub open spec fn pos_le(a: Position, b: Position) -> bool {
    a.line < b.line || (a.line == b.line && a.column <= b.column)
}

/// Reading order: by line, then by column.
pub open spec fn reading_order(a: Position, b: Position) -> Ordering {
    if a.line < b.line {
        Ordering::Less
    } else if a.line > b.line {
        Ordering::Greater
    } else if a.column < b.column {
        Ordering::Less
    } else if a.column > b.column {
        Ordering::Greater
    } else {
        Ordering::Equal
    }
}

impl PartialOrd for Position {
    fn partial_cmp(&self, other: &Self) -> (r: Option<Ordering>) {
        if self.line < other.line {
            Some(Ordering::Less)
        } else if self.line > other.line {
            Some(Ordering::Greater)
        } else if self.column < other.column {
            Some(Ordering::Less)
        } else if self.column > other.column {
            Some(Ordering::Greater)
        } else {
            Some(Ordering::Equal)
        }
    }
}

impl PartialOrdSpecImpl for Position {
    open spec fn obeys_partial_cmp_spec() -> bool {
        true
    }

    open spec fn partial_cmp_spec(&self, other: &Self) -> Option<Ordering> {
        Some(reading_order(*self, *other))
    }
}

impl Position {
    pub fn new(line: usize, column: usize) -> (p: Self)
        ensures
            p.line == line,
            p.column == column,
    {
        Self { line, column }
    }
}

/// A span of text from `start` to `end`.
#[derive(Debug, Clone, Copy, PartialEq, Eq, Hash, Structural)]
pub struct Range {
    pub start: Position,
    pub end: Position,
}

impl Range {
    /// The range is well ordered: its start does not come after its end.
    pub open spec fn valid(self) -> bool {
        pos_le(self.start, self.end)
    }

    /// Builds the range from `start` to `end`, refusing it with
    /// `InvalidRange` when `start` comes after `end`.
    pub fn new(start: Position, end: Position) -> (r: Result<Self, VeloError>)
        ensures
            r is Ok <==> pos_le(start, end),
            r matches Ok(rg) ==> rg.start == start && rg.end == end && rg.valid(),
            r matches Err(e) ==> e is InvalidRange,
    {
        if start.line < end.line || (start.line == end.line && start.column <= end.column) {
            Ok(Self { start, end })
        } else {
            Err(VeloError::InvalidRange)
        }
    }

    /// Builds the range from `start` to `end` without checking their order.
    pub fn new_unchecked(start: Position, end: Position) -> (r: Self)
        ensures
            r.start == start,
            r.end == end,
    {
        Self { start, end }
    }
}

/// A selection: the fixed `anchor` and the moving `head`.
#[derive(Debug, Clone, Copy, PartialEq, Eq, Hash, Structural)]
pub struct Selection {
    pub anchor: Position,
    pub head: Position,
}

impl Selection {
    pub fn new(anchor: Position, head: Position) -> (s: Self)
        ensures
            s.anchor == anchor,
            s.head == head,
    {
        Self { anchor, head }
    }
}

/// Every range that `Range::new` accepts is well ordered, and every pair of
/// positions in reading order is accepted: exactly those whose start does not
/// compare greater than their end.
pub proof fn range_new_accepts_exactly_ordered(start: Position, end: Position)
    ensures
        pos_le(start, end) <==> (Range { start, end }).valid(),
        pos_le(start, end) <==> reading_order(start, end) != Ordering::Greater,
{
}

} // verus!
