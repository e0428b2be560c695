//! Line/column positions within a text buffer.
use crate::utils::text::{append_decimal, append_str, decimal_of};
use vstd::prelude::*;
use vstd::string::*;

verus! {

/// A position within a text buffer.
/// Both line and column use 0 based indexes.
#[derive(Copy, Clone, Debug, PartialEq, Eq, Structural, PartialOrd, Ord, Hash)]
pub struct Position {
    pub line: i32,
    pub column: i32,
}

/// The Position indicating the start of a text buffer.
pub open spec fn spec_start() -> Position {
    Position { line: 0, column: 0 }
}

/// The Position indicating the start of a text buffer.
pub fn start() -> (r: Position)
    ensures
        r == spec_start(),
{
    Position { line: 0, column: 0 }
}

/// The text of a position: `(line, column)`.
pub open spec fn position_text(p: Position) -> Seq<char> {
    "("@ + decimal_of(p.line as int) + ", "@ + decimal_of(p.column as int) + ")"@
}

impl Position {
    /// The text of this position: `(line, column)`.
    pub fn to_text(&self) -> (r: String)
        ensures
            r@ == position_text(*self),
    {
        let mut s = String::new();
        append_str(&mut s, "(");
        append_decimal(&mut s, self.line);
        append_str(&mut s, ", ");
        append_decimal(&mut s, self.column);
        append_str(&mut s, ")");
        s
    }
}

/// Source order on positions: by line, then by column.
pub open spec fn position_le(a: Position, b: Position) -> bool {
    a.line < b.line || (a.line == b.line && a.column <= b.column)
}

/// Strict source order on positions.
pub open spec fn position_lt(a: Position, b: Position) -> bool {
    a.line < b.line || (a.line == b.line && a.column < b.column)
}

/// The position at the start of the line after `p`.
pub open spec fn spec_next_line(p: Position) -> Position {
    Position { line: (p.line + 1) as i32, column: 0 }
}

/// The position one column after `p` on the same line.
pub open spec fn spec_next_column(p: Position) -> Position {
    Position { line: p.line, column: (p.column + 1) as i32 }
}

impl Position {
    pub fn new(line: i32, column: i32) -> (r: Position)
        requires
            line >= 0,
            column >= 0,
        ensures
            r == (Position { line, column }),
    {
        Position { line, column }
    }

    pub fn at_beginning_of_line(&self) -> (r: bool)
        ensures
            r == (self.column == 0),
    {
        self.column == 0
    }

    /// Returns a new Position at the start of the next line.
    pub fn next_line(&self) -> (r: Position)
        requires
            0 <= self.line < i32::MAX,
            self.column >= 0,
        ensures
            r == spec_next_line(*self),
    {
        Position::new(self.line + 1, 0)
    }

    /// Returns a new Position at the start of the next column.
    pub fn next_column(&self) -> (r: Position)
        requires
            self.line >= 0,
            0 <= self.column < i32::MAX,
        ensures
            r == spec_next_column(*self),
    {
        Position::new(self.line, self.column + 1)
    }

    /// Returns a new Position at the start of the current line.
    pub fn beginning_of_line(&self) -> (r: Position)
        requires
            self.line >= 0,
        ensures
            r == (Position { line: self.line, column: 0 }),
    {
        Position::new(self.line, 0)
    }

    /// Is this position at or before `other` in source order?
    pub fn is_at_or_before(&self, other: &Position) -> (r: bool)
        ensures
            r == position_le(*self, *other),
    {
        self.line < other.line || (self.line == other.line && self.column <= other.column)
    }

    /// Is this position strictly before `other` in source order?
    pub fn is_before(&self, other: &Position) -> (r: bool)
        ensures
            r == position_lt(*self, *other),
    {
        self.line < other.line || (self.line == other.line && self.column < other.column)
    }
}

} // verus!
