//! Ranges of text between two positions.
use crate::utils::position::{self, position_le, position_lt, position_text, Position};
use crate::utils::text::append_str;
use vstd::prelude::*;
use vstd::string::*;

verus! {

/// A range in a text buffer.
/// End must be at or after start.
/// Start is inclusive, end is exclusive.
#[derive(Copy, Clone, Debug, PartialEq, Eq, Structural, PartialOrd, Ord, Hash)]
pub struct TextRange {
    pub start: Position,
    pub end: Position,
}

/// The text of a range: its start and its end, joined by `-`.
pub open spec fn range_text(r: TextRange) -> Seq<char> {
    position_text(r.start) + "-"@ + position_text(r.end)
}

impl TextRange {
    /// The text of this range: its start and its end, joined by `-`.
    pub fn to_text(&self) -> (r: String)
        ensures
            r@ == range_text(*self),
    {
        let mut s = self.start.to_text();
        append_str(&mut s, "-");
        let end = self.end.to_text();
        append_str(&mut s, end.as_str());
        s
    }
}

/// The range that stands for no text.
pub open spec fn spec_none() -> TextRange {
    TextRange { start: position::spec_start(), end: position::spec_start() }
}

/// The range that stands for no text.
pub fn none() -> (r: TextRange)
    ensures
        r == spec_none(),
{
    TextRange { start: position::start(), end: position::start() }
}

/// A range is well formed when its end is at or after its start.
pub open spec fn range_wf(r: TextRange) -> bool {
    position_le(r.start, r.end)
}

/// Order of ranges: by start, then by end.
pub open spec fn range_le(a: TextRange, b: TextRange) -> bool {
    position_lt(a.start, b.start) || (a.start == b.start && position_le(a.end, b.end))
}

impl TextRange {
    pub fn new(start: Position, end: Position) -> (r: TextRange)
        requires
            position_le(start, end),
        ensures
            r == (TextRange { start, end }),
    {
        TextRange { start, end }
    }

    /// Constructs an empty TextRange at a position.
    pub fn empty(position: Position) -> (r: TextRange)
        ensures
            r == (TextRange { start: position, end: position }),
    {
        TextRange::new(position, position)
    }

    /// Is this the NONE text range?
    pub fn is_none(&self) -> (r: bool)
        ensures
            r == (*self == spec_none()),
    {
        let s = position::start();
        self.start == s && self.end == s
    }

    /// Is position within this range?
    pub fn contains(&self, position: Position) -> (r: bool)
        ensures
            r == (position_le(self.start, position) && position_lt(position, self.end)),
    {
        self.start.is_at_or_before(&position) && position.is_before(&self.end)
    }

    /// Is range contained within this range?
    pub fn contains_range(&self, range: TextRange) -> (r: bool)
        ensures
            r == (position_le(self.start, range.start) && position_le(range.end, self.end)),
    {
        self.start.is_at_or_before(&range.start) && range.end.is_at_or_before(&self.end)
    }

    /// Does this range sort at or before `other` (by start, then by end)?
    pub fn is_at_or_before(&self, other: &TextRange) -> (r: bool)
        ensures
            r == range_le(*self, *other),
    {
        self.start.is_before(&other.start) || (self.start == other.start
            && self.end.is_at_or_before(&other.end))
    }
}

} // verus!
