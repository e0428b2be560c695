//! A cursor over source text that tracks line and column.
use super::chars;
use crate::utils::position::{
    self, position_le, spec_next_column, spec_next_line, spec_start, Position,
};
use crate::utils::text_range::TextRange;
use vstd::prelude::*;

verus! {

/// The character at index `i` of `s`; NULL before the start or past the end.
pub open spec fn char_at(s: Seq<char>, i: int) -> char {
    if 0 <= i < s.len() {
        s[i]
    } else {
        '\0'
    }
}

/// A cursor never stands between the two characters of a CR LF pair.
pub open spec fn is_boundary(s: Seq<char>, i: int) -> bool {
    !(0 < i < s.len() && s[i - 1] == '\r' && s[i] == '\n')
}

/// The index after consuming the character at `i`.
/// A carriage return followed by a line feed is consumed as one character.
/// Past the end nothing is consumed.
pub open spec fn next_index(s: Seq<char>, i: int) -> int {
    if i >= s.len() {
        i
    } else if s[i] == '\r' && i + 1 < s.len() && s[i + 1] == '\n' {
        i + 2
    } else {
        i + 1
    }
}

/// The index after consuming `n` characters starting at `i`.
pub open spec fn nth_index(s: Seq<char>, i: int, n: nat) -> int
    decreases n,
{
    if n == 0 {
        i
    } else {
        nth_index(s, next_index(s, i), (n - 1) as nat)
    }
}

/// The line/column position of index `i` in `s`.
/// Line feeds and carriage returns start a new line; the line feed of a
/// CR LF pair does not start another.
pub open spec fn position_of(s: Seq<char>, i: int) -> Position
    decreases i,
{
    if i <= 0 {
        spec_start()
    } else {
        let p = position_of(s, i - 1);
        let c = s[i - 1];
        if c == '\n' {
            if i >= 2 && s[i - 2] == '\r' {
                p
            } else {
                spec_next_line(p)
            }
        } else if c == '\r' {
            spec_next_line(p)
        } else {
            spec_next_column(p)
        }
    }
}

/// Line and column never exceed the index they describe.
pub proof fn lemma_position_bounds(s: Seq<char>, i: int)
    requires
        0 <= i < i32::MAX,
    ensures
        0 <= position_of(s, i).line <= i,
        0 <= position_of(s, i).column <= i,
    decreases i,
{
    if i > 0 {
        lemma_position_bounds(s, i - 1);
    }
}

/// Positions grow with indexes.
pub proof fn lemma_position_monotonic(s: Seq<char>, i: int, j: int)
    requires
        0 <= i <= j < i32::MAX,
    ensures
        position_le(position_of(s, i), position_of(s, j)),
    decreases j - i,
{
    if i < j {
        lemma_position_monotonic(s, i, j - 1);
        lemma_position_bounds(s, j - 1);
    }
}

/// The classes of characters a cursor can skip over.
#[derive(Clone, Copy, Debug, PartialEq, Eq, Structural)]
pub enum CharClass {
    Whitespace,
    Digit,
    IdentifierPart,
}

pub open spec fn in_class(class: CharClass, ch: char) -> bool {
    match class {
        CharClass::Whitespace => chars::spec_is_whitespace(ch),
        CharClass::Digit => chars::spec_is_digit(ch),
        CharClass::IdentifierPart => chars::spec_is_identifier_part(ch),
    }
}

pub fn is_in_class(class: CharClass, ch: char) -> (r: bool)
    ensures
        r == in_class(class, ch),
{
    match class {
        CharClass::Whitespace => chars::is_whitespace(ch),
        CharClass::Digit => chars::is_digit(ch),
        CharClass::IdentifierPart => chars::is_identifier_part(ch),
    }
}

/// The index reached from `i` by skipping characters of `class`.
pub open spec fn skip_class(s: Seq<char>, i: int, class: CharClass) -> int
    decreases s.len() - i,
{
    if 0 <= i < s.len() && in_class(class, s[i]) {
        skip_class(s, next_index(s, i), class)
    } else {
        i
    }
}

pub proof fn lemma_nth_one(s: Seq<char>, i: int)
    ensures
        nth_index(s, i, 1) == next_index(s, i),
{
    assert(nth_index(s, next_index(s, i), 0) == next_index(s, i));
}

pub proof fn lemma_nth_two(s: Seq<char>, i: int)
    ensures
        nth_index(s, i, 2) == next_index(s, next_index(s, i)),
{
    lemma_nth_one(s, next_index(s, i));
}

/// Skipping stays within the text and never moves backwards.
pub proof fn lemma_skip_class_bounds(s: Seq<char>, i: int, class: CharClass)
    requires
        0 <= i <= s.len(),
    ensures
        i <= skip_class(s, i, class) <= s.len(),
    decreases s.len() - i,
{
    if 0 <= i < s.len() && in_class(class, s[i]) {
        lemma_skip_class_bounds(s, next_index(s, i), class);
    }
}

/// Skipping stops at a character outside the class, or at the end.
pub proof fn lemma_skip_class_stops(s: Seq<char>, i: int, class: CharClass)
    requires
        0 <= i <= s.len(),
    ensures
        !(skip_class(s, i, class) < s.len() && in_class(class, s[skip_class(s, i, class)])),
    decreases s.len() - i,
{
    if 0 <= i < s.len() && in_class(class, s[i]) {
        lemma_skip_class_stops(s, next_index(s, i), class);
    }
}

/// Represents the current position while lexing some text.
/// Roughly an iterator over the source which tracks the line/column
/// in a Position.
///
/// peek() operations allow interogating characters at or after
/// the current location. peek()ing beyond the end of the source yields
/// an infinite stream of NULL(0) characters.
///
/// index indexes into the source in chars.
#[derive(Clone, Copy, Debug)]
pub struct LexerPosition<'a> {
    pub source: &'a [char],
    pub position: Position,
    pub index: usize,
}

impl<'a> LexerPosition<'a> {
    /// The cursor is within its source and its position describes its index.
    pub open spec fn wf(&self) -> bool {
        &&& self.source@.len() < i32::MAX
        &&& self.index <= self.source@.len()
        &&& is_boundary(self.source@, self.index as int)
        &&& self.position == position_of(self.source@, self.index as int)
    }

    /// The next character, NULL at the end.
    pub open spec fn spec_peek(&self) -> char {
        char_at(self.source@, self.index as int)
    }

    pub fn new(source: &'a [char]) -> (r: LexerPosition<'a>)
        requires
            source@.len() < i32::MAX,
        ensures
            r.wf(),
            r.source == source,
            r.index == 0,
    {
        LexerPosition { source, position: position::start(), index: 0 }
    }

    pub fn line(&self) -> (r: i32)
        ensures
            r == self.position.line,
    {
        self.position.line
    }

    /// Skips characters of `class`; returns whether any was skipped.
    pub fn skip_while(&mut self, class: CharClass) -> (r: bool)
        requires
            old(self).wf(),
        ensures
            final(self).wf(),
            final(self).source == old(self).source,
            final(self).index == skip_class(old(self).source@, old(self).index as int, class),
            r == (final(self).index != old(self).index),
    {
        let ghost start = self.index;
        let mut result = false;
        while is_in_class(class, self.peek())
            invariant
                self.wf(),
                self.source == old(self).source,
                skip_class(self.source@, self.index as int, class) == skip_class(
                    self.source@,
                    start as int,
                    class,
                ),
                result == (self.index != start),
                self.index >= start,
            decreases self.source@.len() - self.index,
        {
            self.next();
            result = true;
        }
        result
    }

    /// Returns the next char in the source or None if at end.
    /// Does not consume the char.
    fn peek_char_opt(&self) -> (r: Option<char>)
        ensures
            r == (if self.index < self.source@.len() {
                Some(self.source@[self.index as int])
            } else {
                None::<char>
            }),
    {
        if self.index < self.source.len() {
            Some(self.source[self.index])
        } else {
            None
        }
    }

    /// Returns the next char in the source, NULL at the end.
    /// Does not consume the char.
    pub fn peek(&self) -> (r: char)
        ensures
            r == self.spec_peek(),
    {
        match self.peek_char_opt() {
            Some(ch) => ch,
            None => chars::NULL,
        }
    }

    /// Returns the char at offset from the current location in the source,
    /// NULL past the end. Does not consume input.
    pub fn peek_offset(&self, offset: i32) -> (r: char)
        requires
            self.wf(),
            offset >= 0,
        ensures
            r == char_at(self.source@, self.index + offset),
    {
        let i: usize = self.index + offset as usize;
        if i < self.source.len() {
            self.source[i]
        } else {
            chars::NULL
        }
    }

    /// Returns true if the next char matches ch.
    /// Does not consume input.
    pub fn peek_char(&self, ch: char) -> (r: bool)
        ensures
            r == (self.spec_peek() == ch),
    {
        self.peek() == ch
    }

    /// Returns true if the char at offset matches ch.
    /// Does not consume input.
    pub fn peek_char_offset(&self, ch: char, offset: i32) -> (r: bool)
        requires
            self.wf(),
            offset >= 0,
        ensures
            r == (char_at(self.source@, self.index + offset) == ch),
    {
        self.peek_offset(offset) == ch
    }

    /// Are we at the end of the source: is every character consumed?
    pub fn at_end(&self) -> (r: bool)
        ensures
            r == (self.index >= self.source@.len()),
    {
        self.index >= self.source.len()
    }

    fn advance_index_of_char(&mut self, ch: Option<char>)
        requires
            old(self).index < usize::MAX,
        ensures
            final(self).source == old(self).source,
            final(self).position == old(self).position,
            final(self).index == (if ch is Some {
                old(self).index + 1
            } else {
                old(self).index as int
            }),
    {
        if let Some(_ch) = ch {
            self.index += 1;
        }
    }

    fn advance_position_of_char(&mut self, ch: Option<char>)
        requires
            ch is Some ==> 0 <= old(self).position.line < i32::MAX - 1,
            ch is Some ==> 0 <= old(self).position.column < i32::MAX - 1,
            old(self).index <= old(self).source@.len(),
            old(self).source@.len() < i32::MAX,
        ensures
            final(self).source == old(self).source,
            final(self).index == (if ch == Some('\r') && old(self).spec_peek() == '\n' {
                old(self).index + 1
            } else {
                old(self).index as int
            }),
            final(self).position == (match ch {
                Some(c) => if c == '\n' || c == '\r' {
                    spec_next_line(old(self).position)
                } else {
                    spec_next_column(old(self).position)
                },
                None => old(self).position,
            }),
    {
        self.position =
        match ch {
            Some(chars::LINE_FEED) => self.position.next_line(),
            Some(chars::CARRIAGE_RETURN) => {
                // handle windows line endings
                if self.peek_char(chars::LINE_FEED) {
                    self.advance_index_of_char(self.peek_char_opt());
                }
                self.position.next_line()
            },
            Some(_) => self.position.next_column(),
            None => self.position,
        };
    }

    /// Returns the next char in the input.
    /// Advances past the consumed char.
    pub fn next(&mut self) -> (ch: char)
        requires
            old(self).wf(),
        ensures
            final(self).wf(),
            final(self).source == old(self).source,
            final(self).index == next_index(old(self).source@, old(self).index as int),
            ch == old(self).spec_peek(),
    {
        let ghost s = self.source@;
        let ghost i = self.index as int;
        proof {
            lemma_position_bounds(s, i);
        }
        let ch = self.peek_char_opt();
        self.advance_index_of_char(ch);
        self.advance_position_of_char(ch);
        proof {
            if i < s.len() {
                let j = next_index(s, i);
                if s[i] == '\r' && i + 1 < s.len() && s[i + 1] == '\n' {
                    assert(position_of(s, i + 1) == spec_next_line(position_of(s, i)));
                    assert(position_of(s, i + 2) == position_of(s, i + 1));
                } else {
                    assert(position_of(s, i + 1) == (if s[i] == '\n' || s[i] == '\r' {
                        spec_next_line(position_of(s, i))
                    } else {
                        spec_next_column(position_of(s, i))
                    }));
                }
            }
        }
        match ch {
            Some(c) => c,
            None => chars::NULL,
        }
    }
}

/// The range of text between two cursors.
pub fn get_range<'a>(start: &LexerPosition<'a>, end: &LexerPosition<'a>) -> (r: TextRange)
    requires
        start.wf(),
        end.wf(),
        start.source == end.source,
        start.index <= end.index,
    ensures
        r == (TextRange { start: start.position, end: end.position }),
{
    proof {
        lemma_position_monotonic(start.source@, start.index as int, end.index as int);
    }
    TextRange::new(start.position, end.position)
}

/// The text between two cursors.
pub fn get_text<'a>(start: &LexerPosition<'a>, end: &LexerPosition<'a>) -> (r: &'a [char])
    requires
        start.wf(),
        end.wf(),
        start.source == end.source,
        start.index <= end.index,
    ensures
        r@ == start.source@.subrange(start.index as int, end.index as int),
{
    slice_between(start.source, start.index, end.index)
}

/// The characters of `s` from `from` up to `to`.
pub fn slice_between<'a>(s: &'a [char], from: usize, to: usize) -> (r: &'a [char])
    requires
        from <= to <= s@.len(),
    ensures
        r@ == s@.subrange(from as int, to as int),
{
    &s[from..to]
}

} // verus!
