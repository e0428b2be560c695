//! Lexical tokens with their trivia.
use super::{Comment, TokenKind};
use crate::utils::position::position_le;
use crate::utils::{Position, SyntaxError, TextRange};
use vstd::prelude::*;

verus! {

/// A lexical token (aka lexeme) in a query.
///
/// A token's lifetime is typically scoped
/// to the lifetime of the text being parsed.
///
/// A token includes leading and trailing comments.
/// Trailing comments are any comments that start
/// on the same line as the end of the token, when the token
/// is the last token on a line. Otherwise the comment
/// will be a leading comment of the next token.
///
/// Tokens also contain syntax errors. Tokens whose kind is not
/// Error may still contain errors. To accumulate all errors
/// from a set of tokens every token's errors list must be unioned.
///
/// A token's value includes the part of the text significant in the
/// language. It does not include the comment, whitespace or error text.
///
/// A token's range is the range of the token's value; it also
/// does not include the range of comments, whitespace or error text.
/// Use full_start/full_end/full_range to get the range of the token
/// which includes trivia (leading/trailing comments).
#[derive(Clone, Debug)]
pub struct Token<'a> {
    pub kind: TokenKind,
    pub range: TextRange,
    pub value: &'a [char],
    pub leading_comments: Vec<Comment<'a>>,
    pub trailing_comments: Vec<Comment<'a>>,
    pub errors: Vec<SyntaxError>,
}

/// The starting position including trivia.
pub open spec fn spec_full_start(token: Token) -> Position {
    if token.leading_comments@.len() > 0 {
        token.leading_comments@[0].range.start
    } else {
        token.range.start
    }
}

/// The ending position including trivia.
pub open spec fn spec_full_end(token: Token) -> Position {
    if token.trailing_comments@.len() > 0 {
        token.trailing_comments@.last().range.end
    } else {
        token.range.end
    }
}

/// Each token's comments lie around it: its full start is at or before its start,
/// and its full end at or after its end. The lexer gives every token this shape.
pub open spec fn trivia_around<'a>(ts: Seq<Token<'a>>) -> bool {
    forall|k: int|
        0 <= k < ts.len() ==> position_le(spec_full_start(#[trigger] ts[k]), ts[k].range.start)
            && position_le(ts[k].range.end, spec_full_end(ts[k]))
}

impl<'a> Token<'a> {
    pub fn new(
        kind: TokenKind,
        range: TextRange,
        value: &'a [char],
        leading_comments: Vec<Comment<'a>>,
        trailing_comments: Vec<Comment<'a>>,
        errors: Vec<SyntaxError>,
    ) -> (r: Token<'a>)
        ensures
            r == (Token { kind, range, value, leading_comments, trailing_comments, errors }),
    {
        Token { kind, range, value, leading_comments, trailing_comments, errors }
    }

    /// The starting position including trivia.
    pub fn full_start(&self) -> (r: Position)
        ensures
            r == spec_full_start(*self),
    {
        if self.leading_comments.len() > 0 {
            self.leading_comments[0].range.start
        } else {
            self.range.start
        }
    }

    /// The ending position including trivia.
    pub fn full_end(&self) -> (r: Position)
        ensures
            r == spec_full_end(*self),
    {
        if self.trailing_comments.len() > 0 {
            self.trailing_comments[self.trailing_comments.len() - 1].range.end
        } else {
            self.range.end
        }
    }

    /// Token's range including trivia.
    pub fn full_range(&self) -> (r: TextRange)
        requires
            position_le(spec_full_start(*self), spec_full_end(*self)),
        ensures
            r == (TextRange { start: spec_full_start(*self), end: spec_full_end(*self) }),
    {
        TextRange::new(self.full_start(), self.full_end())
    }
}

} // verus!
