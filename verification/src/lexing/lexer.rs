//! The lexer for the Presto SQL language.
use super::chars;
use super::comment::{Comment, CommentKind};
use super::grammar::{
    comment_tail_closed, comment_tail_end, exponent_end, followed_by_word, has_exponent,
    lemma_comment_tail_end_bounds, lemma_line_end_bounds, lemma_quoted_end_bounds, lexeme,
    line_end, number_lexeme, quoted_closed, quoted_end, token_start, word_end, ws_word_end,
    trivia_closed, lexeme_clean, leading_from, lexeme_error, expected_char_message, leading_unterminated,
    lemma_unclosed_comment_end, prepend_comments, trailing_from, trailing_trivia,
};
use super::keywords::maybe_get_keyword;
use super::lexer_position::{
    self, char_at, lemma_nth_one, lemma_nth_two, lemma_position_bounds,
    lemma_position_monotonic, lemma_skip_class_bounds, next_index, nth_index, position_of,
    skip_class, in_class, CharClass, LexerPosition,
};
use super::predefined_names::{spec_name_text, PredefinedName};
use super::token::Token;
use super::token_kind::{spec_keyword_text, TokenKind};
use crate::utils::position::position_le;
use crate::utils::syntax_error::{self, Message, SyntaxError};
use crate::utils::text::push_char;
use crate::utils::{Position, TextRange};
use vstd::prelude::*;
use vstd::string::*;

verus! {

/// `value` and `range` describe the text of `s` between two indexes within `lo..hi`.
pub open spec fn fragment(s: Seq<char>, value: Seq<char>, range: TextRange, lo: int, hi: int) -> bool {
    exists|a: int, b: int|
        #![trigger s.subrange(a, b)]
        lo <= a <= b <= hi && value == s.subrange(a, b) && range == (TextRange {
            start: position_of(s, a),
            end: position_of(s, b),
        })
}

/// Every comment of `cs` is text of `s` within `lo..hi`.
pub open spec fn comments_within(s: Seq<char>, cs: Seq<Comment>, lo: int, hi: int) -> bool {
    forall|k: int| 0 <= k < cs.len() ==> fragment(s, #[trigger] cs[k].value@, cs[k].range, lo, hi)
}

/// `c` is the comment of kind `t.2` over the text of `s` from `t.0` to `t.1`.
pub open spec fn is_comment(s: Seq<char>, c: Comment, t: (int, int, CommentKind)) -> bool {
    &&& c.kind == t.2
    &&& c.value@ == s.subrange(t.0, t.1)
    &&& c.range == (TextRange { start: position_of(s, t.0), end: position_of(s, t.1) })
}

/// The comments `cs` are, in order, those that `ts` describes.
pub open spec fn comments_are(s: Seq<char>, cs: Seq<Comment>, ts: Seq<(int, int, CommentKind)>) -> bool {
    &&& cs.len() == ts.len()
    &&& forall|k: int| 0 <= k < cs.len() ==> is_comment(s, #[trigger] cs[k], ts[k])
}

/// The trailing comments of `r`, and the index where lexing stops after it, are those
/// the lexical grammar gives for a token that ends at `e`.
pub open spec fn trails(s: Seq<char>, r: Token, e: int, end: int) -> bool {
    &&& end == trailing_trivia(s, e).0
    &&& comments_are(s, r.trailing_comments@, trailing_trivia(s, e).1)
}

/// Putting comments before the comments that one more comment is put before.
proof fn lemma_prepend_push(
    ts: Seq<(int, int, CommentKind)>,
    t: (int, int, CommentKind),
    o: Option<(int, Seq<(int, int, CommentKind)>)>,
)
    ensures
        prepend_comments(ts, prepend_comments(seq![t], o)) == prepend_comments(ts.push(t), o),
{
    if let Some((e, rest)) = o {
        assert(ts + (seq![t] + rest) =~= ts.push(t) + rest);
    }
}

/// One more comment.
proof fn lemma_comments_are_push(
    s: Seq<char>,
    cs: Seq<Comment>,
    ts: Seq<(int, int, CommentKind)>,
    c: Comment,
    t: (int, int, CommentKind),
)
    requires
        comments_are(s, cs, ts),
        is_comment(s, c, t),
    ensures
        comments_are(s, cs.push(c), ts.push(t)),
{
    assert forall|k: int| 0 <= k < cs.push(c).len() implies is_comment(
        s,
        #[trigger] cs.push(c)[k],
        ts.push(t)[k],
    ) by {
        if k < cs.len() {
            assert(cs.push(c)[k] == cs[k]);
        }
    }
}

/// `e` has the code `code` and one message, `message`, over `range`.
pub open spec fn is_error(e: SyntaxError, code: i32, message: Seq<char>, range: TextRange) -> bool {
    &&& e.error_code == code
    &&& e.messages@.len() == 1
    &&& e.messages@[0].message@ == message
    &&& e.messages@[0].range == range
}

/// Nothing but whitespace, if anything, is left: no comment can be open.
proof fn lemma_trivia_closed_at_end(s: Seq<char>)
    ensures
        trivia_closed(s, s.len() as int),
{
    assert(skip_class(s, s.len() as int, CharClass::Whitespace) == s.len());
}

/// Every error has at least one message.
pub open spec fn errors_wf(es: Seq<SyntaxError>) -> bool {
    forall|k: int| 0 <= k < es.len() ==> (#[trigger] es[k]).messages@.len() > 0
}


proof fn lemma_fragment(s: Seq<char>, value: Seq<char>, range: TextRange, lo: int, a: int, b: int, hi: int)
    requires
        lo <= a <= b <= hi,
        value == s.subrange(a, b),
        range == (TextRange { start: position_of(s, a), end: position_of(s, b) }),
    ensures
        fragment(s, value, range, lo, hi),
{
    assert(value == s.subrange(a, b));
}

proof fn lemma_comments_widen(s: Seq<char>, cs: Seq<Comment>, lo: int, hi: int, lo2: int, hi2: int)
    requires
        comments_within(s, cs, lo, hi),
        lo2 <= lo,
        hi <= hi2,
    ensures
        comments_within(s, cs, lo2, hi2),
{
    assert forall|k: int| 0 <= k < cs.len() implies fragment(
        s,
        #[trigger] cs[k].value@,
        cs[k].range,
        lo2,
        hi2,
    ) by {
        let (a, b) = choose|a: int, b: int|
            #![trigger s.subrange(a, b)]
            lo <= a <= b <= hi && cs[k].value@ == s.subrange(a, b) && cs[k].range == (TextRange {
                start: position_of(s, a),
                end: position_of(s, b),
            });
        lemma_fragment(s, cs[k].value@, cs[k].range, lo2, a, b, hi2);
    }
}

/// A Lexer for the Presto SQL language.
///
/// peek() operations allow interogating characters at or after
/// the current location. peek()ing beyond the end of the input yields
/// an infinite stream of NULL(0) characters.
///
/// lex_token() returns the next token and consumes it.
///
/// All lifetimes are scoped to the input text.
#[derive(Clone, Debug)]
pub struct Lexer<'a> {
    pub input: &'a [char],
    position: LexerPosition<'a>,
    comments: Vec<Comment<'a>>,
    errors: Vec<SyntaxError>,
}

// All the non-language specific infrastructure goes here
impl<'a> Lexer<'a> {
    /// The cursor stands within the input and the pending comments lie before it.
    pub closed spec fn wf(&self) -> bool {
        &&& self.position.wf()
        &&& self.position.source == self.input
        &&& comments_within(self.input@, self.comments@, 0, self.position.index as int)
        &&& errors_wf(self.errors@)
    }

    /// The index of the next character to be lexed.
    pub closed spec fn spec_index(&self) -> int {
        self.position.index as int
    }

    /// No comment or error is waiting to be attached to a token.
    pub open spec fn spec_no_pending(&self) -> bool {
        self.spec_comments().len() == 0 && self.spec_errors().len() == 0
    }

    /// The comments waiting to be attached to the next token.
    pub closed spec fn spec_comments(&self) -> Seq<Comment<'a>> {
        self.comments@
    }

    /// The errors waiting to be attached to the next token.
    pub closed spec fn spec_errors(&self) -> Seq<SyntaxError> {
        self.errors@
    }

    /// Is the lexer at the end of its input: is every character consumed?
    pub open spec fn spec_at_end(&self) -> bool {
        self.spec_index() >= self.spec_input().len()
    }

    /// The characters being lexed.
    pub closed spec fn spec_input(&self) -> Seq<char> {
        self.input@
    }

    /// The cursor never passes the end of the input.
    pub proof fn lemma_index_bound(&self)
        requires
            self.wf(),
        ensures
            0 <= self.spec_index() <= self.spec_input().len() < i32::MAX,
    {
    }

    /// At the end of the input, the next token is the end of file.
    pub proof fn lemma_at_end(&self)
        requires
            self.wf(),
            self.spec_at_end(),
        ensures
            token_start(self.spec_input(), self.spec_index()) == self.spec_index(),
            lexeme(self.spec_input(), self.spec_index()).1 == TokenKind::EndOfFile,
    {
        let s = self.input@;
        let i = self.position.index as int;
        assert(skip_class(s, i, CharClass::Whitespace) == i);
    }

    pub fn new(input: &'a [char]) -> (r: Lexer<'a>)
        requires
            input@.len() < i32::MAX,
        ensures
            r.wf(),
            r.spec_input() == input@,
            r.spec_index() == 0,
            r.spec_no_pending(),
            r.spec_at_end() == (input@.len() == 0),
    {
        Lexer {
            input,
            position: LexerPosition::new(input),
            errors: Vec::new(),
            comments: Vec::new(),
        }
    }

    /// Creates a new lexer from the current position.
    /// Allows exploring forwards by tokens.
    fn try_lexer(&self) -> (r: Lexer<'a>)
        requires
            self.wf(),
        ensures
            r.wf(),
            r.input == self.input,
            r.position == self.position,
            r.comments@.len() == 0,
            r.errors@.len() == 0,
    {
        Lexer {
            input: self.input,
            position: self.position,
            errors: Vec::new(),
            comments: Vec::new(),
        }
    }

    /// Used to mark the start of a token.
    fn mark(&self) -> (r: LexerPosition<'a>)
        ensures
            r == self.position,
    {
        self.position
    }

    fn get_position(&self) -> (r: Position)
        ensures
            r == self.position.position,
    {
        self.position.position
    }

    /// The next char in the input.
    /// Does not consume the char.
    fn peek(&mut self) -> (r: char)
        ensures
            *final(self) == *old(self),
            r == old(self).position.spec_peek(),
    {
        self.position.peek()
    }

    /// Consumes the next character in the input
    /// if it matches ch.
    /// Returns whether a char was consumed.
    /// Adds an error if a char was not consumed.
    fn eat(&mut self, ch: char) -> (r: bool)
        requires
            old(self).wf(),
        ensures
            final(self).wf(),
            final(self).input == old(self).input,
            final(self).comments == old(self).comments,
            r == (old(self).position.spec_peek() == ch),
            r ==> final(self).position.index == next_index(
                old(self).input@,
                old(self).position.index as int,
            ),
            r ==> final(self).errors == old(self).errors,
            !r ==> final(self).position == old(self).position,
            !r ==> final(self).errors@ == old(self).errors@.push(
                SyntaxError {
                    error_code: syntax_error::ERROR_EXPECTED_CHAR,
                    messages: final(self).errors@.last().messages,
                },
            ),
            !r ==> final(self).errors@.last().messages@.len() == 1,
            !r ==> final(self).errors@.last().messages@[0].range == (TextRange {
                start: old(self).position.position,
                end: old(self).position.position,
            }),
            !r ==> final(self).errors@.last().messages@[0].message@ == expected_char_message(
                ch,
                old(self).position.spec_peek(),
            ),
    {
        if self.eat_opt(ch) {
            true
        } else {
            let start = self.mark();
            let actual = self.peek();
            let mut message = String::from_str("Expected '");
            push_char(&mut message, ch);
            message.append("'; got '");
            push_char(&mut message, actual);
            message.append("'");
            self.add_error_at(&start, syntax_error::ERROR_EXPECTED_CHAR, message);
            false
        }
    }

    /// Consumes the next character in the input
    /// if it matches ch.
    /// Returns whether a char was consumed.
    fn eat_opt(&mut self, ch: char) -> (r: bool)
        requires
            old(self).wf(),
        ensures
            final(self).wf(),
            final(self).input == old(self).input,
            final(self).comments == old(self).comments,
            final(self).errors == old(self).errors,
            r == (old(self).position.spec_peek() == ch),
            r ==> final(self).position.index == next_index(
                old(self).input@,
                old(self).position.index as int,
            ),
            !r ==> final(self).position == old(self).position,
    {
        if self.peek_char(ch) {
            self.next();
            true
        } else {
            false
        }
    }

    /// Returns the char at offset from the current position.
    /// Does not consume any input.
    fn peek_offset(&self, offset: i32) -> (r: char)
        requires
            self.wf(),
            offset >= 0,
        ensures
            r == char_at(self.input@, self.position.index + offset),
    {
        self.position.peek_offset(offset)
    }

    /// Returns true if the next char matches ch.
    /// Does not consume any input.
    fn peek_char(&self, ch: char) -> (r: bool)
        ensures
            r == (self.position.spec_peek() == ch),
    {
        self.position.peek_char(ch)
    }

    /// Returns true if the next char matches ch, ignoring ASCII case.
    /// Does not consume any input.
    fn peek_char_lower(&self, ch: char) -> (r: bool)
        ensures
            r == chars::spec_eq_ignore_case(self.position.spec_peek(), ch),
    {
        chars::eq_ignore_case(self.position.peek(), ch)
    }

    /// Returns true if the char at offset matches ch.
    /// Does not consume any input.
    fn peek_char_offset(&self, ch: char, offset: i32) -> (r: bool)
        requires
            self.wf(),
            offset >= 0,
        ensures
            r == (char_at(self.input@, self.position.index + offset) == ch),
    {
        self.position.peek_char_offset(ch, offset)
    }

    /// Are we at the end of the input.
    pub fn at_end(&self) -> (r: bool)
        requires
            self.wf(),
        ensures
            r == self.spec_at_end(),
    {
        self.position.at_end()
    }

    /// Returns the next char in the input.
    /// Advances past the char consumed.
    fn next(&mut self) -> (r: char)
        requires
            old(self).wf(),
        ensures
            final(self).wf(),
            final(self).input == old(self).input,
            final(self).comments == old(self).comments,
            final(self).errors == old(self).errors,
            final(self).position.index == next_index(
                old(self).input@,
                old(self).position.index as int,
            ),
            r == old(self).position.spec_peek(),
    {
        let r = self.position.next();
        proof {
            lemma_comments_widen(
                self.input@,
                self.comments@,
                0,
                old(self).position.index as int,
                0,
                self.position.index as int,
            );
        }
        r
    }

    /// Create a token ending at the current position.
    /// start is typically created by calling mark() at the beginning
    /// of the token.
    ///
    /// Adds leading and trailing trivia, as well as any errors.
    fn create_token(&mut self, start: &LexerPosition<'a>, kind: TokenKind) -> (r: Token<'a>)
        requires
            old(self).wf(),
            start.wf(),
            start.source == old(self).input,
            start.index <= old(self).position.index,
        ensures
            final(self).wf(),
            final(self).input == old(self).input,
            final(self).spec_no_pending(),
            r.kind == kind,
            r.value@ == old(self).input@.subrange(
                start.index as int,
                old(self).position.index as int,
            ),
            r.range == (TextRange { start: start.position, end: old(self).position.position }),
            r.leading_comments@ == old(self).comments@,
            comments_within(
                old(self).input@,
                r.trailing_comments@,
                old(self).position.index as int,
                final(self).position.index as int,
            ),
            trails(old(self).input@, r, old(self).position.index as int, final(self).position.index as int),
            old(self).errors@.len() <= r.errors@.len(),
            r.errors@.subrange(0, old(self).errors@.len() as int) == old(self).errors@,
            r.errors@ == old(self).errors@,
            errors_wf(r.errors@),
            old(self).position.index <= final(self).position.index,
            token_start(old(self).input@, final(self).position.index as int) == token_start(
                old(self).input@,
                old(self).position.index as int,
            ),
            trivia_closed(old(self).input@, old(self).position.index as int) ==> r.errors@
                == old(self).errors@,
            old(self).position.spec_peek() == '\0' ==> final(self).position
                == old(self).position,
    {
        let range = self.get_range(start);
        let value = self.get_text(start);
        let mut leading_comments = Vec::new();
        core::mem::swap(&mut leading_comments, &mut self.comments);
        let mut errors = Vec::new();
        core::mem::swap(&mut errors, &mut self.errors);
        // Comments that finish this token's line belong to it as trailing trivia.
        self.lex_trailing_trivia();
        // lex_trailing_trivia may add more errors.
        let ghost before_append = errors@;
        let ghost trailing = self.errors@;
        errors.append(&mut self.errors);
        assert(errors@.subrange(0, before_append.len() as int) =~= before_append);
        assert(trailing.len() == 0 ==> errors@ =~= before_append);
        self.errors = Vec::new();
        let mut trailing_comments = Vec::new();
        core::mem::swap(&mut trailing_comments, &mut self.comments);
        Token { kind, range, value, errors, leading_comments, trailing_comments }
    }

    fn get_range(&self, start: &LexerPosition<'a>) -> (r: TextRange)
        requires
            self.wf(),
            start.wf(),
            start.source == self.input,
            start.index <= self.position.index,
        ensures
            r == (TextRange { start: start.position, end: self.position.position }),
    {
        lexer_position::get_range(start, &self.position)
    }

    fn get_text(&self, start: &LexerPosition<'a>) -> (r: &'a [char])
        requires
            self.wf(),
            start.wf(),
            start.source == self.input,
            start.index <= self.position.index,
        ensures
            r@ == self.input@.subrange(start.index as int, self.position.index as int),
    {
        lexer_position::get_text(start, &self.position)
    }

    /// Adds an error to the list of errors.
    fn add_error(&mut self, error: SyntaxError)
        requires
            old(self).wf(),
            error.messages@.len() > 0,
        ensures
            final(self).wf(),
            final(self).input == old(self).input,
            final(self).position == old(self).position,
            final(self).comments == old(self).comments,
            final(self).errors@ == old(self).errors@.push(error),
    {
        self.errors.push(error)
    }

    /// Create a SyntaxError and add it to the list of errors.
    fn add_error_at(&mut self, start: &LexerPosition<'a>, error_code: i32, message: String)
        requires
            old(self).wf(),
            start.wf(),
            start.source == old(self).input,
            start.index <= old(self).position.index,
        ensures
            final(self).wf(),
            final(self).input == old(self).input,
            final(self).position == old(self).position,
            final(self).comments == old(self).comments,
            final(self).errors@ == old(self).errors@.push(
                SyntaxError { error_code, messages: final(self).errors@.last().messages },
            ),
            final(self).errors@.last().messages@.len() == 1,
            final(self).errors@.last().messages@[0].range == (TextRange {
                start: start.position,
                end: old(self).position.position,
            }),
            final(self).errors@.last().messages@[0].message@ == message@,
    {
        let range = self.get_range(start);
        let mut messages = Vec::new();
        messages.push(Message { range, message });
        self.add_error(SyntaxError { error_code, messages })
    }

    /// Create a SyntaxError, then return an Error Token
    /// containing that SyntaxError.
    fn add_and_create_error(
        &mut self,
        start: &LexerPosition<'a>,
        error_code: i32,
        message: String,
    ) -> (r: Token<'a>)
        requires
            old(self).wf(),
            start.wf(),
            start.source == old(self).input,
            start.index <= old(self).position.index,
            comments_within(old(self).input@, old(self).comments@, 0, start.index as int),
        ensures
            final(self).wf(),
            final(self).input == old(self).input,
            final(self).spec_no_pending(),
            r.kind == TokenKind::Error,
            r.value@ == old(self).input@.subrange(
                start.index as int,
                old(self).position.index as int,
            ),
            r.range == (TextRange { start: start.position, end: old(self).position.position }),
            r.leading_comments@ == old(self).comments@,
            comments_within(
                old(self).input@,
                r.trailing_comments@,
                old(self).position.index as int,
                final(self).position.index as int,
            ),
            trails(old(self).input@, r, old(self).position.index as int, final(self).position.index as int),
            r.errors@.len() > old(self).errors@.len(),
            r.errors@[old(self).errors@.len() as int].error_code == error_code,
            is_error(r.errors@[old(self).errors@.len() as int], error_code, message@, r.range),
            r.errors@.len() == old(self).errors@.len() + 1,
            errors_wf(r.errors@),
            token_start(old(self).input@, final(self).position.index as int) == token_start(
                old(self).input@,
                old(self).position.index as int,
            ),
            old(self).position.index <= final(self).position.index,
            old(self).position.spec_peek() == '\0' ==> final(self).position
                == old(self).position,
    {
        self.add_error_at(start, error_code, message);
        let r = self.create_error_token(start);
        assert(r.errors@[old(self).errors@.len() as int] == r.errors@.subrange(
            0,
            old(self).errors@.len() + 1 as int,
        )[old(self).errors@.len() as int]);
        r
    }

    fn create_error_token(&mut self, start: &LexerPosition<'a>) -> (r: Token<'a>)
        requires
            old(self).wf(),
            start.wf(),
            start.source == old(self).input,
            start.index <= old(self).position.index,
            comments_within(old(self).input@, old(self).comments@, 0, start.index as int),
            old(self).errors@.len() > 0,
        ensures
            final(self).wf(),
            final(self).input == old(self).input,
            final(self).spec_no_pending(),
            r.kind == TokenKind::Error,
            r.value@ == old(self).input@.subrange(
                start.index as int,
                old(self).position.index as int,
            ),
            r.range == (TextRange { start: start.position, end: old(self).position.position }),
            r.leading_comments@ == old(self).comments@,
            comments_within(
                old(self).input@,
                r.trailing_comments@,
                old(self).position.index as int,
                final(self).position.index as int,
            ),
            trails(old(self).input@, r, old(self).position.index as int, final(self).position.index as int),
            old(self).errors@.len() <= r.errors@.len(),
            r.errors@.subrange(0, old(self).errors@.len() as int) == old(self).errors@,
            errors_wf(r.errors@),
            token_start(old(self).input@, final(self).position.index as int) == token_start(
                old(self).input@,
                old(self).position.index as int,
            ),
            old(self).position.index <= final(self).position.index,
            old(self).position.spec_peek() == '\0' ==> final(self).position
                == old(self).position,
            r.errors@ == old(self).errors@,
    {
        self.create_token(start, TokenKind::Error)
    }

    fn add_comment(&mut self, comment: Comment<'a>)
        requires
            old(self).wf(),
            fragment(
                old(self).input@,
                comment.value@,
                comment.range,
                0,
                old(self).position.index as int,
            ),
        ensures
            final(self).wf(),
            final(self).input == old(self).input,
            final(self).position == old(self).position,
            final(self).errors == old(self).errors,
            final(self).comments@ == old(self).comments@.push(comment),
    {
        self.comments.push(comment)
    }

    fn create_comment(&self, start: &LexerPosition<'a>, kind: CommentKind) -> (r: Comment<'a>)
        requires
            self.wf(),
            start.wf(),
            start.source == self.input,
            start.index <= self.position.index,
        ensures
            r.kind == kind,
            fragment(
                self.input@,
                r.value@,
                r.range,
                start.index as int,
                self.position.index as int,
            ),
            is_comment(self.input@, r, (start.index as int, self.position.index as int, kind)),
    {
        let r = Comment { kind, range: self.get_range(start), value: self.get_text(start) };
        proof {
            lemma_fragment(
                self.input@,
                r.value@,
                r.range,
                start.index as int,
                start.index as int,
                self.position.index as int,
                self.position.index as int,
            );
        }
        r
    }

    fn create_and_add_comment(&mut self, start: &LexerPosition<'a>, kind: CommentKind)
        requires
            old(self).wf(),
            start.wf(),
            start.source == old(self).input,
            start.index <= old(self).position.index,
        ensures
            final(self).wf(),
            final(self).input == old(self).input,
            final(self).position == old(self).position,
            final(self).errors == old(self).errors,
            final(self).comments@.len() == old(self).comments@.len() + 1,
            final(self).comments@.drop_last() == old(self).comments@,
            final(self).comments@.last().kind == kind,
            fragment(
                old(self).input@,
                final(self).comments@.last().value@,
                final(self).comments@.last().range,
                start.index as int,
                old(self).position.index as int,
            ),
            is_comment(
                old(self).input@,
                final(self).comments@.last(),
                (start.index as int, old(self).position.index as int, kind),
            ),
    {
        let comment = self.create_comment(start, kind);
        proof {
            let s = self.input@;
            let (a, b) = choose|a: int, b: int|
                #![trigger s.subrange(a, b)]
                start.index <= a <= b <= self.position.index && comment.value@ == s.subrange(a, b)
                    && comment.range == (TextRange {
                    start: position_of(s, a),
                    end: position_of(s, b),
                });
            lemma_fragment(s, comment.value@, comment.range, 0, a, b, self.position.index as int);
        }
        self.add_comment(comment);
        assert(self.comments@.drop_last() =~= old(self).comments@);
    }

    fn set_position(&mut self, position: &LexerPosition<'a>)
        requires
            old(self).wf(),
            position.wf(),
            position.source == old(self).input,
            comments_within(old(self).input@, old(self).comments@, 0, position.index as int),
        ensures
            final(self).wf(),
            final(self).input == old(self).input,
            final(self).position == *position,
            final(self).errors == old(self).errors,
            final(self).comments == old(self).comments,
    {
        self.position = *position;
    }

    fn skip_while(&mut self, class: CharClass) -> (r: bool)
        requires
            old(self).wf(),
        ensures
            old(self).position.index <= final(self).position.index,
            final(self).wf(),
            final(self).input == old(self).input,
            final(self).errors == old(self).errors,
            final(self).comments == old(self).comments,
            final(self).position.index == skip_class(
                old(self).input@,
                old(self).position.index as int,
                class,
            ),
            r == (final(self).position.index != old(self).position.index),
    {
        let r = self.position.skip_while(class);
        proof {
            lemma_skip_class_bounds(self.input@, old(self).position.index as int, class);
            lemma_comments_widen(
                self.input@,
                self.comments@,
                0,
                old(self).position.index as int,
                0,
                self.position.index as int,
            );
        }
        r
    }
}

// Language specific lexing goes here:
impl<'a> Lexer<'a> {
    fn skip_whitespace(&mut self) -> (r: bool)
        requires
            old(self).wf(),
        ensures
            old(self).position.index <= final(self).position.index,
            final(self).wf(),
            final(self).input == old(self).input,
            final(self).errors == old(self).errors,
            final(self).comments == old(self).comments,
            final(self).position.index == skip_class(
                old(self).input@,
                old(self).position.index as int,
                CharClass::Whitespace,
            ),
            r == (final(self).position.index != old(self).position.index),
    {
        self.skip_while(CharClass::Whitespace)
    }

    fn skip_to_end_of_line(&mut self)
        requires
            old(self).wf(),
        ensures
            old(self).position.index <= final(self).position.index,
            final(self).wf(),
            final(self).input == old(self).input,
            final(self).errors == old(self).errors,
            final(self).comments == old(self).comments,
            final(self).position.index == line_end(
                old(self).input@,
                old(self).position.index as int,
            ),
    {
        loop
            invariant
                self.wf(),
                self.input == old(self).input,
                self.errors == old(self).errors,
                self.comments == old(self).comments,
                old(self).position.index <= self.position.index,
                line_end(self.input@, self.position.index as int) == line_end(
                    self.input@,
                    old(self).position.index as int,
                ),
            decreases self.input@.len() - self.position.index,
        {
            if self.at_end() {
                return ;
            }
            let ch = self.next();
            match ch {
                chars::CARRIAGE_RETURN | chars::LINE_FEED => return ,
                _ => (),
            }
        }
    }

    fn skip_delimited_comment_tail(&mut self, start: &LexerPosition<'a>)
        requires
            old(self).wf(),
            start.wf(),
            start.source == old(self).input,
            start.index <= old(self).position.index,
        ensures
            final(self).wf(),
            final(self).input == old(self).input,
            final(self).comments == old(self).comments,
            final(self).position.index == comment_tail_end(
                old(self).input@,
                old(self).position.index as int,
            ),
            comment_tail_closed(old(self).input@, old(self).position.index as int)
                ==> final(self).errors == old(self).errors,
            !comment_tail_closed(old(self).input@, old(self).position.index as int) ==> {
                &&& final(self).errors@.len() == old(self).errors@.len() + 1
                &&& final(self).errors@.drop_last() == old(self).errors@
                &&& final(self).errors@.last().error_code
                    == syntax_error::ERROR_UNTERMINATED_DELIMITED_COMMENT
                &&& is_error(
                    final(self).errors@.last(),
                    syntax_error::ERROR_UNTERMINATED_DELIMITED_COMMENT,
                    "Unterminated delimited comment."@,
                    TextRange {
                        start: start.position,
                        end: position_of(
                            old(self).input@,
                            comment_tail_end(old(self).input@, old(self).position.index as int),
                        ),
                    },
                )
            },
    {
        loop
            invariant
                self.wf(),
                self.input == old(self).input,
                self.errors == old(self).errors,
                self.comments == old(self).comments,
                start.wf(),
                start.source == self.input,
                start.index <= self.position.index,
                comment_tail_end(self.input@, self.position.index as int) == comment_tail_end(
                    self.input@,
                    old(self).position.index as int,
                ),
                comment_tail_closed(self.input@, self.position.index as int)
                    == comment_tail_closed(self.input@, old(self).position.index as int),
            decreases self.input@.len() - self.position.index,
        {
            if self.at_end() {
                self.add_error_at(
                    start,
                    syntax_error::ERROR_UNTERMINATED_DELIMITED_COMMENT,
                    String::from_str("Unterminated delimited comment."),
                );
                assert(self.errors@.drop_last() =~= old(self).errors@);
                return ;
            } else if self.peek_char('*') && {
                proof {
                    lemma_nth_one(self.input@, self.position.index as int);
                }
                self.peek_char_offset('/', 1)
            } {
                self.next();
                self.next();
                return ;
            } else {
                self.next();
            }
        }
    }

    /// Consume any comments trailing the most recently consumed token.
    /// Must be called immediately after the last significant char in a
    /// token is consumed.
    fn lex_trailing_trivia(&mut self)
        requires
            old(self).wf(),
            old(self).comments@.len() == 0,
            old(self).errors@.len() == 0,
        ensures
            final(self).wf(),
            final(self).input == old(self).input,
            old(self).position.index <= final(self).position.index,
            comments_within(
                old(self).input@,
                final(self).comments@,
                old(self).position.index as int,
                final(self).position.index as int,
            ),
            old(self).position.spec_peek() == '\0' ==> final(self).position
                == old(self).position,
            token_start(old(self).input@, final(self).position.index as int) == token_start(
                old(self).input@,
                old(self).position.index as int,
            ),
            trivia_closed(old(self).input@, old(self).position.index as int)
                ==> final(self).errors@.len() == 0,
            final(self).errors@.len() == 0,
            final(self).position.index == trailing_trivia(
                old(self).input@,
                old(self).position.index as int,
            ).0,
            comments_are(
                old(self).input@,
                final(self).comments@,
                trailing_trivia(old(self).input@, old(self).position.index as int).1,
            ),
    {
        let start = self.mark();
        let ghost s = self.input@;
        let ghost line = start.position.line;
        let ghost mut ts: Seq<(int, int, CommentKind)> = Seq::empty();
        assert(trailing_from(s, line, start.index as int) == prepend_comments(
            ts,
            trailing_from(s, line, start.index as int),
        )) by {
            if let Some((e, rest)) = trailing_from(s, line, start.index as int) {
                assert(ts + rest =~= rest);
            }
        }
        loop
            invariant
                self.wf(),
                self.input == old(self).input,
                s == self.input@,
                start == old(self).position,
                start.wf(),
                start.source == self.input,
                start.index <= self.position.index,
                token_start(s, self.position.index as int) == token_start(s, start.index as int),
                trivia_closed(s, start.index as int) ==> trivia_closed(s, self.position.index as int)
                    && self.errors@.len() == 0,
                comments_within(s, self.comments@, start.index as int, self.position.index as int),
                start.spec_peek() == '\0' ==> self.position == start && self.comments@.len()
                    == 0,
                line == position_of(s, start.index as int).line,
                self.errors@.len() > 0 ==> self.position.index == s.len() && position_of(
                    s,
                    s.len() as int,
                ).line == line,
                comments_are(s, self.comments@, ts),
                trailing_from(s, line, start.index as int) == prepend_comments(
                    ts,
                    trailing_from(s, line, self.position.index as int),
                ),
            decreases s.len() - self.position.index,
        {
            let whitespace_start = self.mark();
            self.skip_whitespace();
            proof {
                lemma_skip_class_bounds(s, whitespace_start.index as int, CharClass::Whitespace);
                lemma_token_start_after_whitespace(s, whitespace_start.index as int);
                lemma_trivia_closed_after_whitespace(s, whitespace_start.index as int);
                lemma_skip_class_idempotent(s, whitespace_start.index as int, CharClass::Whitespace);
            }
            let ghost p = whitespace_start.index as int;
            let ghost cs0 = self.comments@;
            if start.line() != self.position.line() {
                proof {
                    assert(trailing_from(s, line, p) == Some((p, Seq::<(int, int, CommentKind)>::empty())));
                    assert(ts + Seq::<(int, int, CommentKind)>::empty() =~= ts);
                }
                self.set_position(&whitespace_start);
                return ;
            } else if self.peek_char('-') && {
                proof {
                    lemma_nth_one(s, self.position.index as int);
                }
                self.peek_char_offset('-', 1)
            } {
                let start_comment = self.mark();
                self.skip_to_end_of_line();
                proof {
                    let j = start_comment.index as int;
                    assert(line_end(s, j) == line_end(s, j + 1));
                    assert(line_end(s, j + 1) == line_end(s, j + 2));
                    lemma_line_end_bounds(s, start_comment.index as int);
                    lemma_comments_widen(
                        s,
                        self.comments@,
                        start.index as int,
                        whitespace_start.index as int,
                        start.index as int,
                        self.position.index as int,
                    );
                }
                self.create_and_add_comment(&start_comment, CommentKind::LineComment);
                proof {
                    let w = start_comment.index as int;
                    let t = (w, line_end(s, w + 2), CommentKind::LineComment);
                    assert(self.comments@ =~= cs0.push(self.comments@.last()));
                    lemma_comments_are_push(s, cs0, ts, self.comments@.last(), t);
                    assert(trailing_from(s, line, p) == Some((line_end(s, w + 2), seq![t])));
                    assert(ts + seq![t] =~= ts.push(t));
                    ts = ts.push(t);
                    let c = self.comments@.last();
                    let (a, b) = choose|a: int, b: int|
                        #![trigger s.subrange(a, b)]
                        start_comment.index <= a <= b <= self.position.index && c.value@
                            == s.subrange(a, b) && c.range == (TextRange {
                            start: position_of(s, a),
                            end: position_of(s, b),
                        });
                    lemma_fragment(
                        s,
                        c.value@,
                        c.range,
                        start.index as int,
                        a,
                        b,
                        self.position.index as int,
                    );
                    assert forall|k: int| 0 <= k < self.comments@.len() implies fragment(
                        s,
                        #[trigger] self.comments@[k].value@,
                        self.comments@[k].range,
                        start.index as int,
                        self.position.index as int,
                    ) by {
                        if k < self.comments@.len() - 1 {
                            assert(self.comments@[k] == self.comments@.drop_last()[k]);
                        }
                    }
                }
                return ;
            } else if self.peek_char('/') && {
                proof {
                    lemma_nth_one(s, self.position.index as int);
                }
                self.peek_char_offset('*', 1)
            } {
                let start_comment = self.mark();
                let ghost errors_before = self.errors@;
                self.next();
                self.next();
                self.skip_delimited_comment_tail(&start_comment);
                proof {
                    let j = start_comment.index as int;
                    lemma_comment_tail_end_bounds(s, j + 2);
                    lemma_comments_widen(
                        s,
                        self.comments@,
                        start.index as int,
                        whitespace_start.index as int,
                        start.index as int,
                        self.position.index as int,
                    );
                }
                proof {
                    if !comment_tail_closed(s, start_comment.index + 2) {
                        lemma_unclosed_comment_end(s, start_comment.index + 2);
                    }
                }
                if start.line() == self.position.line() {
                    // multiline comment, starting on the same line as the token
                    // and ends on the same line. Consume the comment.
                    self.create_and_add_comment(&start_comment, CommentKind::DelimitedComment);
                    proof {
                        let w = start_comment.index as int;
                        let b = self.position.index as int;
                        let t = (w, b, CommentKind::DelimitedComment);
                        assert(self.comments@ =~= cs0.push(self.comments@.last()));
                        lemma_comments_are_push(s, cs0, ts, self.comments@.last(), t);
                        assert(trailing_from(s, line, p) == prepend_comments(
                            seq![t],
                            trailing_from(s, line, b),
                        ));
                        lemma_prepend_push(ts, t, trailing_from(s, line, b));
                        ts = ts.push(t);
                        let c = self.comments@.last();
                        let (a, b) = choose|a: int, b: int|
                            #![trigger s.subrange(a, b)]
                            start_comment.index <= a <= b <= self.position.index && c.value@
                                == s.subrange(a, b) && c.range == (TextRange {
                                start: position_of(s, a),
                                end: position_of(s, b),
                            });
                        lemma_fragment(
                            s,
                            c.value@,
                            c.range,
                            start.index as int,
                            a,
                            b,
                            self.position.index as int,
                        );
                        assert forall|k: int| 0 <= k < self.comments@.len() implies fragment(
                            s,
                            #[trigger] self.comments@[k].value@,
                            self.comments@[k].range,
                            start.index as int,
                            self.position.index as int,
                        ) by {
                            if k < self.comments@.len() - 1 {
                                assert(self.comments@[k] == self.comments@.drop_last()[k]);
                            }
                        }
                    }
                } else {
                    // multiline comment, starting on the same line as the token
                    // but ends on a different line.
                    // Keep any previous comments on this line, but rewind before this
                    // comment so that it gets attached to the next token.
                    proof {
                        assert(trailing_from(s, line, p) == Some((p, Seq::<(int, int, CommentKind)>::empty())));
                        assert(ts + Seq::<(int, int, CommentKind)>::empty() =~= ts);
                    }
                    self.set_position(&whitespace_start);
                    // Need to clear errors, which may only have occured during this
                    // delimited comment tail, which we're rewinding over.
                    self.errors = Vec::new();
                    return ;
                }
            } else {
                // new token on the same line as the completed token
                // discard any consumed trivia.
                assert(trailing_from(s, line, p) is None);
                self.comments = Vec::new();
                self.set_position(&start);
                self.errors = Vec::new();
                return ;
            }
        }
    }

    fn lex_string_literal(&mut self, start: &LexerPosition<'a>) -> (r: Token<'a>)
        requires
            old(self).wf(),
            start.wf(),
            start.source == old(self).input,
            start.index <= old(self).position.index,
            comments_within(old(self).input@, old(self).comments@, 0, start.index as int),
        ensures
            final(self).wf(),
            final(self).input == old(self).input,
            final(self).spec_no_pending(),
            r.kind == (if quoted_closed(old(self).input@, old(self).position.index as int, '\'') {
                TokenKind::String
            } else {
                TokenKind::Error
            }),
            r.value@ == old(self).input@.subrange(
                start.index as int,
                quoted_end(old(self).input@, old(self).position.index as int, '\''),
            ),
            r.range == (TextRange {
                start: start.position,
                end: position_of(
                    old(self).input@,
                    quoted_end(old(self).input@, old(self).position.index as int, '\''),
                ),
            }),
            r.leading_comments@ == old(self).comments@,
            comments_within(
                old(self).input@,
                r.trailing_comments@,
                quoted_end(old(self).input@, old(self).position.index as int, '\''),
                final(self).position.index as int,
            ),
            trails(old(self).input@, r, quoted_end(old(self).input@, old(self).position.index as int, '\''), final(self).position.index as int),
            token_start(old(self).input@, final(self).position.index as int) == token_start(
                old(self).input@,
                quoted_end(old(self).input@, old(self).position.index as int, '\''),
            ),
            old(self).errors@.len() <= r.errors@.len(),
            errors_wf(r.errors@),
            r.kind == TokenKind::Error ==> r.errors@.len() > 0,
            quoted_end(old(self).input@, old(self).position.index as int, '\'')
                <= final(self).position.index,
            quoted_closed(old(self).input@, old(self).position.index as int, '\'') && trivia_closed(old(self).input@, quoted_end(old(self).input@, old(self).position.index as int, '\''))
                ==> r.errors@ == old(self).errors@,
            !quoted_closed(old(self).input@, old(self).position.index as int, '\'') ==> r.errors@.len()
                == old(self).errors@.len() + 1 && is_error(
                r.errors@[old(self).errors@.len() as int],
                syntax_error::ERROR_UNTERMINATED_STRING_LITERAL,
                "Unterminated string literal"@,
                r.range,
            ),
    {
        self.lex_any_string_literal(
            start,
            '\'',
            TokenKind::String,
            syntax_error::ERROR_UNTERMINATED_STRING_LITERAL,
            String::from_str("Unterminated string literal"),
        )
    }

    // UNICODE_STRING
    // : 'U&\'' ( ~'\'' | '\'\'' )* '\''
    // U& already consumed
    fn lex_unicode_string_literal(&mut self, start: &LexerPosition<'a>) -> (r: Token<'a>)
        requires
            old(self).wf(),
            start.wf(),
            start.source == old(self).input,
            start.index <= old(self).position.index,
            comments_within(old(self).input@, old(self).comments@, 0, start.index as int),
        ensures
            ({
                let s = old(self).input@;
                let i = old(self).position.index as int;
                let body = if char_at(s, i) == '\'' {
                    i + 1
                } else {
                    i
                };
                &&& final(self).wf()
                &&& final(self).input == old(self).input
                &&& final(self).spec_no_pending()
                &&& r.kind == (if quoted_closed(s, body, '\'') {
                    TokenKind::UnicodeString
                } else {
                    TokenKind::Error
                })
                &&& r.value@ == s.subrange(start.index as int, quoted_end(s, body, '\''))
                &&& r.range == (TextRange {
                    start: start.position,
                    end: position_of(s, quoted_end(s, body, '\'')),
                })
                &&& r.leading_comments@ == old(self).comments@
                &&& comments_within(
                    s,
                    r.trailing_comments@,
                    quoted_end(s, body, '\''),
                    final(self).position.index as int,
                )
                &&& trails(s, r, quoted_end(s, body, '\''), final(self).position.index as int)
                &&& errors_wf(r.errors@)
                &&& r.kind == TokenKind::Error ==> r.errors@.len() > 0
                &&& quoted_end(s, body, '\'') <= final(self).position.index
                &&& token_start(s, final(self).position.index as int) == token_start(
                    s,
                    quoted_end(s, body, '\''),
                )
            }),
            char_at(old(self).input@, old(self).position.index as int) == '\'' && quoted_closed(old(self).input@, old(self).position.index as int + 1, '\'') && trivia_closed(
                old(self).input@,
                quoted_end(old(self).input@, old(self).position.index as int + 1, '\''),
            ) ==> r.errors@ == old(self).errors@,
    {
        self.eat('\'');
        self.lex_any_string_literal(
            start,
            '\'',
            TokenKind::UnicodeString,
            syntax_error::ERROR_UNTERMINATED_STRING_LITERAL,
            String::from_str("Unterminated string literal"),
        )
    }

    fn lex_binary_literal(&mut self, start: &LexerPosition<'a>) -> (r: Token<'a>)
        requires
            old(self).wf(),
            start.wf(),
            start.source == old(self).input,
            start.index <= old(self).position.index,
            comments_within(old(self).input@, old(self).comments@, 0, start.index as int),
        ensures
            final(self).wf(),
            final(self).input == old(self).input,
            final(self).spec_no_pending(),
            r.kind == (if quoted_closed(old(self).input@, old(self).position.index as int, '\'') {
                TokenKind::BinaryLiteral
            } else {
                TokenKind::Error
            }),
            r.value@ == old(self).input@.subrange(
                start.index as int,
                quoted_end(old(self).input@, old(self).position.index as int, '\''),
            ),
            r.range == (TextRange {
                start: start.position,
                end: position_of(
                    old(self).input@,
                    quoted_end(old(self).input@, old(self).position.index as int, '\''),
                ),
            }),
            r.leading_comments@ == old(self).comments@,
            comments_within(
                old(self).input@,
                r.trailing_comments@,
                quoted_end(old(self).input@, old(self).position.index as int, '\''),
                final(self).position.index as int,
            ),
            trails(old(self).input@, r, quoted_end(old(self).input@, old(self).position.index as int, '\''), final(self).position.index as int),
            token_start(old(self).input@, final(self).position.index as int) == token_start(
                old(self).input@,
                quoted_end(old(self).input@, old(self).position.index as int, '\''),
            ),
            old(self).errors@.len() <= r.errors@.len(),
            errors_wf(r.errors@),
            r.kind == TokenKind::Error ==> r.errors@.len() > 0,
            quoted_end(old(self).input@, old(self).position.index as int, '\'')
                <= final(self).position.index,
            quoted_closed(old(self).input@, old(self).position.index as int, '\'') && trivia_closed(old(self).input@, quoted_end(old(self).input@, old(self).position.index as int, '\''))
                ==> r.errors@ == old(self).errors@,
    {
        self.lex_any_string_literal(
            start,
            '\'',
            TokenKind::BinaryLiteral,
            syntax_error::ERROR_UNTERMINATED_STRING_LITERAL,
            String::from_str("Unterminated string literal"),
        )
    }

    // STRING
    // : '\'' ( ~'\'' | '\'\'' )* '\''
    // leading quote already consumed.
    // Quoted identifiers use the same shape with '"' and '`'.
    fn lex_any_string_literal(
        &mut self,
        start: &LexerPosition<'a>,
        quote: char,
        kind: TokenKind,
        error_code: i32,
        message: String,
    ) -> (r: Token<'a>)
        requires
            old(self).wf(),
            start.wf(),
            start.source == old(self).input,
            start.index <= old(self).position.index,
            comments_within(old(self).input@, old(self).comments@, 0, start.index as int),
            quote != '\r',
            quote != '\0',
        ensures
            final(self).wf(),
            final(self).input == old(self).input,
            final(self).spec_no_pending(),
            r.kind == (if quoted_closed(old(self).input@, old(self).position.index as int, quote) {
                kind
            } else {
                TokenKind::Error
            }),
            r.value@ == old(self).input@.subrange(
                start.index as int,
                quoted_end(old(self).input@, old(self).position.index as int, quote),
            ),
            r.range == (TextRange {
                start: start.position,
                end: position_of(
                    old(self).input@,
                    quoted_end(old(self).input@, old(self).position.index as int, quote),
                ),
            }),
            r.leading_comments@ == old(self).comments@,
            comments_within(
                old(self).input@,
                r.trailing_comments@,
                quoted_end(old(self).input@, old(self).position.index as int, quote),
                final(self).position.index as int,
            ),
            trails(old(self).input@, r, quoted_end(old(self).input@, old(self).position.index as int, quote), final(self).position.index as int),
            token_start(old(self).input@, final(self).position.index as int) == token_start(
                old(self).input@,
                quoted_end(old(self).input@, old(self).position.index as int, quote),
            ),
            old(self).errors@.len() <= r.errors@.len(),
            errors_wf(r.errors@),
            !quoted_closed(old(self).input@, old(self).position.index as int, quote) ==> (
            r.errors@.len() > old(self).errors@.len() && r.errors@[old(self).errors@.len() as int].error_code
                == error_code),
            !quoted_closed(old(self).input@, old(self).position.index as int, quote) ==> r.errors@.len()
                == old(self).errors@.len() + 1 && is_error(
                r.errors@[old(self).errors@.len() as int],
                error_code,
                message@,
                r.range,
            ),
            quoted_end(old(self).input@, old(self).position.index as int, quote)
                <= final(self).position.index,
            quoted_closed(old(self).input@, old(self).position.index as int, quote) && trivia_closed(old(self).input@, quoted_end(old(self).input@, old(self).position.index as int, quote))
                ==> r.errors@ == old(self).errors@,
    {
        let ghost s = self.input@;
        let ghost i0 = self.position.index as int;
        loop
            invariant
                self.wf(),
                self.input == old(self).input,
                s == self.input@,
                self.comments == old(self).comments,
                self.errors == old(self).errors,
                start.wf(),
                start.source == self.input,
                start.index <= self.position.index,
                comments_within(s, self.comments@, 0, start.index as int),
                quote != '\r',
                quote != '\0',
                i0 == old(self).position.index,
                quoted_end(s, self.position.index as int, quote) == quoted_end(s, i0, quote),
                quoted_closed(s, self.position.index as int, quote) == quoted_closed(
                    s,
                    i0,
                    quote,
                ),
            decreases s.len() - self.position.index,
        {
            if self.at_end() {
                assert(quoted_end(s, self.position.index as int, quote)
                    == self.position.index as int);
                assert(!quoted_closed(s, self.position.index as int, quote));
                proof {
                    lemma_trivia_closed_at_end(s);
                }
                return self.add_and_create_error(start, error_code, message);
            }
            let ghost i = self.position.index as int;
            if self.eat_opt(quote) {
                if self.peek_char(quote) {
                    self.next();
                    assert(quoted_end(s, i, quote) == quoted_end(s, i + 2, quote));
                    assert(quoted_closed(s, i, quote) == quoted_closed(s, i + 2, quote));
                } else {
                    assert(quoted_end(s, i, quote) == i + 1);
                    assert(quoted_closed(s, i, quote));
                    return self.create_token(start, kind);
                }
            } else {
                self.next();
                assert(quoted_end(s, i, quote) == quoted_end(s, next_index(s, i), quote));
                assert(quoted_closed(s, i, quote) == quoted_closed(s, next_index(s, i), quote));
            }
        }
    }

    fn lex_quoted_identifier(&mut self, start: &LexerPosition<'a>) -> (r: Token<'a>)
        requires
            old(self).wf(),
            start.wf(),
            start.source == old(self).input,
            start.index <= old(self).position.index,
            comments_within(old(self).input@, old(self).comments@, 0, start.index as int),
        ensures
            final(self).wf(),
            final(self).input == old(self).input,
            final(self).spec_no_pending(),
            r.kind == (if quoted_closed(old(self).input@, old(self).position.index as int, '"') {
                TokenKind::QuotedIdentifier
            } else {
                TokenKind::Error
            }),
            r.value@ == old(self).input@.subrange(
                start.index as int,
                quoted_end(old(self).input@, old(self).position.index as int, '"'),
            ),
            r.range == (TextRange {
                start: start.position,
                end: position_of(
                    old(self).input@,
                    quoted_end(old(self).input@, old(self).position.index as int, '"'),
                ),
            }),
            r.leading_comments@ == old(self).comments@,
            comments_within(
                old(self).input@,
                r.trailing_comments@,
                quoted_end(old(self).input@, old(self).position.index as int, '"'),
                final(self).position.index as int,
            ),
            trails(old(self).input@, r, quoted_end(old(self).input@, old(self).position.index as int, '"'), final(self).position.index as int),
            token_start(old(self).input@, final(self).position.index as int) == token_start(
                old(self).input@,
                quoted_end(old(self).input@, old(self).position.index as int, '"'),
            ),
            old(self).errors@.len() <= r.errors@.len(),
            errors_wf(r.errors@),
            r.kind == TokenKind::Error ==> r.errors@.len() > 0,
            quoted_end(old(self).input@, old(self).position.index as int, '"')
                <= final(self).position.index,
            quoted_closed(old(self).input@, old(self).position.index as int, '"') && trivia_closed(old(self).input@, quoted_end(old(self).input@, old(self).position.index as int, '"'))
                ==> r.errors@ == old(self).errors@,
            !quoted_closed(old(self).input@, old(self).position.index as int, '"') ==> r.errors@.len()
                == old(self).errors@.len() + 1 && is_error(
                r.errors@[old(self).errors@.len() as int],
                syntax_error::ERROR_UNTERMINATED_QUOTED_IDENTIFIER,
                "Unterminated quoted identifier"@,
                r.range,
            ),
    {
        self.lex_any_string_literal(
            start,
            '"',
            TokenKind::QuotedIdentifier,
            syntax_error::ERROR_UNTERMINATED_QUOTED_IDENTIFIER,
            String::from_str("Unterminated quoted identifier"),
        )
    }

    fn lex_back_quoted_identifier(&mut self, start: &LexerPosition<'a>) -> (r: Token<'a>)
        requires
            old(self).wf(),
            start.wf(),
            start.source == old(self).input,
            start.index <= old(self).position.index,
            comments_within(old(self).input@, old(self).comments@, 0, start.index as int),
        ensures
            final(self).wf(),
            final(self).input == old(self).input,
            final(self).spec_no_pending(),
            r.kind == (if quoted_closed(old(self).input@, old(self).position.index as int, '`') {
                TokenKind::BackquotedIdentifier
            } else {
                TokenKind::Error
            }),
            r.value@ == old(self).input@.subrange(
                start.index as int,
                quoted_end(old(self).input@, old(self).position.index as int, '`'),
            ),
            r.range == (TextRange {
                start: start.position,
                end: position_of(
                    old(self).input@,
                    quoted_end(old(self).input@, old(self).position.index as int, '`'),
                ),
            }),
            r.leading_comments@ == old(self).comments@,
            comments_within(
                old(self).input@,
                r.trailing_comments@,
                quoted_end(old(self).input@, old(self).position.index as int, '`'),
                final(self).position.index as int,
            ),
            trails(old(self).input@, r, quoted_end(old(self).input@, old(self).position.index as int, '`'), final(self).position.index as int),
            token_start(old(self).input@, final(self).position.index as int) == token_start(
                old(self).input@,
                quoted_end(old(self).input@, old(self).position.index as int, '`'),
            ),
            old(self).errors@.len() <= r.errors@.len(),
            errors_wf(r.errors@),
            r.kind == TokenKind::Error ==> r.errors@.len() > 0,
            quoted_end(old(self).input@, old(self).position.index as int, '`')
                <= final(self).position.index,
            quoted_closed(old(self).input@, old(self).position.index as int, '`') && trivia_closed(old(self).input@, quoted_end(old(self).input@, old(self).position.index as int, '`'))
                ==> r.errors@ == old(self).errors@,
            !quoted_closed(old(self).input@, old(self).position.index as int, '`') ==> r.errors@.len()
                == old(self).errors@.len() + 1 && is_error(
                r.errors@[old(self).errors@.len() as int],
                syntax_error::ERROR_UNTERMINATED_BACK_QUOTED_IDENTIFIER,
                "Unterminated back quoted identifier"@,
                r.range,
            ),
    {
        self.lex_any_string_literal(
            start,
            '`',
            TokenKind::BackquotedIdentifier,
            syntax_error::ERROR_UNTERMINATED_BACK_QUOTED_IDENTIFIER,
            String::from_str("Unterminated back quoted identifier"),
        )
    }
}

/// The facts every token-producing step establishes: `r` is the token for the
/// text `a..e` of `s` with kind `k`, and its trivia lie before and after that text.
pub open spec fn lexed(
    s: Seq<char>,
    r: Token,
    pending: Seq<Comment>,
    a: int,
    e: int,
    k: TokenKind,
    end: int,
) -> bool {
    &&& r.kind == k
    &&& r.value@ == s.subrange(a, e)
    &&& r.range == (TextRange { start: position_of(s, a), end: position_of(s, e) })
    &&& r.leading_comments@ == pending
    &&& comments_within(s, r.trailing_comments@, e, end)
    &&& trails(s, r, e, end)
    &&& e <= end
    &&& token_start(s, end) == token_start(s, e)
    &&& errors_wf(r.errors@)
    &&& (k == TokenKind::Error ==> r.errors@.len() > 0)
}

/// Whether the comments met are closed does not change over whitespace.
pub proof fn lemma_trivia_closed_after_whitespace(s: Seq<char>, i: int)
    requires
        0 <= i <= s.len(),
    ensures
        trivia_closed(s, skip_class(s, i, CharClass::Whitespace)) == trivia_closed(s, i),
{
    lemma_skip_class_bounds(s, i, CharClass::Whitespace);
    lemma_skip_class_idempotent(s, i, CharClass::Whitespace);
}

/// Comments within `lo..hi`, with one more from `lo..hi` at their end, are within `lo..hi`.
proof fn lemma_comments_push(s: Seq<char>, cs: Seq<Comment>, lo: int, hi: int)
    requires
        cs.len() > 0,
        comments_within(s, cs.drop_last(), lo, hi),
        fragment(s, cs.last().value@, cs.last().range, lo, hi),
    ensures
        comments_within(s, cs, lo, hi),
{
    assert forall|k: int| 0 <= k < cs.len() implies fragment(s, #[trigger] cs[k].value@, cs[k].range, lo, hi) by {
        if k < cs.len() - 1 {
            assert(cs[k] == cs.drop_last()[k]);
        }
    }
}

/// A token's leading comments come before it, so its full start is at or before its start.
pub proof fn lemma_leading_before(s: Seq<char>, cs: Seq<Comment>, a: int)
    requires
        comments_within(s, cs, 0, a),
        cs.len() > 0,
        0 <= a < i32::MAX,
    ensures
        position_le(cs[0].range.start, position_of(s, a)),
{
    assert(fragment(s, cs[0].value@, cs[0].range, 0, a));
    let (x, y) = choose|x: int, y: int|
        #![trigger s.subrange(x, y)]
        0 <= x <= y <= a && cs[0].value@ == s.subrange(x, y) && cs[0].range == (TextRange {
            start: position_of(s, x),
            end: position_of(s, y),
        });
    lemma_position_monotonic(s, x, a);
}

/// A token's trailing comments come after it, so its full end is at or after its end.
pub proof fn lemma_trailing_after(s: Seq<char>, cs: Seq<Comment>, e: int, hi: int)
    requires
        comments_within(s, cs, e, hi),
        cs.len() > 0,
        0 <= e,
        hi < i32::MAX,
    ensures
        position_le(position_of(s, e), cs.last().range.end),
{
    assert(fragment(s, cs[cs.len() - 1].value@, cs[cs.len() - 1].range, e, hi));
    let (x, y) = choose|x: int, y: int|
        #![trigger s.subrange(x, y)]
        e <= x <= y <= hi && cs[cs.len() - 1].value@ == s.subrange(x, y) && cs[cs.len()
            - 1].range == (TextRange { start: position_of(s, x), end: position_of(s, y) });
    lemma_position_monotonic(s, e, y);
}

/// Skipping a class of characters where none is left skips nothing.
pub proof fn lemma_skip_class_idempotent(s: Seq<char>, i: int, class: CharClass)
    requires
        0 <= i <= s.len(),
    ensures
        skip_class(s, skip_class(s, i, class), class) == skip_class(s, i, class),
    decreases s.len() - i,
{
    if 0 <= i < s.len() && in_class(class, s[i]) {
        lemma_skip_class_idempotent(s, next_index(s, i), class);
    }
}

/// Lexing resumes at the same token from a point skipped over as whitespace.
pub proof fn lemma_token_start_after_whitespace(s: Seq<char>, i: int)
    requires
        0 <= i <= s.len(),
    ensures
        token_start(s, skip_class(s, i, CharClass::Whitespace)) == token_start(s, i),
{
    lemma_skip_class_bounds(s, i, CharClass::Whitespace);
    lemma_skip_class_idempotent(s, i, CharClass::Whitespace);
}

impl<'a> Lexer<'a> {
    fn skip_digits(&mut self)
        requires
            old(self).wf(),
        ensures
            old(self).position.index <= final(self).position.index,
            final(self).wf(),
            final(self).input == old(self).input,
            final(self).errors == old(self).errors,
            final(self).comments == old(self).comments,
            final(self).position.index == skip_class(
                old(self).input@,
                old(self).position.index as int,
                CharClass::Digit,
            ),
    {
        self.skip_while(CharClass::Digit);
    }

    fn peek_fraction(&self) -> (r: bool)
        ensures
            r == (self.position.spec_peek() == '.'),
    {
        self.peek_char('.')
    }

    fn peek_exponent(&self) -> (r: bool)
        requires
            self.wf(),
        ensures
            r == has_exponent(self.input@, self.position.index as int),
    {
        let ghost s = self.input@;
        let ghost i = self.position.index as int;
        proof {
            lemma_nth_one(s, i);
            lemma_nth_two(s, i);
        }
        self.peek_char_lower('e') && {
            let next_char = self.peek_offset(1);
            chars::is_digit(next_char) || (chars::is_sign(next_char) && chars::is_digit(
                self.peek_offset(2),
            ))
        }
    }

    fn skip_fraction(&mut self) -> (r: bool)
        requires
            old(self).wf(),
        ensures
            old(self).position.index <= final(self).position.index,
            final(self).wf(),
            final(self).input == old(self).input,
            final(self).errors == old(self).errors,
            final(self).comments == old(self).comments,
            r == (old(self).position.spec_peek() == '.'),
            final(self).position.index == (if r {
                skip_class(old(self).input@, old(self).position.index + 1, CharClass::Digit)
            } else {
                old(self).position.index as int
            }),
    {
        if self.peek_fraction() {
            // '.'
            self.next();
            self.skip_digits();
            true
        } else {
            false
        }
    }

    fn skip_exponent(&mut self) -> (r: bool)
        requires
            old(self).wf(),
        ensures
            old(self).position.index <= final(self).position.index,
            final(self).wf(),
            final(self).input == old(self).input,
            final(self).errors == old(self).errors,
            final(self).comments == old(self).comments,
            r == has_exponent(old(self).input@, old(self).position.index as int),
            final(self).position.index == exponent_end(
                old(self).input@,
                old(self).position.index as int,
            ),
    {
        if self.peek_exponent() {
            // E
            self.next();
            // sign or first digit
            self.next();
            // remaining digits
            self.skip_digits();
            true
        } else {
            false
        }
    }

    fn lex_number(&mut self, start: &LexerPosition<'a>, start_char: char) -> (r: Token<'a>)
        requires
            old(self).wf(),
            start.wf(),
            start.source == old(self).input,
            start.index + 1 == old(self).position.index,
            start_char == old(self).input@[start.index as int],
            comments_within(old(self).input@, old(self).comments@, 0, start.index as int),
        ensures
            final(self).wf(),
            final(self).input == old(self).input,
            final(self).spec_no_pending(),
            lexed(
                old(self).input@,
                r,
                old(self).comments@,
                start.index as int,
                number_lexeme(old(self).input@, start.index as int).0,
                number_lexeme(old(self).input@, start.index as int).1,
                final(self).position.index as int,
            ),
            trivia_closed(old(self).input@, number_lexeme(old(self).input@, start.index as int).0) ==> r.errors@ == old(self).errors@,
    {
        let ghost s = self.input@;
        let ghost a = start.index as int;
        let kind = if start_char == '.' {
            self.skip_digits();
            if self.skip_exponent() {
                TokenKind::Double
            } else {
                TokenKind::Decimal
            }
        } else {
            self.skip_digits();
            if self.peek_fraction() || self.peek_exponent() {
                self.skip_fraction();
                if self.skip_exponent() {
                    TokenKind::Double
                } else {
                    TokenKind::Decimal
                }
            } else {
                if self.skip_while(CharClass::IdentifierPart) {
                    TokenKind::DigitIdentifier
                } else {
                    TokenKind::Integer
                }
            }
        };
        proof {
            lemma_skip_class_bounds(s, a + 1, CharClass::Digit);
        }
        self.create_token(start, kind)
    }

    /// Used for multi-word tokens; so does not check for comments.
    fn eat_keyword(&mut self, keyword: TokenKind) -> (r: bool)
        requires
            old(self).wf(),
        ensures
            final(self).wf(),
            final(self).input == old(self).input,
            r == followed_by_word(
                old(self).input@,
                old(self).position.index as int,
                spec_keyword_text(keyword),
            ),
            r ==> final(self).position.index == ws_word_end(
                old(self).input@,
                old(self).position.index as int,
            ),
    {
        if self.skip_whitespace() {
            let start = self.mark();
            self.skip_word();
            super::keywords::word_matches(self.get_text(&start), keyword.keyword_text())
        } else {
            false
        }
    }

    /// Used for multi-word tokens; so does not check for comments.
    fn eat_predefined_name(&mut self, name: PredefinedName) -> (r: bool)
        requires
            old(self).wf(),
        ensures
            final(self).wf(),
            final(self).input == old(self).input,
            r == followed_by_word(
                old(self).input@,
                old(self).position.index as int,
                spec_name_text(name),
            ),
            r ==> final(self).position.index == ws_word_end(
                old(self).input@,
                old(self).position.index as int,
            ),
    {
        if self.skip_whitespace() {
            let start = self.mark();
            self.skip_word();
            name.matches(self.get_text(&start))
        } else {
            false
        }
    }

    /// Used for multi-word tokens; so does not check for comments.
    fn skip_whitespace_word(&mut self)
        requires
            old(self).wf(),
        ensures
            old(self).position.index <= final(self).position.index,
            final(self).wf(),
            final(self).input == old(self).input,
            final(self).errors == old(self).errors,
            final(self).comments == old(self).comments,
            final(self).position.index == ws_word_end(
                old(self).input@,
                old(self).position.index as int,
            ),
    {
        self.skip_whitespace();
        self.skip_word();
    }

    /// Used for multi-word tokens; so does not check for comments.
    fn skip_word(&mut self)
        requires
            old(self).wf(),
        ensures
            old(self).position.index <= final(self).position.index,
            final(self).wf(),
            final(self).input == old(self).input,
            final(self).errors == old(self).errors,
            final(self).comments == old(self).comments,
            final(self).position.index == word_end(
                old(self).input@,
                old(self).position.index as int,
            ),
    {
        self.skip_while(CharClass::IdentifierPart);
    }

    /// Lexes an identifier, keyword or multi-word token.
    fn lex_word(&mut self, start: &LexerPosition<'a>, ch: char) -> (r: Token<'a>)
        requires
            old(self).wf(),
            start.wf(),
            start.source == old(self).input,
            start.index + 1 == old(self).position.index,
            ch == old(self).input@[start.index as int],
            chars::spec_is_identifier_start(ch),
            comments_within(old(self).input@, old(self).comments@, 0, start.index as int),
        ensures
            final(self).wf(),
            final(self).input == old(self).input,
            final(self).spec_no_pending(),
            lexed(
                old(self).input@,
                r,
                old(self).comments@,
                start.index as int,
                super::grammar::word_lexeme(old(self).input@, start.index as int).0,
                super::grammar::word_lexeme(old(self).input@, start.index as int).1,
                final(self).position.index as int,
            ),
            trivia_closed(old(self).input@, super::grammar::word_lexeme(old(self).input@, start.index as int).0) ==> r.errors@
                == old(self).errors@,
    {
        let ghost s = self.input@;
        let ghost a = start.index as int;
        self.skip_while(CharClass::IdentifierPart);
        proof {
            lemma_skip_class_bounds(s, a + 1, CharClass::IdentifierPart);
        }
        let ghost e = self.position.index as int;
        let text = self.get_text(start);
        if let Some(keyword) = maybe_get_keyword(text) {
            proof {
                super::keywords::lemma_first_keyword_matches(
                    text@,
                    super::token_kind::keyword_kinds(),
                );
            }
            self.create_token(start, keyword)
        } else {
            if PredefinedName::DOUBLE.matches(text) {
                let mut lookahead = self.try_lexer();
                if lookahead.eat_predefined_name(PredefinedName::PRECISION) {
                    self.skip_whitespace_word();
                    proof {
                        lemma_skip_class_bounds(s, e, CharClass::Whitespace);
                        lemma_skip_class_bounds(
                            s,
                            skip_class(s, e, CharClass::Whitespace),
                            CharClass::IdentifierPart,
                        );
                    }
                    return self.create_token(start, TokenKind::DoublePrecision);
                }
            } else if PredefinedName::TIME.matches(text) {
                let mut lookahead = self.try_lexer();
                if lookahead.eat_keyword(TokenKind::WITH) && lookahead.eat_predefined_name(
                    PredefinedName::TIME,
                ) && lookahead.eat_predefined_name(PredefinedName::ZONE) {
                    self.skip_whitespace_word_three_times();
                    return self.create_token(start, TokenKind::TimeWithTimeZone);
                }
            } else if PredefinedName::TIMESTAMP.matches(text) {
                let mut lookahead = self.try_lexer();
                if lookahead.eat_keyword(TokenKind::WITH) && lookahead.eat_predefined_name(
                    PredefinedName::TIME,
                ) && lookahead.eat_predefined_name(PredefinedName::ZONE) {
                    self.skip_whitespace_word_three_times();
                    return self.create_token(start, TokenKind::TimestampWithTimeZone);
                }
            }
            self.create_token(start, TokenKind::Identifier)
        }
    }

    /// Skips the three remaining words of a WITH TIME ZONE suffix.
    fn skip_whitespace_word_three_times(&mut self)
        requires
            old(self).wf(),
        ensures
            final(self).wf(),
            final(self).input == old(self).input,
            final(self).errors == old(self).errors,
            final(self).comments == old(self).comments,
            final(self).position.index == ws_word_end(
                old(self).input@,
                ws_word_end(
                    old(self).input@,
                    ws_word_end(old(self).input@, old(self).position.index as int),
                ),
            ),
            old(self).position.index <= final(self).position.index,
    {
        let ghost s = self.input@;
        let ghost i = self.position.index as int;
        self.skip_whitespace_word();
        self.skip_whitespace_word();
        self.skip_whitespace_word();
        proof {
            let j1 = skip_class(s, i, CharClass::Whitespace);
            lemma_skip_class_bounds(s, i, CharClass::Whitespace);
            lemma_skip_class_bounds(s, j1, CharClass::IdentifierPart);
            let e1 = ws_word_end(s, i);
            let j2 = skip_class(s, e1, CharClass::Whitespace);
            lemma_skip_class_bounds(s, e1, CharClass::Whitespace);
            lemma_skip_class_bounds(s, j2, CharClass::IdentifierPart);
            let e2 = ws_word_end(s, e1);
            let j3 = skip_class(s, e2, CharClass::Whitespace);
            lemma_skip_class_bounds(s, e2, CharClass::Whitespace);
            lemma_skip_class_bounds(s, j3, CharClass::IdentifierPart);
        }
    }
}

impl<'a> Lexer<'a> {
    /// The main lexer entrypoint.
    /// Returns the next token in the input.
    /// The token includes leading and trailing trivia.
    /// Advances past the consumed token.
    ///
    /// The token starts where `token_start` says, after whitespace and
    /// comments, and its end and kind are those of the `lexeme` starting there.
    #[verifier::spinoff_prover]
    #[verifier::rlimit(80)]
    pub fn lex_token(&mut self) -> (r: Token<'a>)
        requires
            old(self).wf(),
        ensures
            final(self).wf(),
            final(self).spec_input() == old(self).spec_input(),
            final(self).spec_no_pending(),
            ({
                let s = old(self).spec_input();
                let a = token_start(s, old(self).spec_index());
                let e = lexeme(s, a).0;
                &&& old(self).spec_index() <= a
                &&& r.kind == lexeme(s, a).1
                &&& r.value@ == s.subrange(a, e)
                &&& r.range == (TextRange { start: position_of(s, a), end: position_of(s, e) })
                &&& a <= e <= final(self).spec_index()
                &&& token_start(s, final(self).spec_index()) == token_start(s, e)
                &&& comments_within(s, r.leading_comments@, 0, a)
                &&& comments_within(s, r.trailing_comments@, e, final(self).spec_index())
                &&& trails(s, r, e, final(self).spec_index())
            }),
            errors_wf(r.errors@),
            r.kind == TokenKind::Error ==> r.errors@.len() > 0,
            r.kind != TokenKind::EndOfFile ==> final(self).spec_index() > old(self).spec_index(),
            r.kind == TokenKind::EndOfFile ==> final(self).spec_at_end(),
            old(self).spec_at_end() ==> final(self).spec_index() == old(self).spec_index(),
            !old(self).spec_at_end() ==> final(self).spec_index() > old(self).spec_index(),
            position_le(super::token::spec_full_start(r), r.range.start),
            position_le(r.range.end, super::token::spec_full_end(r)),
            ({
                let s = old(self).spec_input();
                let a = token_start(s, old(self).spec_index());
                forall|lo: int|
                    #![trigger comments_within(s, old(self).spec_comments(), lo, old(self).spec_index())]
                    lo <= old(self).spec_index() && comments_within(
                        s,
                        old(self).spec_comments(),
                        lo,
                        old(self).spec_index(),
                    ) ==> comments_within(s, r.leading_comments@, lo, a)
            }),
            ({
                let s = old(self).spec_input();
                forall|ps: Seq<(int, int, CommentKind)>|
                    #![trigger comments_are(s, old(self).spec_comments(), ps)]
                    comments_are(s, old(self).spec_comments(), ps) ==> comments_are(
                        s,
                        r.leading_comments@,
                        ps + leading_from(s, old(self).spec_index()),
                    )
            }),
            ({
                let s = old(self).spec_input();
                leading_unterminated(s, old(self).spec_index()) is Some ==> {
                    let (x, y) = leading_unterminated(s, old(self).spec_index()).unwrap();
                    &&& r.kind == TokenKind::EndOfFile
                    &&& r.errors@.len() == old(self).spec_errors().len() + 1
                    &&& is_error(
                        r.errors@.last(),
                        syntax_error::ERROR_UNTERMINATED_DELIMITED_COMMENT,
                        "Unterminated delimited comment."@,
                        TextRange { start: position_of(s, x), end: position_of(s, y) },
                    )
                }
            }),
            ({
                let s = old(self).spec_input();
                let a = token_start(s, old(self).spec_index());
                lexeme_error(s, a) is Some ==> {
                    let (code, message, x, y) = lexeme_error(s, a).unwrap();
                    &&& r.kind == TokenKind::Error
                    &&& r.errors@.len() > 0
                    &&& is_error(
                        r.errors@.last(),
                        code,
                        message,
                        TextRange { start: position_of(s, x), end: position_of(s, y) },
                    )
                    &&& trivia_closed(s, old(self).spec_index()) ==> r.errors@.len()
                        == old(self).spec_errors().len() + 1
                }
            }),
            old(self).spec_no_pending() ==> comments_are(
                old(self).spec_input(),
                r.leading_comments@,
                leading_from(old(self).spec_input(), old(self).spec_index()),
            ),
            old(self).spec_no_pending() ==> comments_within(
                old(self).spec_input(),
                r.leading_comments@,
                old(self).spec_index(),
                token_start(old(self).spec_input(), old(self).spec_index()),
            ),
            ({
                let s = old(self).spec_input();
                let a = token_start(s, old(self).spec_index());
                trivia_closed(s, old(self).spec_index()) && lexeme_clean(s, a) && trivia_closed(
                    s,
                    lexeme(s, a).0,
                ) ==> r.errors@ == old(self).spec_errors()
            }),
            ({
                let s = old(self).spec_input();
                let a = token_start(s, old(self).spec_index());
                old(self).spec_no_pending() && trivia_closed(s, old(self).spec_index())
                    && lexeme_clean(s, a) && trivia_closed(s, lexeme(s, a).0) ==> r.errors@.len() == 0
            }),
        decreases old(self).spec_input().len() - old(self).spec_index(),
    {
        let ghost s = self.input@;
        let ghost i = self.position.index as int;
        let ghost pending = self.comments@;
        self.skip_whitespace();
        let start = self.mark();
        let ghost j = start.index as int;
        proof {
            lemma_skip_class_bounds(s, i, CharClass::Whitespace);
            lexer_position::lemma_skip_class_stops(s, i, CharClass::Whitespace);
            lemma_comments_widen(s, self.comments@, 0, i, 0, j);
            if !(char_at(s, j) == '-' && char_at(s, j + 1) == '-') && !(char_at(s, j) == '/'
                && char_at(s, j + 1) == '*') {
                assert(token_start(s, i) == j);
                assert(leading_from(s, i) == Seq::<(int, int, CommentKind)>::empty());
                assert forall|ps: Seq<(int, int, CommentKind)>|
                    ps + leading_from(s, i) == ps by {
                    assert(ps + leading_from(s, i) =~= ps);
                }
            }
            if pending.len() == 0 {
                assert(comments_are(s, pending, Seq::<(int, int, CommentKind)>::empty()));
            }
        }
        if self.at_end() {
            assert(lexeme(s, j) == (j, TokenKind::EndOfFile));
            let r = self.create_token(&start, TokenKind::EndOfFile);
            assert(self.position.index == j);
            proof {
                self.lemma_index_bound();
                if r.trailing_comments@.len() > 0 {
                    lemma_trailing_after(s, r.trailing_comments@, j, self.spec_index());
                }
                if r.leading_comments@.len() > 0 {
                    lemma_leading_before(s, r.leading_comments@, j);
                }
                assert forall|lo: int|
                    lo <= i && comments_within(s, pending, lo, i) implies comments_within(
                        s,
                        r.leading_comments@,
                        lo,
                        j,
                    ) by {
                    lemma_comments_widen(s, pending, lo, i, lo, j);
                }
            }
            return r;
        }
        let ch = self.next();
        assert(self.position.index == j + 1);
        if ch == '-' && self.peek_char('-') {
            self.next();
            self.skip_to_end_of_line();
            proof {
                lemma_line_end_bounds(s, j + 2);
                assert(token_start(s, i) == token_start(s, line_end(s, j + 2)));
            }
            self.add_comment_from(&start, CommentKind::LineComment);
            let ghost before = *self;
            let r = self.lex_token();
            proof {
                let t = (j, line_end(s, j + 2), CommentKind::LineComment);
                assert(leading_from(s, i) == seq![t] + leading_from(s, line_end(s, j + 2)));
                assert forall|ps: Seq<(int, int, CommentKind)>|
                    comments_are(s, pending, ps) implies comments_are(
                    s,
                    r.leading_comments@,
                    ps + leading_from(s, i),
                ) by {
                    assert(before.comments@ =~= pending.push(before.comments@.last()));
                    lemma_comments_are_push(s, pending, ps, before.comments@.last(), t);
                    assert(comments_are(s, before.spec_comments(), ps.push(t)));
                    assert(ps.push(t) + leading_from(s, line_end(s, j + 2)) =~= ps + leading_from(s, i));
                }
                if pending.len() == 0 {
                    assert(comments_are(s, pending, Seq::<(int, int, CommentKind)>::empty()));
                    assert(Seq::<(int, int, CommentKind)>::empty() + leading_from(s, i) =~= leading_from(s, i));
                }
                assert forall|lo: int|
                    lo <= i && comments_within(s, pending, lo, i) implies comments_within(
                        s,
                        r.leading_comments@,
                        lo,
                        token_start(s, i),
                    ) by {
                    let cs = before.comments@;
                    let hi = before.position.index as int;
                    lemma_comments_widen(s, pending, lo, i, lo, hi);
                    let one = seq![cs.last()];
                    assert(comments_within(s, one, j, hi));
                    lemma_comments_widen(s, one, j, hi, lo, hi);
                    assert(one[0] == cs.last());
                    lemma_comments_push(s, cs, lo, hi);
                    assert(comments_within(s, before.spec_comments(), lo, before.spec_index()));
                }
                if pending.len() == 0 {
                    assert(comments_within(s, pending, i, i));
                }
            }
            r
        } else if ch == '/' && self.peek_char('*') {
            self.next();
            self.skip_delimited_comment_tail(&start);
            proof {
                lemma_comment_tail_end_bounds(s, j + 2);
                assert(token_start(s, i) == token_start(s, comment_tail_end(s, j + 2)));
                if !comment_tail_closed(s, j + 2) {
                    lemma_unclosed_comment_end(s, j + 2);
                    lemma_trivia_closed_at_end(s);
                    assert(leading_unterminated(s, i) == Some((j, comment_tail_end(s, j + 2))));
                }
            }
            self.add_comment_from(&start, CommentKind::DelimitedComment);
            let ghost before = *self;
            let r = self.lex_token();
            proof {
                let t = (j, comment_tail_end(s, j + 2), CommentKind::DelimitedComment);
                assert(leading_from(s, i) == seq![t] + leading_from(s, comment_tail_end(s, j + 2)));
                assert forall|ps: Seq<(int, int, CommentKind)>|
                    comments_are(s, pending, ps) implies comments_are(
                    s,
                    r.leading_comments@,
                    ps + leading_from(s, i),
                ) by {
                    assert(before.comments@ =~= pending.push(before.comments@.last()));
                    lemma_comments_are_push(s, pending, ps, before.comments@.last(), t);
                    assert(comments_are(s, before.spec_comments(), ps.push(t)));
                    assert(ps.push(t) + leading_from(s, comment_tail_end(s, j + 2)) =~= ps + leading_from(s, i));
                }
                if pending.len() == 0 {
                    assert(comments_are(s, pending, Seq::<(int, int, CommentKind)>::empty()));
                    assert(Seq::<(int, int, CommentKind)>::empty() + leading_from(s, i) =~= leading_from(s, i));
                }
                assert forall|lo: int|
                    lo <= i && comments_within(s, pending, lo, i) implies comments_within(
                        s,
                        r.leading_comments@,
                        lo,
                        token_start(s, i),
                    ) by {
                    let cs = before.comments@;
                    let hi = before.position.index as int;
                    lemma_comments_widen(s, pending, lo, i, lo, hi);
                    let one = seq![cs.last()];
                    assert(comments_within(s, one, j, hi));
                    lemma_comments_widen(s, one, j, hi, lo, hi);
                    assert(one[0] == cs.last());
                    lemma_comments_push(s, cs, lo, hi);
                    assert(comments_within(s, before.spec_comments(), lo, before.spec_index()));
                }
                if pending.len() == 0 {
                    assert(comments_within(s, pending, i, i));
                }
            }
            r
        } else {
            let r = self.lex_token_tail(&start, ch);
            proof {
                self.lemma_index_bound();
                if r.trailing_comments@.len() > 0 {
                    lemma_trailing_after(s, r.trailing_comments@, lexeme(s, j).0, self.spec_index());
                }
                if r.leading_comments@.len() > 0 {
                    lemma_leading_before(s, r.leading_comments@, j);
                }
                assert forall|lo: int|
                    lo <= i && comments_within(s, pending, lo, i) implies comments_within(
                        s,
                        r.leading_comments@,
                        lo,
                        j,
                    ) by {
                    lemma_comments_widen(s, pending, lo, i, lo, j);
                }
            }
            r
        }
    }

    /// Adds the comment starting at `start` to the pending comments.
    fn add_comment_from(&mut self, start: &LexerPosition<'a>, kind: CommentKind)
        requires
            old(self).wf(),
            start.wf(),
            start.source == old(self).input,
            start.index <= old(self).position.index,
            comments_within(old(self).input@, old(self).comments@, 0, start.index as int),
        ensures
            final(self).wf(),
            final(self).input == old(self).input,
            final(self).position == old(self).position,
            final(self).errors == old(self).errors,
            final(self).comments@.drop_last() == old(self).comments@,
            final(self).comments@.len() == old(self).comments@.len() + 1,
            fragment(
                old(self).input@,
                final(self).comments@.last().value@,
                final(self).comments@.last().range,
                start.index as int,
                old(self).position.index as int,
            ),
            is_comment(
                old(self).input@,
                final(self).comments@.last(),
                (start.index as int, old(self).position.index as int, kind),
            ),
    {
        let ghost s = self.input@;
        let ghost j = start.index as int;
        self.create_and_add_comment(start, kind);
        proof {
            lemma_comments_widen(
                s,
                self.comments@.drop_last(),
                0,
                j,
                0,
                self.position.index as int,
            );
            let c = self.comments@.last();
            let (a, b) = choose|a: int, b: int|
                #![trigger s.subrange(a, b)]
                j <= a <= b <= self.position.index && c.value@ == s.subrange(a, b) && c.range == (
                TextRange { start: position_of(s, a), end: position_of(s, b) });
            lemma_fragment(s, c.value@, c.range, 0, a, b, self.position.index as int);
            assert forall|k: int| 0 <= k < self.comments@.len() implies fragment(
                s,
                #[trigger] self.comments@[k].value@,
                self.comments@[k].range,
                0,
                self.position.index as int,
            ) by {
                if k < self.comments@.len() - 1 {
                    assert(self.comments@[k] == self.comments@.drop_last()[k]);
                }
            }
        }
    }

    /// Lexes the token whose first character `ch`, at `start`, has just been consumed.
    /// Comments are handled by the caller.
    #[verifier::spinoff_prover]
    #[verifier::rlimit(60)]
    fn lex_token_tail(&mut self, start: &LexerPosition<'a>, ch: char) -> (r: Token<'a>)
        requires
            old(self).wf(),
            start.wf(),
            start.source == old(self).input,
            start.index + 1 == old(self).position.index,
            ch == old(self).input@[start.index as int],
            !chars::spec_is_whitespace(ch),
            !(ch == '-' && old(self).position.spec_peek() == '-'),
            !(ch == '/' && old(self).position.spec_peek() == '*'),
            comments_within(old(self).input@, old(self).comments@, 0, start.index as int),
        ensures
            final(self).wf(),
            final(self).input == old(self).input,
            final(self).spec_no_pending(),
            lexed(
                old(self).input@,
                r,
                old(self).comments@,
                start.index as int,
                lexeme(old(self).input@, start.index as int).0,
                lexeme(old(self).input@, start.index as int).1,
                final(self).position.index as int,
            ),
            r.kind != TokenKind::EndOfFile,
            start.index < lexeme(old(self).input@, start.index as int).0,
            lexeme_clean(old(self).input@, start.index as int) && trivia_closed(
                old(self).input@,
                lexeme(old(self).input@, start.index as int).0,
            ) ==> r.errors@ == old(self).errors@,
            lexeme_error(old(self).input@, start.index as int) is Some ==> {
                let s = old(self).input@;
                let (code, message, x, y) = lexeme_error(s, start.index as int).unwrap();
                &&& r.kind == TokenKind::Error
                &&& r.errors@.len() == old(self).errors@.len() + 1
                &&& is_error(
                    r.errors@[old(self).errors@.len() as int],
                    code,
                    message,
                    TextRange { start: position_of(s, x), end: position_of(s, y) },
                )
            },
    {
        let ghost s = self.input@;
        let ghost a = start.index as int;
        proof {
            lemma_quoted_end_bounds(s, a + 1, '\'');
            lemma_quoted_end_bounds(s, a + 1, '"');
            lemma_quoted_end_bounds(s, a + 1, '`');
            if a + 2 <= s.len() {
                lemma_quoted_end_bounds(s, a + 2, '\'');
            }
            if a + 3 <= s.len() {
                lemma_quoted_end_bounds(s, a + 3, '\'');
            }
            lemma_skip_class_bounds(s, a + 1, CharClass::Digit);
            lemma_skip_class_bounds(s, a + 1, CharClass::IdentifierPart);
            super::grammar::lemma_lexeme_progress(s, a);
        }
        match ch {
            // operators and punctuators
            '(' => self.create_token(start, TokenKind::OpenParen),
            ')' => self.create_token(start, TokenKind::CloseParen),
            ',' => self.create_token(start, TokenKind::Comma),
            '.' => {
                if chars::is_digit(self.peek()) {
                    self.lex_number(start, ch)
                } else {
                    self.create_token(start, TokenKind::Period)
                }
            },
            '<' => match self.peek() {
                '>' => {
                    self.next();
                    self.create_token(start, TokenKind::LessGreater)
                },
                '=' => {
                    self.next();
                    self.create_token(start, TokenKind::LessEqual)
                },
                _ => self.create_token(start, TokenKind::OpenAngle),
            },
            '>' => {
                if self.eat_opt('=') {
                    self.create_token(start, TokenKind::GreaterEqual)
                } else {
                    self.create_token(start, TokenKind::CloseAngle)
                }
            },
            '[' => self.create_token(start, TokenKind::OpenSquare),
            ']' => self.create_token(start, TokenKind::CloseSquare),
            '=' => {
                if self.eat_opt('>') {
                    self.create_token(start, TokenKind::DoubleArrow)
                } else {
                    self.create_token(start, TokenKind::Equal)
                }
            },
            '!' => {
                if self.eat('=') {
                    self.create_token(start, TokenKind::BangEqual)
                } else {
                    self.create_error_token(start)
                }
            },
            '+' => self.create_token(start, TokenKind::Plus),
            '-' => {
                if self.eat_opt('>') {
                    self.create_token(start, TokenKind::Arrow)
                } else {
                    self.create_token(start, TokenKind::Minus)
                }
            },
            '*' => self.create_token(start, TokenKind::Asterisk),
            '/' => self.create_token(start, TokenKind::Slash),
            '%' => self.create_token(start, TokenKind::Percent),
            '|' => {
                if self.eat('|') {
                    self.create_token(start, TokenKind::BarBar)
                } else {
                    self.create_error_token(start)
                }
            },
            '\'' => self.lex_string_literal(start),
            '"' => self.lex_quoted_identifier(start),
            '`' => self.lex_back_quoted_identifier(start),
            '?' => self.create_token(start, TokenKind::Question),
            '0'..='9' => self.lex_number(start, ch),
            // Identifier start char
            'a'..='z' | 'A'..='Z' | '_' => {
                if chars::eq_ignore_case(ch, 'u') && self.eat_opt('&') {
                    self.lex_unicode_string_literal(start)
                } else if chars::eq_ignore_case(ch, 'x') && self.eat_opt('\'') {
                    self.lex_binary_literal(start)
                } else {
                    self.lex_word(start, ch)
                }
            },
            _ => self.add_and_create_error(
                start,
                syntax_error::ERROR_INVALID_TOKEN_START,
                String::from_str("Invalid token start character."),
            ),
        }
    }
}

} // verus!
