//! The token stream a parser reads from: a lexer and the tokens looked ahead at.
use crate::lexing::grammar::{lexeme, token_start};
use crate::lexing::lexer_position::slice_between;
use crate::lexing::lexer::errors_wf;
use crate::lexing::token_stream::{lemma_lexed_from_push, lexed_from};
use crate::lexing::{Lexer, Token, TokenKind};
use crate::utils::position::Position;
use crate::utils::text_range::{self, TextRange};
use vstd::prelude::*;

verus! {

/// How many tokens of `ts` are not the end of file.
pub open spec fn count_non_eof<'a>(ts: Seq<Token<'a>>) -> nat
    decreases ts.len(),
{
    if ts.len() == 0 {
        0
    } else {
        (if ts[0].kind != TokenKind::EndOfFile {
            1nat
        } else {
            0nat
        }) + count_non_eof(ts.skip(1))
    }
}

/// Once the end of file shows up in `ts`, every later token is the end of file too.
pub open spec fn eof_closed<'a>(ts: Seq<Token<'a>>) -> bool {
    forall|i: int, j: int|
        0 <= i <= j < ts.len() && #[trigger] ts[i].kind == TokenKind::EndOfFile ==> (
        #[trigger] ts[j]).kind == TokenKind::EndOfFile
}

/// Appending a token whose errors are well formed keeps every token's errors well formed.
pub proof fn lemma_errors_wf_push<'a>(ts: Seq<Token<'a>>, t: Token<'a>)
    requires
        forall|i: int| 0 <= i < ts.len() ==> errors_wf(#[trigger] ts[i].errors@),
        errors_wf(t.errors@),
    ensures
        forall|i: int| 0 <= i < ts.push(t).len() ==> errors_wf(#[trigger] ts.push(t)[i].errors@),
{
    assert forall|i: int| 0 <= i < ts.push(t).len() implies errors_wf(#[trigger] ts.push(t)[i].errors@) by {
        if i < ts.len() {
            assert(ts.push(t)[i] == ts[i]);
        } else {
            assert(ts.push(t)[i] == t);
        }
    }
}

/// Appending a token adds one to the count when it is not the end of file.
pub proof fn lemma_count_push<'a>(ts: Seq<Token<'a>>, t: Token<'a>)
    ensures
        count_non_eof(ts.push(t)) == count_non_eof(ts) + (if t.kind != TokenKind::EndOfFile {
            1nat
        } else {
            0nat
        }),
    decreases ts.len(),
{
    reveal_with_fuel(count_non_eof, 2);
    if ts.len() > 0 {
        assert(ts.push(t).skip(1) =~= ts.skip(1).push(t));
        assert(ts.push(t)[0] == ts[0]);
        lemma_count_push(ts.skip(1), t);
    } else {
        assert(ts.push(t).skip(1) =~= Seq::<Token<'a>>::empty());
        assert(ts.push(t)[0] == t);
    }
}

/// A token that is not the end of file stands among the first tokens that are not.
pub proof fn lemma_count_bound<'a>(ts: Seq<Token<'a>>, j: int)
    requires
        eof_closed(ts),
        0 <= j < ts.len(),
        ts[j].kind != TokenKind::EndOfFile,
    ensures
        count_non_eof(ts) >= j + 1,
    decreases j,
{
    assert(ts[0].kind != TokenKind::EndOfFile);
    if j > 0 {
        let rest = ts.skip(1);
        assert(rest[j - 1] == ts[j]);
        assert forall|a: int, b: int|
            0 <= a <= b < rest.len() && #[trigger] rest[a].kind
                == TokenKind::EndOfFile implies (#[trigger] rest[b]).kind
                == TokenKind::EndOfFile by {
            assert(rest[a] == ts[a + 1]);
            assert(rest[b] == ts[b + 1]);
        }
        lemma_count_bound(rest, j - 1);
    }
}

/// The location and lexing context of a parser.
///
/// `tokens` holds the tokens looked ahead at and not consumed yet; it is never
/// empty, so the next token is always at hand. Tokens are lexed from the lexer
/// on demand as they are peeked for. Consuming a token removes it from the
/// front. `consumed` records, in order, every token consumed so far.
pub struct ParsePosition<'a> {
    pub tokens: Vec<Token<'a>>,
    pub lexer: Lexer<'a>,
    pub consumed: Ghost<Seq<Token<'a>>>,
    pub starts: Ghost<Seq<int>>,
}

impl<'a> ParsePosition<'a> {
    /// The lookahead is never empty, reaches the end of file only at the end of
    /// the input, and stays there. Before anything is consumed, the beginning of
    /// file comes first.
    pub open spec fn inv(&self) -> bool {
        &&& self.lexer.wf()
        &&& 0 <= self.lexer.spec_index() <= self.lexer.spec_input().len() < i32::MAX
        &&& count_non_eof(self.tokens@) <= self.lexer.spec_index() + 1
        &&& self.tokens@.len() > 0
        &&& forall|i: int| 0 <= i < self.tokens@.len() ==> errors_wf(#[trigger] self.tokens@[i].errors@)
        &&& eof_closed(self.tokens@)
        &&& (self.tokens@.last().kind == TokenKind::EndOfFile ==> self.lexer.spec_at_end())
        &&& (self.consumed@.len() == 0 ==> self.tokens@[0].kind == TokenKind::BeginningOfFile
            && self.tokens@[0].value@.len() == 0)
        &&& self.stream_inv()
    }

    /// The tokens lexed so far, consumed or looked ahead at, in order: all the tokens
    /// but the beginning of file, which comes first.
    pub open spec fn lexed(&self) -> Seq<Token<'a>> {
        (self.consumed@ + self.tokens@).drop_first()
    }

    /// The tokens lexed so far are those the lexical grammar reads from the input,
    /// and the lexer stands at or after the end of the last one.
    pub open spec fn stream_inv(&self) -> bool {
        &&& lexed_from(self.lexer.spec_input(), self.starts@, self.lexed())
        &&& forall|k: int|
            0 <= k < self.starts@.len() ==> 0 <= #[trigger] self.starts@[k]
                <= self.lexer.spec_input().len()
        &&& self.lexed().len() == 0 ==> self.lexer.spec_index() == 0
        &&& self.lexed().len() > 0 ==> token_start(self.lexer.spec_input(), self.lexer.spec_index())
            == token_start(
            self.lexer.spec_input(),
            lexeme(
                self.lexer.spec_input(),
                token_start(self.lexer.spec_input(), self.starts@.last()),
            ).0,
        )
    }

    /// What is left to read: the characters not lexed yet, and the tokens looked
    /// ahead at that are not the end of file.
    pub open spec fn measure(&self) -> int {
        (self.lexer.spec_input().len() - self.lexer.spec_index()) + count_non_eof(self.tokens@)
    }

    /// The kind of the next token.
    pub open spec fn next_kind(&self) -> TokenKind {
        self.tokens@[0].kind
    }

    /// The input being parsed.
    pub open spec fn input(&self) -> Seq<char> {
        self.lexer.spec_input()
    }

    /// `self` differs from `old` only by tokens lexed into the lookahead.
    pub open spec fn peeked_from(&self, old: &ParsePosition<'a>) -> bool {
        &&& self.inv()
        &&& self.consumed@ == old.consumed@
        &&& self.measure() <= old.measure()
        &&& self.input() == old.input()
        &&& self.tokens@.len() >= old.tokens@.len()
        &&& forall|i: int| 0 <= i < old.tokens@.len() ==> #[trigger] self.tokens@[i] == old.tokens@[i]
    }

    /// The measure is never negative.
    pub proof fn lemma_measure_nonneg(&self)
        requires
            self.inv(),
        ensures
            0 <= self.measure() <= i32::MAX,
    {
        self.lexer.lemma_index_bound();
    }

    /// A looked-ahead token that is not the end of file bounds its offset by the measure.
    pub proof fn lemma_offset_bound(&self, j: int)
        requires
            self.inv(),
            0 <= j < self.tokens@.len(),
            self.tokens@[j].kind != TokenKind::EndOfFile,
        ensures
            j + 1 <= self.measure() <= i32::MAX,
    {
        self.lexer.lemma_index_bound();
        lemma_count_bound(self.tokens@, j);
    }

    /// Starts before the first token of `value`, with a beginning of file token
    /// looked ahead at.
    pub fn new(value: &'a [char]) -> (r: ParsePosition<'a>)
        requires
            value@.len() < i32::MAX,
        ensures
            r.inv(),
            r.consumed@ == Seq::<Token<'a>>::empty(),
            r.input() == value@,
            r.next_kind() == TokenKind::BeginningOfFile,
    {
        let bof = Token::new(
            TokenKind::BeginningOfFile,
            text_range::none(),
            slice_between(value, 0, 0),
            Vec::new(),
            Vec::new(),
            Vec::new(),
        );
        let mut tokens = Vec::new();
        tokens.push(bof);
        let lexer = Lexer::new(value);
        proof {
            lexer.lemma_index_bound();
            reveal_with_fuel(count_non_eof, 2);
            assert(tokens@.skip(1) =~= Seq::<Token<'a>>::empty());
            assert((Seq::<Token<'a>>::empty() + tokens@).drop_first() =~= Seq::<Token<'a>>::empty());
        }
        ParsePosition { tokens, lexer, consumed: Ghost(Seq::empty()), starts: Ghost(Seq::empty()) }
    }

    /// Lexes one more token into the lookahead.
    #[verifier::spinoff_prover]
    #[verifier::rlimit(50)]
    fn lex_one(&mut self)
        requires
            old(self).inv(),
        ensures
            final(self).peeked_from(old(self)),
            final(self).tokens@.len() == old(self).tokens@.len() + 1,
    {
        let ghost old_tokens = self.tokens@;
        let ghost old_lexer = self.lexer;
        let ghost old_lexed = self.lexed();
        proof {
            self.lexer.lemma_index_bound();
            if old_tokens.last().kind == TokenKind::EndOfFile {
                self.lexer.lemma_at_end();
            }
        }
        let token = self.lexer.lex_token();
        proof {
            self.lexer.lemma_index_bound();
            lemma_count_push(old_tokens, token);
            lemma_lexed_from_push(
                old_lexer.spec_input(),
                self.starts@,
                old_lexed,
                old_lexer.spec_index(),
                token,
            );
            self.starts@ = self.starts@.push(old_lexer.spec_index());
        }
        self.tokens.push(token);
        assert(self.lexed() =~= old_lexed.push(token));
        proof {
            lemma_errors_wf_push(old_tokens, token);
        }
        assert forall|i: int, j: int|
            0 <= i <= j < self.tokens@.len() && #[trigger] self.tokens@[i].kind
                == TokenKind::EndOfFile implies (#[trigger] self.tokens@[j]).kind
                == TokenKind::EndOfFile by {
            if j == old_tokens.len() && i < j {
                assert(old_tokens[i].kind == TokenKind::EndOfFile);
                assert(old_tokens.last().kind == TokenKind::EndOfFile);
            }
        }
    }

    /// Gets the token at `index` in the lookahead, lexing more tokens if needed.
    pub fn peek_token_offset(&mut self, offset: usize) -> (r: &Token<'a>)
        requires
            old(self).inv(),
        ensures
            final(self).peeked_from(old(self)),
            offset < final(self).tokens@.len(),
            *r == final(self).tokens@[offset as int],
    {
        let ghost start = *self;
        while self.tokens.len() <= offset
            invariant
                self.peeked_from(&start),
                start.inv(),
            decreases offset + 1 - self.tokens@.len(),
        {
            self.lex_one();
        }
        &self.tokens[offset]
    }

    /// The kind of the token `offset` tokens ahead. Does not consume the token.
    pub fn peek_offset(&mut self, offset: usize) -> (r: TokenKind)
        requires
            old(self).inv(),
        ensures
            final(self).peeked_from(old(self)),
            offset < final(self).tokens@.len(),
            r == final(self).tokens@[offset as int].kind,
    {
        self.peek_token_offset(offset).kind
    }

    /// Is the token `offset` tokens ahead of the given kind? Does not consume it.
    pub fn peek_kind_offset(&mut self, kind: TokenKind, offset: usize) -> (r: bool)
        requires
            old(self).inv(),
        ensures
            final(self).peeked_from(old(self)),
            offset < final(self).tokens@.len(),
            r == (final(self).tokens@[offset as int].kind == kind),
    {
        self.peek_offset(offset) == kind
    }

    /// Is the next token of the given kind? Does not consume it.
    pub fn peek_kind(&self, kind: TokenKind) -> (r: bool)
        requires
            self.inv(),
        ensures
            r == (self.next_kind() == kind),
    {
        self.peek() == kind
    }

    /// The next token. Does not consume it.
    pub fn peek_token(&self) -> (r: &Token<'a>)
        requires
            self.inv(),
        ensures
            *r == self.tokens@[0],
    {
        &self.tokens[0]
    }

    /// The kind of the next token. Does not consume it.
    pub fn peek(&self) -> (r: TokenKind)
        requires
            self.inv(),
        ensures
            r == self.next_kind(),
    {
        self.tokens[0].kind
    }

    /// Where the next token starts, with its leading comments.
    pub fn get_empty_range(&self) -> (r: TextRange)
        requires
            self.inv(),
        ensures
            r.start == crate::lexing::token::spec_full_start(self.tokens@[0]),
            r.end == r.start,
    {
        TextRange::empty(self.tokens[0].full_start())
    }

    /// Consumes the next token.
    #[verifier::spinoff_prover]
    #[verifier::rlimit(50)]
    pub fn advance(&mut self) -> (r: Token<'a>)
        requires
            old(self).inv(),
        ensures
            final(self).inv(),
            r == old(self).tokens@[0],
            errors_wf(r.errors@),
            final(self).consumed@ == old(self).consumed@.push(r),
            final(self).input() == old(self).input(),
            final(self).measure() <= old(self).measure(),
            r.kind != TokenKind::EndOfFile ==> final(self).measure() < old(self).measure(),
    {
        let ghost old_tokens = self.tokens@;
        let ghost old_lexed = self.lexed();
        let token = self.tokens.remove(0);
        assert(self.tokens@ =~= old_tokens.skip(1));
        proof {
            assert forall|i: int, j: int|
                0 <= i <= j < self.tokens@.len() && #[trigger] self.tokens@[i].kind
                    == TokenKind::EndOfFile implies (#[trigger] self.tokens@[j]).kind
                    == TokenKind::EndOfFile by {
                assert(self.tokens@[i] == old_tokens[i + 1]);
                assert(self.tokens@[j] == old_tokens[j + 1]);
            }
            if self.tokens@.len() > 0 {
                assert(self.tokens@.last() == old_tokens.last());
            }
            assert(token == old_tokens[0]);
            assert forall|i: int| 0 <= i < self.tokens@.len() implies errors_wf(
                #[trigger] self.tokens@[i].errors@,
            ) by {
                assert(self.tokens@[i] == old_tokens[i + 1]);
            }
        }
        if self.tokens.len() == 0 {
            proof {
                assert(old_tokens.last() == token);
                if token.kind == TokenKind::EndOfFile {
                    self.lexer.lemma_at_end();
                }
                self.lexer.lemma_index_bound();
            }
            let ghost resume = self.lexer.spec_index();
            let next = self.lexer.lex_token();
            proof {
                self.lexer.lemma_index_bound();
                lemma_count_push(self.tokens@, next);
                lemma_lexed_from_push(self.lexer.spec_input(), self.starts@, old_lexed, resume, next);
                self.starts@ = self.starts@.push(resume);
            }
            self.tokens.push(next);
            proof {
                self.consumed@ = self.consumed@.push(token);
                assert(self.lexed() =~= old_lexed.push(next));
            }
        } else {
            proof {
                self.consumed@ = self.consumed@.push(token);
                assert(self.lexed() =~= old_lexed);
            }
        }
        token
    }
}

} // verus!
