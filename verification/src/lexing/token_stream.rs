//! Lexing a whole input.
use super::grammar::{lemma_lexeme_progress, lemma_token_start_bounds, lexeme, token_start};
use super::lexer::{errors_wf, Lexer};
use super::lexer_position::position_of;
use super::token::{spec_full_end, spec_full_start, trivia_around, Token};
use crate::utils::position::position_le;
use super::token_kind::TokenKind;
use crate::utils::TextRange;
use vstd::prelude::*;

verus! {

/// The lexemes the lexical grammar reads from `s` when lexing resumes at `i`, each
/// as its start, end and kind, up to and including the end of file. Each next
/// lexeme is read where the one before ends.
pub open spec fn lexemes_from(s: Seq<char>, i: int) -> Seq<(int, int, TokenKind)>
    decreases s.len() - i,
{
    let a = token_start(s, i);
    let l = (a, lexeme(s, a).0, lexeme(s, a).1);
    if 0 <= i <= s.len() && a < s.len() {
        proof {
            lemma_token_start_bounds(s, i);
            lemma_lexeme_progress(s, a);
        }
        seq![l] + lexemes_from(s, lexeme(s, a).0)
    } else {
        seq![l]
    }
}

/// Whether `t` is the token for lexeme `l` of `s`: its kind, its text and its range.
pub open spec fn is_lexeme<'a>(s: Seq<char>, t: Token<'a>, l: (int, int, TokenKind)) -> bool {
    &&& t.kind == l.2
    &&& t.value@ == s.subrange(l.0, l.1)
    &&& t.range == (TextRange { start: position_of(s, l.0), end: position_of(s, l.1) })
}

/// Whether `t` is the token the lexical grammar reads from `s` when lexing resumes at
/// index `i`: the kind, text and range of the lexeme at the next token start.
pub open spec fn lexed_at<'a>(s: Seq<char>, i: int, t: Token<'a>) -> bool {
    let a = token_start(s, i);
    &&& i <= a
    &&& is_lexeme(s, t, (a, lexeme(s, a).0, lexeme(s, a).1))
}

/// Whether `ts` are the tokens read from `s` when lexing resumes at the indexes
/// `starts`: the first from the start of `s`, each next one where the one before ends.
pub open spec fn lexed_from<'a>(s: Seq<char>, starts: Seq<int>, ts: Seq<Token<'a>>) -> bool {
    &&& starts.len() == ts.len()
    &&& ts.len() > 0 ==> token_start(s, starts[0]) == token_start(s, 0)
    &&& forall|k: int| 0 <= k < ts.len() ==> lexed_at(s, #[trigger] starts[k], ts[k])
    &&& forall|k: int|
        0 <= k < ts.len() - 1 ==> token_start(s, starts[k + 1]) == token_start(
            s,
            lexeme(s, token_start(s, #[trigger] starts[k])).0,
        )
}

/// One more token, read where lexing resumed after the last one.
pub proof fn lemma_lexed_from_push<'a>(
    s: Seq<char>,
    starts: Seq<int>,
    ts: Seq<Token<'a>>,
    i: int,
    t: Token<'a>,
)
    requires
        lexed_from(s, starts, ts),
        lexed_at(s, i, t),
        ts.len() == 0 ==> token_start(s, i) == token_start(s, 0),
        ts.len() > 0 ==> token_start(s, i) == token_start(s, lexeme(s, token_start(s, starts.last())).0),
    ensures
        lexed_from(s, starts.push(i), ts.push(t)),
{
    let starts2 = starts.push(i);
    let ts2 = ts.push(t);
    assert forall|k: int| 0 <= k < ts2.len() implies lexed_at(s, #[trigger] starts2[k], ts2[k]) by {
        if k < ts.len() {
            assert(starts2[k] == starts[k]);
            assert(ts2[k] == ts[k]);
        }
    }
    assert forall|k: int| 0 <= k < ts2.len() - 1 implies token_start(s, starts2[k + 1]) == token_start(
        s,
        lexeme(s, token_start(s, #[trigger] starts2[k])).0,
    ) by {
        assert(starts2[k] == starts[k]);
        if k < ts.len() - 1 {
            assert(starts2[k + 1] == starts[k + 1]);
        }
    }
}

/// Where the token numbered `n` (from 0) that the lexical grammar reads from `s`
/// starts: the first at the first token start, each next one at the token start
/// after the one before.
pub open spec fn nth_token_start(s: Seq<char>, n: nat) -> int
    decreases n,
{
    if n == 0 {
        token_start(s, 0)
    } else {
        token_start(s, lexeme(s, nth_token_start(s, (n - 1) as nat)).0)
    }
}

/// The token numbered `k` of a stream read from `s` is the lexeme at the `k`-th token
/// start: its kind and its text.
pub proof fn lemma_lexed_nth<'a>(s: Seq<char>, starts: Seq<int>, ts: Seq<Token<'a>>, k: int)
    requires
        lexed_from(s, starts, ts),
        0 <= k < ts.len(),
    ensures
        token_start(s, starts[k]) == nth_token_start(s, k as nat),
        ts[k].kind == lexeme(s, nth_token_start(s, k as nat)).1,
        ts[k].value@ == s.subrange(
            nth_token_start(s, k as nat),
            lexeme(s, nth_token_start(s, k as nat)).0,
        ),
    decreases k,
{
    assert(lexed_at(s, starts[k], ts[k]));
    if k > 0 {
        lemma_lexed_nth(s, starts, ts, k - 1);
        assert(token_start(s, starts[k]) == token_start(
            s,
            lexeme(s, token_start(s, starts[k - 1])).0,
        ));
    }
}

/// The first tokens of a stream read from `s` are read from `s` too.
pub proof fn lemma_lexed_from_prefix<'a>(s: Seq<char>, starts: Seq<int>, ts: Seq<Token<'a>>, n: int)
    requires
        lexed_from(s, starts, ts),
        0 <= n <= ts.len(),
    ensures
        lexed_from(s, starts.take(n), ts.take(n)),
{
    assert forall|k: int| 0 <= k < n implies lexed_at(s, #[trigger] starts.take(n)[k], ts.take(n)[k]) by {
        assert(starts.take(n)[k] == starts[k]);
        assert(ts.take(n)[k] == ts[k]);
    }
    assert forall|k: int| 0 <= k < n - 1 implies token_start(s, starts.take(n)[k + 1]) == token_start(
        s,
        lexeme(s, token_start(s, #[trigger] starts.take(n)[k])).0,
    ) by {
        assert(starts.take(n)[k] == starts[k]);
        assert(starts.take(n)[k + 1] == starts[k + 1]);
    }
}

/// Where lexing resumes matters only through the token start it leads to.
pub proof fn lemma_lexemes_from_resume(s: Seq<char>, i: int, j: int)
    requires
        0 <= i <= s.len(),
        0 <= j <= s.len(),
        token_start(s, i) == token_start(s, j),
    ensures
        lexemes_from(s, i) == lexemes_from(s, j),
{
}

/// The tokens read one after another from the start of `s`, up to the first end of
/// file, are those of the lexemes of `s`, one for one.
pub proof fn lemma_lexed_from_lexemes<'a>(s: Seq<char>, starts: Seq<int>, ts: Seq<Token<'a>>)
    requires
        lexed_from(s, starts, ts),
        forall|k: int| 0 <= k < ts.len() ==> 0 <= #[trigger] starts[k] <= s.len(),
        forall|k: int| 0 <= k < ts.len() - 1 ==> (#[trigger] ts[k]).kind != TokenKind::EndOfFile,
    ensures
        ts.len() <= lexemes_from(s, 0).len(),
        forall|k: int| 0 <= k < ts.len() ==> is_lexeme(s, #[trigger] ts[k], lexemes_from(s, 0)[k]),
    decreases ts.len(),
{
    if ts.len() > 0 {
        let n = ts.len() - 1;
        lemma_lexed_from_prefix(s, starts, ts, n);
        lemma_lexed_from_lexemes(s, starts.take(n), ts.take(n));
        lemma_lexemes_suffix(s, starts, ts, n);
        let p = starts[n];
        let a = token_start(s, p);
        assert(lexed_at(s, starts[n], ts[n]));
        assert(lexemes_from(s, p)[0] == (a, lexeme(s, a).0, lexeme(s, a).1));
        assert(lexemes_from(s, 0)[n] == lexemes_from(s, 0).skip(n)[0]);
        assert forall|k: int| 0 <= k < ts.len() implies is_lexeme(s, #[trigger] ts[k], lexemes_from(s, 0)[k]) by {
            if k < n {
                assert(ts.take(n)[k] == ts[k]);
            }
        }
    }
}

/// After `n` tokens read one after another, the rest of the lexemes of `s` are those
/// read from where the `n`-th token is read.
proof fn lemma_lexemes_suffix<'a>(s: Seq<char>, starts: Seq<int>, ts: Seq<Token<'a>>, n: int)
    requires
        lexed_from(s, starts, ts),
        forall|k: int| 0 <= k < ts.len() ==> 0 <= #[trigger] starts[k] <= s.len(),
        forall|k: int| 0 <= k < ts.len() - 1 ==> (#[trigger] ts[k]).kind != TokenKind::EndOfFile,
        0 <= n < ts.len(),
    ensures
        n < lexemes_from(s, 0).len(),
        lexemes_from(s, 0).skip(n) == lexemes_from(s, starts[n]),
    decreases n,
{
    if n == 0 {
        lemma_lexemes_from_resume(s, 0, starts[0]);
        assert(lexemes_from(s, 0).skip(0) =~= lexemes_from(s, 0));
    } else {
        lemma_lexemes_suffix(s, starts, ts, n - 1);
        let p = starts[n - 1];
        let a = token_start(s, p);
        lemma_token_start_bounds(s, p);
        assert(lexed_at(s, starts[n - 1], ts[n - 1]));
        if a >= s.len() {
            assert(lexeme(s, a).1 == TokenKind::EndOfFile);
        }
        lemma_lexeme_progress(s, a);
        let e = lexeme(s, a).0;
        lemma_lexemes_from_resume(s, e, starts[n]);
        assert(lexemes_from(s, p) == seq![(a, e, lexeme(s, a).1)] + lexemes_from(s, e));
        assert(lexemes_from(s, 0).skip(n) =~= lexemes_from(s, 0).skip(n - 1).skip(1));
        assert(lexemes_from(s, p).skip(1) =~= lexemes_from(s, e));
    }
}

/// Lexes `input` from its start up to and including the end of file: the tokens of
/// the lexemes the lexical grammar reads from the input, one after another.
pub fn lex_all<'a>(input: &'a [char]) -> (r: Vec<Token<'a>>)
    requires
        input@.len() < i32::MAX,
    ensures
        r@.len() == lexemes_from(input@, 0).len(),
        forall|k: int| 0 <= k < r@.len() ==> is_lexeme(input@, #[trigger] r@[k], lexemes_from(input@, 0)[k]),
        forall|k: int| 0 <= k < r@.len() ==> errors_wf(#[trigger] r@[k].errors@),
        trivia_around(r@),
{
    let mut lexer = Lexer::new(input);
    let mut tokens: Vec<Token<'a>> = Vec::new();
    let ghost s = input@;
    loop
        invariant
            lexer.wf(),
            lexer.spec_input() == s,
            s == input@,
            s.len() < i32::MAX,
            lexemes_from(s, 0) == lexemes_from(s, 0).take(tokens@.len() as int) + lexemes_from(
                s,
                lexer.spec_index(),
            ),
            tokens@.len() <= lexemes_from(s, 0).len(),
            forall|k: int| 0 <= k < tokens@.len() ==> is_lexeme(s, #[trigger] tokens@[k], lexemes_from(s, 0)[k]),
            forall|k: int| 0 <= k < tokens@.len() ==> errors_wf(#[trigger] tokens@[k].errors@),
            trivia_around(tokens@),
        decreases s.len() - lexer.spec_index(),
    {
        proof {
            lexer.lemma_index_bound();
        }
        let ghost i = lexer.spec_index();
        let ghost before = tokens@;
        let ghost all = lexemes_from(s, 0);
        let token = lexer.lex_token();
        let at_eof = token.kind == TokenKind::EndOfFile;
        proof {
            lexer.lemma_index_bound();
            let a = token_start(s, i);
            let e = lexeme(s, a).0;
            lemma_token_start_bounds(s, i);
            if a < s.len() {
                lemma_lexeme_progress(s, a);
            }
            assert(lexemes_from(s, i)[0] == (a, e, lexeme(s, a).1));
            let n = before.len() as int;
            assert(all[n] == lexemes_from(s, i)[0]);
        }
        tokens.push(token);
        proof {
            let n = before.len() as int;
            assert forall|k: int| 0 <= k < tokens@.len() implies is_lexeme(s, #[trigger] tokens@[k], all[k]) && errors_wf(
                tokens@[k].errors@,
            ) && position_le(spec_full_start(tokens@[k]), tokens@[k].range.start) && position_le(
                tokens@[k].range.end,
                spec_full_end(tokens@[k]),
            ) by {
                if k < n {
                    assert(tokens@[k] == before[k]);
                }
            }
        }
        if at_eof {
            proof {
                let a = token_start(s, i);
                if a < s.len() {
                    lemma_lexeme_progress(s, a);
                }
                assert(lexemes_from(s, i).len() == 1);
                assert(all.len() == tokens@.len());
            }
            return tokens;
        }
        proof {
            let a = token_start(s, i);
            let e = lexeme(s, a).0;
            lemma_lexeme_progress(s, a);
            lemma_lexemes_from_resume(s, e, lexer.spec_index());
            assert(lexemes_from(s, i) == seq![(a, e, lexeme(s, a).1)] + lexemes_from(s, e));
            assert(all.take(tokens@.len() as int) =~= all.take(before.len() as int).push(all[before.len() as int]));
            assert(all =~= all.take(tokens@.len() as int) + lexemes_from(s, lexer.spec_index()));
        }
    }
}

} // verus!
