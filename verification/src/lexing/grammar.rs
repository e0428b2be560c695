//! The lexical grammar, stated over character indexes of the source.
use super::chars::{
    spec_eq_ignore_case, spec_is_digit, spec_is_identifier_start, spec_is_sign,
    spec_is_whitespace,
};
use super::keywords::{matches_ignore_case, spec_keyword_of};
use super::comment::CommentKind;
use super::lexer_position::{
    char_at, lemma_skip_class_bounds, next_index, position_of, skip_class, CharClass,
};
use super::predefined_names::{spec_name_text, PredefinedName};
use super::token_kind::{spec_keyword_text, TokenKind};
use crate::utils::syntax_error;
use vstd::prelude::*;

verus! {

/// The index just past the end of the line containing `i`, including the
/// line break; or the end of input.
pub open spec fn line_end(s: Seq<char>, i: int) -> int
    decreases s.len() - i,
{
    if i < 0 || i >= s.len() {
        i
    } else if s[i] == '\r' || s[i] == '\n' {
        next_index(s, i)
    } else {
        line_end(s, next_index(s, i))
    }
}

/// The index just past the `*/` closing a delimited comment whose body
/// starts at `i`; or the end of input when there is none.
pub open spec fn comment_tail_end(s: Seq<char>, i: int) -> int
    decreases s.len() - i,
{
    if i < 0 || i >= s.len() {
        i
    } else if s[i] == '*' && char_at(s, i + 1) == '/' {
        i + 2
    } else {
        comment_tail_end(s, next_index(s, i))
    }
}

/// Is the delimited comment whose body starts at `i` closed by `*/`?
pub open spec fn comment_tail_closed(s: Seq<char>, i: int) -> bool
    decreases s.len() - i,
{
    if i < 0 || i >= s.len() {
        false
    } else if s[i] == '*' && char_at(s, i + 1) == '/' {
        true
    } else {
        comment_tail_closed(s, next_index(s, i))
    }
}

/// The index just past the closing `q` of a quoted text whose body starts at `i`.
/// A doubled `q` stands for itself. At the end of input, the end of input.
pub open spec fn quoted_end(s: Seq<char>, i: int, q: char) -> int
    decreases s.len() - i,
{
    if i < 0 || i >= s.len() {
        i
    } else if s[i] == q {
        if i + 1 < s.len() && s[i + 1] == q {
            quoted_end(s, i + 2, q)
        } else {
            i + 1
        }
    } else {
        quoted_end(s, next_index(s, i), q)
    }
}

/// Is the quoted text whose body starts at `i` closed by `q`?
pub open spec fn quoted_closed(s: Seq<char>, i: int, q: char) -> bool
    decreases s.len() - i,
{
    if i < 0 || i >= s.len() {
        false
    } else if s[i] == q {
        if i + 1 < s.len() && s[i + 1] == q {
            quoted_closed(s, i + 2, q)
        } else {
            true
        }
    } else {
        quoted_closed(s, next_index(s, i), q)
    }
}

pub proof fn lemma_line_end_bounds(s: Seq<char>, i: int)
    requires
        0 <= i <= s.len(),
    ensures
        i <= line_end(s, i) <= s.len(),
    decreases s.len() - i,
{
    if !(i < 0 || i >= s.len()) && !(s[i] == '\r' || s[i] == '\n') {
        lemma_line_end_bounds(s, next_index(s, i));
    }
}

pub proof fn lemma_comment_tail_end_bounds(s: Seq<char>, i: int)
    requires
        0 <= i <= s.len(),
    ensures
        i <= comment_tail_end(s, i) <= s.len(),
    decreases s.len() - i,
{
    if !(i < 0 || i >= s.len()) && !(s[i] == '*' && char_at(s, i + 1) == '/') {
        lemma_comment_tail_end_bounds(s, next_index(s, i));
    }
}

pub proof fn lemma_quoted_end_bounds(s: Seq<char>, i: int, q: char)
    requires
        0 <= i <= s.len(),
    ensures
        i <= quoted_end(s, i, q) <= s.len(),
    decreases s.len() - i,
{
    if !(i < 0 || i >= s.len()) {
        if s[i] == q {
            if i + 1 < s.len() && s[i + 1] == q {
                lemma_quoted_end_bounds(s, i + 2, q);
            }
        } else {
            lemma_quoted_end_bounds(s, next_index(s, i), q);
        }
    }
}

/// Where the next token (or end of file) starts, after whitespace and comments from `i`.
pub open spec fn token_start(s: Seq<char>, i: int) -> int
    decreases s.len() - i,
{
    let j = skip_class(s, i, CharClass::Whitespace);
    if 0 <= i <= s.len() && char_at(s, j) == '-' && char_at(s, j + 1) == '-' {
        proof {
            lemma_skip_class_bounds(s, i, CharClass::Whitespace);
            lemma_line_end_bounds(s, j + 2);
        }
        token_start(s, line_end(s, j + 2))
    } else if 0 <= i <= s.len() && char_at(s, j) == '/' && char_at(s, j + 1) == '*' {
        proof {
            lemma_skip_class_bounds(s, i, CharClass::Whitespace);
            lemma_comment_tail_end_bounds(s, j + 2);
        }
        token_start(s, comment_tail_end(s, j + 2))
    } else {
        j
    }
}

/// The comments read from `i` up to the next token: each is its start, its end
/// and its kind.
pub open spec fn leading_from(s: Seq<char>, i: int) -> Seq<(int, int, CommentKind)>
    decreases s.len() - i,
{
    let j = skip_class(s, i, CharClass::Whitespace);
    if 0 <= i <= s.len() && char_at(s, j) == '-' && char_at(s, j + 1) == '-' {
        proof {
            lemma_skip_class_bounds(s, i, CharClass::Whitespace);
            lemma_line_end_bounds(s, j + 2);
        }
        seq![(j, line_end(s, j + 2), CommentKind::LineComment)] + leading_from(
            s,
            line_end(s, j + 2),
        )
    } else if 0 <= i <= s.len() && char_at(s, j) == '/' && char_at(s, j + 1) == '*' {
        proof {
            lemma_skip_class_bounds(s, i, CharClass::Whitespace);
            lemma_comment_tail_end_bounds(s, j + 2);
        }
        seq![(j, comment_tail_end(s, j + 2), CommentKind::DelimitedComment)] + leading_from(
            s,
            comment_tail_end(s, j + 2),
        )
    } else {
        Seq::empty()
    }
}

/// The delimited comment, read from `i` up to the next token, that no `*/` closes,
/// if there is one: its start and its end, which is the end of input.
pub open spec fn leading_unterminated(s: Seq<char>, i: int) -> Option<(int, int)>
    decreases s.len() - i,
{
    let j = skip_class(s, i, CharClass::Whitespace);
    if 0 <= i <= s.len() && char_at(s, j) == '-' && char_at(s, j + 1) == '-' {
        proof {
            lemma_skip_class_bounds(s, i, CharClass::Whitespace);
            lemma_line_end_bounds(s, j + 2);
        }
        leading_unterminated(s, line_end(s, j + 2))
    } else if 0 <= i <= s.len() && char_at(s, j) == '/' && char_at(s, j + 1) == '*' {
        proof {
            lemma_skip_class_bounds(s, i, CharClass::Whitespace);
            lemma_comment_tail_end_bounds(s, j + 2);
        }
        if comment_tail_closed(s, j + 2) {
            leading_unterminated(s, comment_tail_end(s, j + 2))
        } else {
            Some((j, comment_tail_end(s, j + 2)))
        }
    } else {
        None
    }
}

/// A delimited comment that no `*/` closes runs to the end of input.
pub proof fn lemma_unclosed_comment_end(s: Seq<char>, i: int)
    requires
        0 <= i <= s.len(),
        !comment_tail_closed(s, i),
    ensures
        comment_tail_end(s, i) == s.len(),
    decreases s.len() - i,
{
    if i < s.len() {
        lemma_unclosed_comment_end(s, next_index(s, i));
    }
}

/// `cs` put before the comments of `o`, if any.
pub open spec fn prepend_comments(
    cs: Seq<(int, int, CommentKind)>,
    o: Option<(int, Seq<(int, int, CommentKind)>)>,
) -> Option<(int, Seq<(int, int, CommentKind)>)> {
    match o {
        Some((e, rest)) => Some((e, cs + rest)),
        None => None,
    }
}

/// The comments that trail a token on its line `line`, read from `j`: where the
/// token's trivia ends and those comments. A line comment ends it; so does a line
/// break, before the break, or a delimited comment that ends on a later line,
/// before that comment. `None` when the next token starts on the same line: then
/// all of this trivia is left to that token.
pub open spec fn trailing_from(s: Seq<char>, line: i32, j: int) -> Option<
    (int, Seq<(int, int, CommentKind)>),
>
    decreases s.len() - j,
{
    let w = skip_class(s, j, CharClass::Whitespace);
    if !(0 <= j <= s.len()) {
        None
    } else if position_of(s, w).line != line {
        Some((j, Seq::empty()))
    } else if char_at(s, w) == '-' && char_at(s, w + 1) == '-' {
        Some((line_end(s, w + 2), seq![(w, line_end(s, w + 2), CommentKind::LineComment)]))
    } else if char_at(s, w) == '/' && char_at(s, w + 1) == '*' {
        let b = comment_tail_end(s, w + 2);
        if position_of(s, b).line != line {
            Some((j, Seq::empty()))
        } else {
            proof {
                lemma_skip_class_bounds(s, j, CharClass::Whitespace);
                lemma_comment_tail_end_bounds(s, w + 2);
            }
            prepend_comments(
                seq![(w, b, CommentKind::DelimitedComment)],
                trailing_from(s, line, b),
            )
        }
    } else {
        None
    }
}

/// The trivia that trails a token ending at `i`: where it ends and its comments.
pub open spec fn trailing_trivia(s: Seq<char>, i: int) -> (int, Seq<(int, int, CommentKind)>) {
    match trailing_from(s, position_of(s, i).line, i) {
        Some(x) => x,
        None => (i, Seq::empty()),
    }
}

/// The message reported when `expected` is missing and `actual` was found.
pub open spec fn expected_char_message(expected: char, actual: char) -> Seq<char> {
    "Expected '"@ + seq![expected] + "'; got '"@ + seq![actual] + "'"@
}

/// The error the lexeme at `a` reports, if it reports one: its code, its message and
/// the indexes its range spans. A string, a quoted or a back-quoted identifier that no
/// quote closes; a `!` or `|` that the character it needs does not follow; a character
/// that starts no token.
pub open spec fn lexeme_error(s: Seq<char>, a: int) -> Option<(i32, Seq<char>, int, int)> {
    let c = char_at(s, a);
    let c1 = char_at(s, a + 1);
    if !(0 <= a < s.len()) {
        None
    } else if c == '\'' && !quoted_closed(s, a + 1, '\'') {
        Some(
            (
                syntax_error::ERROR_UNTERMINATED_STRING_LITERAL,
                "Unterminated string literal"@,
                a,
                quoted_end(s, a + 1, '\''),
            ),
        )
    } else if c == '"' && !quoted_closed(s, a + 1, '"') {
        Some(
            (
                syntax_error::ERROR_UNTERMINATED_QUOTED_IDENTIFIER,
                "Unterminated quoted identifier"@,
                a,
                quoted_end(s, a + 1, '"'),
            ),
        )
    } else if c == '`' && !quoted_closed(s, a + 1, '`') {
        Some(
            (
                syntax_error::ERROR_UNTERMINATED_BACK_QUOTED_IDENTIFIER,
                "Unterminated back quoted identifier"@,
                a,
                quoted_end(s, a + 1, '`'),
            ),
        )
    } else if c == '!' && c1 != '=' {
        Some((syntax_error::ERROR_EXPECTED_CHAR, expected_char_message('=', c1), a + 1, a + 1))
    } else if c == '|' && c1 != '|' {
        Some((syntax_error::ERROR_EXPECTED_CHAR, expected_char_message('|', c1), a + 1, a + 1))
    } else if lexeme(s, a).1 == TokenKind::Error && c != '!' && c != '|' && c != '\'' && c != '"'
        && c != '`' && c != '.' && !spec_is_digit(c) && !spec_is_identifier_start(c) {
        Some((syntax_error::ERROR_INVALID_TOKEN_START, "Invalid token start character."@, a, a + 1))
    } else {
        None
    }
}

/// Does an exponent (`e`, an optional sign, digits) start at `i`?
pub open spec fn has_exponent(s: Seq<char>, i: int) -> bool {
    &&& spec_eq_ignore_case(char_at(s, i), 'e')
    &&& (spec_is_digit(char_at(s, i + 1)) || (spec_is_sign(char_at(s, i + 1)) && spec_is_digit(
        char_at(s, i + 2),
    )))
}

/// The end of the exponent starting at `i`, if there is one.
pub open spec fn exponent_end(s: Seq<char>, i: int) -> int {
    if has_exponent(s, i) {
        skip_class(s, i + 2, CharClass::Digit)
    } else {
        i
    }
}

/// The end and kind of a number whose first character is at `a`.
pub open spec fn number_lexeme(s: Seq<char>, a: int) -> (int, TokenKind) {
    let d = skip_class(s, a + 1, CharClass::Digit);
    if s[a] == '.' {
        if has_exponent(s, d) {
            (exponent_end(s, d), TokenKind::Double)
        } else {
            (d, TokenKind::Decimal)
        }
    } else if char_at(s, d) == '.' || has_exponent(s, d) {
        let f = if char_at(s, d) == '.' {
            skip_class(s, d + 1, CharClass::Digit)
        } else {
            d
        };
        if has_exponent(s, f) {
            (exponent_end(s, f), TokenKind::Double)
        } else {
            (f, TokenKind::Decimal)
        }
    } else {
        let w = skip_class(s, d, CharClass::IdentifierPart);
        if w != d {
            (w, TokenKind::DigitIdentifier)
        } else {
            (d, TokenKind::Integer)
        }
    }
}

/// The end of the word starting at or continuing from `i`.
pub open spec fn word_end(s: Seq<char>, i: int) -> int {
    skip_class(s, i, CharClass::IdentifierPart)
}

/// The end of the word that follows the whitespace at `i`.
pub open spec fn ws_word_end(s: Seq<char>, i: int) -> int {
    word_end(s, skip_class(s, i, CharClass::Whitespace))
}

/// Is `i` followed by at least one whitespace character and then a word spelling `text`?
pub open spec fn followed_by_word(s: Seq<char>, i: int, text: Seq<char>) -> bool {
    let w = skip_class(s, i, CharClass::Whitespace);
    &&& w != i
    &&& matches_ignore_case(s.subrange(w, word_end(s, w)), text)
}

/// Is `text` the predefined name `name`?
pub open spec fn is_name(text: Seq<char>, name: PredefinedName) -> bool {
    matches_ignore_case(text, spec_name_text(name))
}

/// Is `i` followed by the words WITH TIME ZONE?
pub open spec fn followed_by_with_time_zone(s: Seq<char>, i: int) -> bool {
    let e1 = ws_word_end(s, i);
    let e2 = ws_word_end(s, e1);
    &&& followed_by_word(s, i, spec_keyword_text(TokenKind::WITH))
    &&& followed_by_word(s, e1, spec_name_text(PredefinedName::TIME))
    &&& followed_by_word(s, e2, spec_name_text(PredefinedName::ZONE))
}

/// The end and kind of a word (identifier, reserved word or multi-word type name)
/// whose first character is at `a`.
pub open spec fn word_lexeme(s: Seq<char>, a: int) -> (int, TokenKind) {
    let e = word_end(s, a + 1);
    let text = s.subrange(a, e);
    match spec_keyword_of(text) {
        Some(k) => (e, k),
        None => {
            if is_name(text, PredefinedName::DOUBLE) && followed_by_word(
                s,
                e,
                spec_name_text(PredefinedName::PRECISION),
            ) {
                (ws_word_end(s, e), TokenKind::DoublePrecision)
            } else if is_name(text, PredefinedName::TIME) && followed_by_with_time_zone(s, e) {
                (ws_word_end(s, ws_word_end(s, ws_word_end(s, e))), TokenKind::TimeWithTimeZone)
            } else if is_name(text, PredefinedName::TIMESTAMP) && followed_by_with_time_zone(
                s,
                e,
            ) {
                (
                    ws_word_end(s, ws_word_end(s, ws_word_end(s, e))),
                    TokenKind::TimestampWithTimeZone,
                )
            } else {
                (e, TokenKind::Identifier)
            }
        },
    }
}

/// The end and kind of a quoted lexeme whose body starts at `i`.
pub open spec fn quoted_lexeme(s: Seq<char>, i: int, q: char, kind: TokenKind) -> (
    int,
    TokenKind,
) {
    (quoted_end(s, i, q), if quoted_closed(s, i, q) {
        kind
    } else {
        TokenKind::Error
    })
}

/// The end and kind of the token whose first character is at `a`.
/// At the end of input, the end of file.
pub open spec fn lexeme(s: Seq<char>, a: int) -> (int, TokenKind) {
    let c = char_at(s, a);
    let c1 = char_at(s, a + 1);
    if a < 0 || a >= s.len() {
        (a, TokenKind::EndOfFile)
    } else if c == '(' {
        (a + 1, TokenKind::OpenParen)
    } else if c == ')' {
        (a + 1, TokenKind::CloseParen)
    } else if c == ',' {
        (a + 1, TokenKind::Comma)
    } else if c == '.' {
        if spec_is_digit(c1) {
            number_lexeme(s, a)
        } else {
            (a + 1, TokenKind::Period)
        }
    } else if c == '<' {
        if c1 == '>' {
            (a + 2, TokenKind::LessGreater)
        } else if c1 == '=' {
            (a + 2, TokenKind::LessEqual)
        } else {
            (a + 1, TokenKind::OpenAngle)
        }
    } else if c == '>' {
        if c1 == '=' {
            (a + 2, TokenKind::GreaterEqual)
        } else {
            (a + 1, TokenKind::CloseAngle)
        }
    } else if c == '[' {
        (a + 1, TokenKind::OpenSquare)
    } else if c == ']' {
        (a + 1, TokenKind::CloseSquare)
    } else if c == '=' {
        if c1 == '>' {
            (a + 2, TokenKind::DoubleArrow)
        } else {
            (a + 1, TokenKind::Equal)
        }
    } else if c == '!' {
        if c1 == '=' {
            (a + 2, TokenKind::BangEqual)
        } else {
            (a + 1, TokenKind::Error)
        }
    } else if c == '+' {
        (a + 1, TokenKind::Plus)
    } else if c == '-' {
        if c1 == '>' {
            (a + 2, TokenKind::Arrow)
        } else {
            (a + 1, TokenKind::Minus)
        }
    } else if c == '*' {
        (a + 1, TokenKind::Asterisk)
    } else if c == '/' {
        (a + 1, TokenKind::Slash)
    } else if c == '%' {
        (a + 1, TokenKind::Percent)
    } else if c == '|' {
        if c1 == '|' {
            (a + 2, TokenKind::BarBar)
        } else {
            (a + 1, TokenKind::Error)
        }
    } else if c == '\'' {
        quoted_lexeme(s, a + 1, '\'', TokenKind::String)
    } else if c == '"' {
        quoted_lexeme(s, a + 1, '"', TokenKind::QuotedIdentifier)
    } else if c == '`' {
        quoted_lexeme(s, a + 1, '`', TokenKind::BackquotedIdentifier)
    } else if c == '?' {
        (a + 1, TokenKind::Question)
    } else if spec_is_digit(c) {
        number_lexeme(s, a)
    } else if spec_is_identifier_start(c) {
        if spec_eq_ignore_case(c, 'u') && c1 == '&' {
            // U& followed by a string literal; a missing quote is reported.
            if char_at(s, a + 2) == '\'' {
                quoted_lexeme(s, a + 3, '\'', TokenKind::UnicodeString)
            } else {
                quoted_lexeme(s, a + 2, '\'', TokenKind::UnicodeString)
            }
        } else if spec_eq_ignore_case(c, 'x') && c1 == '\'' {
            quoted_lexeme(s, a + 2, '\'', TokenKind::BinaryLiteral)
        } else {
            word_lexeme(s, a)
        }
    } else {
        (a + 1, TokenKind::Error)
    }
}

/// The delimited comments met when lexing resumes at `i`, before the next token, are all
/// closed by `*/`.
pub open spec fn trivia_closed(s: Seq<char>, i: int) -> bool
    decreases s.len() - i,
{
    let j = skip_class(s, i, CharClass::Whitespace);
    if 0 <= i <= s.len() && char_at(s, j) == '-' && char_at(s, j + 1) == '-' {
        proof {
            lemma_skip_class_bounds(s, i, CharClass::Whitespace);
            lemma_line_end_bounds(s, j + 2);
        }
        trivia_closed(s, line_end(s, j + 2))
    } else if 0 <= i <= s.len() && char_at(s, j) == '/' && char_at(s, j + 1) == '*' {
        proof {
            lemma_skip_class_bounds(s, i, CharClass::Whitespace);
            lemma_comment_tail_end_bounds(s, j + 2);
        }
        comment_tail_closed(s, j + 2) && trivia_closed(s, comment_tail_end(s, j + 2))
    } else {
        true
    }
}

/// A lexeme at `a` that reports no error of its own: not an error token, and not a `U&`
/// without the quote that must follow it.
pub open spec fn lexeme_clean(s: Seq<char>, a: int) -> bool {
    &&& lexeme(s, a).1 != TokenKind::Error
    &&& !(spec_eq_ignore_case(char_at(s, a), 'u') && char_at(s, a + 1) == '&' && char_at(s, a + 2)
        != '\'')
}

/// Lexing resumes at or after where it was asked to, and within the input.
pub proof fn lemma_token_start_bounds(s: Seq<char>, i: int)
    requires
        0 <= i <= s.len(),
    ensures
        i <= token_start(s, i) <= s.len(),
    decreases s.len() - i,
{
    let j = skip_class(s, i, CharClass::Whitespace);
    lemma_skip_class_bounds(s, i, CharClass::Whitespace);
    if char_at(s, j) == '-' && char_at(s, j + 1) == '-' {
        lemma_line_end_bounds(s, j + 2);
        lemma_token_start_bounds(s, line_end(s, j + 2));
    } else if char_at(s, j) == '/' && char_at(s, j + 1) == '*' {
        lemma_comment_tail_end_bounds(s, j + 2);
        lemma_token_start_bounds(s, comment_tail_end(s, j + 2));
    }
}

/// Every lexeme that is not the end of file covers at least one character.
pub proof fn lemma_lexeme_progress(s: Seq<char>, a: int)
    requires
        0 <= a < s.len(),
    ensures
        a < lexeme(s, a).0 <= s.len(),
        lexeme(s, a).1 != TokenKind::EndOfFile,
{
    lemma_quoted_end_bounds(s, a + 1, '\'');
    lemma_quoted_end_bounds(s, a + 1, '"');
    lemma_quoted_end_bounds(s, a + 1, '`');
    if a + 2 <= s.len() {
        lemma_quoted_end_bounds(s, a + 2, '\'');
    }
    if a + 3 <= s.len() {
        lemma_quoted_end_bounds(s, a + 3, '\'');
    }
    lemma_skip_class_bounds(s, a + 1, CharClass::Digit);
    lemma_skip_class_bounds(s, a + 1, CharClass::IdentifierPart);
    let d = skip_class(s, a + 1, CharClass::Digit);
    lemma_skip_class_bounds(s, d, CharClass::IdentifierPart);
    if d + 1 <= s.len() {
        lemma_skip_class_bounds(s, d + 1, CharClass::Digit);
        let f = skip_class(s, d + 1, CharClass::Digit);
        if f + 2 <= s.len() {
            lemma_skip_class_bounds(s, f + 2, CharClass::Digit);
        }
    }
    if d + 2 <= s.len() {
        lemma_skip_class_bounds(s, d + 2, CharClass::Digit);
    }
    let e = word_end(s, a + 1);
    super::keywords::lemma_first_keyword_matches(
        s.subrange(a, e),
        super::token_kind::keyword_kinds(),
    );
    let e1 = ws_word_end(s, e);
    lemma_ws_word_end_bounds(s, e);
    lemma_ws_word_end_bounds(s, e1);
    lemma_ws_word_end_bounds(s, ws_word_end(s, e1));
}

pub proof fn lemma_ws_word_end_bounds(s: Seq<char>, i: int)
    requires
        0 <= i <= s.len(),
    ensures
        i <= ws_word_end(s, i) <= s.len(),
{
    lemma_skip_class_bounds(s, i, CharClass::Whitespace);
    lemma_skip_class_bounds(s, skip_class(s, i, CharClass::Whitespace), CharClass::IdentifierPart);
}

} // verus!
