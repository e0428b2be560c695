//! A recursive descent parser for the Presto SQL dialect.
use super::parse_position::ParsePosition;
use super::parse_tree_visitor::visit_post_order;
use super::completeness;
use super::tree_walk;
use super::parse_tree::{
    self, lossless, pairs_lossless, pairs_tokens, pairs_wf, tokens_of, tree_wf, ParseTree,
};
use crate::lexing::grammar::{lexeme, token_start};
use crate::lexing::keywords::{maybe_get_predefined_name, spec_predefined_name_of};
use crate::lexing::lexer::errors_wf;
use crate::lexing::predefined_names::{spec_name_text, PredefinedName as PN};
use crate::lexing::token::{spec_full_start, Token};
use crate::lexing::token_stream::{
    lemma_lexed_from_prefix, lemma_lexed_nth, lexed_at, lexed_from, nth_token_start,
};
use crate::lexing::token_kind::{spec_kind_name, TokenKind as TK};
use crate::utils::syntax_error::{self, Message, SyntaxError};
use crate::utils::text::{append_chars, chars_of};
use crate::utils::text_range::{range_le, TextRange};
use vstd::prelude::*;
use vstd::string::*;

verus! {


/// The message of an error where `expected` was missing and a `found` token came instead.
pub open spec fn expected_message(expected: Seq<char>, found: TK) -> Seq<char> {
    "Expected "@ + expected + ", found "@ + spec_kind_name(found) + "."@
}

/// Is `kind` the kind of a literal token: NULL, a boolean, a number or a string?
pub open spec fn is_literal_kind(kind: TK) -> bool {
    kind == TK::NULL || kind == TK::TRUE || kind == TK::FALSE || kind == TK::Decimal || kind
        == TK::Double || kind == TK::Integer || kind == TK::String || kind == TK::UnicodeString
        || kind == TK::BinaryLiteral
}

/// Does a primary expression start with a token of `kind`?
pub open spec fn is_expression_start(kind: TK) -> bool {
    is_literal_kind(kind) || kind == TK::DoublePrecision || kind == TK::Question || kind
        == TK::EXISTS || kind == TK::CASE || kind == TK::CAST || kind == TK::CURRENT_DATE || kind
        == TK::CURRENT_TIME || kind == TK::CURRENT_TIMESTAMP || kind == TK::LOCALTIME || kind
        == TK::LOCALTIMESTAMP || kind == TK::CURRENT_USER || kind == TK::CURRENT_PATH || kind
        == TK::NORMALIZE || kind == TK::EXTRACT || kind == TK::GROUPING || kind == TK::CONFIGURE
        || kind == TK::OpenParen || kind == TK::Identifier || kind == TK::QuotedIdentifier || kind
        == TK::BackquotedIdentifier || kind == TK::DigitIdentifier
}

/// Does a query start with a token of `kind`?
pub open spec fn is_query_start(kind: TK) -> bool {
    kind == TK::SELECT || kind == TK::TABLE || kind == TK::VALUES || kind == TK::OpenParen || kind
        == TK::WITH
}

/// The query primary a query term that starts with a token of `kind` is built on:
/// a query specification, a table, an inline table, a subquery, or else an error.
pub open spec fn is_query_primary_for<'a>(kind: TK, t: ParseTree<'a>) -> bool {
    if kind == TK::SELECT {
        t is QuerySpecification
    } else if kind == TK::TABLE {
        t is Table
    } else if kind == TK::VALUES {
        t is InlineTable
    } else if kind == TK::OpenParen {
        t is Subquery
    } else {
        t is Error
    }
}

/// A query term that starts with a token of `kind`: its query primary, or a set
/// operation (UNION, EXCEPT, INTERSECT) over query terms.
pub open spec fn is_query_term_for<'a>(kind: TK, t: ParseTree<'a>) -> bool {
    is_query_primary_for(kind, t) || t is QuerySetOperation
}

/// Does a statement start with a token of `kind`?
pub open spec fn is_statement_start(kind: TK) -> bool {
    is_query_start(kind) || kind == TK::CREATE || kind == TK::INSERT || kind == TK::DELETE
}

/// The kind of the first token the lexical grammar reads from `s`.
pub open spec fn first_token_kind(s: Seq<char>) -> TK {
    lexeme(s, token_start(s, 0)).1
}

/// Where the second token the lexical grammar reads from `s` starts.
pub open spec fn second_token_start(s: Seq<char>) -> int {
    token_start(s, lexeme(s, token_start(s, 0)).0)
}

/// Does the lexeme of `s` at `a`, read after CREATE, start a create statement that
/// is parsed: TABLE, OR (for OR REPLACE VIEW), or the names VIEW and ROLE?
pub open spec fn starts_create_lexeme(s: Seq<char>, a: int) -> bool {
    let (e, kind) = lexeme(s, a);
    let name = spec_predefined_name_of(s.subrange(a, e));
    ||| kind == TK::TABLE
    ||| kind == TK::OR
    ||| kind == TK::Identifier && name == Some(PN::VIEW)
    ||| kind == TK::Identifier && name == Some(PN::ROLE)
}

/// Does `t`, the token after CREATE, start a create statement that is parsed:
/// TABLE, OR (for OR REPLACE VIEW), or the names VIEW and ROLE?
pub open spec fn starts_create_statement<'a>(t: Token<'a>) -> bool {
    ||| t.kind == TK::TABLE
    ||| t.kind == TK::OR
    ||| t.kind == TK::Identifier && spec_predefined_name_of(t.value@) == Some(PN::VIEW)
    ||| t.kind == TK::Identifier && spec_predefined_name_of(t.value@) == Some(PN::ROLE)
}

/// The tree a statement that starts with a token of `kind` is parsed to: a query
/// (built, unless it starts with WITH, on the query term that token starts), a
/// create statement (an error where the token after CREATE starts none that is
/// parsed), an insert, a delete, or else an error.
pub open spec fn is_statement_tree_for<'a>(kind: TK, t: ParseTree<'a>) -> bool {
    if is_query_start(kind) {
        &&& t is Query
        &&& *t->Query_0.query_no_with is QueryNoWith
        &&& kind != TK::WITH ==> is_query_term_for(
            kind,
            *t->Query_0.query_no_with->QueryNoWith_0.query_term,
        )
    } else if kind == TK::CREATE {
        t is CreateTable || t is CreateTableAsSelect || t is CreateView || t is CreateRole
            || t is Error
    } else if kind == TK::INSERT {
        t is InsertInto
    } else if kind == TK::DELETE {
        t is Delete
    } else {
        &&& t is Error
        &&& t->Error_0.error.messages@.len() == 1
        &&& t->Error_0.error.messages@[0].message@ == expected_message("statement"@, kind)
    }
}

/// Can a token of `kind` follow INTERVAL to begin an interval's value?
pub open spec fn is_interval_value_start(kind: TK) -> bool {
    kind == TK::Plus || kind == TK::Minus || kind == TK::String || kind == TK::UnicodeString
        || kind == TK::Identifier || kind == TK::CONFIGURE
}

/// Does a token of `kind`, after an identifier, make it start a lambda (`->`) or a
/// type constructor (a string)?
pub open spec fn is_identifier_start_follower(kind: TK) -> bool {
    kind == TK::Arrow || kind == TK::String || kind == TK::UnicodeString
}

/// Is `kind` one of the kinds an identifier can be lexed as?
pub open spec fn is_identifier_kind(kind: TK) -> bool {
    kind == TK::Identifier || kind == TK::QuotedIdentifier || kind == TK::BackquotedIdentifier
        || kind == TK::DigitIdentifier
}

/// Is `t` an error tree at the empty range `range` with the single message `message`?
pub open spec fn is_error_at<'a>(t: ParseTree<'a>, range: TextRange, message: Seq<char>) -> bool {
    &&& t is Error
    &&& t->Error_0.error.error_code == syntax_error::ERROR_SYNTAX_ERROR
    &&& t->Error_0.error.messages@.len() == 1
    &&& t->Error_0.error.messages@[0].range == range
    &&& t->Error_0.error.messages@[0].message@ == message
}

/// The productions that the generic list and delimiter parsers are handed.
#[derive(Clone, Copy, Debug, PartialEq, Eq, Structural)]
pub enum Element {
    NamedQuery,
    Query,
    QueryNoWith,
    Identifier,
    SortItem,
    Expression,
    SelectItem,
    Relation,
    GroupingElement,
    GroupingSet,
    RelationOrQuery,
    TypeParameter,
    RowTypeElement,
    Property,
    TableElement,
    QualifiedName,
    WhenClause,
    Type,
    Integer,
    Statement,
    AndExpression,
    NotExpression,
    AdditiveExpression,
    MultiplicativeExpression,
    ArithmeticUnaryExpression,
}

/// Is `kind` an additive operator, `+` or `-`?
pub open spec fn is_additive_operator(kind: TK) -> bool {
    kind == TK::Plus || kind == TK::Minus
}

/// Is `kind` a multiplicative operator, `*`, `/` or `%`?
pub open spec fn is_multiplicative_operator(kind: TK) -> bool {
    kind == TK::Asterisk || kind == TK::Slash || kind == TK::Percent
}

/// Is `t` a binary expression whose operator is a `*`, `/` or `%` token?
pub open spec fn is_multiplicative_binary<'a>(t: ParseTree<'a>) -> bool {
    &&& t is BinaryExpression
    &&& *t->BinaryExpression_0.operator is Token
    &&& is_multiplicative_operator(t->BinaryExpression_0.operator->Token_0.token.kind)
}

/// Is `t` a binary expression whose operator is a `+` or `-` token?
pub open spec fn is_additive_binary<'a>(t: ParseTree<'a>) -> bool {
    &&& t is BinaryExpression
    &&& *t->BinaryExpression_0.operator is Token
    &&& is_additive_operator(t->BinaryExpression_0.operator->Token_0.token.kind)
}

/// A product: operands joined, grouping to the left, by `*`, `/` and `%`; no operand
/// is a binary expression.
pub open spec fn is_product<'a>(t: ParseTree<'a>) -> bool
    decreases t,
{
    match t {
        ParseTree::BinaryExpression(x) => {
            &&& is_multiplicative_binary(t)
            &&& is_product(*x.left)
            &&& !(*x.right is BinaryExpression)
        },
        _ => true,
    }
}

/// A sum: products joined, grouping to the left, by `+` and `-`.
pub open spec fn is_sum<'a>(t: ParseTree<'a>) -> bool
    decreases t,
{
    match t {
        ParseTree::BinaryExpression(x) => if is_additive_binary(t) {
            is_sum(*x.left) && is_product(*x.right)
        } else {
            is_product(t)
        },
        _ => true,
    }
}

/// Within the binary expressions of `t`, no `*`, `/` or `%` has an operand that is a
/// `+` or `-` expression: multiplication binds tighter than addition.
pub open spec fn products_hold_no_sums<'a>(t: ParseTree<'a>) -> bool
    decreases t,
{
    match t {
        ParseTree::BinaryExpression(x) => {
            &&& is_multiplicative_binary(t) ==> !is_additive_binary(*x.left) && !is_additive_binary(*x.right)
            &&& products_hold_no_sums(*x.left)
            &&& products_hold_no_sums(*x.right)
        },
        _ => true,
    }
}

/// A product holds no sum.
pub proof fn lemma_product_holds_no_sums<'a>(t: ParseTree<'a>)
    requires
        is_product(t),
    ensures
        products_hold_no_sums(t),
    decreases t,
{
    if let ParseTree::BinaryExpression(x) = t {
        lemma_product_holds_no_sums(*x.left);
        reveal_with_fuel(is_product, 2);
        reveal_with_fuel(products_hold_no_sums, 2);
        assert(!is_additive_binary(*x.left));
        assert(products_hold_no_sums(*x.right));
    }
}

/// In a sum, multiplication binds tighter than addition: no product holds a sum,
/// and every `+` or `-` stands above the products it joins.
pub proof fn lemma_multiplication_binds_tighter<'a>(t: ParseTree<'a>)
    requires
        is_sum(t),
    ensures
        products_hold_no_sums(t),
    decreases t,
{
    if let ParseTree::BinaryExpression(x) = t {
        if is_additive_binary(t) {
            lemma_multiplication_binds_tighter(*x.left);
            lemma_product_holds_no_sums(*x.right);
        } else {
            lemma_product_holds_no_sums(t);
        }
    }
}

/// Does `peeker` admit a token of `kind` as a binary operator?
pub open spec fn admits_operator(peeker: Peeker, kind: TK) -> bool {
    match peeker {
        Peeker::AdditiveOperator => is_additive_operator(kind),
        Peeker::MultiplicativeOperator => is_multiplicative_operator(kind),
        Peeker::Kind(k) => kind == k,
        _ => true,
    }
}

/// What the trees that `element` is parsed to look like, for the arithmetic levels.
pub open spec fn element_shaped<'a>(element: Element, t: ParseTree<'a>) -> bool {
    match element {
        Element::AdditiveExpression => is_sum(t),
        Element::MultiplicativeExpression => is_product(t),
        Element::ArithmeticUnaryExpression => !(t is BinaryExpression),
        _ => true,
    }
}

/// Operands that `element` is parsed to, joined, grouping to the left, by binary
/// operators that `peeker` admits.
pub open spec fn is_chain<'a>(t: ParseTree<'a>, peeker: Peeker, element: Element) -> bool
    decreases t,
{
    ||| element_shaped(element, t)
    ||| match t {
        ParseTree::BinaryExpression(x) => {
            &&& *x.operator is Token
            &&& admits_operator(peeker, x.operator->Token_0.token.kind)
            &&& element_shaped(element, *x.right)
            &&& is_chain(*x.left, peeker, element)
        },
        _ => false,
    }
}

/// Unary operands joined by `*`, `/` and `%` form a product.
pub proof fn lemma_chain_product<'a>(t: ParseTree<'a>)
    requires
        is_chain(t, Peeker::MultiplicativeOperator, Element::ArithmeticUnaryExpression),
    ensures
        is_product(t),
    decreases t,
{
    if let ParseTree::BinaryExpression(x) = t {
        if !element_shaped(Element::ArithmeticUnaryExpression, t) {
            lemma_chain_product(*x.left);
        }
    }
}

/// Products joined by `+` and `-` form a sum.
pub proof fn lemma_chain_sum<'a>(t: ParseTree<'a>)
    requires
        is_chain(t, Peeker::AdditiveOperator, Element::MultiplicativeExpression),
    ensures
        is_sum(t),
    decreases t,
{
    if let ParseTree::BinaryExpression(x) = t {
        if element_shaped(Element::MultiplicativeExpression, t) {
            assert(!is_additive_binary(t));
        } else {
            lemma_chain_sum(*x.left);
        }
    }
}

/// The tests for the start of a list element or of an operator.
#[derive(Clone, Copy, Debug, PartialEq, Eq, Structural)]
pub enum Peeker {
    Expression,
    Identifier,
    QualifiedName,
    WhenClause,
    Kind(TK),
    AdditiveOperator,
    MultiplicativeOperator,
}

/// The tests for what may follow an `ALL` set quantifier.
#[derive(Clone, Copy, Debug, PartialEq, Eq, Structural)]
pub enum TailPeeker {
    AlwaysTrue,
    SelectItem,
    GroupingElement,
    FunctionArguments,
}

/// A recursion bound: how deep the productions nest before input is consumed.
/// `next` is the kind of the next token.
pub open spec fn element_rank(e: Element, next: TK) -> int {
    match e {
        Element::NamedQuery => 71,
        Element::Query => 61,
        Element::QueryNoWith => 51,
        Element::Identifier => 1,
        Element::SortItem => 151,
        Element::Expression => 141,
        Element::SelectItem => 151,
        Element::Relation => 31,
        Element::GroupingElement => 161,
        Element::GroupingSet => 151,
        Element::RelationOrQuery => 71,
        Element::TypeParameter => 8,
        Element::RowTypeElement => 8,
        Element::Property => 151,
        Element::TableElement => 10,
        Element::QualifiedName => 1,
        Element::WhenClause => if next == TK::WHEN {
            4
        } else {
            100151
        },
        Element::Type => 7,
        Element::Integer => 1,
        Element::Statement => 231,
        Element::AndExpression => 111,
        Element::NotExpression => 101,
        Element::AdditiveExpression => 61,
        Element::MultiplicativeExpression => 51,
        Element::ArithmeticUnaryExpression => 41,
    }
}

/// Does the element parser consume a token whenever the peeker accepts?
pub open spec fn consumes_when_peeked(p: Peeker, e: Element) -> bool {
    p == Peeker::WhenClause && e == Element::WhenClause
}

/// Does the peeker accept only tokens other than the end of file?
pub open spec fn peeker_excludes_eof(p: Peeker) -> bool {
    match p {
        Peeker::Kind(k) => k != TK::EndOfFile,
        _ => true,
    }
}

/// Parser for the Presto SQL dialect.
///
/// peek() methods inspect upcoming tokens without consuming input.
/// Only the advance() method consumes a token.
///
/// eat*() methods consume a token and convert it into a Token tree.
///
/// *_opt() methods either parse a *, if present, or return an Empty tree.
///
/// parse_*() methods parse a given language syntax. They are preceded by
/// a comment indicating the grammar being parsed.
pub struct Parser<'a> {
    pub position: ParsePosition<'a>,
    pub errors: Vec<SyntaxError>,
}

// Language independent parser functions
impl<'a> Parser<'a> {
    /// The position is well formed and every error has a message.
    #[verifier::opaque]
    pub open spec fn inv(&self) -> bool {
        &&& self.position.inv()
        &&& errors_wf(self.errors@)
        &&& forall|k: int|
            0 <= k < self.errors@.len() ==> (#[trigger] self.errors@[k]).error_code
                == syntax_error::ERROR_SYNTAX_ERROR
    }

    /// What is left to parse; consuming a token other than the end of file lowers it.
    #[verifier::opaque]
    pub open spec fn measure(&self) -> nat {
        self.position.measure() as nat
    }

    /// The tokens consumed so far, in order.
    pub open spec fn consumed(&self) -> Seq<Token<'a>> {
        self.position.consumed@
    }

    /// The text being parsed.
    pub open spec fn input(&self) -> Seq<char> {
        self.position.input()
    }

    /// The kind of the next token.
    pub open spec fn next_kind(&self) -> TK {
        self.position.next_kind()
    }

    /// The kind of the token `i` tokens ahead, once it has been looked at.
    pub open spec fn kind_at(&self, i: int) -> TK {
        self.position.tokens@[i].kind
    }

    /// The kind of the token `k` tokens ahead, as the lexical grammar reads it from
    /// the input: the beginning of file until it is consumed, then the tokens the
    /// grammar reads, one after the other.
    pub open spec fn ahead(&self, k: int) -> TK {
        let n = self.consumed().len() + k;
        if n <= 0 {
            TK::BeginningOfFile
        } else {
            lexeme(self.input(), nth_token_start(self.input(), (n - 1) as nat)).1
        }
    }

    /// The text of the token `k` tokens ahead, as the lexical grammar reads it.
    pub open spec fn ahead_text(&self, k: int) -> Seq<char> {
        let n = self.consumed().len() + k;
        if n <= 0 {
            Seq::empty()
        } else {
            let a = nth_token_start(self.input(), (n - 1) as nat);
            self.input().subrange(a, lexeme(self.input(), a).0)
        }
    }

    /// The predefined name the token `k` tokens ahead spells, if it is an identifier.
    pub open spec fn name_ahead(&self, k: int) -> Option<PN> {
        if self.ahead(k) == TK::Identifier {
            spec_predefined_name_of(self.ahead_text(k))
        } else {
            None
        }
    }

    /// The tokens looked ahead at are those the lexical grammar reads from the input.
    pub proof fn lemma_ahead(&self)
        requires
            self.inv(),
        ensures
            self.position.tokens@.len() > 0,
            forall|k: int|
                0 <= k < self.position.tokens@.len() ==> (#[trigger] self.position.tokens@[k]).kind
                    == self.ahead(k) && self.position.tokens@[k].value@ == self.ahead_text(k),
    {
        reveal(Parser::inv);
        let p = self.position;
        assert forall|k: int| 0 <= k < p.tokens@.len() implies (
        #[trigger] p.tokens@[k]).kind == self.ahead(k) && p.tokens@[k].value@ == self.ahead_text(
            k,
        ) by {
            let n = p.consumed@.len() + k;
            if n > 0 {
                assert(p.lexed()[n - 1] == p.tokens@[k]);
                lemma_lexed_nth(p.lexer.spec_input(), p.starts@, p.lexed(), n - 1);
            }
        }
    }

    /// The token `k` tokens ahead is the one the lexical grammar reads there.
    pub proof fn lemma_ahead_at(&self, k: int)
        requires
            self.inv(),
            k == 0 || 0 <= k < self.position.tokens@.len(),
        ensures
            self.position.tokens@.len() > 0,
            self.position.tokens@[k].kind == self.ahead(k),
    {
        self.lemma_ahead();
    }

    /// Two parsers that have consumed as many tokens of one input look at the same
    /// tokens ahead.
    pub proof fn lemma_same_lookahead(a: Parser<'a>, b: Parser<'a>)
        requires
            a.consumed().len() == b.consumed().len(),
            a.input() == b.input(),
        ensures
            a.lambda_ahead() == b.lambda_ahead(),
            a.function_call_ahead() == b.function_call_ahead(),
    {
        assert forall|n: nat| a.lambda_ahead_with(n) == b.lambda_ahead_with(n) by {
            assert forall|j: int| a.lambda_param_at(j) == b.lambda_param_at(j) by {}
            assert forall|j: int| a.lambda_comma_at(j) == b.lambda_comma_at(j) by {}
        }
        assert forall|n: nat| a.call_ahead_with(n) == b.call_ahead_with(n) by {
            assert forall|j: int| a.call_part_at(j) == b.call_part_at(j) by {}
        }
    }

    /// Parameters that stop at a comma without an identifier after it start no lambda.
    pub proof fn lemma_lambda_broken(&self, m: int)
        requires
            1 <= m,
            forall|j: int| 0 <= j < m ==> #[trigger] self.lambda_param_at(j),
            forall|j: int| 0 <= j < m - 1 ==> #[trigger] self.lambda_comma_at(j),
            self.lambda_comma_at(m - 1),
            !self.lambda_param_at(m),
        ensures
            !self.lambda_ahead(),
    {
        assert forall|n: nat| !self.lambda_ahead_with(n) by {
            if n == 0 {
                assert(self.lambda_param_at(0));
            } else if n <= m {
                assert(self.lambda_comma_at(n - 1));
            } else {
                assert(0 <= m < n);
            }
        }
    }

    /// Once `m` parameters are read and no comma follows, a lambda comes next exactly
    /// when `)` and `->` follow.
    pub proof fn lemma_lambda_end(&self, m: int)
        requires
            0 <= m,
            self.ahead(0) == TK::OpenParen,
            m == 0 ==> !self.lambda_param_at(0),
            forall|j: int| 0 <= j < m ==> #[trigger] self.lambda_param_at(j),
            forall|j: int| 0 <= j < m - 1 ==> #[trigger] self.lambda_comma_at(j),
            m > 0 ==> self.ahead(2 * m) != TK::Comma,
        ensures
            self.lambda_ahead() == (self.ahead(if m == 0 { 1 } else { 2 * m }) == TK::CloseParen
                && self.ahead(if m == 0 { 1 } else { 2 * m } + 1) == TK::Arrow),
    {
        let close: int = if m == 0 { 1 } else { 2 * m };
        if self.ahead(close) == TK::CloseParen && self.ahead(close + 1) == TK::Arrow {
            assert(self.lambda_ahead_with(m as nat));
        } else {
            assert forall|n: nat| !self.lambda_ahead_with(n) by {
                if n == 0 {
                    if m > 0 {
                        assert(self.lambda_param_at(0));
                    }
                } else if m == 0 {
                    assert(!self.lambda_param_at(0));
                } else if n < m {
                    assert(self.lambda_comma_at(n - 1));
                } else if n > m {
                    if self.lambda_ahead_with(n) {
                        assert(self.lambda_comma_at(m - 1));
                    }
                }
            }
        }
    }

    /// The token after the `(` at 0, and each second one after it, is an identifier:
    /// the `j`-th parameter of a lambda.
    pub open spec fn lambda_param_at(&self, j: int) -> bool {
        is_identifier_kind(self.ahead(1 + 2 * j))
    }

    /// The token after the `j`-th parameter of a lambda is a comma.
    pub open spec fn lambda_comma_at(&self, j: int) -> bool {
        self.ahead(2 + 2 * j) == TK::Comma
    }

    /// A lambda's parameters come next: `(`, `n` identifiers separated by commas,
    /// `)` and `->`.
    pub open spec fn lambda_ahead_with(&self, n: nat) -> bool {
        let close: int = if n == 0 {
            1
        } else {
            2 * n as int
        };
        &&& self.ahead(0) == TK::OpenParen
        &&& forall|j: int| 0 <= j < n ==> #[trigger] self.lambda_param_at(j)
        &&& forall|j: int| 0 <= j < n - 1 ==> #[trigger] self.lambda_comma_at(j)
        &&& self.ahead(close) == TK::CloseParen
        &&& self.ahead(close + 1) == TK::Arrow
    }

    /// A lambda's parameter list comes next.
    pub open spec fn lambda_ahead(&self) -> bool {
        exists|n: nat| self.lambda_ahead_with(n)
    }

    /// The `j`-th dotted part of a qualified name that starts with the next token:
    /// a `.` and an identifier.
    pub open spec fn call_part_at(&self, j: int) -> bool {
        self.ahead(1 + 2 * j) == TK::Period && is_identifier_kind(self.ahead(2 + 2 * j))
    }

    /// A function call comes next: a name with `n` dotted parts, then `(`.
    pub open spec fn call_ahead_with(&self, n: nat) -> bool {
        &&& forall|j: int| 0 <= j < n ==> #[trigger] self.call_part_at(j)
        &&& self.ahead(1 + 2 * (n as int)) == TK::OpenParen
    }

    /// A function call comes next: a qualified name followed by `(`.
    pub open spec fn function_call_ahead(&self) -> bool {
        exists|n: nat| self.call_ahead_with(n)
    }

    /// A `.` without an identifier after it ends the name before any `(`.
    pub proof fn lemma_call_broken(&self, m: int)
        requires
            0 <= m,
            forall|j: int| 0 <= j < m ==> #[trigger] self.call_part_at(j),
            self.ahead(1 + 2 * m) == TK::Period,
            !is_identifier_kind(self.ahead(2 + 2 * m)),
        ensures
            !self.function_call_ahead(),
    {
        assert forall|n: nat| !self.call_ahead_with(n) by {
            if n < m {
                assert(self.call_part_at(n as int));
            } else if n > m {
                if self.call_ahead_with(n) {
                    assert(self.call_part_at(m));
                }
            }
        }
    }

    /// Once the name's `m` dotted parts are read, a function call comes next exactly
    /// when `(` follows.
    pub proof fn lemma_call_end(&self, m: int)
        requires
            0 <= m,
            forall|j: int| 0 <= j < m ==> #[trigger] self.call_part_at(j),
            self.ahead(1 + 2 * m) != TK::Period,
        ensures
            self.function_call_ahead() == (self.ahead(1 + 2 * m) == TK::OpenParen),
    {
        if self.ahead(1 + 2 * m) == TK::OpenParen {
            assert(self.call_ahead_with(m as nat));
        } else {
            assert forall|n: nat| !self.call_ahead_with(n) by {
                if n < m {
                    assert(self.call_part_at(n as int));
                } else if n > m {
                    if self.call_ahead_with(n) {
                        assert(self.call_part_at(m));
                    }
                }
            }
        }
    }

    /// The tree an expression that starts with the next token, an identifier, is
    /// parsed to: a lambda before `->`, a type constructor before a string, a function
    /// call before a qualified name's `(`, and else the identifier itself.
    pub open spec fn identifier_start_tree(&self, r: ParseTree<'a>) -> bool {
        let k = self.ahead(1);
        &&& k == TK::Arrow ==> r is Lambda
        &&& k == TK::String || k == TK::UnicodeString ==> r is TypeConstructor
        &&& !is_identifier_start_follower(k) && self.function_call_ahead() ==> r is FunctionCall
        &&& !is_identifier_start_follower(k) && !self.function_call_ahead() ==> r
            == ParseTree::Identifier(
            parse_tree::Identifier {
                value: Box::new(ParseTree::Token(parse_tree::Token { token: self.position.tokens@[0] })),
            },
        )
    }

    /// The tree a CREATE statement that starts with the next token is parsed to, by
    /// the token after CREATE: a table or a table from a query after TABLE, a view
    /// after OR (REPLACE) or VIEW, a role after ROLE, and else an error.
    pub open spec fn create_tree_for(&self, r: ParseTree<'a>) -> bool {
        let k = self.ahead(1);
        let n = self.name_ahead(1);
        &&& k == TK::TABLE ==> r is CreateTable || r is CreateTableAsSelect
        &&& k == TK::OR || n == Some(PN::VIEW) ==> r is CreateView
        &&& n == Some(PN::ROLE) ==> r is CreateRole
        &&& !(k == TK::TABLE || k == TK::OR || n == Some(PN::VIEW) || n == Some(PN::ROLE))
            ==> r is Error
    }

    /// A special form of a primary expression comes next: POSITION, ROW, TRY_CAST or
    /// SUBSTRING followed by `(`, ARRAY followed by `[`, or an INTERVAL followed by a
    /// sign, a string, an identifier or CONFIGURE.
    pub open spec fn special_form_ahead(&self) -> bool {
        let n = self.name_ahead(0);
        let k = self.ahead(1);
        ||| (n == Some(PN::POSITION) || n == Some(PN::ROW) || n == Some(PN::TRY_CAST) || n == Some(
            PN::SUBSTRING,
        )) && k == TK::OpenParen
        ||| n == Some(PN::ARRAY) && k == TK::OpenSquare
        ||| n == Some(PN::INTERVAL) && is_interval_value_start(k)
    }

    /// Is the next token the predefined name `n`?
    pub open spec fn next_is_name(&self, n: PN) -> bool {
        &&& self.position.tokens@[0].kind == TK::Identifier
        &&& spec_predefined_name_of(self.position.tokens@[0].value@) == Some(n)
    }

    /// Where the next token starts, with its leading comments.
    pub open spec fn next_full_start(&self) -> crate::utils::position::Position {
        spec_full_start(self.position.tokens@[0])
    }

    /// `self` differs from `old` only by tokens lexed into the lookahead.
    pub open spec fn peeked(&self, old: &Parser<'a>) -> bool {
        &&& self.inv()
        &&& self.consumed() == old.consumed()
        &&& self.measure() <= old.measure()
        &&& self.input() == old.input()
        &&& self.errors@ == old.errors@
        &&& self.position.tokens@.len() >= old.position.tokens@.len()
        &&& self.position.tokens@[0] == old.position.tokens@[0]
        &&& forall|i: int|
            0 <= i < old.position.tokens@.len() ==> #[trigger] self.position.tokens@[i]
                == old.position.tokens@[i]
    }

    pub fn new(value: &'a [char]) -> (r: Parser<'a>)
        requires
            value@.len() < i32::MAX,
        ensures
            r.inv(),
            r.consumed() == Seq::<Token<'a>>::empty(),
            r.input() == value@,
            r.next_kind() == TK::BeginningOfFile,
            r.errors@ == Seq::<SyntaxError>::empty(),
    {
        proof {
            reveal(Parser::inv);
            reveal(Parser::measure);
        }
        Parser { position: ParsePosition::new(value), errors: Vec::new() }
    }

    fn add_error(&mut self, error: SyntaxError)
        requires
            old(self).inv(),
            error.messages@.len() > 0,
            error.error_code == syntax_error::ERROR_SYNTAX_ERROR,
        ensures
            final(self).inv(),
            final(self).position == old(self).position,
            final(self).measure() == old(self).measure(),
            final(self).errors@ == old(self).errors@.push(error),
    {
        proof {
            reveal(Parser::inv);
            reveal(Parser::measure);
        }
        self.errors.push(error);
    }

    /// Reports an error covering `location`.
    fn add_error_of_tree(&mut self, location: &ParseTree<'a>, message: &str)
        requires
            old(self).inv(),
            tree_wf(*location),
        ensures
            final(self).inv(),
            final(self).position == old(self).position,
            final(self).measure() == old(self).measure(),
            final(self).errors@.len() == old(self).errors@.len() + 1,
            final(self).errors@.take(old(self).errors@.len() as int) == old(self).errors@,
            final(self).errors@.last().messages@.len() == 1,
            final(self).errors@.last().messages@[0].range == (TextRange {
                start: parse_tree::start_of(*location),
                end: parse_tree::end_of(*location),
            }),
            final(self).errors@.last().messages@[0].message@ == message@,
    {
        proof {
            reveal(Parser::inv);
            reveal(Parser::measure);
        }
        let range = TextRange { start: location.get_start(), end: location.get_end() };
        self.add_error(
            SyntaxError::from_message(
                syntax_error::ERROR_SYNTAX_ERROR,
                Message::new(range, message.to_string()),
            ),
        );
    }

    fn peek_token_offset(&mut self, offset: usize) -> (r: &Token<'a>)
        requires
            old(self).inv(),
        ensures
            final(self).peeked(old(self)),
            offset < final(self).position.tokens@.len(),
            *r == final(self).position.tokens@[offset as int],
    {
        proof {
            reveal(Parser::inv);
            reveal(Parser::measure);
        }
        self.position.peek_token_offset(offset)
    }

    fn peek_token(&self) -> (r: &Token<'a>)
        requires
            self.inv(),
        ensures
            *r == self.position.tokens@[0],
    {
        proof {
            reveal(Parser::inv);
            reveal(Parser::measure);
        }
        self.position.peek_token()
    }

    fn peek_offset(&mut self, offset: usize) -> (r: TK)
        requires
            old(self).inv(),
        ensures
            final(self).peeked(old(self)),
            offset < final(self).position.tokens@.len(),
            r == final(self).kind_at(offset as int),
    {
        proof {
            reveal(Parser::inv);
            reveal(Parser::measure);
        }
        self.position.peek_offset(offset)
    }

    fn peek_kind_offset(&mut self, kind: TK, offset: usize) -> (r: bool)
        requires
            old(self).inv(),
        ensures
            final(self).peeked(old(self)),
            offset < final(self).position.tokens@.len(),
            r == (final(self).kind_at(offset as int) == kind),
    {
        proof {
            reveal(Parser::inv);
            reveal(Parser::measure);
        }
        self.position.peek_kind_offset(kind, offset)
    }

    fn peek_kind(&self, kind: TK) -> (r: bool)
        requires
            self.inv(),
        ensures
            r == (self.next_kind() == kind),
    {
        proof {
            reveal(Parser::inv);
            reveal(Parser::measure);
        }
        self.position.peek_kind(kind)
    }

    fn peek(&self) -> (r: TK)
        requires
            self.inv(),
        ensures
            r == self.next_kind(),
    {
        proof {
            reveal(Parser::inv);
            reveal(Parser::measure);
        }
        self.position.peek()
    }

    /// If the token at offset is a predefined name, return it otherwise return None.
    fn maybe_peek_predefined_name_offset(&mut self, offset: usize) -> (r: Option<PN>)
        requires
            old(self).inv(),
        ensures
            final(self).peeked(old(self)),
            offset < final(self).position.tokens@.len(),
            r == (if final(self).kind_at(offset as int) == TK::Identifier {
                spec_predefined_name_of(final(self).position.tokens@[offset as int].value@)
            } else {
                None
            }),
    {
        proof {
            reveal(Parser::inv);
            reveal(Parser::measure);
        }
        let token = self.peek_token_offset(offset);
        if token.kind == TK::Identifier {
            maybe_get_predefined_name(token.value)
        } else {
            None
        }
    }

    /// If the next token is a predefined name, return it otherwise return None.
    fn maybe_peek_predefined_name(&self) -> (r: Option<PN>)
        requires
            self.inv(),
        ensures
            r == (if self.next_kind() == TK::Identifier {
                spec_predefined_name_of(self.position.tokens@[0].value@)
            } else {
                None
            }),
    {
        proof {
            reveal(Parser::inv);
            reveal(Parser::measure);
        }
        let token = self.peek_token();
        if token.kind == TK::Identifier {
            maybe_get_predefined_name(token.value)
        } else {
            None
        }
    }

    /// Returns true if the token at offset is a specific predefined name.
    fn peek_predefined_name_offset(&mut self, name: PN, offset: usize) -> (r: bool)
        requires
            old(self).inv(),
        ensures
            final(self).peeked(old(self)),
            offset < final(self).position.tokens@.len(),
            r == (final(self).kind_at(offset as int) == TK::Identifier && spec_predefined_name_of(
                final(self).position.tokens@[offset as int].value@,
            ) == Some(name)),
    {
        proof {
            reveal(Parser::inv);
            reveal(Parser::measure);
        }
        match self.maybe_peek_predefined_name_offset(offset) {
            Some(n) => n == name,
            None => false,
        }
    }

    /// Returns true if the next token is a specific predefined name.
    fn peek_predefined_name(&self, name: PN) -> (r: bool)
        requires
            self.inv(),
        ensures
            r == self.next_is_name(name),
    {
        proof {
            reveal(Parser::inv);
            reveal(Parser::measure);
        }
        match self.maybe_peek_predefined_name() {
            Some(n) => n == name,
            None => false,
        }
    }

    /// Consumes the next token.
    fn advance(&mut self) -> (r: Token<'a>)
        requires
            old(self).inv(),
        ensures
            final(self).inv(),
            r == old(self).position.tokens@[0],
            errors_wf(r.errors@),
            final(self).consumed() == old(self).consumed().push(r),
            final(self).input() == old(self).input(),
            final(self).errors@ == old(self).errors@,
            final(self).measure() <= old(self).measure(),
            r.kind != TK::EndOfFile ==> final(self).measure() < old(self).measure(),
    {
        proof {
            reveal(Parser::inv);
            reveal(Parser::measure);
        }
        self.position.advance()
    }

    /// Create an empty TextRange at the current position in the input.
    fn get_empty_range(&self) -> (r: TextRange)
        requires
            self.inv(),
        ensures
            r == (TextRange { start: self.next_full_start(), end: self.next_full_start() }),
    {
        proof {
            reveal(Parser::inv);
            reveal(Parser::measure);
        }
        self.position.get_empty_range()
    }

    /// Create an empty tree whose position is at the current input position.
    fn eat_empty(&self) -> (r: ParseTree<'a>)
        requires
            self.inv(),
        ensures
            r is Empty,
            r->Empty_0.range == (TextRange {
                start: self.next_full_start(),
                end: self.next_full_start(),
            }),
            tokens_of(r) == Seq::<Token<'a>>::empty(),
            tree_wf(r),
            lossless(r),
    {
        proof {
            reveal(Parser::inv);
            reveal(Parser::measure);
        }
        parse_tree::empty(self.get_empty_range())
    }

    /// Consume the next token and return it wrapped in a Token tree.
    fn eat_token(&mut self) -> (r: ParseTree<'a>)
        requires
            old(self).inv(),
        ensures
            final(self).inv(),
            final(self).measure() <= old(self).measure(),
            final(self).consumed() == old(self).consumed() + tokens_of(r),
            final(self).input() == old(self).input(),
            final(self).errors@ == old(self).errors@,
            tree_wf(r),
            lossless(r),
            r == ParseTree::Token(parse_tree::Token { token: old(self).position.tokens@[0] }),
            old(self).next_kind() != TK::EndOfFile ==> final(self).measure() < old(self).measure(),
    {
        proof {
            reveal(Parser::inv);
            reveal(Parser::measure);
        }
        parse_tree::token(self.advance())
    }

    /// Create an Error tree at the current location.
    fn error(&self, message: String) -> (r: ParseTree<'a>)
        requires
            self.inv(),
        ensures
            is_error_at(
                r,
                TextRange { start: self.next_full_start(), end: self.next_full_start() },
                message@,
            ),
            tokens_of(r) == Seq::<Token<'a>>::empty(),
            tree_wf(r),
            !lossless(r),
    {
        proof {
            reveal(Parser::inv);
            reveal(Parser::measure);
        }
        parse_tree::error(
            SyntaxError::from_message(
                syntax_error::ERROR_SYNTAX_ERROR,
                Message::new(self.get_empty_range(), message),
            ),
        )
    }

    /// Create an Error tree at the current location saying what was expected.
    fn expected_error_chars(&self, expected: &[char]) -> (r: ParseTree<'a>)
        requires
            self.inv(),
        ensures
            is_error_at(
                r,
                TextRange { start: self.next_full_start(), end: self.next_full_start() },
                expected_message(expected@, self.next_kind()),
            ),
            tokens_of(r) == Seq::<Token<'a>>::empty(),
            tree_wf(r),
            !lossless(r),
    {
        proof {
            reveal(Parser::inv);
            reveal(Parser::measure);
        }
        let mut message = String::from_str("Expected ");
        append_chars(&mut message, expected);
        message.append(", found ");
        append_chars(&mut message, self.peek().name());
        message.append(".");
        proof {
            reveal_strlit("Expected ");
            reveal_strlit(", found ");
            reveal_strlit(".");
        }
        self.error(message)
    }

    /// Create an Error tree at the current location with a given message.
    fn expected_error(&self, expected: &str) -> (r: ParseTree<'a>)
        requires
            self.inv(),
        ensures
            is_error_at(
                r,
                TextRange { start: self.next_full_start(), end: self.next_full_start() },
                expected_message(expected@, self.next_kind()),
            ),
            tokens_of(r) == Seq::<Token<'a>>::empty(),
            tree_wf(r),
            !lossless(r),
    {
        proof {
            reveal(Parser::inv);
            reveal(Parser::measure);
        }
        let expected_chars = chars_of(expected);
        self.expected_error_chars(expected_chars.as_slice())
    }

    /// Creates an Error indicating that a given kind was expected.
    fn expected_error_kind(&self, expected: TK) -> (r: ParseTree<'a>)
        requires
            self.inv(),
        ensures
            is_error_at(
                r,
                TextRange { start: self.next_full_start(), end: self.next_full_start() },
                expected_message(spec_kind_name(expected), self.next_kind()),
            ),
            tokens_of(r) == Seq::<Token<'a>>::empty(),
            tree_wf(r),
            !lossless(r),
    {
        proof {
            reveal(Parser::inv);
            reveal(Parser::measure);
        }
        self.expected_error_chars(expected.name())
    }

    /// Creates an Error indicating that a given name was expected.
    fn expected_error_name(&self, expected: PN) -> (r: ParseTree<'a>)
        requires
            self.inv(),
        ensures
            is_error_at(
                r,
                TextRange { start: self.next_full_start(), end: self.next_full_start() },
                expected_message(spec_name_text(expected), self.next_kind()),
            ),
            tokens_of(r) == Seq::<Token<'a>>::empty(),
            tree_wf(r),
            !lossless(r),
    {
        proof {
            reveal(Parser::inv);
            reveal(Parser::measure);
        }
        self.expected_error_chars(expected.text())
    }

    /// Consumes and returns the next token if its kind matches;
    /// otherwise returns an expected error tree.
    fn eat(&mut self, kind: TK) -> (r: ParseTree<'a>)
        requires
            old(self).inv(),
        ensures
            final(self).inv(),
            final(self).measure() <= old(self).measure(),
            lossless(r) ==> final(self).consumed() == old(self).consumed() + tokens_of(r),
            final(self).input() == old(self).input(),
            tree_wf(r),
            old(self).next_kind() == kind ==> r == ParseTree::Token(parse_tree::Token { token: old(self).position.tokens@[0] }),
            r is Token ==> r->Token_0.token.kind == kind,
            old(self).next_kind() == kind && kind != TK::EndOfFile ==> final(self).measure() < old(self).measure(),
            old(self).next_kind() != kind ==> *final(self) == *old(self),
            old(self).next_kind() != kind ==> is_error_at(
                r,
                TextRange {
                    start: old(self).next_full_start(),
                    end: old(self).next_full_start(),
                },
                expected_message(spec_kind_name(kind), old(self).next_kind()),
            ),
    {
        proof {
            reveal(Parser::inv);
            reveal(Parser::measure);
        }
        if self.peek_kind(kind) {
            self.eat_token()
        } else {
            self.expected_error_kind(kind)
        }
    }

    /// Consumes and returns the next token if it matches the given
    /// predefined name; otherwise returns an expected error tree.
    fn eat_predefined_name(&mut self, name: PN) -> (r: ParseTree<'a>)
        requires
            old(self).inv(),
        ensures
            final(self).inv(),
            final(self).measure() <= old(self).measure(),
            lossless(r) ==> final(self).consumed() == old(self).consumed() + tokens_of(r),
            final(self).input() == old(self).input(),
            tree_wf(r),
            old(self).next_is_name(name) ==> r == ParseTree::Token(parse_tree::Token { token: old(self).position.tokens@[0] }),
            old(self).next_is_name(name) ==> final(self).measure() < old(self).measure(),
            !old(self).next_is_name(name) ==> *final(self) == *old(self),
            !old(self).next_is_name(name) ==> is_error_at(
                r,
                TextRange {
                    start: old(self).next_full_start(),
                    end: old(self).next_full_start(),
                },
                expected_message(spec_name_text(name), old(self).next_kind()),
            ),
    {
        proof {
            reveal(Parser::inv);
            reveal(Parser::measure);
        }
        if self.peek_predefined_name(name) {
            self.eat_token()
        } else {
            self.expected_error_name(name)
        }
    }

    /// Consumes and returns the next token if it matches the given
    /// predefined name; otherwise returns an empty tree.
    fn eat_predefined_name_opt(&mut self, name: PN) -> (r: ParseTree<'a>)
        requires
            old(self).inv(),
        ensures
            final(self).inv(),
            final(self).measure() <= old(self).measure(),
            lossless(r) ==> final(self).consumed() == old(self).consumed() + tokens_of(r),
            final(self).input() == old(self).input(),
            tree_wf(r),
            old(self).next_is_name(name) ==> r == ParseTree::Token(parse_tree::Token { token: old(self).position.tokens@[0] }),
            old(self).next_is_name(name) ==> final(self).measure() < old(self).measure(),
            !old(self).next_is_name(name) ==> *final(self) == *old(self),
            (r is Empty) == !old(self).next_is_name(name),
    {
        proof {
            reveal(Parser::inv);
            reveal(Parser::measure);
        }
        if self.peek_predefined_name(name) {
            self.eat_token()
        } else {
            self.eat_empty()
        }
    }

    /// Consumes and returns the next token if it matches the given
    /// kind; otherwise returns an empty tree.
    fn eat_opt(&mut self, kind: TK) -> (r: ParseTree<'a>)
        requires
            old(self).inv(),
        ensures
            final(self).inv(),
            final(self).measure() <= old(self).measure(),
            lossless(r) ==> final(self).consumed() == old(self).consumed() + tokens_of(r),
            final(self).input() == old(self).input(),
            tree_wf(r),
            old(self).next_kind() == kind ==> r == ParseTree::Token(parse_tree::Token { token: old(self).position.tokens@[0] }),
            old(self).next_kind() == kind && kind != TK::EndOfFile ==> final(self).measure() < old(self).measure(),
            old(self).next_kind() != kind ==> *final(self) == *old(self),
            (r is Empty) == (old(self).next_kind() != kind),
    {
        proof {
            reveal(Parser::inv);
            reveal(Parser::measure);
        }
        if self.peek_kind(kind) {
            self.eat_token()
        } else {
            self.eat_empty()
        }
    }
}



/// Well formedness of a list split where its elements are split.
pub proof fn lemma_pairs_wf_split<'a>(ps: Seq<(ParseTree<'a>, ParseTree<'a>)>, i: int)
    requires
        0 <= i <= ps.len(),
    ensures
        pairs_wf(ps) == (pairs_wf(ps.take(i)) && pairs_wf(ps.skip(i))),
        pairs_lossless(ps) == (pairs_lossless(ps.take(i)) && pairs_lossless(ps.skip(i))),
    decreases ps.len(),
{
    if i == ps.len() {
        assert(ps.take(i) =~= ps);
        assert(ps.skip(i) =~= Seq::<(ParseTree<'a>, ParseTree<'a>)>::empty());
    } else {
        lemma_pairs_wf_split(ps.drop_last(), i);
        assert(ps.drop_last().take(i) =~= ps.take(i));
        assert(ps.skip(i).drop_last() =~= ps.drop_last().skip(i));
        assert(ps.skip(i).last() == ps.last());
    }
}

/// One more element and separator at the end of a list.
pub proof fn lemma_pairs_push<'a>(
    ps: Seq<(ParseTree<'a>, ParseTree<'a>)>,
    p: (ParseTree<'a>, ParseTree<'a>),
)
    ensures
        pairs_tokens(ps.push(p)) == pairs_tokens(ps) + tokens_of(p.0) + tokens_of(p.1),
        pairs_wf(ps.push(p)) == (pairs_wf(ps) && tree_wf(p.0) && tree_wf(p.1)),
        pairs_lossless(ps.push(p)) == (pairs_lossless(ps) && lossless(p.0) && lossless(
            p.1,
        )),
{
    reveal_with_fuel(tokens_of, 1);
    reveal_with_fuel(lossless, 1);
    reveal_with_fuel(pairs_tokens, 1);
    reveal_with_fuel(tree_wf, 1);
    reveal_with_fuel(pairs_wf, 1);
    reveal_with_fuel(pairs_lossless, 1);
    assert(ps.push(p).drop_last() =~= ps);
    assert(ps.push(p).last() == p);
}

/// The separators of a list as they were read: each pair's separator but the
/// last is a token of `separator_kind`; the last element has none, so its
/// separator is an empty tree.
pub open spec fn separated_by<'a>(ps: Seq<(ParseTree<'a>, ParseTree<'a>)>, separator_kind: TK) -> bool {
    &&& forall|k: int|
        0 <= k < ps.len() - 1 ==> (#[trigger] ps[k]).1 is Token && ps[k].1->Token_0.token.kind
            == separator_kind
    &&& ps.len() > 0 ==> ps.last().1 is Empty
}

/// A list without separators: each pair's separator is an empty tree.
pub open spec fn unseparated<'a>(ps: Seq<(ParseTree<'a>, ParseTree<'a>)>) -> bool {
    forall|k: int| 0 <= k < ps.len() ==> (#[trigger] ps[k]).1 is Empty
}

/// A list without delimiters: both delimiters are empty trees.
pub open spec fn undelimited_list<'a>(r: ParseTree<'a>) -> bool {
    &&& r is List
    &&& *r->List_0.start_delimiter is Empty
    &&& *r->List_0.end_delimiter is Empty
}

impl<'a> Parser<'a> {
    /// Parses one production, chosen by `element`.
    fn parse_element(&mut self, element: Element) -> (r: ParseTree<'a>)
        requires
            old(self).inv(),
        ensures
            final(self).inv(),
            final(self).measure() <= old(self).measure(),
            lossless(r) ==> final(self).consumed() == old(self).consumed() + tokens_of(r),
            final(self).input() == old(self).input(),
            tree_wf(r),
            element == Element::WhenClause && old(self).next_kind() == TK::WHEN ==> final(self).measure() < old(self).measure(),
            element == Element::Statement ==> is_statement_tree_for(old(self).next_kind(), r),
            element_shaped(element, r),
            element == Element::Statement && old(self).next_kind() == TK::CREATE && r is Error
                ==> final(self).peeked(old(self)) && final(self).position.tokens@.len() > 1
                && !starts_create_statement(final(self).position.tokens@[1]),
        decreases old(self).measure(), element_rank(element, old(self).next_kind()),
    {
        match element {
            Element::NamedQuery => self.parse_named_query(),
            Element::Query => self.parse_query(),
            Element::QueryNoWith => self.parse_query_no_with(),
            Element::Identifier => self.parse_identifier(),
            Element::SortItem => self.parse_sort_item(),
            Element::Expression => self.parse_expression(),
            Element::SelectItem => self.parse_select_item(),
            Element::Relation => self.parse_relation(),
            Element::GroupingElement => self.parse_grouping_element(),
            Element::GroupingSet => self.parse_grouping_set(),
            Element::RelationOrQuery => self.parse_relation_or_query(),
            Element::TypeParameter => self.parse_type_parameter(),
            Element::RowTypeElement => self.parse_row_type_element(),
            Element::Property => self.parse_property(),
            Element::TableElement => self.parse_table_element(),
            Element::QualifiedName => self.parse_qualified_name(),
            Element::WhenClause => self.parse_when_clause(),
            Element::Type => self.parse_type(),
            Element::Integer => self.eat(TK::Integer),
            Element::Statement => self.parse_statement(),
            Element::AndExpression => self.parse_and_expression(),
            Element::NotExpression => self.parse_not_expression(),
            Element::AdditiveExpression => self.parse_additive_expression(),
            Element::MultiplicativeExpression => self.parse_multiplicative_expression(),
            Element::ArithmeticUnaryExpression => self.parse_arithmetic_unary_expression(),
        }
    }

    /// Tests whether the next tokens start what `peeker` looks for.
    fn peek_element(&mut self, peeker: Peeker) -> (r: bool)
        requires
            old(self).inv(),
        ensures
            final(self).peeked(old(self)),
            r && peeker_excludes_eof(peeker) ==> final(self).next_kind() != TK::EndOfFile,
            peeker == Peeker::WhenClause ==> r == (final(self).next_kind() == TK::WHEN),
            r ==> admits_operator(peeker, final(self).next_kind()),
    {
        match peeker {
            Peeker::Expression => self.peek_expression(),
            Peeker::Identifier => self.peek_identifier(),
            Peeker::QualifiedName => self.peek_qualified_name(),
            Peeker::WhenClause => self.peek_when_clause(),
            Peeker::Kind(kind) => self.peek_kind(kind),
            Peeker::AdditiveOperator => self.peek_additive_operator(),
            Peeker::MultiplicativeOperator => self.peek_multiplicative_operator(),
        }
    }

    /// Parses a delimiter token, followed by a tree, followed by
    /// an end delimiter token. Returns a tuple with the 3 parsed
    /// trees.
    fn parse_delimited(&mut self, start_kind: TK, element: Element, end_kind: TK) -> (r: (
        ParseTree<'a>,
        ParseTree<'a>,
        ParseTree<'a>,
    ))
        requires
            old(self).inv(),
        ensures
            final(self).inv(),
            final(self).measure() <= old(self).measure(),
            lossless(r.0) && lossless(r.1) && lossless(r.2) ==> final(self).consumed() == old(self).consumed() + tokens_of(r.0) + tokens_of(r.1) + tokens_of(r.2),
            final(self).input() == old(self).input(),
            tree_wf(r.0),
            tree_wf(r.1),
            tree_wf(r.2),
            old(self).next_kind() == start_kind && start_kind != TK::EndOfFile ==> final(self).measure() < old(self).measure(),
            old(self).next_kind() == start_kind ==> r.0 == ParseTree::Token(
                parse_tree::Token { token: old(self).position.tokens@[0] },
            ),
            r.2 is Token ==> r.2->Token_0.token.kind == end_kind,
            r.2 is Token || r.2 is Error,
        decreases old(self).measure(), if old(self).next_kind() == start_kind && start_kind
            != TK::EndOfFile {
            0
        } else {
            element_rank(element, old(self).next_kind()) + 1
        },
    {
        let start = self.eat(start_kind);
        let element = self.parse_element(element);
        let end = self.eat(end_kind);
        (start, element, end)
    }

    /// Parses a tree enclosed in parens. Returns a tuple
    /// containing the 3 trees.
    fn parse_parenthesized(&mut self, element: Element) -> (r: (
        ParseTree<'a>,
        ParseTree<'a>,
        ParseTree<'a>,
    ))
        requires
            old(self).inv(),
        ensures
            final(self).inv(),
            final(self).measure() <= old(self).measure(),
            lossless(r.0) && lossless(r.1) && lossless(r.2) ==> final(self).consumed() == old(self).consumed() + tokens_of(r.0) + tokens_of(r.1) + tokens_of(r.2),
            final(self).input() == old(self).input(),
            tree_wf(r.0),
            tree_wf(r.1),
            tree_wf(r.2),
            old(self).next_kind() == TK::OpenParen ==> final(self).measure() < old(self).measure(),
        decreases old(self).measure(), if old(self).next_kind() == TK::OpenParen {
            1
        } else {
            element_rank(element, old(self).next_kind()) + 2
        },
    {
        self.parse_delimited(TK::OpenParen, element, TK::CloseParen)
    }

    /// Parse non-empty separated list elements.
    /// The second element in each pair is the separator.
    /// The separator for the last list element will always
    /// be an empty tree.
    fn parse_separated_list_elements(&mut self, separator_kind: TK, element: Element) -> (r: Vec<
        (ParseTree<'a>, ParseTree<'a>),
    >)
        requires
            old(self).inv(),
            separator_kind != TK::EndOfFile,
        ensures
            final(self).inv(),
            final(self).measure() <= old(self).measure(),
            pairs_lossless(r@) ==> final(self).consumed() == old(self).consumed() + pairs_tokens(r@),
            final(self).input() == old(self).input(),
            pairs_wf(r@),
            r@.len() > 0,
            separated_by(r@, separator_kind),
        decreases old(self).measure(), element_rank(element, old(self).next_kind()) + 1,
    {
        let ghost start = *self;
        let mut result: Vec<(ParseTree<'a>, ParseTree<'a>)> = Vec::new();
        let mut current = self.parse_element(element);
        loop
            invariant
                self.inv(),
                start.inv(),
                start == *old(self),
                separator_kind != TK::EndOfFile,
                self.measure() <= start.measure(),
                pairs_lossless(result@) && lossless(current) ==> self.consumed()
                    == start.consumed() + pairs_tokens(result@) + tokens_of(current),
                self.input() == start.input(),
                pairs_wf(result@),
                tree_wf(current),
                forall|k: int|
                    0 <= k < result@.len() ==> (#[trigger] result@[k]).1 is Token
                        && result@[k].1->Token_0.token.kind == separator_kind,
            decreases self.measure(),
        {
            let ghost before = result@;
            let separator = self.eat_opt(separator_kind);
            let at_end = separator.is_empty();
            proof {
                lemma_pairs_push(result@, (current, separator));
            }
            result.push((current, separator));
            assert(forall|k: int| 0 <= k < before.len() ==> result@[k] == before[k]);
            if at_end {
                return result;
            }
            current = self.parse_element(element);
        }
    }

    /// Parses the elements of a non-empty, non-separated list.
    /// The second element in each pair will always be an Empty tree.
    fn parse_list_elements(&mut self, peeker: Peeker, element: Element) -> (r: Vec<
        (ParseTree<'a>, ParseTree<'a>),
    >)
        requires
            old(self).inv(),
            consumes_when_peeked(peeker, element),
        ensures
            final(self).inv(),
            final(self).measure() <= old(self).measure(),
            pairs_lossless(r@) ==> final(self).consumed() == old(self).consumed() + pairs_tokens(r@),
            final(self).input() == old(self).input(),
            pairs_wf(r@),
            r@.len() > 0,
            unseparated(r@),
        decreases old(self).measure(), element_rank(element, old(self).next_kind()) + 1,
    {
        let ghost start = *self;
        let mut elements: Vec<(ParseTree<'a>, ParseTree<'a>)> = Vec::new();
        let first = self.parse_element(element);
        let separator = self.eat_empty();
        proof {
            lemma_pairs_push(elements@, (first, separator));
        }
        elements.push((first, separator));
        while self.peek_element(peeker)
            invariant
                self.inv(),
                start.inv(),
                start == *old(self),
                consumes_when_peeked(peeker, element),
                self.measure() <= start.measure(),
                pairs_lossless(elements@) ==> self.consumed() == start.consumed() + pairs_tokens(
                    elements@,
                ),
                self.input() == start.input(),
                pairs_wf(elements@),
                elements@.len() > 0,
                unseparated(elements@),
            decreases self.measure(),
        {
            let item = self.parse_element(element);
            let separator = self.eat_empty();
            proof {
                lemma_pairs_push(elements@, (item, separator));
            }
            elements.push((item, separator));
        }
        elements
    }

    /// Parse possibly empty separated list.
    fn parse_separated_list_elements_opt(
        &mut self,
        separator_kind: TK,
        peeker: Peeker,
        element: Element,
    ) -> (r: Vec<(ParseTree<'a>, ParseTree<'a>)>)
        requires
            old(self).inv(),
            separator_kind != TK::EndOfFile,
        ensures
            final(self).inv(),
            final(self).measure() <= old(self).measure(),
            pairs_lossless(r@) ==> final(self).consumed() == old(self).consumed() + pairs_tokens(r@),
            final(self).input() == old(self).input(),
            pairs_wf(r@),
            separated_by(r@, separator_kind),
        decreases old(self).measure(), element_rank(element, old(self).next_kind()) + 2,
    {
        if self.peek_element(peeker) {
            self.parse_separated_list_elements(separator_kind, element)
        } else {
            assert(pairs_tokens(Seq::<(ParseTree<'a>, ParseTree<'a>)>::empty()) =~= Seq::<
                Token<'a>,
            >::empty());
            Vec::new()
        }
    }

    /// Parse non-empty list.
    fn parse_list(&mut self, peeker: Peeker, element: Element) -> (r: ParseTree<'a>)
        requires
            old(self).inv(),
            consumes_when_peeked(peeker, element),
        ensures
            final(self).inv(),
            final(self).measure() <= old(self).measure(),
            lossless(r) ==> final(self).consumed() == old(self).consumed() + tokens_of(r),
            final(self).input() == old(self).input(),
            tree_wf(r),
            r is List,
            undelimited_list(r),
            unseparated(r->List_0.elements_and_separators@),
            r->List_0.elements_and_separators@.len() > 0,
        decreases old(self).measure(), element_rank(element, old(self).next_kind()) + 2,
    {
        let start_delimiter = self.eat_empty();
        let elements_and_separators = self.parse_list_elements(peeker, element);
        let end_delimiter = self.eat_empty();
        parse_tree::list(start_delimiter, elements_and_separators, end_delimiter)
    }

    /// Parse non-empty separated list.
    /// Terminating separator is not consumed.
    fn parse_separated_list(&mut self, separator_kind: TK, element: Element) -> (r: ParseTree<'a>)
        requires
            old(self).inv(),
            separator_kind != TK::EndOfFile,
        ensures
            final(self).inv(),
            final(self).measure() <= old(self).measure(),
            lossless(r) ==> final(self).consumed() == old(self).consumed() + tokens_of(r),
            final(self).input() == old(self).input(),
            tree_wf(r),
            r is List,
            undelimited_list(r),
            separated_by(r->List_0.elements_and_separators@, separator_kind),
            r->List_0.elements_and_separators@.len() > 0,
        decreases old(self).measure(), element_rank(element, old(self).next_kind()) + 2,
    {
        let start_delimiter = self.eat_empty();
        let elements_and_separators = self.parse_separated_list_elements(separator_kind, element);
        let end_delimiter = self.eat_empty();
        parse_tree::list(start_delimiter, elements_and_separators, end_delimiter)
    }

    /// Parse possibly-empty separated list.
    /// Terminating separator is not consumed.
    fn parse_separated_list_opt(&mut self, separator_kind: TK, peeker: Peeker, element: Element) -> (r:
        ParseTree<'a>)
        requires
            old(self).inv(),
            separator_kind != TK::EndOfFile,
        ensures
            final(self).inv(),
            final(self).measure() <= old(self).measure(),
            lossless(r) ==> final(self).consumed() == old(self).consumed() + tokens_of(r),
            final(self).input() == old(self).input(),
            tree_wf(r),
            r is List,
            undelimited_list(r),
            separated_by(r->List_0.elements_and_separators@, separator_kind),
        decreases old(self).measure(), element_rank(element, old(self).next_kind()) + 3,
    {
        let start_delimiter = self.eat_empty();
        let elements_and_separators = self.parse_separated_list_elements_opt(
            separator_kind,
            peeker,
            element,
        );
        let end_delimiter = self.eat_empty();
        parse_tree::list(start_delimiter, elements_and_separators, end_delimiter)
    }

    /// Parse non-empty comma separated list.
    /// Terminating commas are not consumed.
    fn parse_comma_separated_list(&mut self, element: Element) -> (r: ParseTree<'a>)
        requires
            old(self).inv(),
        ensures
            final(self).inv(),
            final(self).measure() <= old(self).measure(),
            lossless(r) ==> final(self).consumed() == old(self).consumed() + tokens_of(r),
            final(self).input() == old(self).input(),
            tree_wf(r),
            undelimited_list(r),
            separated_by(r->List_0.elements_and_separators@, TK::Comma),
            r->List_0.elements_and_separators@.len() > 0,
        decreases old(self).measure(), element_rank(element, old(self).next_kind()) + 3,
    {
        self.parse_separated_list(TK::Comma, element)
    }

    /// Parse possibly-empty comma separated list.
    /// Terminating commas are not consumed.
    fn parse_comma_separated_list_opt(&mut self, peeker: Peeker, element: Element) -> (r: ParseTree<
        'a,
    >)
        requires
            old(self).inv(),
        ensures
            final(self).inv(),
            final(self).measure() <= old(self).measure(),
            lossless(r) ==> final(self).consumed() == old(self).consumed() + tokens_of(r),
            final(self).input() == old(self).input(),
            tree_wf(r),
            undelimited_list(r),
            separated_by(r->List_0.elements_and_separators@, TK::Comma),
        decreases old(self).measure(), element_rank(element, old(self).next_kind()) + 4,
    {
        self.parse_separated_list_opt(TK::Comma, peeker, element)
    }

    /// Parse delimited non-empty separated list.
    /// Terminating separator is not permitted.
    fn parse_delimited_separated_list(
        &mut self,
        start_kind: TK,
        separator_kind: TK,
        element: Element,
        end_kind: TK,
    ) -> (r: ParseTree<'a>)
        requires
            old(self).inv(),
            separator_kind != TK::EndOfFile,
        ensures
            final(self).inv(),
            final(self).measure() <= old(self).measure(),
            lossless(r) ==> final(self).consumed() == old(self).consumed() + tokens_of(r),
            final(self).input() == old(self).input(),
            tree_wf(r),
            r is List,
            separated_by(r->List_0.elements_and_separators@, separator_kind),
            r->List_0.elements_and_separators@.len() > 0,
            old(self).next_kind() == start_kind && start_kind != TK::EndOfFile ==> final(self).measure() < old(self).measure(),
        decreases old(self).measure(), if old(self).next_kind() == start_kind && start_kind
            != TK::EndOfFile {
            0
        } else {
            element_rank(element, old(self).next_kind()) + 2
        },
    {
        let start_delimiter = self.eat(start_kind);
        let elements_and_separators = self.parse_separated_list_elements(separator_kind, element);
        let end_delimiter = self.eat(end_kind);
        parse_tree::list(start_delimiter, elements_and_separators, end_delimiter)
    }

    /// Parse delimited possibly-empty separated list.
    /// Terminating separator is not permitted.
    fn parse_delimited_separated_list_opt(
        &mut self,
        start_kind: TK,
        separator_kind: TK,
        peeker: Peeker,
        element: Element,
        end_kind: TK,
    ) -> (r: ParseTree<'a>)
        requires
            old(self).inv(),
            separator_kind != TK::EndOfFile,
        ensures
            final(self).inv(),
            final(self).measure() <= old(self).measure(),
            lossless(r) ==> final(self).consumed() == old(self).consumed() + tokens_of(r),
            final(self).input() == old(self).input(),
            tree_wf(r),
            r is List,
            separated_by(r->List_0.elements_and_separators@, separator_kind),
            old(self).next_kind() == start_kind && start_kind != TK::EndOfFile ==> final(self).measure() < old(self).measure(),
        decreases old(self).measure(), if old(self).next_kind() == start_kind && start_kind
            != TK::EndOfFile {
            0
        } else {
            element_rank(element, old(self).next_kind()) + 3
        },
    {
        let start_delimiter = self.eat(start_kind);
        let elements_and_separators = self.parse_separated_list_elements_opt(
            separator_kind,
            peeker,
            element,
        );
        let end_delimiter = self.eat(end_kind);
        parse_tree::list(start_delimiter, elements_and_separators, end_delimiter)
    }

    /// Parse parenthesized, non-empty comma separated list.
    /// Terminating commas are not consumed.
    fn parse_parenthesized_comma_separated_list(&mut self, element: Element) -> (r: ParseTree<'a>)
        requires
            old(self).inv(),
        ensures
            final(self).inv(),
            final(self).measure() <= old(self).measure(),
            lossless(r) ==> final(self).consumed() == old(self).consumed() + tokens_of(r),
            final(self).input() == old(self).input(),
            tree_wf(r),
            old(self).next_kind() == TK::OpenParen ==> final(self).measure() < old(self).measure(),
        decreases old(self).measure(), if old(self).next_kind() == TK::OpenParen {
            1
        } else {
            element_rank(element, old(self).next_kind()) + 3
        },
    {
        self.parse_delimited_separated_list(TK::OpenParen, TK::Comma, element, TK::CloseParen)
    }

    /// Parse optional parenthesized, non-empty comma separated list.
    /// Terminating commas are not consumed.
    fn parse_parenthesized_comma_separated_list_opt(&mut self, element: Element) -> (r: ParseTree<
        'a,
    >)
        requires
            old(self).inv(),
        ensures
            final(self).inv(),
            final(self).measure() <= old(self).measure(),
            lossless(r) ==> final(self).consumed() == old(self).consumed() + tokens_of(r),
            final(self).input() == old(self).input(),
            tree_wf(r),
        decreases old(self).measure(), 2int,
    {
        if self.peek_kind(TK::OpenParen) {
            self.parse_delimited_separated_list(TK::OpenParen, TK::Comma, element, TK::CloseParen)
        } else {
            self.eat_empty()
        }
    }

    /// Parse parenthesized, possibly empty comma separated list.
    /// Terminating commas are not consumed.
    fn parse_parenthesized_comma_separated_opt_list(&mut self, peeker: Peeker, element: Element) -> (r:
        ParseTree<'a>)
        requires
            old(self).inv(),
        ensures
            final(self).inv(),
            final(self).measure() <= old(self).measure(),
            lossless(r) ==> final(self).consumed() == old(self).consumed() + tokens_of(r),
            final(self).input() == old(self).input(),
            tree_wf(r),
            old(self).next_kind() == TK::OpenParen ==> final(self).measure() < old(self).measure(),
        decreases old(self).measure(), if old(self).next_kind() == TK::OpenParen {
            1
        } else {
            element_rank(element, old(self).next_kind()) + 4
        },
    {
        self.parse_delimited_separated_list_opt(
            TK::OpenParen,
            TK::Comma,
            peeker,
            element,
            TK::CloseParen,
        )
    }

    /// Parses a grammar entrypoint; ensures all input is consumed.
    #[verifier::spinoff_prover]
    #[verifier::rlimit(50)]
    fn parse_entrypoint(&mut self, element: Element) -> (r: ParseTree<'a>)
        requires
            old(self).inv(),
        ensures
            final(self).inv(),
            final(self).measure() <= old(self).measure(),
            lossless(r) ==> final(self).consumed() == old(self).consumed() + tokens_of(r),
            final(self).input() == old(self).input(),
            tree_wf(r),
            r is Entrypoint,
            old(self).next_kind() == TK::BeginningOfFile ==> *r->Entrypoint_0.beginning_of_file
                == ParseTree::Token(parse_tree::Token { token: old(self).position.tokens@[0] }),
            *r->Entrypoint_0.end_of_file is Token ==> r->Entrypoint_0.end_of_file->Token_0.token.kind
                == TK::EndOfFile,
            *r->Entrypoint_0.end_of_file is Token || *r->Entrypoint_0.end_of_file is Error,
            tokens_of(r) == tokens_of(*r->Entrypoint_0.beginning_of_file) + tokens_of(
                *r->Entrypoint_0.tree,
            ) + tokens_of(*r->Entrypoint_0.end_of_file),
            lossless(r) == (lossless(*r->Entrypoint_0.beginning_of_file) && lossless(
                *r->Entrypoint_0.tree,
            ) && lossless(*r->Entrypoint_0.end_of_file)),
            element == Element::Statement && old(self).next_kind() == TK::BeginningOfFile
                && old(self).consumed().len() == 0 ==> is_statement_tree_for(
                first_token_kind(old(self).input()),
                *r->Entrypoint_0.tree,
            ),
            element == Element::Statement && old(self).next_kind() == TK::BeginningOfFile
                && old(self).consumed().len() == 0 && first_token_kind(old(self).input())
                == TK::CREATE && *r->Entrypoint_0.tree is Error ==> !starts_create_lexeme(
                old(self).input(),
                second_token_start(old(self).input()),
            ),
    {
        let ghost s = self.input();
        let bof = self.eat(TK::BeginningOfFile);
        // Once the beginning of file is consumed, the next token is the first one lexed.
        assert(old(self).next_kind() == TK::BeginningOfFile && old(self).consumed().len() == 0
            ==> self.next_kind() == first_token_kind(s)) by {
            reveal(Parser::inv);
            if old(self).next_kind() == TK::BeginningOfFile && old(self).consumed().len() == 0 {
                lemma_leaf_tokens(bof);
                let p = self.position;
                assert(self.consumed() =~= seq![old(self).position.tokens@[0]]);
                assert(p.lexed() =~= p.tokens@);
                assert(lexed_at(s, p.starts@[0], p.tokens@[0]));
            }
        }
        let ghost after_bof = *self;
        let tree = self.parse_element(element);
        // A create statement that is not parsed: the token after CREATE is the second
        // one lexed.
        assert(element == Element::Statement && old(self).next_kind() == TK::BeginningOfFile
            && old(self).consumed().len() == 0 && after_bof.next_kind() == TK::CREATE
            && tree is Error ==> !starts_create_lexeme(s, second_token_start(s))) by {
            reveal(Parser::inv);
            if element == Element::Statement && old(self).next_kind() == TK::BeginningOfFile
                && old(self).consumed().len() == 0 && after_bof.next_kind() == TK::CREATE
                && tree is Error {
                lemma_leaf_tokens(bof);
                let p = self.position;
                assert(self.consumed() =~= seq![old(self).position.tokens@[0]]);
                assert(p.lexed() =~= p.tokens@);
                assert(lexed_at(s, p.starts@[0], p.tokens@[0]));
                assert(lexed_at(s, p.starts@[1], p.tokens@[1]));
                assert(p.tokens@[0] == after_bof.position.tokens@[0]);
            }
        }
        let eof = self.eat(TK::EndOfFile);
        parse_tree::entrypoint(bof, tree, eof)
    }

    /// Parses an operand followed by any number of operators and operands,
    /// grouping to the left.
    fn parse_binary_expression(&mut self, peeker: Peeker, element: Element) -> (r: ParseTree<'a>)
        requires
            old(self).inv(),
            peeker_excludes_eof(peeker),
        ensures
            final(self).inv(),
            final(self).measure() <= old(self).measure(),
            lossless(r) ==> final(self).consumed() == old(self).consumed() + tokens_of(r),
            final(self).input() == old(self).input(),
            tree_wf(r),
            is_chain(r, peeker, element),
        decreases old(self).measure(), element_rank(element, old(self).next_kind()) + 1,
    {
        let ghost base = self.consumed();
        let left = self.parse_element(element);
        self.parse_binary_expression_tail(left, peeker, element, Ghost(base))
    }

    fn parse_binary_expression_tail(
        &mut self,
        left: ParseTree<'a>,
        peeker: Peeker,
        element: Element,
        Ghost(base): Ghost<Seq<Token<'a>>>,
    ) -> (r: ParseTree<'a>)
        requires
            old(self).inv(),
            lossless(left) ==> old(self).consumed() =~= base + tokens_of(left),
            tree_wf(left),
            peeker_excludes_eof(peeker),
        ensures
            final(self).inv(),
            final(self).measure() <= old(self).measure(),
            lossless(r) ==> final(self).consumed() == base + tokens_of(r),
            final(self).input() == old(self).input(),
            tree_wf(r),
            is_chain(left, peeker, element) ==> is_chain(r, peeker, element),
        decreases old(self).measure(), 1int,
    {
        let ghost start = *self;
        let ghost left0 = left;
        let mut left = left;
        while self.peek_element(peeker)
            invariant
                self.inv(),
                start.inv(),
                start == *old(self),
                peeker_excludes_eof(peeker),
                is_chain(left0, peeker, element) ==> is_chain(left, peeker, element),
                self.measure() <= start.measure(),
                lossless(left) ==> self.consumed() == base + tokens_of(left),
                self.input() == start.input(),
                tree_wf(left),
            decreases self.measure(),
        {
            let operator = self.eat_token();
            let right = self.parse_element(element);
            left = parse_tree::binary_expression(left, operator, right);
        }
        left
    }
}



// Presto Language specific functions
//
// Methods here are prefixed with a comment indicating the grammar
// production being parsed.
impl<'a> Parser<'a> {
    // query
    // :  with_? queryNoWith
    pub fn parse_query(&mut self) -> (r: ParseTree<'a>)
        requires
            old(self).inv(),
        ensures
            final(self).inv(),
            final(self).measure() <= old(self).measure(),
            lossless(r) ==> final(self).consumed() == old(self).consumed() + tokens_of(r),
            final(self).input() == old(self).input(),
            tree_wf(r),
            r is Query,
            old(self).next_kind() == TK::WITH ==> *r->Query_0.with is With,
            old(self).next_kind() != TK::WITH ==> *r->Query_0.with is Empty,
            *r->Query_0.query_no_with is QueryNoWith,
            old(self).next_kind() != TK::WITH ==> is_query_term_for(old(self).next_kind(), *r->Query_0.query_no_with->QueryNoWith_0.query_term),
        decreases old(self).measure(), 60int,

    {
        let with = self.parse_with_opt();
        let query_no_with = self.parse_query_no_with();
        parse_tree::query(with, query_no_with)
    }

    // with_
    // : WITH RECURSIVE? namedQuery (',' namedQuery)*
    fn parse_with_opt(&mut self) -> (r: ParseTree<'a>)
        requires
            old(self).inv(),
        ensures
            final(self).inv(),
            final(self).measure() <= old(self).measure(),
            lossless(r) ==> final(self).consumed() == old(self).consumed() + tokens_of(r),
            final(self).input() == old(self).input(),
            tree_wf(r),
            old(self).next_kind() == TK::WITH ==> r is With,
            old(self).next_kind() != TK::WITH ==> r is Empty && *final(self) == *old(self),
        decreases old(self).measure(), 1int,

    {
        if self.peek_kind(TK::WITH) {
            let with = self.eat_token();
            let recursive = self.eat_opt(TK::RECURSIVE);
            let named_queries = self.parse_comma_separated_list(Element::NamedQuery);
            parse_tree::with(with, recursive, named_queries)
        } else {
            self.eat_empty()
        }
    }

    fn parse_parenthesized_query(&mut self) -> (r: (ParseTree<'a>, ParseTree<'a>, ParseTree<'a>))
        requires
            old(self).inv(),
        ensures
            final(self).inv(),
            final(self).measure() <= old(self).measure(),
            lossless(r.0) && lossless(r.1) && lossless(r.2) ==> final(self).consumed() == old(self).consumed() + tokens_of(r.0) + tokens_of(r.1) + tokens_of(r.2),
            final(self).input() == old(self).input(),
            tree_wf(r.0),
            tree_wf(r.1),
            tree_wf(r.2),
        decreases old(self).measure(), if old(self).next_kind() == TK::OpenParen {
            2int
        } else {
            64int
        },
    {
        self.parse_parenthesized(Element::Query)
    }

    // namedQuery
    // : name=identifier (columnAliases)? AS '(' query ')'
    fn parse_named_query(&mut self) -> (r: ParseTree<'a>)
        requires
            old(self).inv(),
        ensures
            final(self).inv(),
            final(self).measure() <= old(self).measure(),
            lossless(r) ==> final(self).consumed() == old(self).consumed() + tokens_of(r),
            final(self).input() == old(self).input(),
            tree_wf(r),
            r is NamedQuery,
        decreases old(self).measure(), 70int,
    {
        let name = self.parse_identifier();
        let column_aliases = self.parse_column_aliases_opt();
        let as_ = self.eat(TK::AS);
        let (open_paren, query, close_paren) = self.parse_parenthesized_query();
        parse_tree::named_query(name, column_aliases, as_, open_paren, query, close_paren)
    }

    // identifier
    // : IDENTIFIER             #unquotedIdentifier
    // | QUOTED_IDENTIFIER      #quotedIdentifier
    // | nonReserved            #unquotedIdentifier
    // | BACKQUOTED_IDENTIFIER  #backQuotedIdentifier
    // | DIGIT_IDENTIFIER       #digitIdentifier
    // ;
    fn parse_identifier(&mut self) -> (r: ParseTree<'a>)
        requires
            old(self).inv(),
        ensures
            final(self).inv(),
            final(self).measure() <= old(self).measure(),
            lossless(r) ==> final(self).consumed() == old(self).consumed() + tokens_of(r),
            final(self).input() == old(self).input(),
            tree_wf(r),
            is_identifier_kind(old(self).next_kind()) ==> final(self).measure() < old(self).measure(),
            is_identifier_kind(old(self).next_kind()) ==> r == ParseTree::Token(
                parse_tree::Token { token: old(self).position.tokens@[0] },
            ),
            !is_identifier_kind(old(self).next_kind()) ==> *final(self) == *old(self),
    {
        if self.peek_identifier() {
            self.eat_token()
        } else {
            self.expected_error_kind(TK::Identifier)
        }
    }

    fn peek_identifier_offset(&mut self, offset: usize) -> (r: bool)
        requires
            old(self).inv(),
        ensures
            final(self).peeked(old(self)),
            offset < final(self).position.tokens@.len(),
            r == is_identifier_kind(final(self).kind_at(offset as int)),
    {
        match self.peek_offset(offset) {
            TK::Identifier | TK::QuotedIdentifier | TK::BackquotedIdentifier
            | TK::DigitIdentifier => true,
            _ => false,
        }
    }

    fn peek_identifier(&self) -> (r: bool)
        requires
            self.inv(),
        ensures
            r == is_identifier_kind(self.next_kind()),
    {
        match self.peek() {
            TK::Identifier | TK::QuotedIdentifier | TK::BackquotedIdentifier
            | TK::DigitIdentifier => true,
            _ => false,
        }
    }

    fn parse_identifier_opt(&mut self) -> (r: ParseTree<'a>)
        requires
            old(self).inv(),
        ensures
            final(self).inv(),
            final(self).measure() <= old(self).measure(),
            lossless(r) ==> final(self).consumed() == old(self).consumed() + tokens_of(r),
            final(self).input() == old(self).input(),
            tree_wf(r),
    {
        if self.peek_identifier() {
            self.eat_token()
        } else {
            self.eat_empty()
        }
    }

    // columnAliases
    // : '(' identifier (',' identifier)* ')'
    fn parse_column_aliases_opt(&mut self) -> (r: ParseTree<'a>)
        requires
            old(self).inv(),
        ensures
            final(self).inv(),
            final(self).measure() <= old(self).measure(),
            lossless(r) ==> final(self).consumed() == old(self).consumed() + tokens_of(r),
            final(self).input() == old(self).input(),
            tree_wf(r),
        decreases old(self).measure(), 2int,
    {
        if self.peek_column_aliases() {
            self.parse_parenthesized_comma_separated_list(Element::Identifier)
        } else {
            self.eat_empty()
        }
    }

    fn peek_column_aliases(&mut self) -> (r: bool)
        requires
            old(self).inv(),
        ensures
            final(self).peeked(old(self)),
            r ==> final(self).next_kind() == TK::OpenParen,
    {
        // need to disambiguate with query in an insert into
        self.peek_kind(TK::OpenParen) && self.peek_identifier_offset(1)
    }

    // queryNoWith:
    //   queryTerm
    //   (ORDER BY sortItem (',' sortItem)*)?
    //   (LIMIT limit=(INTEGER_VALUE | ALL))?
    fn parse_query_no_with(&mut self) -> (r: ParseTree<'a>)
        requires
            old(self).inv(),
        ensures
            final(self).inv(),
            final(self).measure() <= old(self).measure(),
            lossless(r) ==> final(self).consumed() == old(self).consumed() + tokens_of(r),
            final(self).input() == old(self).input(),
            tree_wf(r),
            r is QueryNoWith,
            is_query_term_for(old(self).next_kind(), *r->QueryNoWith_0.query_term),
        decreases old(self).measure(), 50int,
    {
        let ghost base = self.consumed();
        let query_term = self.parse_query_term();
        self.parse_query_no_with_tail(query_term, Ghost(base))
    }

    fn peek_query_no_with_tail(&mut self) -> (r: bool)
        requires
            old(self).inv(),
        ensures
            final(self).peeked(old(self)),
    {
        self.peek_kind(TK::ORDER) || self.peek_limit_offset(0)
    }

    fn parse_query_no_with_tail(&mut self, query_term: ParseTree<'a>, Ghost(base): Ghost<Seq<Token<'a>>>) -> (r: ParseTree<'a>)
        requires
            old(self).inv(),
            lossless(query_term) ==> old(self).consumed() =~= base + tokens_of(query_term),
            tree_wf(query_term),
        ensures
            final(self).inv(),
            final(self).measure() <= old(self).measure(),
            lossless(r) ==> final(self).consumed() == base + tokens_of(r),
            final(self).input() == old(self).input(),
            tree_wf(r),
            r is QueryNoWith,
            *r->QueryNoWith_0.query_term == query_term,
        decreases old(self).measure(), 2int,
    {
        let order_by_opt = self.parse_order_by_opt();
        let limit_opt = self.parse_limit_opt();
        parse_tree::query_no_with(query_term, order_by_opt, limit_opt)
    }

    // sortItem
    // : expression ordering=(ASC | DESC)? (NULLS nullOrdering=(FIRST | LAST))?
    fn parse_sort_item(&mut self) -> (r: ParseTree<'a>)
        requires
            old(self).inv(),
        ensures
            final(self).inv(),
            final(self).measure() <= old(self).measure(),
            lossless(r) ==> final(self).consumed() == old(self).consumed() + tokens_of(r),
            final(self).input() == old(self).input(),
            tree_wf(r),
        decreases old(self).measure(), 150int,
    {
        let expression = self.parse_expression();
        let ordering_opt = self.parse_ordering_opt();
        let nulls = self.eat_predefined_name_opt(PN::NULLS);
        let null_ordering = if nulls.is_empty() {
            self.eat_empty()
        } else {
            self.parse_null_ordering()
        };
        parse_tree::sort_item(expression, ordering_opt, nulls, null_ordering)
    }

    fn parse_ordering_opt(&mut self) -> (r: ParseTree<'a>)
        requires
            old(self).inv(),
        ensures
            final(self).inv(),
            final(self).measure() <= old(self).measure(),
            lossless(r) ==> final(self).consumed() == old(self).consumed() + tokens_of(r),
            final(self).input() == old(self).input(),
            tree_wf(r),
    {
        let asc = self.eat_predefined_name_opt(PN::ASC);
        if asc.is_empty() {
            self.eat_predefined_name_opt(PN::DESC)
        } else {
            asc
        }
    }

    fn parse_null_ordering(&mut self) -> (r: ParseTree<'a>)
        requires
            old(self).inv(),
        ensures
            final(self).inv(),
            final(self).measure() <= old(self).measure(),
            lossless(r) ==> final(self).consumed() == old(self).consumed() + tokens_of(r),
            final(self).input() == old(self).input(),
            tree_wf(r),
    {
        let last = self.eat_predefined_name_opt(PN::LAST);
        if last.is_empty() {
            self.eat_predefined_name(PN::FIRST)
        } else {
            last
        }
    }

    //   (ORDER BY sortItem (',' sortItem)*)?
    fn parse_order_by_opt(&mut self) -> (r: ParseTree<'a>)
        requires
            old(self).inv(),
        ensures
            final(self).inv(),
            final(self).measure() <= old(self).measure(),
            lossless(r) ==> final(self).consumed() == old(self).consumed() + tokens_of(r),
            final(self).input() == old(self).input(),
            tree_wf(r),
        decreases old(self).measure(), 1int,
    {
        let order = self.eat_opt(TK::ORDER);
        if order.is_empty() {
            order
        } else {
            let by = self.eat(TK::BY);
            let sort_items = self.parse_comma_separated_list(Element::SortItem);
            parse_tree::order_by(order, by, sort_items)
        }
    }

    //   (LIMIT limit=(INTEGER_VALUE | ALL))?
    fn parse_limit_opt(&mut self) -> (r: ParseTree<'a>)
        requires
            old(self).inv(),
        ensures
            final(self).inv(),
            final(self).measure() <= old(self).measure(),
            lossless(r) ==> final(self).consumed() == old(self).consumed() + tokens_of(r),
            final(self).input() == old(self).input(),
            tree_wf(r),
    {
        let limit = self.eat_predefined_name_opt(PN::LIMIT);
        if limit.is_empty() {
            limit
        } else {
            let value = self.eat_predefined_name_opt(PN::ALL);
            let value = if value.is_empty() {
                self.eat(TK::Integer)
            } else {
                value
            };
            parse_tree::limit(limit, value)
        }
    }

    fn peek_limit_offset(&mut self, offset: usize) -> (r: bool)
        requires
            old(self).inv(),
            offset < usize::MAX,
        ensures
            final(self).peeked(old(self)),
            r ==> offset < final(self).position.tokens@.len() && final(self).kind_at(offset as int)
                == TK::Identifier,
    {
        self.peek_predefined_name_offset(PN::LIMIT, offset) && (self.peek_predefined_name_offset(
            PN::ALL,
            offset + 1,
        ) || self.peek_kind_offset(TK::Integer, offset + 1))
    }

    // queryTerm
    // : queryPrimary                                                             #queryTermDefault
    // | left=queryTerm operator=INTERSECT setQuantifier? right=queryTerm         #setOperation
    // | left=queryTerm operator=(UNION | EXCEPT) setQuantifier? right=queryTerm  #setOperation
    fn parse_query_term(&mut self) -> (r: ParseTree<'a>)
        requires
            old(self).inv(),
        ensures
            final(self).inv(),
            final(self).measure() <= old(self).measure(),
            lossless(r) ==> final(self).consumed() == old(self).consumed() + tokens_of(r),
            final(self).input() == old(self).input(),
            tree_wf(r),
            is_query_term_for(old(self).next_kind(), r),
        decreases old(self).measure(), 40int,
    {
        // handle operator precedence here
        self.parse_union_query_term()
    }

    // | left=queryTerm operator=(UNION | EXCEPT) setQuantifier? right=queryTerm  #setOperation
    fn parse_union_query_term(&mut self) -> (r: ParseTree<'a>)
        requires
            old(self).inv(),
        ensures
            final(self).inv(),
            final(self).measure() <= old(self).measure(),
            lossless(r) ==> final(self).consumed() == old(self).consumed() + tokens_of(r),
            final(self).input() == old(self).input(),
            tree_wf(r),
            is_query_term_for(old(self).next_kind(), r),
        decreases old(self).measure(), 30int,
    {
        let ghost base = self.consumed();
        let left = self.parse_intersect_query_term();
        self.parse_union_query_term_tail(left, Ghost(base))
    }

    fn parse_union_query_term_tail(&mut self, left: ParseTree<'a>, Ghost(base): Ghost<Seq<Token<'a>>>) -> (r: ParseTree<'a>)
        requires
            old(self).inv(),
            lossless(left) ==> old(self).consumed() =~= base + tokens_of(left),
            tree_wf(left),
        ensures
            final(self).inv(),
            final(self).measure() <= old(self).measure(),
            lossless(r) ==> final(self).consumed() == base + tokens_of(r),
            final(self).input() == old(self).input(),
            tree_wf(r),
            r == left || r is QuerySetOperation,
        decreases old(self).measure(), 1int,
    {
        let ghost start = *self;
        let ghost left0 = left;
        let mut left = left;
        while self.peek_union_query_term_tail()
            invariant
                self.inv(),
                start.inv(),
                start == *old(self),
                self.measure() <= start.measure(),
                lossless(left) ==> self.consumed() == base + tokens_of(left),
                self.input() == start.input(),
                tree_wf(left),
                left == left0 || left is QuerySetOperation,
            decreases self.measure(),
        {
            let operator = self.eat_token();
            let set_quantifier_opt = self.parse_set_quantifier_opt(TailPeeker::AlwaysTrue);
            let right = self.parse_intersect_query_term();
            left = parse_tree::query_set_operation(left, operator, set_quantifier_opt, right);
        }
        left
    }

    fn peek_union_query_term_tail(&self) -> (r: bool)
        requires
            self.inv(),
        ensures
            r == (self.next_kind() == TK::UNION || self.next_kind() == TK::EXCEPT),
    {
        let op_kind = self.peek();
        op_kind == TK::UNION || op_kind == TK::EXCEPT
    }

    // | left=queryTerm operator=INTERSECT setQuantifier? right=queryTerm         #setOperation
    fn parse_intersect_query_term(&mut self) -> (r: ParseTree<'a>)
        requires
            old(self).inv(),
        ensures
            final(self).inv(),
            final(self).measure() <= old(self).measure(),
            lossless(r) ==> final(self).consumed() == old(self).consumed() + tokens_of(r),
            final(self).input() == old(self).input(),
            tree_wf(r),
            is_query_term_for(old(self).next_kind(), r),
        decreases old(self).measure(), 20int,
    {
        let ghost base = self.consumed();
        let left = self.parse_query_primary();
        self.parse_intersect_query_term_tail(left, Ghost(base))
    }

    fn parse_intersect_query_term_tail(&mut self, left: ParseTree<'a>, Ghost(base): Ghost<Seq<Token<'a>>>) -> (r: ParseTree<'a>)
        requires
            old(self).inv(),
            lossless(left) ==> old(self).consumed() =~= base + tokens_of(left),
            tree_wf(left),
        ensures
            final(self).inv(),
            final(self).measure() <= old(self).measure(),
            lossless(r) ==> final(self).consumed() == base + tokens_of(r),
            final(self).input() == old(self).input(),
            tree_wf(r),
            r == left || r is QuerySetOperation,
        decreases old(self).measure(), 1int,
    {
        let ghost start = *self;
        let ghost left0 = left;
        let mut left = left;
        while self.peek_intersect_query_term_tail()
            invariant
                self.inv(),
                start.inv(),
                start == *old(self),
                self.measure() <= start.measure(),
                lossless(left) ==> self.consumed() == base + tokens_of(left),
                self.input() == start.input(),
                tree_wf(left),
                left == left0 || left is QuerySetOperation,
            decreases self.measure(),
        {
            let operator = self.eat_token();
            let set_quantifier_opt = self.parse_set_quantifier_opt(TailPeeker::AlwaysTrue);
            let right = self.parse_query_primary();
            left = parse_tree::query_set_operation(left, operator, set_quantifier_opt, right);
        }
        left
    }

    fn parse_query_primary_tail(&mut self, query_primary: ParseTree<'a>, Ghost(base): Ghost<Seq<Token<'a>>>) -> (r: ParseTree<'a>)
        requires
            old(self).inv(),
            lossless(query_primary) ==> old(self).consumed() =~= base + tokens_of(query_primary),
            tree_wf(query_primary),
        ensures
            final(self).inv(),
            final(self).measure() <= old(self).measure(),
            lossless(r) ==> final(self).consumed() == base + tokens_of(r),
            final(self).input() == old(self).input(),
            tree_wf(r),
        decreases old(self).measure(), 3int,
    {
        let query_intersect = self.parse_intersect_query_term_tail(query_primary, Ghost(base));
        let query_term = self.parse_union_query_term_tail(query_intersect, Ghost(base));
        self.parse_query_no_with_tail(query_term, Ghost(base))
    }

    fn peek_intersect_query_term_tail(&self) -> (r: bool)
        requires
            self.inv(),
        ensures
            r == (self.next_kind() == TK::INTERSECT),
    {
        self.peek_kind(TK::INTERSECT)
    }

    /// Tests what may follow an `ALL` set quantifier, `offset` tokens ahead.
    fn peek_tail(&mut self, peeker: TailPeeker, offset: usize) -> (r: bool)
        requires
            old(self).inv(),
            offset < usize::MAX,
        ensures
            final(self).peeked(old(self)),
    {
        match peeker {
            TailPeeker::AlwaysTrue => true,
            TailPeeker::SelectItem => self.peek_select_item_offset(offset),
            TailPeeker::GroupingElement => self.peek_grouping_element_offset(offset),
            TailPeeker::FunctionArguments => {
                self.peek_kind_offset(TK::CloseParen, offset) || self.peek_expression_offset(offset)
                    || self.peek_kind_offset(TK::ORDER, offset)
            },
        }
    }

    // setQuantifier
    // : DISTINCT
    // | ALL
    fn parse_set_quantifier_opt(&mut self, peek_tail: TailPeeker) -> (r: ParseTree<'a>)
        requires
            old(self).inv(),
        ensures
            final(self).inv(),
            final(self).measure() <= old(self).measure(),
            lossless(r) ==> final(self).consumed() == old(self).consumed() + tokens_of(r),
            final(self).input() == old(self).input(),
            tree_wf(r),
    {
        let distinct = self.eat_opt(TK::DISTINCT);
        if distinct.is_empty() && self.peek_predefined_name(PN::ALL) && self.peek_tail(peek_tail, 1) {
            self.eat_token()
        } else {
            distinct
        }
    }

    fn peek_query_primary_offset(&mut self, offset: usize) -> (r: bool)
        requires
            old(self).inv(),
        ensures
            final(self).peeked(old(self)),
        decreases old(self).measure() - offset,
    {
        match self.peek_offset(offset) {
            TK::SELECT | TK::TABLE | TK::VALUES => true,
            TK::OpenParen => {
                proof {
                    reveal(Parser::inv);
                    reveal(Parser::measure);
                    self.position.lemma_offset_bound(offset as int);
                }
                self.peek_query_primary_offset(offset + 1)
            },
            _ => false,
        }
    }

    fn peek_query_offset(&mut self, offset: usize) -> (r: bool)
        requires
            old(self).inv(),
        ensures
            final(self).peeked(old(self)),
    {
        self.peek_kind_offset(TK::WITH, offset) || self.peek_query_primary_offset(offset)
    }

    // queryPrimary
    // : querySpecification                   #queryPrimaryDefault
    // | TABLE qualifiedName                  #table
    // | VALUES expression (',' expression)*  #inlineTable
    // | '(' queryNoWith  ')'                 #subquery
    fn parse_query_primary(&mut self) -> (r: ParseTree<'a>)
        requires
            old(self).inv(),
        ensures
            final(self).inv(),
            final(self).measure() <= old(self).measure(),
            lossless(r) ==> final(self).consumed() == old(self).consumed() + tokens_of(r),
            final(self).input() == old(self).input(),
            tree_wf(r),
            is_query_primary_for(old(self).next_kind(), r),
        decreases old(self).measure(), 10int,
    {
        match self.peek() {
            TK::SELECT => self.parse_query_specification(),
            TK::TABLE => self.parse_table(),
            TK::VALUES => self.parse_inline_table(),
            TK::OpenParen => self.parse_subquery(),
            _ => self.eat(TK::SELECT),
        }
    }

    // | '(' queryNoWith  ')'                 #subquery
    fn parse_subquery(&mut self) -> (r: ParseTree<'a>)
        requires
            old(self).inv(),
        ensures
            final(self).inv(),
            final(self).measure() <= old(self).measure(),
            lossless(r) ==> final(self).consumed() == old(self).consumed() + tokens_of(r),
            final(self).input() == old(self).input(),
            tree_wf(r),
            r is Subquery,
        decreases old(self).measure(), if old(self).next_kind() == TK::OpenParen { 3int } else { 100060int },
    {
        let (open_paren, query_no_with, close_paren) = self.parse_parenthesized(
            Element::QueryNoWith,
        );
        parse_tree::subquery(open_paren, query_no_with, close_paren)
    }

    // | VALUES expression (',' expression)*  #inlineTable
    fn parse_inline_table(&mut self) -> (r: ParseTree<'a>)
        requires
            old(self).inv(),
        ensures
            final(self).inv(),
            final(self).measure() <= old(self).measure(),
            lossless(r) ==> final(self).consumed() == old(self).consumed() + tokens_of(r),
            final(self).input() == old(self).input(),
            tree_wf(r),
            r is InlineTable,
        decreases old(self).measure(), if old(self).next_kind() == TK::VALUES { 3int } else { 100150int },
    {
        let values = self.eat(TK::VALUES);
        let expressions = self.parse_comma_separated_list(Element::Expression);
        parse_tree::inline_table(values, expressions)
    }

    // | TABLE qualifiedName                  #table
    fn parse_table(&mut self) -> (r: ParseTree<'a>)
        requires
            old(self).inv(),
        ensures
            final(self).inv(),
            final(self).measure() <= old(self).measure(),
            lossless(r) ==> final(self).consumed() == old(self).consumed() + tokens_of(r),
            final(self).input() == old(self).input(),
            tree_wf(r),
            r is Table,
    {
        let table = self.eat(TK::TABLE);
        let qualified_name = self.parse_qualified_name();
        parse_tree::table(table, qualified_name)
    }

    // querySpecification
    // : SELECT setQuantifier? selectItem (',' selectItem)*
    //   (FROM relation (',' relation)*)?
    //   (WHERE where=booleanExpression)?
    //   (GROUP BY groupBy)?
    //   (HAVING having=booleanExpression)?
    #[verifier::spinoff_prover]
    #[verifier::rlimit(100)]
    fn parse_query_specification(&mut self) -> (r: ParseTree<'a>)
        requires
            old(self).inv(),
        ensures
            final(self).inv(),
            final(self).measure() <= old(self).measure(),
            lossless(r) ==> final(self).consumed() == old(self).consumed() + tokens_of(r),
            final(self).input() == old(self).input(),
            tree_wf(r),
            r is QuerySpecification,
        decreases old(self).measure(), if old(self).next_kind() == TK::SELECT { 3int } else { 100180int },
    {
        let ghost c0 = self.consumed();
        let select = self.eat(TK::SELECT);
        let set_quantifier_opt = self.parse_set_quantifier_opt(TailPeeker::SelectItem);
        let select_items = self.parse_comma_separated_list(Element::SelectItem);
        let from = self.eat_opt(TK::FROM);
        let relations = if from.is_empty() {
            self.eat_empty()
        } else {
            self.parse_comma_separated_list(Element::Relation)
        };
        let ghost t5 = tokens_of(select) + tokens_of(set_quantifier_opt) + tokens_of(select_items)
            + tokens_of(from) + tokens_of(relations);
        let ghost l5 = lossless(select) && lossless(set_quantifier_opt) && lossless(select_items)
            && lossless(from) && lossless(relations);
        assert(l5 ==> self.consumed() =~= c0 + t5);
        let where_ = self.eat_opt(TK::WHERE);
        let where_predicate = if where_.is_empty() {
            self.eat_empty()
        } else {
            self.parse_boolean_expression()
        };
        let ghost t7 = t5 + tokens_of(where_) + tokens_of(where_predicate);
        let ghost l7 = l5 && lossless(where_) && lossless(where_predicate);
        assert(l7 ==> self.consumed() =~= c0 + t7);
        let group = self.eat_opt(TK::GROUP);
        let (by, group_by) = if group.is_empty() {
            (self.eat_empty(), self.eat_empty())
        } else {
            let by = self.eat(TK::BY);
            let group_by = self.parse_group_by();
            (by, group_by)
        };
        let ghost t10 = t7 + tokens_of(group) + tokens_of(by) + tokens_of(group_by);
        let ghost l10 = l7 && lossless(group) && lossless(by) && lossless(group_by);
        assert(l10 ==> self.consumed() =~= c0 + t10);
        let having = self.eat_opt(TK::HAVING);
        let having_predicate = if having.is_empty() {
            self.eat_empty()
        } else {
            self.parse_boolean_expression()
        };
        assert(l10 && lossless(having) && lossless(having_predicate) ==> self.consumed() =~= c0
            + (t10 + tokens_of(having) + tokens_of(having_predicate)));
        parse_tree::query_specification(
            select,
            set_quantifier_opt,
            select_items,
            from,
            relations,
            where_,
            where_predicate,
            group,
            by,
            group_by,
            having,
            having_predicate,
        )
    }

    // selectItem
    // : expression (AS? identifier)?  #selectSingle
    // | qualifiedName '.' ASTERISK    #selectAll
    // | ASTERISK                      #selectAll
    fn parse_select_item(&mut self) -> (r: ParseTree<'a>)
        requires
            old(self).inv(),
        ensures
            final(self).inv(),
            final(self).measure() <= old(self).measure(),
            lossless(r) ==> final(self).consumed() == old(self).consumed() + tokens_of(r),
            final(self).input() == old(self).input(),
            tree_wf(r),
        decreases old(self).measure(), 150int,
    {
        let asterisk = self.eat_opt(TK::Asterisk);
        if asterisk.is_empty() {
            if self.peek_qualified_select_all() {
                let qualifier = self.parse_qualified_name();
                let period = self.eat(TK::Period);
                let asterisk = self.eat(TK::Asterisk);
                parse_tree::qualified_select_all(qualifier, period, asterisk)
            } else {
                let expression = self.parse_expression();
                let as_ = self.eat_opt(TK::AS);
                let identifier = if as_.is_empty() {
                    self.parse_identifier_opt()
                } else {
                    self.parse_identifier()
                };
                parse_tree::select_item(expression, as_, identifier)
            }
        } else {
            parse_tree::select_all(asterisk)
        }
    }

    fn peek_select_item_offset(&mut self, offset: usize) -> (r: bool)
        requires
            old(self).inv(),
        ensures
            final(self).peeked(old(self)),
    {
        self.peek_expression_offset(offset) || self.peek_kind_offset(TK::Asterisk, offset)
    }

    fn peek_qualified_select_all(&mut self) -> (r: bool)
        requires
            old(self).inv(),
        ensures
            final(self).peeked(old(self)),
    {
        let ghost start = *self;
        let mut offset: usize = 0;
        while self.peek_identifier_offset(offset)
            invariant
                self.peeked(&start),
                start.inv(),
                start == *old(self),
            decreases start.measure() - offset,
        {
            proof {
                reveal(Parser::inv);
                    reveal(Parser::measure);
                    self.position.lemma_offset_bound(offset as int);
            }
            offset += 1;
            if self.peek_kind_offset(TK::Period, offset) {
                proof {
                    reveal(Parser::inv);
                    reveal(Parser::measure);
                    self.position.lemma_offset_bound(offset as int);
                }
                offset += 1;
            } else {
                return false;
            }
        }
        offset > 0 && self.peek_kind_offset(TK::Asterisk, offset)
    }
}



impl<'a> Parser<'a> {
    // relation
    // : left=relation
    //   ( CROSS JOIN right=sampledRelation
    //   | joinType JOIN rightRelation=relation joinCriteria
    //   | NATURAL joinType JOIN right=sampledRelation
    //   )                                           #joinRelation
    // | sampledRelation                             #relationDefault
    fn parse_relation(&mut self) -> (r: ParseTree<'a>)
        requires
            old(self).inv(),
        ensures
            final(self).inv(),
            final(self).measure() <= old(self).measure(),
            lossless(r) ==> final(self).consumed() == old(self).consumed() + tokens_of(r),
            final(self).input() == old(self).input(),
            tree_wf(r),
        decreases old(self).measure(), 30int,
    {
        let ghost base = self.consumed();
        let left = self.parse_sampled_relation();
        self.parse_join_relation_tail(left, Ghost(base))
    }

    fn peek_join_relation_tail(&self) -> (r: bool)
        requires
            self.inv(),
        ensures
            r == (self.next_kind() == TK::CROSS || self.next_kind() == TK::JOIN || self.next_kind()
                == TK::INNER || self.next_kind() == TK::LEFT || self.next_kind() == TK::RIGHT
                || self.next_kind() == TK::FULL || self.next_kind() == TK::NATURAL),
    {
        match self.peek() {
            TK::CROSS | TK::JOIN | TK::INNER | TK::LEFT | TK::RIGHT | TK::FULL | TK::NATURAL => {
                true
            },
            _ => false,
        }
    }

    fn parse_join_relation_tail(&mut self, left: ParseTree<'a>, Ghost(base): Ghost<Seq<Token<'a>>>) -> (r: ParseTree<'a>)
        requires
            old(self).inv(),
            lossless(left) ==> old(self).consumed() =~= base + tokens_of(left),
            tree_wf(left),
        ensures
            final(self).inv(),
            final(self).measure() <= old(self).measure(),
            lossless(r) ==> final(self).consumed() == base + tokens_of(r),
            final(self).input() == old(self).input(),
            tree_wf(r),
        decreases old(self).measure(), 1int,
    {
        let ghost start = *self;
        let mut left = left;
        while self.peek_join_relation_tail()
            invariant
                self.inv(),
                start.inv(),
                start == *old(self),
                self.measure() <= start.measure(),
                lossless(left) ==> self.consumed() == base + tokens_of(left),
                self.input() == start.input(),
                tree_wf(left),
            decreases self.measure(),
        {
            left = match self.peek() {
                TK::CROSS => {
                    let cross = self.eat(TK::CROSS);
                    let join = self.eat(TK::JOIN);
                    let right = self.parse_sampled_relation();
                    parse_tree::cross_join(left, cross, join, right)
                },
                TK::NATURAL => {
                    let natural = self.eat(TK::NATURAL);
                    let join_type = self.parse_join_type();
                    let join = self.eat(TK::JOIN);
                    let right = self.parse_sampled_relation();
                    parse_tree::natural_join(left, natural, join_type, join, right)
                },
                _ => {
                    let join_type = self.parse_join_type();
                    let join = self.eat(TK::JOIN);
                    let right = self.parse_relation();
                    let join_criteria = self.parse_join_criteria();
                    parse_tree::join(left, join_type, join, right, join_criteria)
                },
            };
        }
        left
    }

    // joinType
    // : INNER?
    // | LEFT OUTER?
    // | RIGHT OUTER?
    // | FULL OUTER?
    fn parse_join_type(&mut self) -> (r: ParseTree<'a>)
        requires
            old(self).inv(),
        ensures
            final(self).inv(),
            final(self).measure() <= old(self).measure(),
            lossless(r) ==> final(self).consumed() == old(self).consumed() + tokens_of(r),
            final(self).input() == old(self).input(),
            tree_wf(r),
            (old(self).next_kind() == TK::INNER || old(self).next_kind() == TK::LEFT || old(self).next_kind() == TK::RIGHT || old(self).next_kind() == TK::FULL) ==> final(self).measure() < old(self).measure(),
            old(self).next_kind() == TK::JOIN ==> *final(self) == *old(self),
    {
        match self.peek() {
            TK::INNER => self.eat(TK::INNER),
            TK::LEFT | TK::RIGHT | TK::FULL => {
                let kind = self.eat_token();
                let outer_opt = self.eat_opt(TK::OUTER);
                parse_tree::outer_join_kind(kind, outer_opt)
            },
            _ => self.eat_empty(),
        }
    }

    // joinCriteria
    // : ON booleanExpression
    // | USING '(' identifier (',' identifier)* ')'
    fn parse_join_criteria(&mut self) -> (r: ParseTree<'a>)
        requires
            old(self).inv(),
        ensures
            final(self).inv(),
            final(self).measure() <= old(self).measure(),
            lossless(r) ==> final(self).consumed() == old(self).consumed() + tokens_of(r),
            final(self).input() == old(self).input(),
            tree_wf(r),
        decreases old(self).measure(), 1int,
    {
        match self.peek() {
            TK::ON => {
                let on = self.eat(TK::ON);
                let predicate = self.parse_boolean_expression();
                parse_tree::on_join_criteria(on, predicate)
            },
            TK::USING => {
                let using = self.eat(TK::USING);
                let names = self.parse_parenthesized_comma_separated_list(Element::Identifier);
                parse_tree::using_join_criteria(using, names)
            },
            _ => self.expected_error("join criteria"),
        }
    }

    // sampledRelation
    // : aliasedRelation (
    //     TABLESAMPLE sampleType '(' percentage=expression ')'
    //   )?
    fn parse_sampled_relation(&mut self) -> (r: ParseTree<'a>)
        requires
            old(self).inv(),
        ensures
            final(self).inv(),
            final(self).measure() <= old(self).measure(),
            lossless(r) ==> final(self).consumed() == old(self).consumed() + tokens_of(r),
            final(self).input() == old(self).input(),
            tree_wf(r),
        decreases old(self).measure(), 20int,
    {
        let ghost base = self.consumed();
        let relation_primary = self.parse_relation_primary();
        self.parse_sampled_relation_tail(relation_primary, Ghost(base))
    }

    fn parse_sampled_relation_tail(&mut self, relation_primary: ParseTree<'a>, Ghost(base): Ghost<Seq<Token<'a>>>) -> (r: ParseTree<'a>)
        requires
            old(self).inv(),
            lossless(relation_primary) ==> old(self).consumed() =~= base + tokens_of(relation_primary),
            tree_wf(relation_primary),
        ensures
            final(self).inv(),
            final(self).measure() <= old(self).measure(),
            lossless(r) ==> final(self).consumed() == base + tokens_of(r),
            final(self).input() == old(self).input(),
            tree_wf(r),
        decreases old(self).measure(), 4int,
    {
        let aliased_relation = self.parse_aliased_relation_tail(relation_primary, Ghost(base));
        let tablesample = self.eat_predefined_name_opt(PN::TABLESAMPLE);
        if tablesample.is_empty() {
            aliased_relation
        } else {
            let sample_type = self.parse_sample_type();
            let (open_paren, expression, close_paren) = self.parse_parenthesized(
                Element::Expression,
            );
            parse_tree::sampled_relation(
                aliased_relation,
                tablesample,
                sample_type,
                open_paren,
                expression,
                close_paren,
            )
        }
    }

    fn peek_sampled_relation_tail(&mut self) -> (r: bool)
        requires
            old(self).inv(),
        ensures
            final(self).peeked(old(self)),
    {
        self.peek_aliased_relation_tail_offset(0) || self.peek_tablesample_suffix_offset(0)
    }

    fn peek_tablesample_suffix_offset(&mut self, offset: usize) -> (r: bool)
        requires
            old(self).inv(),
            offset < usize::MAX,
        ensures
            final(self).peeked(old(self)),
    {
        self.peek_predefined_name_offset(PN::TABLESAMPLE, offset) && self.peek_sample_type_offset(
            offset + 1,
        )
    }

    fn peek_sample_type_offset(&mut self, offset: usize) -> (r: bool)
        requires
            old(self).inv(),
        ensures
            final(self).peeked(old(self)),
            offset < final(self).position.tokens@.len(),
            r ==> final(self).kind_at(offset as int) == TK::Identifier,
    {
        match self.maybe_peek_predefined_name_offset(offset) {
            Some(PN::BERNOULLI) | Some(PN::SYSTEM) => true,
            _ => false,
        }
    }

    // sampleType
    // : BERNOULLI
    // | SYSTEM
    fn parse_sample_type(&mut self) -> (r: ParseTree<'a>)
        requires
            old(self).inv(),
        ensures
            final(self).inv(),
            final(self).measure() <= old(self).measure(),
            lossless(r) ==> final(self).consumed() == old(self).consumed() + tokens_of(r),
            final(self).input() == old(self).input(),
            tree_wf(r),
    {
        if self.peek_sample_type_offset(0) {
            self.eat_token()
        } else {
            self.expected_error("sample type")
        }
    }

    // aliasedRelation
    // : relationPrimary (AS? identifier columnAliases?)?
    fn peek_aliased_relation_tail_offset(&mut self, offset: usize) -> (r: bool)
        requires
            old(self).inv(),
            offset < usize::MAX,
        ensures
            final(self).peeked(old(self)),
    {
        (self.peek_kind_offset(TK::AS, offset) || self.peek_identifier_offset(offset))
        // need to avoid consuming a TABLESAMPLE as an alias
        // This is due to the ANTLR grammar being recursive
        // through the relation production.
         && !self.peek_tablesample_suffix_offset(offset)
        // need to avoid consuming the LIMIT(non-keyword) as an alias.
         && !self.peek_limit_offset(offset)
    }

    fn parse_aliased_relation_tail(&mut self, relation_primary: ParseTree<'a>, Ghost(base): Ghost<Seq<Token<'a>>>) -> (r: ParseTree<'a>)
        requires
            old(self).inv(),
            lossless(relation_primary) ==> old(self).consumed() =~= base + tokens_of(relation_primary),
            tree_wf(relation_primary),
        ensures
            final(self).inv(),
            final(self).measure() <= old(self).measure(),
            lossless(r) ==> final(self).consumed() == base + tokens_of(r),
            final(self).input() == old(self).input(),
            tree_wf(r),
        decreases old(self).measure(), 3int,
    {
        if self.peek_aliased_relation_tail_offset(0) {
            let as_opt = self.eat_opt(TK::AS);
            let identifier = self.parse_identifier();
            let column_aliases_opt = self.parse_column_aliases_opt();
            parse_tree::aliased_relation(relation_primary, as_opt, identifier, column_aliases_opt)
        } else {
            relation_primary
        }
    }

    fn peek_query_primary_follow(&mut self) -> (r: bool)
        requires
            old(self).inv(),
        ensures
            final(self).peeked(old(self)),
    {
        self.peek_intersect_query_term_tail() || self.peek_union_query_term_tail()
            || self.peek_query_no_with_tail()
    }

    // yields one of:
    //   one of several relation trees:
    //          joins, sampled, subquery_relation
    //   query - possibly with or without a with clause
    //   query_no_with
    //   relation_or_query
    fn parse_relation_or_query(&mut self) -> (r: ParseTree<'a>)
        requires
            old(self).inv(),
        ensures
            final(self).inv(),
            final(self).measure() <= old(self).measure(),
            lossless(r) ==> final(self).consumed() == old(self).consumed() + tokens_of(r),
            final(self).input() == old(self).input(),
            tree_wf(r),
        decreases old(self).measure(), 70int,
    {
        let ghost base = self.consumed();
        if self.peek_kind(TK::OpenParen) {
            let (open_paren, relation_or_query, close_paren) = self.parse_parenthesized(
                Element::RelationOrQuery,
            );
            let must_be_subquery_relation = relation_or_query.is_query()
                && !relation_or_query.as_query().with.is_empty();
            let can_be_query_primary = !must_be_subquery_relation && (
            relation_or_query.is_query_no_with() || relation_or_query.is_query()
                || relation_or_query.is_relation_or_query());
            if must_be_subquery_relation {
                let subquery_relation = parse_tree::subquery_relation(
                    open_paren,
                    relation_or_query,
                    close_paren,
                );
                let sampled_relation = self.parse_sampled_relation_tail(
                    subquery_relation,
                    Ghost(base),
                );
                self.parse_join_relation_tail(sampled_relation, Ghost(base))
            } else if can_be_query_primary {
                // it is possible for both relation_tail and query_primary_tail
                // to be true: when followed by LIMIT x; which can only be a query.
                let relation_tail = self.peek_join_relation_tail()
                    || self.peek_sampled_relation_tail();
                let must_be_query_tail = self.peek_query_primary_follow();
                if relation_tail && !must_be_query_tail {
                    let subquery_relation = parse_tree::subquery_relation(
                        open_paren,
                        relation_or_query,
                        close_paren,
                    );
                    let sampled_relation = self.parse_sampled_relation_tail(
                        subquery_relation,
                        Ghost(base),
                    );
                    self.parse_join_relation_tail(sampled_relation, Ghost(base))
                } else if must_be_query_tail {
                    let subquery = parse_tree::subquery(open_paren, relation_or_query, close_paren);
                    // this yields a query_no_with
                    self.parse_query_primary_tail(subquery, Ghost(base))
                } else {
                    // we have a query which can be consumed as either
                    // a subquery or a subquery_relation...
                    // make the decision up the tree.
                    parse_tree::relation_or_query(open_paren, relation_or_query, close_paren)
                }
            } else {
                let sampled_relation = self.parse_sampled_relation_tail(
                    parse_tree::parenthesized_relation(open_paren, relation_or_query, close_paren),
                    Ghost(base),
                );
                self.parse_join_relation_tail(sampled_relation, Ghost(base))
            }
        } else if self.peek_query_offset(0) {
            // yields a query
            self.parse_query()
        } else {
            self.parse_relation()
        }
    }

    // relationPrimary
    // : qualifiedName                                                   #tableName
    // | '(' query ')'                                                   #subqueryRelation
    // | UNNEST '(' expression (',' expression)* ')' (WITH ORDINALITY)?  #unnest
    // | LATERAL '(' query ')'                                           #lateral
    // | '(' relation ')'                                                #parenthesizedRelation
    fn parse_relation_primary(&mut self) -> (r: ParseTree<'a>)
        requires
            old(self).inv(),
        ensures
            final(self).inv(),
            final(self).measure() <= old(self).measure(),
            lossless(r) ==> final(self).consumed() == old(self).consumed() + tokens_of(r),
            final(self).input() == old(self).input(),
            tree_wf(r),
        decreases old(self).measure(), 10int,
    {
        match self.peek() {
            TK::OpenParen => {
                let (open_paren, relation_or_query, close_paren) = self.parse_parenthesized(
                    Element::RelationOrQuery,
                );
                if relation_or_query.is_query() || relation_or_query.is_query_no_with()
                    || relation_or_query.is_relation_or_query() {
                    parse_tree::subquery_relation(open_paren, relation_or_query, close_paren)
                } else {
                    parse_tree::parenthesized_relation(open_paren, relation_or_query, close_paren)
                }
            },
            TK::UNNEST => self.parse_unnest(),
            _ => {
                if self.peek_predefined_name(PN::LATERAL) && self.peek_kind_offset(
                    TK::OpenParen,
                    1,
                ) {
                    self.parse_lateral()
                } else {
                    self.parse_table_name()
                }
            },
        }
    }

    // : qualifiedName                                                   #tableName
    fn parse_table_name(&mut self) -> (r: ParseTree<'a>)
        requires
            old(self).inv(),
        ensures
            final(self).inv(),
            final(self).measure() <= old(self).measure(),
            lossless(r) ==> final(self).consumed() == old(self).consumed() + tokens_of(r),
            final(self).input() == old(self).input(),
            tree_wf(r),
            r is TableName,
    {
        let name = self.parse_qualified_name();
        parse_tree::table_name(name)
    }

    // | LATERAL '(' query ')'                                           #lateral
    fn parse_lateral(&mut self) -> (r: ParseTree<'a>)
        requires
            old(self).inv(),
        ensures
            final(self).inv(),
            final(self).measure() <= old(self).measure(),
            lossless(r) ==> final(self).consumed() == old(self).consumed() + tokens_of(r),
            final(self).input() == old(self).input(),
            tree_wf(r),
            r is Lateral,
        decreases old(self).measure(), if old(self).next_is_name(PN::LATERAL) { 3int } else { 100070int },
    {
        let lateral = self.eat_predefined_name(PN::LATERAL);
        let (open_paren, query, close_paren) = self.parse_parenthesized_query();
        parse_tree::lateral(lateral, open_paren, query, close_paren)
    }

    // | UNNEST '(' expression (',' expression)* ')' (WITH ORDINALITY)?  #unnest
    fn parse_unnest(&mut self) -> (r: ParseTree<'a>)
        requires
            old(self).inv(),
        ensures
            final(self).inv(),
            final(self).measure() <= old(self).measure(),
            lossless(r) ==> final(self).consumed() == old(self).consumed() + tokens_of(r),
            final(self).input() == old(self).input(),
            tree_wf(r),
        decreases old(self).measure(), if old(self).next_kind() == TK::UNNEST { 3int } else { 100150int },
    {
        let unnest = self.eat(TK::UNNEST);
        let expressions = self.parse_parenthesized_comma_separated_list(Element::Expression);
        let with = self.eat_opt(TK::WITH);
        let ordinality = if with.is_empty() {
            self.eat_empty()
        } else {
            self.eat_predefined_name(PN::ORDINALITY)
        };
        parse_tree::unnest(unnest, expressions, with, ordinality)
    }

    // groupBy
    // : setQuantifier? groupingElement (',' groupingElement)*
    fn parse_group_by(&mut self) -> (r: ParseTree<'a>)
        requires
            old(self).inv(),
        ensures
            final(self).inv(),
            final(self).measure() <= old(self).measure(),
            lossless(r) ==> final(self).consumed() == old(self).consumed() + tokens_of(r),
            final(self).input() == old(self).input(),
            tree_wf(r),
            r is GroupBy,
        decreases old(self).measure(), 170int,
    {
        let set_quantifier_opt = self.parse_set_quantifier_opt(TailPeeker::GroupingElement);
        let grouping_elements = self.parse_comma_separated_list(Element::GroupingElement);
        parse_tree::group_by(set_quantifier_opt, grouping_elements)
    }

    // groupingElement
    // : groupingSet                                            #singleGroupingSet
    // | ROLLUP '(' (expression (',' expression)*)? ')'         #rollup
    // | CUBE '(' (expression (',' expression)*)? ')'           #cube
    // | GROUPING SETS '(' groupingSet (',' groupingSet)* ')'   #multipleGroupingSets
    fn parse_grouping_element(&mut self) -> (r: ParseTree<'a>)
        requires
            old(self).inv(),
        ensures
            final(self).inv(),
            final(self).measure() <= old(self).measure(),
            lossless(r) ==> final(self).consumed() == old(self).consumed() + tokens_of(r),
            final(self).input() == old(self).input(),
            tree_wf(r),
        decreases old(self).measure(), 160int,
    {
        match self.peek() {
            TK::ROLLUP => self.parse_rollup(),
            TK::CUBE => self.parse_cube(),
            TK::GROUPING => self.parse_grouping_sets(),
            _ => self.parse_grouping_set(),
        }
    }

    fn peek_grouping_element_offset(&mut self, offset: usize) -> (r: bool)
        requires
            old(self).inv(),
        ensures
            final(self).peeked(old(self)),
    {
        match self.peek_offset(offset) {
            TK::ROLLUP | TK::CUBE | TK::GROUPING => true,
            _ => self.peek_expression_offset(offset),
        }
    }

    // | ROLLUP '(' (expression (',' expression)*)? ')'         #rollup
    fn parse_rollup(&mut self) -> (r: ParseTree<'a>)
        requires
            old(self).inv(),
        ensures
            final(self).inv(),
            final(self).measure() <= old(self).measure(),
            lossless(r) ==> final(self).consumed() == old(self).consumed() + tokens_of(r),
            final(self).input() == old(self).input(),
            tree_wf(r),
            r is Rollup,
        decreases old(self).measure(), if old(self).next_kind() == TK::ROLLUP { 3int } else { 100150int },
    {
        let rollup = self.eat(TK::ROLLUP);
        let expressions = self.parse_parenthesized_comma_separated_list(Element::Expression);
        parse_tree::rollup(rollup, expressions)
    }

    // | CUBE '(' (expression (',' expression)*)? ')'           #cube
    fn parse_cube(&mut self) -> (r: ParseTree<'a>)
        requires
            old(self).inv(),
        ensures
            final(self).inv(),
            final(self).measure() <= old(self).measure(),
            lossless(r) ==> final(self).consumed() == old(self).consumed() + tokens_of(r),
            final(self).input() == old(self).input(),
            tree_wf(r),
            r is Cube,
        decreases old(self).measure(), if old(self).next_kind() == TK::CUBE { 3int } else { 100150int },
    {
        let cube = self.eat(TK::CUBE);
        let expressions = self.parse_parenthesized_comma_separated_list(Element::Expression);
        parse_tree::cube(cube, expressions)
    }

    // | GROUPING SETS '(' groupingSet (',' groupingSet)* ')'   #multipleGroupingSets
    fn parse_grouping_sets(&mut self) -> (r: ParseTree<'a>)
        requires
            old(self).inv(),
        ensures
            final(self).inv(),
            final(self).measure() <= old(self).measure(),
            lossless(r) ==> final(self).consumed() == old(self).consumed() + tokens_of(r),
            final(self).input() == old(self).input(),
            tree_wf(r),
            r is GroupingSets,
        decreases old(self).measure(), if old(self).next_kind() == TK::GROUPING { 3int } else { 100160int },
    {
        let grouping = self.eat(TK::GROUPING);
        let sets = self.eat_predefined_name(PN::SETS);
        let grouping_sets = self.parse_parenthesized_comma_separated_list(Element::GroupingSet);
        parse_tree::grouping_sets(grouping, sets, grouping_sets)
    }

    // groupingSet
    // : '(' (expression (',' expression)*)? ')'
    // | expression
    fn parse_grouping_set(&mut self) -> (r: ParseTree<'a>)
        requires
            old(self).inv(),
        ensures
            final(self).inv(),
            final(self).measure() <= old(self).measure(),
            lossless(r) ==> final(self).consumed() == old(self).consumed() + tokens_of(r),
            final(self).input() == old(self).input(),
            tree_wf(r),
        decreases old(self).measure(), 150int,
    {
        // This is a subset of expression, except that it permits '()'
        // parenthesized expressions will show up as
        // either a row constructor or a paren expression.
        let elements = if self.peek_kind(TK::OpenParen) && self.peek_kind_offset(
            TK::CloseParen,
            1,
        ) {
            let open_paren = self.eat(TK::OpenParen);
            let close_paren = self.eat(TK::CloseParen);
            parse_tree::empty_grouping_set(open_paren, close_paren)
        } else {
            self.parse_expression()
        };
        parse_tree::grouping_set(elements)
    }
}



/// Can an expression start with a token of this kind?
pub open spec fn starts_expression(kind: TK) -> bool {
    kind == TK::NOT || kind == TK::Plus || kind == TK::Minus || kind == TK::NULL || kind
        == TK::DoublePrecision || kind == TK::TRUE || kind == TK::FALSE || kind == TK::Decimal
        || kind == TK::Double || kind == TK::Integer || kind == TK::String || kind
        == TK::UnicodeString || kind == TK::BinaryLiteral || kind == TK::Question || kind
        == TK::EXISTS || kind == TK::CASE || kind == TK::CAST || kind == TK::CURRENT_DATE || kind
        == TK::CURRENT_TIME || kind == TK::CURRENT_TIMESTAMP || kind == TK::LOCALTIME || kind
        == TK::LOCALTIMESTAMP || kind == TK::CURRENT_USER || kind == TK::CURRENT_PATH || kind
        == TK::NORMALIZE || kind == TK::EXTRACT || kind == TK::GROUPING || kind == TK::CONFIGURE
        || kind == TK::OpenParen || is_identifier_kind(kind)
}

/// Is `kind` a comparison operator?
pub open spec fn is_comparison_operator(kind: TK) -> bool {
    kind == TK::Equal || kind == TK::LessGreater || kind == TK::BangEqual || kind == TK::OpenAngle
        || kind == TK::CloseAngle || kind == TK::LessEqual || kind == TK::GreaterEqual
}

impl<'a> Parser<'a> {
    // expression
    // : booleanExpression
    fn parse_expression(&mut self) -> (r: ParseTree<'a>)
        requires
            old(self).inv(),
        ensures
            final(self).inv(),
            final(self).measure() <= old(self).measure(),
            lossless(r) ==> final(self).consumed() == old(self).consumed() + tokens_of(r),
            final(self).input() == old(self).input(),
            tree_wf(r),
        decreases old(self).measure(), 140int,
    {
        self.parse_boolean_expression()
    }

    fn peek_expression(&mut self) -> (r: bool)
        requires
            old(self).inv(),
        ensures
            final(self).peeked(old(self)),
            r == starts_expression(final(self).next_kind()),
    {
        self.peek_expression_offset(0)
    }

    fn peek_expression_offset(&mut self, offset: usize) -> (r: bool)
        requires
            old(self).inv(),
        ensures
            final(self).peeked(old(self)),
            offset < final(self).position.tokens@.len(),
            r == starts_expression(final(self).kind_at(offset as int)),
    {
        match self.peek_offset(offset) {
            TK::NOT
            | TK::Plus
            | TK::Minus
            // : NULL                                                                                #nullLiteral
            | TK::NULL
            // | DOUBLE_PRECISION string                                                             #typeConstructor
            | TK::DoublePrecision
            // | booleanValue                                                                        #booleanLiteral
            | TK::TRUE
            | TK::FALSE
            // | number                                                                              #numericLiteral
            | TK::Decimal
            | TK::Double
            | TK::Integer
            // | string                                                                              #stringLiteral
            | TK::String
            | TK::UnicodeString
            // | BINARY_LITERAL                                                                      #binaryLiteral
            | TK::BinaryLiteral
            // | '?'                                                                                 #parameter
            | TK::Question
            // // This is an extension to ANSI SQL, which considers EXISTS to be a <boolean expression>
            // | EXISTS '(' query ')'                                                                #exists
            | TK::EXISTS
            // | CASE valueExpression whenClause+ (ELSE elseExpression=expression)? END              #simpleCase
            // | CASE whenClause+ (ELSE elseExpression=expression)? END                              #searchedCase
            | TK::CASE
            // | CAST '(' expression AS type_ ')'                                                     #cast
            | TK::CAST
            // | name=CURRENT_DATE                                                                   #specialDateTimeFunction
            | TK::CURRENT_DATE
            // | name=CURRENT_TIME ('(' precision=INTEGER_VALUE ')')?                                #specialDateTimeFunction
            | TK::CURRENT_TIME
            // | name=CURRENT_TIMESTAMP ('(' precision=INTEGER_VALUE ')')?                           #specialDateTimeFunction
            | TK::CURRENT_TIMESTAMP
            // | name=LOCALTIME ('(' precision=INTEGER_VALUE ')')?                                   #specialDateTimeFunction
            | TK::LOCALTIME
            // | name=LOCALTIMESTAMP ('(' precision=INTEGER_VALUE ')')?                              #specialDateTimeFunction
            | TK::LOCALTIMESTAMP
            // | name=CURRENT_USER                                                                   #currentUser
            | TK::CURRENT_USER
            // | name=CURRENT_PATH                                                                   #currentPath
            | TK::CURRENT_PATH
            // | NORMALIZE '(' valueExpression (',' normalForm)? ')'                                 #normalize
            | TK::NORMALIZE
            // | EXTRACT '(' identifier FROM valueExpression ')'                                     #extract
            | TK::EXTRACT
            // | GROUPING '(' (qualifiedName (',' qualifiedName)*)? ')'                              #groupingOperation
            | TK::GROUPING
            // | configureExpression                                                                 #conf
            | TK::CONFIGURE
            // | '(' expression (',' expression)+ ')'                                                #rowConstructor
            // | '(' (identifier (',' identifier)*)? ')' '->' expression                             #lambda
            // | '(' query ')'                                                                       #subqueryExpression
            // | '(' expression ')'                                                                  #parenthesizedExpression
            | TK::OpenParen
            // | interval                                                                            #intervalLiteral
            // | identifier string                                                                   #typeConstructor
            // | POSITION '(' valueExpression IN valueExpression ')'                                 #position
            // | ROW '(' expression (',' expression)* ')'                                            #rowConstructor
            // | qualifiedName '(' ASTERISK ')' filter_? over?                                        #functionCall
            // | qualifiedName '(' (setQuantifier? expression (',' expression)*)?
            //     (ORDER BY sortItem (',' sortItem)*)? ')' filter_? over?                            #functionCall
            // | identifier '->' expression                                                          #lambda
            // | TRY_CAST '(' expression AS type_ ')'                                                 #cast
            // | ARRAY '[' (expression (',' expression)*)? ']'                                       #arrayConstructor
            // | identifier                                                                          #columnReference
            // | SUBSTRING '(' valueExpression FROM valueExpression (FOR valueExpression)? ')'       #substring
            | TK::Identifier
            | TK::QuotedIdentifier
            | TK::BackquotedIdentifier
            | TK::DigitIdentifier => true,
            _ => false,
        }
    }

    // booleanExpression
    // : valueExpression predicate[$valueExpression.ctx]?             #predicated
    // | NOT booleanExpression                                        #logicalNot
    // | left=booleanExpression operator=AND right=booleanExpression  #logicalBinary
    // | left=booleanExpression operator=OR right=booleanExpression   #logicalBinary
    fn parse_boolean_expression(&mut self) -> (r: ParseTree<'a>)
        requires
            old(self).inv(),
        ensures
            final(self).inv(),
            final(self).measure() <= old(self).measure(),
            lossless(r) ==> final(self).consumed() == old(self).consumed() + tokens_of(r),
            final(self).input() == old(self).input(),
            tree_wf(r),
        decreases old(self).measure(), 130int,
    {
        self.parse_or_expression()
    }

    // | left=booleanExpression operator=OR right=booleanExpression   #logicalBinary
    fn parse_or_expression(&mut self) -> (r: ParseTree<'a>)
        requires
            old(self).inv(),
        ensures
            final(self).inv(),
            final(self).measure() <= old(self).measure(),
            lossless(r) ==> final(self).consumed() == old(self).consumed() + tokens_of(r),
            final(self).input() == old(self).input(),
            tree_wf(r),
        decreases old(self).measure(), 120int,
    {
        self.parse_binary_expression(Peeker::Kind(TK::OR), Element::AndExpression)
    }

    fn parse_or_expression_tail(&mut self, and_expression: ParseTree<'a>, Ghost(base): Ghost<Seq<Token<'a>>>) -> (r: ParseTree<'a>)
        requires
            old(self).inv(),
            lossless(and_expression) ==> old(self).consumed() =~= base + tokens_of(and_expression),
            tree_wf(and_expression),
        ensures
            final(self).inv(),
            final(self).measure() <= old(self).measure(),
            lossless(r) ==> final(self).consumed() == base + tokens_of(r),
            final(self).input() == old(self).input(),
            tree_wf(r),
        decreases old(self).measure(), 2int,
    {
        self.parse_binary_expression_tail(
            and_expression,
            Peeker::Kind(TK::OR),
            Element::AndExpression,
            Ghost(base),
        )
    }

    // | left=booleanExpression operator=AND right=booleanExpression  #logicalBinary
    fn parse_and_expression(&mut self) -> (r: ParseTree<'a>)
        requires
            old(self).inv(),
        ensures
            final(self).inv(),
            final(self).measure() <= old(self).measure(),
            lossless(r) ==> final(self).consumed() == old(self).consumed() + tokens_of(r),
            final(self).input() == old(self).input(),
            tree_wf(r),
        decreases old(self).measure(), 110int,
    {
        self.parse_binary_expression(Peeker::Kind(TK::AND), Element::NotExpression)
    }

    fn parse_and_expression_tail(&mut self, not_expression: ParseTree<'a>, Ghost(base): Ghost<Seq<Token<'a>>>) -> (r: ParseTree<'a>)
        requires
            old(self).inv(),
            lossless(not_expression) ==> old(self).consumed() =~= base + tokens_of(not_expression),
            tree_wf(not_expression),
        ensures
            final(self).inv(),
            final(self).measure() <= old(self).measure(),
            lossless(r) ==> final(self).consumed() == base + tokens_of(r),
            final(self).input() == old(self).input(),
            tree_wf(r),
        decreases old(self).measure(), 2int,
    {
        self.parse_binary_expression_tail(
            not_expression,
            Peeker::Kind(TK::AND),
            Element::NotExpression,
            Ghost(base),
        )
    }

    // | NOT booleanExpression                                        #logicalNot
    fn parse_not_expression(&mut self) -> (r: ParseTree<'a>)
        requires
            old(self).inv(),
        ensures
            final(self).inv(),
            final(self).measure() <= old(self).measure(),
            lossless(r) ==> final(self).consumed() == old(self).consumed() + tokens_of(r),
            final(self).input() == old(self).input(),
            tree_wf(r),
        decreases old(self).measure(), 100int,
    {
        let not = self.eat_opt(TK::NOT);
        if !not.is_empty() {
            let operand = self.parse_not_expression();
            parse_tree::unary_expression(not, operand)
        } else {
            self.parse_predicated_expression()
        }
    }

    // : comparisonOperator right=valueExpression                            #comparison
    // | comparisonOperator comparisonQuantifier '(' query ')'               #quantifiedComparison
    fn parse_comparison_operator_suffix(
        &mut self,
        value: ParseTree<'a>,
        Ghost(base): Ghost<Seq<Token<'a>>>,
    ) -> (r: ParseTree<'a>)
        requires
            old(self).inv(),
            lossless(value) ==> old(self).consumed() =~= base + tokens_of(value),
            tree_wf(value),
        ensures
            final(self).inv(),
            final(self).measure() <= old(self).measure(),
            lossless(r) ==> final(self).consumed() == base + tokens_of(r),
            final(self).input() == old(self).input(),
            tree_wf(r),
        decreases old(self).measure(), if is_comparison_operator(old(self).next_kind()) {
            3int
        } else {
            100090int
        },
    {
        let operator = self.eat_token();
        // A quantifier followed by a parenthesized query is taken as a quantified
        // comparison, though `some((query) + 1)` would be a function call.
        if self.peek_quantified_comparison() {
            let comparison_quantifier = self.eat_token();
            let (open_paren, query, close_paren) = self.parse_parenthesized_query();
            parse_tree::quantified_comparison(
                value,
                operator,
                comparison_quantifier,
                open_paren,
                query,
                close_paren,
            )
        } else {
            let right = self.parse_value_expression();
            parse_tree::binary_expression(value, operator, right)
        }
    }

    fn peek_comparison_operator(&self) -> (r: bool)
        requires
            self.inv(),
        ensures
            r == is_comparison_operator(self.next_kind()),
    {
        match self.peek() {
            TK::Equal | TK::LessGreater | TK::BangEqual | TK::OpenAngle | TK::CloseAngle
            | TK::LessEqual | TK::GreaterEqual => true,
            _ => false,
        }
    }

    // | IS NOT? NULL                                                        #nullPredicate
    // | IS NOT? DISTINCT FROM right=valueExpression                         #distinctFrom
    fn parse_is_suffix(&mut self, value: ParseTree<'a>, Ghost(base): Ghost<Seq<Token<'a>>>) -> (r:
        ParseTree<'a>)
        requires
            old(self).inv(),
            lossless(value) ==> old(self).consumed() =~= base + tokens_of(value),
            tree_wf(value),
        ensures
            final(self).inv(),
            final(self).measure() <= old(self).measure(),
            lossless(r) ==> final(self).consumed() == base + tokens_of(r),
            final(self).input() == old(self).input(),
            tree_wf(r),
        decreases old(self).measure(), if old(self).next_kind() == TK::IS {
            3int
        } else {
            100090int
        },
    {
        let is = self.eat_token();
        let not_opt = self.eat_opt(TK::NOT);
        match self.peek() {
            TK::NULL => {
                let null = self.eat_token();
                parse_tree::null_predicate(value, is, not_opt, null)
            },
            TK::DISTINCT => {
                let distinct = self.eat_token();
                let from = self.eat(TK::FROM);
                let right = self.parse_value_expression();
                parse_tree::distinct_from(value, is, not_opt, distinct, from, right)
            },
            _ => self.expected_error("NULL, DISTINCT"),
        }
    }

    // | NOT? BETWEEN lower=valueExpression AND upper=valueExpression        #between
    fn parse_between_suffix(
        &mut self,
        value: ParseTree<'a>,
        not_opt: ParseTree<'a>,
        Ghost(base): Ghost<Seq<Token<'a>>>,
    ) -> (r: ParseTree<'a>)
        requires
            old(self).inv(),
            lossless(value) && lossless(not_opt) ==> old(self).consumed() =~= base + tokens_of(
                value,
            ) + tokens_of(not_opt),
            tree_wf(value),
            tree_wf(not_opt),
        ensures
            final(self).inv(),
            final(self).measure() <= old(self).measure(),
            lossless(r) ==> final(self).consumed() == base + tokens_of(r),
            final(self).input() == old(self).input(),
            tree_wf(r),
        decreases old(self).measure(), if old(self).next_kind() == TK::BETWEEN {
            3int
        } else {
            100090int
        },
    {
        let between = self.eat(TK::BETWEEN);
        let lower = self.parse_value_expression();
        let and = self.eat(TK::AND);
        let upper = self.parse_value_expression();
        parse_tree::between(value, not_opt, between, lower, and, upper)
    }

    // | NOT? LIKE pattern=valueExpression (ESCAPE escape=valueExpression)?  #like
    fn parse_like_suffix(
        &mut self,
        value: ParseTree<'a>,
        not_opt: ParseTree<'a>,
        Ghost(base): Ghost<Seq<Token<'a>>>,
    ) -> (r: ParseTree<'a>)
        requires
            old(self).inv(),
            lossless(value) && lossless(not_opt) ==> old(self).consumed() =~= base + tokens_of(
                value,
            ) + tokens_of(not_opt),
            tree_wf(value),
            tree_wf(not_opt),
        ensures
            final(self).inv(),
            final(self).measure() <= old(self).measure(),
            lossless(r) ==> final(self).consumed() == base + tokens_of(r),
            final(self).input() == old(self).input(),
            tree_wf(r),
        decreases old(self).measure(), if old(self).next_kind() == TK::LIKE {
            3int
        } else {
            100090int
        },
    {
        let like = self.eat(TK::LIKE);
        let pattern = self.parse_value_expression();
        let escape_opt = self.eat_opt(TK::ESCAPE);
        let escape_value_opt = if escape_opt.is_empty() {
            self.eat_empty()
        } else {
            self.parse_value_expression()
        };
        parse_tree::like(value, not_opt, like, pattern, escape_opt, escape_value_opt)
    }

    // | NOT? IN '(' expression (',' expression)* ')'                        #inList
    // | NOT? IN '(' query ')'                                               #inSubquery
    fn parse_in_suffix(
        &mut self,
        value: ParseTree<'a>,
        not_opt: ParseTree<'a>,
        Ghost(base): Ghost<Seq<Token<'a>>>,
    ) -> (r: ParseTree<'a>)
        requires
            old(self).inv(),
            lossless(value) && lossless(not_opt) ==> old(self).consumed() =~= base + tokens_of(
                value,
            ) + tokens_of(not_opt),
            tree_wf(value),
            tree_wf(not_opt),
        ensures
            final(self).inv(),
            final(self).measure() <= old(self).measure(),
            lossless(r) ==> final(self).consumed() == base + tokens_of(r),
            final(self).input() == old(self).input(),
            tree_wf(r),
        decreases old(self).measure(), if old(self).next_kind() == TK::IN {
            3int
        } else {
            100170int
        },
    {
        let in_ = self.eat(TK::IN);
        let expression_or_query = self.parse_row_constructor_or_subquery();
        if expression_or_query.is_parenthesized_expression() {
            let (open_paren, expression, close_paren) =
                expression_or_query.unbox_parenthesized_expression();
            let separator = parse_tree::empty(TextRange::empty(close_paren.get_full_start()));
            let elements = vec![(expression, separator)];
            proof {
                lemma_pairs_push(Seq::empty(), (expression, separator));
                assert(elements@ =~= Seq::empty().push((expression, separator)));
            }
            let expressions = parse_tree::list(open_paren, elements, close_paren);
            parse_tree::in_list(value, not_opt, in_, expressions)
        } else if expression_or_query.is_row_constructor() {
            let (expressions,) = expression_or_query.unbox_row_constructor();
            parse_tree::in_list(value, not_opt, in_, expressions)
        } else {
            let (open_paren, query, close_paren) = expression_or_query.unbox_subquery_expression();
            parse_tree::in_subquery(value, not_opt, in_, open_paren, query, close_paren)
        }
    }

    // : valueExpression predicate[$valueExpression.ctx]?             #predicated
    // predicate[ParserRuleContext value]
    // : comparisonOperator right=valueExpression                            #comparison
    // | comparisonOperator comparisonQuantifier '(' query ')'               #quantifiedComparison
    // | NOT? BETWEEN lower=valueExpression AND upper=valueExpression        #between
    // | NOT? IN '(' expression (',' expression)* ')'                        #inList
    // | NOT? IN '(' query ')'                                               #inSubquery
    // | NOT? LIKE pattern=valueExpression (ESCAPE escape=valueExpression)?  #like
    // | IS NOT? NULL                                                        #nullPredicate
    // | IS NOT? DISTINCT FROM right=valueExpression                         #distinctFrom
    fn parse_predicated_expression(&mut self) -> (r: ParseTree<'a>)
        requires
            old(self).inv(),
        ensures
            final(self).inv(),
            final(self).measure() <= old(self).measure(),
            lossless(r) ==> final(self).consumed() == old(self).consumed() + tokens_of(r),
            final(self).input() == old(self).input(),
            tree_wf(r),
        decreases old(self).measure(), 90int,
    {
        let ghost base = self.consumed();
        let value = self.parse_value_expression();
        self.parse_predicated_expression_tail(value, Ghost(base))
    }

    fn parse_predicated_expression_tail(&mut self, value_expression: ParseTree<'a>, Ghost(base): Ghost<Seq<Token<'a>>>) -> (r: ParseTree<'a>)
        requires
            old(self).inv(),
            lossless(value_expression) ==> old(self).consumed() =~= base + tokens_of(value_expression),
            tree_wf(value_expression),
        ensures
            final(self).inv(),
            final(self).measure() <= old(self).measure(),
            lossless(r) ==> final(self).consumed() == base + tokens_of(r),
            final(self).input() == old(self).input(),
            tree_wf(r),
        decreases old(self).measure(), 8int,
    {
        match self.peek() {
            TK::Equal | TK::LessGreater | TK::BangEqual | TK::OpenAngle | TK::CloseAngle
            | TK::LessEqual | TK::GreaterEqual => self.parse_comparison_operator_suffix(
                value_expression,
                Ghost(base),
            ),
            TK::IS => self.parse_is_suffix(value_expression, Ghost(base)),
            _ => {
                let not_opt = self.eat_opt(TK::NOT);
                match self.peek() {
                    TK::BETWEEN => self.parse_between_suffix(value_expression, not_opt, Ghost(base)),
                    TK::IN => self.parse_in_suffix(value_expression, not_opt, Ghost(base)),
                    TK::LIKE => self.parse_like_suffix(value_expression, not_opt, Ghost(base)),
                    _ => {
                        if not_opt.is_empty() {
                            value_expression
                        } else {
                            self.expected_error("BETWEEN, IN, LIKE")
                        }
                    },
                }
            },
        }
    }

    fn peek_comparison_quantifier(&self) -> (r: bool)
        requires
            self.inv(),
        ensures
            r ==> self.next_kind() == TK::Identifier,
    {
        match self.maybe_peek_predefined_name() {
            Some(PN::ALL) | Some(PN::SOME) | Some(PN::ANY) => true,
            _ => false,
        }
    }

    fn peek_quantified_comparison(&mut self) -> (r: bool)
        requires
            old(self).inv(),
        ensures
            final(self).peeked(old(self)),
            r ==> final(self).next_kind() == TK::Identifier,
    {
        self.peek_comparison_quantifier() && self.peek_kind_offset(TK::OpenParen, 1)
            && self.peek_query_primary_offset(2)
    }

    // valueExpression
    // : primaryExpression                                                                 #valueExpressionDefault
    // | valueExpression AT timeZoneSpecifier                                              #atTimeZone
    // | operator=(MINUS | PLUS) valueExpression                                           #arithmeticUnary
    // | left=valueExpression operator=(ASTERISK | SLASH | PERCENT) right=valueExpression  #arithmeticBinary
    // | left=valueExpression operator=(PLUS | MINUS) right=valueExpression                #arithmeticBinary
    // | left=valueExpression CONCAT right=valueExpression                                 #concatenation
    fn parse_value_expression(&mut self) -> (r: ParseTree<'a>)
        requires
            old(self).inv(),
        ensures
            final(self).inv(),
            final(self).measure() <= old(self).measure(),
            lossless(r) ==> final(self).consumed() == old(self).consumed() + tokens_of(r),
            final(self).input() == old(self).input(),
            tree_wf(r),
        decreases old(self).measure(), 80int,
    {
        self.parse_concat_expression()
    }

    // | left=valueExpression CONCAT right=valueExpression                                 #concatenation
    fn parse_concat_expression(&mut self) -> (r: ParseTree<'a>)
        requires
            old(self).inv(),
        ensures
            final(self).inv(),
            final(self).measure() <= old(self).measure(),
            lossless(r) ==> final(self).consumed() == old(self).consumed() + tokens_of(r),
            final(self).input() == old(self).input(),
            tree_wf(r),
        decreases old(self).measure(), 70int,
    {
        self.parse_binary_expression(Peeker::Kind(TK::BarBar), Element::AdditiveExpression)
    }

    fn parse_concat_expression_tail(&mut self, additive_expression: ParseTree<'a>, Ghost(base): Ghost<Seq<Token<'a>>>) -> (r: ParseTree<'a>)
        requires
            old(self).inv(),
            lossless(additive_expression) ==> old(self).consumed() =~= base + tokens_of(additive_expression),
            tree_wf(additive_expression),
        ensures
            final(self).inv(),
            final(self).measure() <= old(self).measure(),
            lossless(r) ==> final(self).consumed() == base + tokens_of(r),
            final(self).input() == old(self).input(),
            tree_wf(r),
        decreases old(self).measure(), 2int,
    {
        self.parse_binary_expression_tail(
            additive_expression,
            Peeker::Kind(TK::BarBar),
            Element::AdditiveExpression,
            Ghost(base),
        )
    }

    // | left=valueExpression operator=(PLUS | MINUS) right=valueExpression                #arithmeticBinary
    fn parse_additive_expression(&mut self) -> (r: ParseTree<'a>)
        requires
            old(self).inv(),
        ensures
            final(self).inv(),
            final(self).measure() <= old(self).measure(),
            lossless(r) ==> final(self).consumed() == old(self).consumed() + tokens_of(r),
            final(self).input() == old(self).input(),
            tree_wf(r),
            is_sum(r),
        decreases old(self).measure(), 60int,
    {
        let r = self.parse_binary_expression(
            Peeker::AdditiveOperator,
            Element::MultiplicativeExpression,
        );
        proof {
            lemma_chain_sum(r);
        }
        r
    }

    fn parse_additive_expression_tail(&mut self, multiplicative_expression: ParseTree<'a>, Ghost(base): Ghost<Seq<Token<'a>>>) -> (r: ParseTree<'a>)
        requires
            old(self).inv(),
            lossless(multiplicative_expression) ==> old(self).consumed() =~= base + tokens_of(multiplicative_expression),
            tree_wf(multiplicative_expression),
        ensures
            final(self).inv(),
            final(self).measure() <= old(self).measure(),
            lossless(r) ==> final(self).consumed() == base + tokens_of(r),
            final(self).input() == old(self).input(),
            tree_wf(r),
            is_product(multiplicative_expression) ==> is_sum(r),
        decreases old(self).measure(), 2int,
    {
        let r = self.parse_binary_expression_tail(
            multiplicative_expression,
            Peeker::AdditiveOperator,
            Element::MultiplicativeExpression,
            Ghost(base),
        );
        proof {
            if is_product(multiplicative_expression) {
                lemma_chain_sum(r);
            }
        }
        r
    }

    fn peek_additive_operator(&self) -> (r: bool)
        requires
            self.inv(),
        ensures
            r == (self.next_kind() == TK::Plus || self.next_kind() == TK::Minus),
    {
        match self.peek() {
            TK::Plus | TK::Minus => true,
            _ => false,
        }
    }

    // | left=valueExpression operator=(ASTERISK | SLASH | PERCENT) right=valueExpression  #arithmeticBinary
    fn parse_multiplicative_expression(&mut self) -> (r: ParseTree<'a>)
        requires
            old(self).inv(),
        ensures
            final(self).inv(),
            final(self).measure() <= old(self).measure(),
            lossless(r) ==> final(self).consumed() == old(self).consumed() + tokens_of(r),
            final(self).input() == old(self).input(),
            tree_wf(r),
            is_product(r),
        decreases old(self).measure(), 50int,
    {
        let r = self.parse_binary_expression(
            Peeker::MultiplicativeOperator,
            Element::ArithmeticUnaryExpression,
        );
        proof {
            lemma_chain_product(r);
        }
        r
    }

    fn parse_multiplicative_expression_tail(&mut self, unary_expression: ParseTree<'a>, Ghost(base): Ghost<Seq<Token<'a>>>) -> (r: ParseTree<'a>)
        requires
            old(self).inv(),
            lossless(unary_expression) ==> old(self).consumed() =~= base + tokens_of(unary_expression),
            tree_wf(unary_expression),
        ensures
            final(self).inv(),
            final(self).measure() <= old(self).measure(),
            lossless(r) ==> final(self).consumed() == base + tokens_of(r),
            final(self).input() == old(self).input(),
            tree_wf(r),
            !(unary_expression is BinaryExpression) ==> is_product(r),
        decreases old(self).measure(), 2int,
    {
        let r = self.parse_binary_expression_tail(
            unary_expression,
            Peeker::MultiplicativeOperator,
            Element::ArithmeticUnaryExpression,
            Ghost(base),
        );
        proof {
            if !(unary_expression is BinaryExpression) {
                lemma_chain_product(r);
            }
        }
        r
    }

    fn peek_multiplicative_operator(&self) -> (r: bool)
        requires
            self.inv(),
        ensures
            r == (self.next_kind() == TK::Asterisk || self.next_kind() == TK::Slash
                || self.next_kind() == TK::Percent),
    {
        match self.peek() {
            TK::Asterisk | TK::Slash | TK::Percent => true,
            _ => false,
        }
    }

    // | operator=(MINUS | PLUS) valueExpression                                           #arithmeticUnary
    fn parse_arithmetic_unary_expression(&mut self) -> (r: ParseTree<'a>)
        requires
            old(self).inv(),
        ensures
            final(self).inv(),
            final(self).measure() <= old(self).measure(),
            lossless(r) ==> final(self).consumed() == old(self).consumed() + tokens_of(r),
            final(self).input() == old(self).input(),
            tree_wf(r),
            !(r is BinaryExpression),
        decreases old(self).measure(), 40int,
    {
        if self.peek_additive_operator() {
            let operator = self.eat_token();
            let operand = self.parse_at_time_zone();
            parse_tree::unary_expression(operator, operand)
        } else {
            self.parse_at_time_zone()
        }
    }

    // | valueExpression AT timeZoneSpecifier                                              #atTimeZone
    // timeZoneSpecifier
    // : TIME ZONE interval  #timeZoneInterval
    // | TIME ZONE string    #timeZoneString
    fn parse_at_time_zone(&mut self) -> (r: ParseTree<'a>)
        requires
            old(self).inv(),
        ensures
            final(self).inv(),
            final(self).measure() <= old(self).measure(),
            lossless(r) ==> final(self).consumed() == old(self).consumed() + tokens_of(r),
            final(self).input() == old(self).input(),
            tree_wf(r),
            !(r is BinaryExpression),
        decreases old(self).measure(), 30int,
    {
        let ghost base = self.consumed();
        let left = self.parse_primary_expression();
        self.parse_at_time_zone_tail(left, Ghost(base))
    }

    fn parse_at_time_zone_tail(&mut self, value_expression: ParseTree<'a>, Ghost(base): Ghost<Seq<Token<'a>>>) -> (r: ParseTree<'a>)
        requires
            old(self).inv(),
            lossless(value_expression) ==> old(self).consumed() =~= base + tokens_of(value_expression),
            tree_wf(value_expression),
        ensures
            final(self).inv(),
            final(self).measure() <= old(self).measure(),
            lossless(r) ==> final(self).consumed() == base + tokens_of(r),
            final(self).input() == old(self).input(),
            tree_wf(r),
            r == value_expression || r is AtTimeZone,
        decreases old(self).measure(), 1int,
    {
        let at = self.eat_predefined_name_opt(PN::AT);
        if at.is_empty() {
            value_expression
        } else {
            let time = self.eat_predefined_name(PN::TIME);
            let zone = self.eat_predefined_name(PN::ZONE);
            let specifier = if self.peek_predefined_name(PN::INTERVAL) {
                self.parse_interval()
            } else {
                self.parse_string()
            };
            parse_tree::at_time_zone(value_expression, at, time, zone, specifier)
        }
    }

    // qualifiedName
    // : identifier ('.' identifier)*
    fn parse_qualified_name(&mut self) -> (r: ParseTree<'a>)
        requires
            old(self).inv(),
        ensures
            final(self).inv(),
            final(self).measure() <= old(self).measure(),
            lossless(r) ==> final(self).consumed() == old(self).consumed() + tokens_of(r),
            final(self).input() == old(self).input(),
            tree_wf(r),
            r is QualifiedName,
            is_identifier_kind(old(self).next_kind()) ==> final(self).measure() < old(self).measure(),
    {
        // don't use parse_separated_list as period
        // is in the follow set of qualified_name
        let ghost start_state = *self;
        let start = self.eat_empty();
        let mut elements_and_separators: Vec<(ParseTree<'a>, ParseTree<'a>)> = Vec::new();
        let mut current = self.parse_identifier();
        while self.peek_kind(TK::Period) && self.peek_identifier_offset(1)
            invariant
                self.inv(),
                start_state.inv(),
                self.measure() <= start_state.measure(),
                is_identifier_kind(start_state.next_kind()) ==> self.measure()
                    < start_state.measure(),
                lossless(start) && pairs_lossless(elements_and_separators@) && lossless(
                    current,
                ) ==> self.consumed() == start_state.consumed() + tokens_of(start) + pairs_tokens(
                    elements_and_separators@,
                ) + tokens_of(current),
                self.input() == start_state.input(),
                pairs_wf(elements_and_separators@),
                tree_wf(current),
                tree_wf(start),
            decreases self.measure(),
        {
            let separator = self.eat_opt(TK::Period);
            proof {
                lemma_pairs_push(elements_and_separators@, (current, separator));
            }
            elements_and_separators.push((current, separator));
            current = self.parse_identifier();
        }
        let separator = self.eat_empty();
        proof {
            lemma_pairs_push(elements_and_separators@, (current, separator));
        }
        elements_and_separators.push((current, separator));
        let end = self.eat_empty();
        parse_tree::qualified_name(parse_tree::list(start, elements_and_separators, end))
    }

    fn peek_qualified_name(&self) -> (r: bool)
        requires
            self.inv(),
        ensures
            r == is_identifier_kind(self.next_kind()),
    {
        self.peek_identifier()
    }

    fn parse_primary_prefix_expression(&mut self) -> (r: ParseTree<'a>)
        requires
            old(self).inv(),
        ensures
            final(self).inv(),
            final(self).measure() <= old(self).measure(),
            lossless(r) ==> final(self).consumed() == old(self).consumed() + tokens_of(r),
            final(self).input() == old(self).input(),
            tree_wf(r),
            !(r is BinaryExpression),
            is_literal_kind(old(self).next_kind()) || old(self).next_kind() == TK::CURRENT_DATE || old(self).next_kind() == TK::CURRENT_USER || old(self).next_kind() == TK::CURRENT_PATH ==> r == ParseTree::Literal(parse_tree::Literal { value: Box::new(ParseTree::Token(parse_tree::Token { token: old(self).position.tokens@[0] })) }) && final(self).consumed() == old(self).consumed().push(old(self).position.tokens@[0]) && lossless(r),
            old(self).next_kind() == TK::Question ==> r == ParseTree::Token(parse_tree::Token { token: old(self).position.tokens@[0] }),
            old(self).next_kind() == TK::EXISTS ==> r is Exists,
            old(self).next_kind() == TK::CASE ==> r is Case,
            old(self).next_kind() == TK::CAST ==> r is Cast,
            old(self).next_kind() == TK::CURRENT_TIME ==> r is CurrentTime,
            old(self).next_kind() == TK::CURRENT_TIMESTAMP ==> r is CurrentTimestamp,
            old(self).next_kind() == TK::LOCALTIME ==> r is Localtime,
            old(self).next_kind() == TK::LOCALTIMESTAMP ==> r is Localtimestamp,
            old(self).next_kind() == TK::NORMALIZE ==> r is Normalize,
            old(self).next_kind() == TK::EXTRACT ==> r is Extract,
            old(self).next_kind() == TK::GROUPING ==> r is Grouping,
            old(self).next_kind() == TK::DoublePrecision ==> r is TypeConstructor,
            old(self).next_kind() == TK::CONFIGURE ==> r is ConfigureExpression,
            old(self).next_kind() == TK::OpenParen ==> r is Lambda || r is RowConstructor || r is SubqueryExpression || r is ParenthesizedExpression,
            old(self).next_kind() == TK::OpenParen ==> (r is Lambda <==> old(self).lambda_ahead()),
            old(self).next_kind() == TK::Identifier ==> r is Interval || r is Position || r is Row || r is TryCast || r is Array || r is Substring || r is Lambda || r is TypeConstructor || r is FunctionCall || r is Identifier,
            old(self).next_kind() == TK::Identifier && old(self).name_ahead(0) == Some(PN::INTERVAL) && is_interval_value_start(old(self).ahead(1)) ==> r is Interval,
            old(self).next_kind() == TK::Identifier && old(self).name_ahead(0) == Some(PN::POSITION) && old(self).ahead(1) == TK::OpenParen ==> r is Position,
            old(self).next_kind() == TK::Identifier && old(self).name_ahead(0) == Some(PN::ROW) && old(self).ahead(1) == TK::OpenParen ==> r is Row,
            old(self).next_kind() == TK::Identifier && old(self).name_ahead(0) == Some(PN::TRY_CAST) && old(self).ahead(1) == TK::OpenParen ==> r is TryCast,
            old(self).next_kind() == TK::Identifier && old(self).name_ahead(0) == Some(PN::ARRAY) && old(self).ahead(1) == TK::OpenSquare ==> r is Array,
            old(self).next_kind() == TK::Identifier && old(self).name_ahead(0) == Some(PN::SUBSTRING) && old(self).ahead(1) == TK::OpenParen ==> r is Substring,
            old(self).next_kind() == TK::Identifier && !old(self).special_form_ahead() ==> old(self).identifier_start_tree(r),
            old(self).next_kind() == TK::QuotedIdentifier || old(self).next_kind() == TK::BackquotedIdentifier || old(self).next_kind() == TK::DigitIdentifier ==> old(self).identifier_start_tree(r),
            !is_expression_start(old(self).next_kind()) ==> *final(self) == *old(self) && is_error_at(r, TextRange { start: old(self).next_full_start(), end: old(self).next_full_start() }, expected_message("Expected expression."@, old(self).next_kind())),
        decreases old(self).measure(), 10int,

    {
        let ghost start = *self;
        proof {
            self.lemma_ahead();
            assert(self.position.tokens@[0].kind == self.ahead(0));
        }
        match self.peek() {
            // : NULL                                                                                #nullLiteral
            TK::NULL => self.parse_literal(),
            // | DOUBLE_PRECISION string                                                             #typeConstructor
            TK::DoublePrecision => self.parse_type_constructor(),
            // | booleanValue                                                                        #booleanLiteral
            TK::TRUE | TK::FALSE => self.parse_literal(),
            // | number                                                                              #numericLiteral
            TK::Decimal | TK::Double | TK::Integer => self.parse_literal(),
            // | string                                                                              #stringLiteral
            TK::String | TK::UnicodeString => self.parse_literal(),
            // | BINARY_LITERAL                                                                      #binaryLiteral
            TK::BinaryLiteral => self.parse_literal(),
            // | '?'                                                                                 #parameter
            TK::Question => self.parse_parameter(),
            // // This is an extension to ANSI SQL, which considers EXISTS to be a <boolean expression>
            // | EXISTS '(' query ')'                                                                #exists
            TK::EXISTS => self.parse_exists(),
            // | CASE valueExpression whenClause+ (ELSE elseExpression=expression)? END              #simpleCase
            // | CASE whenClause+ (ELSE elseExpression=expression)? END                              #searchedCase
            TK::CASE => self.parse_case(),
            // | CAST '(' expression AS type_ ')'                                                     #cast
            TK::CAST => self.parse_cast(),
            // | name=CURRENT_DATE                                                                   #specialDateTimeFunction
            TK::CURRENT_DATE => self.parse_current_date(),
            // | name=CURRENT_TIME ('(' precision=INTEGER_VALUE ')')?                                #specialDateTimeFunction
            TK::CURRENT_TIME => self.parse_current_time(),
            // | name=CURRENT_TIMESTAMP ('(' precision=INTEGER_VALUE ')')?                           #specialDateTimeFunction
            TK::CURRENT_TIMESTAMP => self.parse_current_timestamp(),
            // | name=LOCALTIME ('(' precision=INTEGER_VALUE ')')?                                   #specialDateTimeFunction
            TK::LOCALTIME => self.parse_localtime(),
            // | name=LOCALTIMESTAMP ('(' precision=INTEGER_VALUE ')')?                              #specialDateTimeFunction
            TK::LOCALTIMESTAMP => self.parse_localtimestamp(),
            // | name=CURRENT_USER                                                                   #currentUser
            TK::CURRENT_USER => self.parse_current_user(),
            // | name=CURRENT_PATH                                                                   #currentPath
            TK::CURRENT_PATH => self.parse_current_path(),
            // | NORMALIZE '(' valueExpression (',' normalForm)? ')'                                 #normalize
            TK::NORMALIZE => self.parse_normalize(),
            // | EXTRACT '(' identifier FROM valueExpression ')'                                     #extract
            TK::EXTRACT => self.parse_extract(),
            // | GROUPING '(' (qualifiedName (',' qualifiedName)*)? ')'                              #groupingOperation
            TK::GROUPING => self.parse_grouping(),
            // | configureExpression                                                                 #conf
            TK::CONFIGURE => self.parse_configure_expression(),
            // | '(' expression (',' expression)+ ')'                                                #rowConstructor
            // | '(' (identifier (',' identifier)*)? ')' '->' expression                             #lambda
            // | '(' query ')'                                                                       #subqueryExpression
            // | '(' expression ')'                                                                  #parenthesizedExpression
            TK::OpenParen => {
                if self.peek_lambda() {
                    self.parse_lambda()
                } else {
                    self.parse_row_constructor_or_subquery()
                }
            },
            // | interval                                                                            #intervalLiteral
            // | identifier string                                                                   #typeConstructor
            // | POSITION '(' valueExpression IN valueExpression ')'                                 #position
            // | ROW '(' expression (',' expression)* ')'                                            #rowConstructor
            // | qualifiedName '(' ASTERISK ')' filter_? over?                                        #functionCall
            // | qualifiedName '(' (setQuantifier? expression (',' expression)*)?
            //     (ORDER BY sortItem (',' sortItem)*)? ')' filter_? over?                            #functionCall
            // | identifier '->' expression                                                          #lambda
            // | TRY_CAST '(' expression AS type_ ')'                                                 #cast
            // | ARRAY '[' (expression (',' expression)*)? ']'                                       #arrayConstructor
            // | identifier                                                                          #columnReference
            // | SUBSTRING '(' valueExpression FROM valueExpression (FOR valueExpression)? ')'       #substring
            //
            // The special syntax forms of POSITION, TRY_CAST and SUBSTRING are
            // preferred to a function call of the same name.
            TK::Identifier => {
                if let Some(name) = self.maybe_peek_predefined_name() {
                    match name {
                        PN::INTERVAL => {
                            if self.peek_interval() {
                                return self.parse_interval();
                            }
                        },
                        PN::POSITION => {
                            if self.peek_position() {
                                return self.parse_position();
                            }
                        },
                        PN::ROW => {
                            if self.peek_row_constructor() {
                                return self.parse_row_constructor();
                            }
                        },
                        PN::TRY_CAST => {
                            if self.peek_try_cast() {
                                return self.parse_try_cast();
                            }
                        },
                        PN::ARRAY => {
                            if self.peek_array_constructor() {
                                return self.parse_array_constructor();
                            }
                        },
                        PN::SUBSTRING => {
                            if self.peek_substring() {
                                return self.parse_substring();
                            }
                        },
                        _ => (),
                    }
                }
                // | identifier string                                                                   #typeConstructor
                // | qualifiedName '(' ASTERISK ')' filter_? over?                                        #functionCall
                // | qualifiedName '(' (setQuantifier? expression (',' expression)*)?
                //     (ORDER BY sortItem (',' sortItem)*)? ')' filter_? over?                            #functionCall
                // | identifier '->' expression                                                          #lambda
                // | identifier                                                                          #columnReference
                proof {
                    Parser::lemma_same_lookahead(start, *self);
                }
                self.parse_identifier_start_expression()
            },
            // | identifier string                                                                   #typeConstructor
            // | qualifiedName '(' ASTERISK ')' filter_? over?                                        #functionCall
            // | qualifiedName '(' (setQuantifier? expression (',' expression)*)?
            // | identifier '->' expression                                                          #lambda
            // | identifier                                                                          #columnReference
            TK::QuotedIdentifier | TK::BackquotedIdentifier | TK::DigitIdentifier => {
                self.parse_identifier_start_expression()
            },
            _ => self.expected_error("Expected expression."),
        }
    }

    fn parse_primary_expression(&mut self) -> (r: ParseTree<'a>)
        requires
            old(self).inv(),
        ensures
            final(self).inv(),
            final(self).measure() <= old(self).measure(),
            lossless(r) ==> final(self).consumed() == old(self).consumed() + tokens_of(r),
            final(self).input() == old(self).input(),
            tree_wf(r),
            !(r is BinaryExpression),
        decreases old(self).measure(), 20int,
    {
        let ghost base = self.consumed();
        let operand = self.parse_primary_prefix_expression();
        self.parse_primary_expression_tail(operand, Ghost(base))
    }

    fn parse_primary_expression_tail(&mut self, primary_expression: ParseTree<'a>, Ghost(base): Ghost<Seq<Token<'a>>>) -> (r: ParseTree<'a>)
        requires
            old(self).inv(),
            lossless(primary_expression) ==> old(self).consumed() =~= base + tokens_of(primary_expression),
            tree_wf(primary_expression),
        ensures
            final(self).inv(),
            final(self).measure() <= old(self).measure(),
            lossless(r) ==> final(self).consumed() == base + tokens_of(r),
            final(self).input() == old(self).input(),
            tree_wf(r),
            !(primary_expression is BinaryExpression) ==> !(r is BinaryExpression),
        decreases old(self).measure(), 1int,
    {
        let ghost start = *self;
        let mut result = primary_expression;
        loop
            invariant
                self.inv(),
                start.inv(),
                start == *old(self),
                self.measure() <= start.measure(),
                lossless(result) ==> self.consumed() == base + tokens_of(result),
                self.input() == start.input(),
                tree_wf(result),
                !(primary_expression is BinaryExpression) ==> !(result is BinaryExpression),
            decreases self.measure(),
        {
            // suffixes
            match self.peek() {
                // | base=primaryExpression '.' fieldName=identifier                                     #dereference
                TK::Period => {
                    let period = self.eat(TK::Period);
                    let field_name = self.parse_identifier();
                    result = parse_tree::dereference(result, period, field_name)
                },
                // | value=primaryExpression '[' index=valueExpression ']'                               #subscript
                TK::OpenSquare => {
                    let open_square = self.eat(TK::OpenSquare);
                    let index = self.parse_value_expression();
                    let close_square = self.eat(TK::CloseSquare);
                    result = parse_tree::subscript(result, open_square, index, close_square)
                },
                _ => return result,
            }
        }
    }

    fn parse_paren_expression_tail(&mut self, paren_expression: ParseTree<'a>, Ghost(base): Ghost<Seq<Token<'a>>>) -> (r: ParseTree<'a>)
        requires
            old(self).inv(),
            lossless(paren_expression) ==> old(self).consumed() =~= base + tokens_of(paren_expression),
            tree_wf(paren_expression),
        ensures
            final(self).inv(),
            final(self).measure() <= old(self).measure(),
            lossless(r) ==> final(self).consumed() == base + tokens_of(r),
            final(self).input() == old(self).input(),
            tree_wf(r),
        decreases old(self).measure(), 10int,
    {
        let primary_expression = self.parse_primary_expression_tail(paren_expression, Ghost(base));
        let at_time_zone = self.parse_at_time_zone_tail(primary_expression, Ghost(base));
        let multitplicative = self.parse_multiplicative_expression_tail(at_time_zone, Ghost(base));
        let additive = self.parse_additive_expression_tail(multitplicative, Ghost(base));
        let concat = self.parse_concat_expression_tail(additive, Ghost(base));
        let predicate = self.parse_predicated_expression_tail(concat, Ghost(base));
        let and = self.parse_and_expression_tail(predicate, Ghost(base));
        let or = self.parse_or_expression_tail(and, Ghost(base));
        or
    }

    // | '(' (identifier (',' identifier)*)? ')' '->' expression                             #lambda
    #[verifier::spinoff_prover]
    #[verifier::rlimit(50)]
    fn peek_lambda(&mut self) -> (r: bool)
        requires
            old(self).inv(),
        ensures
            final(self).peeked(old(self)),
            r ==> final(self).next_kind() == TK::OpenParen,
            r == old(self).lambda_ahead(),
    {
        let ghost start = *self;
        proof {
            self.lemma_ahead_at(0);
        }
        if self.peek_kind(TK::OpenParen) {
            let mut offset: usize = 1;
            let ghost mut m: int = 0;
            if self.peek_identifier_offset(offset) {
                proof {
                    reveal(Parser::inv);
                    reveal(Parser::measure);
                    self.position.lemma_offset_bound(offset as int);
                    self.lemma_ahead_at(1);
                    assert(start.lambda_param_at(0));
                    m = 1;
                }
                offset += 1;
                loop
                    invariant
                        self.peeked(&start),
                        start.inv(),
                        start == *old(self),
                        start.ahead(0) == TK::OpenParen,
                        offset <= start.measure(),
                        1 <= m,
                        offset == 2 * m,
                        forall|j: int| 0 <= j < m ==> #[trigger] start.lambda_param_at(j),
                        forall|j: int| 0 <= j < m - 1 ==> #[trigger] start.lambda_comma_at(j),
                    ensures
                        self.peeked(&start),
                        1 <= m,
                        offset == 2 * m,
                        offset <= start.measure(),
                        start.ahead(offset as int) != TK::Comma,
                        forall|j: int| 0 <= j < m ==> #[trigger] start.lambda_param_at(j),
                        forall|j: int| 0 <= j < m - 1 ==> #[trigger] start.lambda_comma_at(j),
                    decreases start.measure() - offset,
                {
                    let comma = self.peek_kind_offset(TK::Comma, offset);
                    proof {
                        self.lemma_ahead_at(offset as int);
                    }
                    if !comma {
                        break;
                    }
                    proof {
                        reveal(Parser::inv);
                        reveal(Parser::measure);
                        self.position.lemma_offset_bound(offset as int);
                    }
                    offset += 1;
                    if self.peek_identifier_offset(offset) {
                        proof {
                            reveal(Parser::inv);
                            reveal(Parser::measure);
                            self.position.lemma_offset_bound(offset as int);
                            self.lemma_ahead_at(offset as int);
                            assert(start.lambda_comma_at(m - 1));
                            assert(start.lambda_param_at(m));
                            m = m + 1;
                        }
                        offset += 1;
                    } else {
                        proof {
                            self.lemma_ahead_at(offset as int);
                            start.lemma_lambda_broken(m);
                        }
                        return false;
                    }
                }
            } else {
                proof {
                    self.lemma_ahead_at(1);
                }
            }
            proof {
                reveal(Parser::inv);
                reveal(Parser::measure);
                self.position.lemma_measure_nonneg();
                start.lemma_lambda_end(m);
            }
            let close = self.peek_kind_offset(TK::CloseParen, offset);
            proof {
                self.lemma_ahead_at(offset as int);
            }
            if !close {
                return false;
            }
            let arrow = self.peek_kind_offset(TK::Arrow, offset + 1);
            proof {
                self.lemma_ahead_at(offset + 1);
            }
            arrow
        } else {
            false
        }
    }

    fn parse_lambda(&mut self) -> (r: ParseTree<'a>)
        requires
            old(self).inv(),
        ensures
            final(self).inv(),
            final(self).measure() <= old(self).measure(),
            lossless(r) ==> final(self).consumed() == old(self).consumed() + tokens_of(r),
            final(self).input() == old(self).input(),
            tree_wf(r),
            r is Lambda,
        decreases old(self).measure(), if old(self).next_kind() == TK::OpenParen { 3int } else { 100150int },
    {
        let parameters = self.parse_delimited_separated_list_opt(
            TK::OpenParen,
            TK::Comma,
            Peeker::Identifier,
            Element::Identifier,
            TK::CloseParen,
        );
        let array = self.eat(TK::Arrow);
        let body = self.parse_expression();
        parse_tree::lambda(parameters, array, body)
    }

    fn paren_expression_or_query_to_expression(
        &mut self,
        open_paren: ParseTree<'a>,
        expression_or_query: ParseTree<'a>,
        close_paren: ParseTree<'a>,
    ) -> (r: ParseTree<'a>)
        requires
            old(self).inv(),
            tree_wf(open_paren),
            tree_wf(expression_or_query),
            tree_wf(close_paren),
        ensures
            final(self).inv(),
            final(self).position == old(self).position,
            final(self).measure() == old(self).measure(),
            tokens_of(r) == tokens_of(open_paren) + tokens_of(expression_or_query) + tokens_of(
                close_paren,
            ),
            tree_wf(r),
            lossless(r) == (lossless(open_paren) && lossless(expression_or_query)
                && lossless(close_paren)),
            r is SubqueryExpression || r is ParenthesizedExpression,
        decreases expression_or_query, 1int,
    {
        if expression_or_query.is_query() || expression_or_query.is_query_no_with() {
            parse_tree::subquery_expression(open_paren, expression_or_query, close_paren)
        } else if expression_or_query.is_expression_or_query() {
            let expression = self.expression_or_query_to_expression(expression_or_query);
            parse_tree::parenthesized_expression(open_paren, expression, close_paren)
        } else {
            parse_tree::parenthesized_expression(open_paren, expression_or_query, close_paren)
        }
    }

    fn expression_or_query_to_expression(&mut self, expression_or_query: ParseTree<'a>) -> (r:
        ParseTree<'a>)
        requires
            old(self).inv(),
            tree_wf(expression_or_query),
        ensures
            final(self).inv(),
            final(self).position == old(self).position,
            final(self).measure() == old(self).measure(),
            tokens_of(r) == tokens_of(expression_or_query),
            tree_wf(r),
            lossless(r) == lossless(expression_or_query),
        decreases expression_or_query, 0int,
    {
        if expression_or_query.is_query() || expression_or_query.is_query_no_with() {
            self.add_error_of_tree(&expression_or_query, "Expected expression, found query.");
            expression_or_query
        } else if expression_or_query.is_expression_or_query() {
            let ghost whole = expression_or_query;
            let (open_paren, expression_or_query, close_paren) =
                expression_or_query.unbox_expression_or_query();
            proof {
                let x = whole->ExpressionOrQuery_0;
                assert(*x.expression_or_query == expression_or_query);
                assert(decreases_to!(whole => x));
                assert(decreases_to!(x => *x.expression_or_query));
            }
            self.paren_expression_or_query_to_expression(
                open_paren,
                expression_or_query,
                close_paren,
            )
        } else {
            expression_or_query
        }
    }

    // yields one of:
    //   one of several expression trees:
    //   query - possibly with or without a with clause
    //   query_no_with
    //   expression_or_query
    fn parse_expression_or_query(&mut self) -> (r: ParseTree<'a>)
        requires
            old(self).inv(),
        ensures
            final(self).inv(),
            final(self).measure() <= old(self).measure(),
            lossless(r) ==> final(self).consumed() == old(self).consumed() + tokens_of(r),
            final(self).input() == old(self).input(),
            tree_wf(r),
        decreases old(self).measure(), 150int,
    {
        let ghost base = self.consumed();
        if self.peek_kind(TK::OpenParen) {
            let open_paren = self.eat(TK::OpenParen);
            let expression_or_query = self.parse_expression_or_query();
            if self.peek_kind(TK::Comma) {
                let row_constructor = self.parse_row_constructor_tail(
                    open_paren,
                    expression_or_query,
                    Ghost(base),
                );
                self.parse_paren_expression_tail(row_constructor, Ghost(base))
            } else {
                let close_paren = self.eat(TK::CloseParen);
                let must_be_subquery_expression = expression_or_query.is_query()
                    && !expression_or_query.as_query().with.is_empty();
                let can_be_query_primary = !must_be_subquery_expression && (
                expression_or_query.is_query_no_with() || expression_or_query.is_query()
                    || expression_or_query.is_expression_or_query());
                if must_be_subquery_expression {
                    parse_tree::subquery_expression(open_paren, expression_or_query, close_paren)
                } else if can_be_query_primary {
                    let must_be_query_tail = self.peek_query_primary_follow();
                    if must_be_query_tail {
                        let subquery = parse_tree::subquery(
                            open_paren,
                            expression_or_query,
                            close_paren,
                        );
                        // this yields a query_no_with
                        self.parse_query_primary_tail(subquery, Ghost(base))
                    } else if self.peek_kind(TK::CloseParen) {
                        // we have a query which can be consumed as either
                        // a subquery or a subquery_expression...
                        // make the decision up the tree.
                        parse_tree::expression_or_query(
                            open_paren,
                            expression_or_query,
                            close_paren,
                        )
                    } else {
                        // we have a parenthesized query, with what looks like an expression tail
                        // afterwards
                        let subquery_expression = parse_tree::subquery_expression(
                            open_paren,
                            expression_or_query,
                            close_paren,
                        );
                        self.parse_paren_expression_tail(subquery_expression, Ghost(base))
                    }
                } else {
                    // we have an expression
                    self.parse_paren_expression_tail(
                        parse_tree::parenthesized_expression(
                            open_paren,
                            expression_or_query,
                            close_paren,
                        ),
                        Ghost(base),
                    )
                }
            }
        } else if self.peek_query_offset(0) {
            // yields a query
            self.parse_query()
        } else {
            self.parse_expression()
        }
    }

    // | '(' expression (',' expression)+ ')'                                                #rowConstructor
    // | '(' query ')'                                                                       #subqueryExpression
    // | '(' expression ')'                                                                  #parenthesizedExpression
    fn parse_row_constructor_or_subquery(&mut self) -> (r: ParseTree<'a>)
        requires
            old(self).inv(),
        ensures
            final(self).inv(),
            final(self).measure() <= old(self).measure(),
            lossless(r) ==> final(self).consumed() == old(self).consumed() + tokens_of(r),
            final(self).input() == old(self).input(),
            tree_wf(r),
            r is ParenthesizedExpression || r is RowConstructor || r is SubqueryExpression,
        decreases old(self).measure(), if old(self).next_kind() == TK::OpenParen {
            3int
        } else {
            100160int
        },
    {
        let ghost base = self.consumed();
        let open_paren = self.eat(TK::OpenParen);
        let expression_or_query = self.parse_expression_or_query();
        if self.peek_kind(TK::Comma) {
            self.parse_row_constructor_tail(open_paren, expression_or_query, Ghost(base))
        } else {
            // either expression or query is permitted
            let close_paren = self.eat(TK::CloseParen);
            self.paren_expression_or_query_to_expression(
                open_paren,
                expression_or_query,
                close_paren,
            )
        }
    }

    /// parse expression_list tail and return a row constructor
    fn parse_row_constructor_tail(
        &mut self,
        open_paren: ParseTree<'a>,
        expression_or_query: ParseTree<'a>,
        Ghost(base): Ghost<Seq<Token<'a>>>,
    ) -> (r: ParseTree<'a>)
        requires
            old(self).inv(),
            lossless(open_paren) && lossless(expression_or_query) ==> old(self).consumed()
                =~= base + tokens_of(open_paren) + tokens_of(expression_or_query),
            tree_wf(open_paren),
            tree_wf(expression_or_query),
        ensures
            final(self).inv(),
            final(self).measure() <= old(self).measure(),
            lossless(r) ==> final(self).consumed() == base + tokens_of(r),
            final(self).input() == old(self).input(),
            tree_wf(r),
            r is RowConstructor,
        decreases old(self).measure(), if old(self).next_kind() == TK::Comma {
            3int
        } else {
            100150int
        },
    {
        let comma = self.eat(TK::Comma);
        let elements_tail = self.parse_separated_list_elements(TK::Comma, Element::Expression);
        let close_paren = self.eat(TK::CloseParen);
        // validate that expression_or_query is actually an expression.
        let expression = self.expression_or_query_to_expression(expression_or_query);
        let mut elements: Vec<(ParseTree<'a>, ParseTree<'a>)> = Vec::new();
        proof {
            lemma_pairs_push(elements@, (expression, comma));
        }
        elements.push((expression, comma));
        let ghost head = elements@;
        let ghost tail = elements_tail@;
        let mut elements_tail = elements_tail;
        elements.append(&mut elements_tail);
        proof {
            parse_tree::lemma_pairs_tokens_split(elements@, 1);
            lemma_pairs_wf_split(elements@, 1);
            assert(elements@.take(1) =~= head);
            assert(elements@.skip(1) =~= tail);
        }
        parse_tree::row_constructor(parse_tree::list(open_paren, elements, close_paren))
    }
}



impl<'a> Parser<'a> {
    // | POSITION '(' valueExpression IN valueExpression ')'                                 #position
    fn peek_position(&mut self) -> (r: bool)
        requires
            old(self).inv(),
        ensures
            final(self).peeked(old(self)),
            r ==> final(self).next_is_name(PN::POSITION),
            r == (old(self).name_ahead(0) == Some(PN::POSITION) && old(self).ahead(1) == TK::OpenParen),
    {
        proof {
            self.lemma_ahead();
            assert(self.position.tokens@[0].kind == self.ahead(0));
        }
        if !self.peek_predefined_name(PN::POSITION) {
            return false;
        }
        let r = self.peek_kind_offset(TK::OpenParen, 1);
        proof {
            self.lemma_ahead();
            assert(self.position.tokens@[1].kind == self.ahead(1));
        }
        r
    }

    fn parse_position(&mut self) -> (r: ParseTree<'a>)
        requires
            old(self).inv(),
        ensures
            final(self).inv(),
            final(self).measure() <= old(self).measure(),
            lossless(r) ==> final(self).consumed() == old(self).consumed() + tokens_of(r),
            final(self).input() == old(self).input(),
            tree_wf(r),
            r is Position,
        decreases old(self).measure(), if old(self).next_is_name(PN::POSITION) { 3int } else { 100090int },
    {
        let position = self.eat_predefined_name(PN::POSITION);
        let open_paren = self.eat(TK::OpenParen);
        let value = self.parse_value_expression();
        let in_ = self.eat(TK::IN);
        let target = self.parse_value_expression();
        let close_paren = self.eat(TK::CloseParen);
        parse_tree::position(position, open_paren, value, in_, target, close_paren)
    }

    // interval
    // : INTERVAL sign=(PLUS | MINUS)? (string | configureExpression) from_=intervalField (TO to=intervalField)?
    fn peek_interval(&mut self) -> (r: bool)
        requires
            old(self).inv(),
        ensures
            final(self).peeked(old(self)),
            r == (old(self).name_ahead(0) == Some(PN::INTERVAL) && is_interval_value_start(
                old(self).ahead(1),
            )),
    {
        proof {
            self.lemma_ahead();
            assert(self.position.tokens@[0].kind == self.ahead(0));
        }
        // The sign, when present, is not looked past, so an interval is
        // preferred to an additive expression; without a sign, a string
        // is not looked past either, so an interval is preferred to a type
        // constructor.
        if !self.peek_predefined_name(PN::INTERVAL) {
            return false;
        }
        let next = self.peek_offset(1);
        proof {
            self.lemma_ahead();
            assert(self.position.tokens@[1].kind == self.ahead(1));
        }
        match next {
            TK::Plus | TK::Minus | TK::String | TK::UnicodeString | TK::Identifier
            | TK::CONFIGURE => true,
            _ => false,
        }
    }

    fn parse_interval(&mut self) -> (r: ParseTree<'a>)
        requires
            old(self).inv(),
        ensures
            final(self).inv(),
            final(self).measure() <= old(self).measure(),
            lossless(r) ==> final(self).consumed() == old(self).consumed() + tokens_of(r),
            final(self).input() == old(self).input(),
            tree_wf(r),
            r is Interval,
    {
        let interval = self.eat_predefined_name(PN::INTERVAL);
        let sign_opt = self.parse_sign_opt();
        let value = if self.peek_string() {
            self.parse_string()
        } else {
            self.parse_configure_expression()
        };
        let from = self.parse_interval_field();
        let to_kw_opt = self.eat_predefined_name_opt(PN::TO);
        let to = if to_kw_opt.is_empty() {
            self.eat_empty()
        } else {
            self.parse_interval_field()
        };
        parse_tree::interval(interval, sign_opt, value, from, to_kw_opt, to)
    }

    fn parse_sign_opt(&mut self) -> (r: ParseTree<'a>)
        requires
            old(self).inv(),
        ensures
            final(self).inv(),
            final(self).measure() <= old(self).measure(),
            lossless(r) ==> final(self).consumed() == old(self).consumed() + tokens_of(r),
            final(self).input() == old(self).input(),
            tree_wf(r),
    {
        match self.peek() {
            TK::Plus | TK::Minus => self.eat_token(),
            _ => self.eat_empty(),
        }
    }

    // intervalField
    // : YEAR | MONTH | DAY | HOUR | MINUTE | SECOND
    fn peek_interval_field_offset(&mut self, offset: usize) -> (r: bool)
        requires
            old(self).inv(),
        ensures
            final(self).peeked(old(self)),
    {
        match self.maybe_peek_predefined_name_offset(offset) {
            Some(PN::YEAR) | Some(PN::MONTH) | Some(PN::DAY) | Some(PN::HOUR) | Some(PN::MINUTE)
            | Some(PN::SECOND) => true,
            _ => false,
        }
    }

    fn parse_interval_field(&mut self) -> (r: ParseTree<'a>)
        requires
            old(self).inv(),
        ensures
            final(self).inv(),
            final(self).measure() <= old(self).measure(),
            lossless(r) ==> final(self).consumed() == old(self).consumed() + tokens_of(r),
            final(self).input() == old(self).input(),
            tree_wf(r),
    {
        if self.peek_interval_field_offset(0) {
            self.eat_token()
        } else {
            self.expected_error("interval field")
        }
    }

    // | ROW '(' expression (',' expression)* ')'                                            #rowConstructor
    fn peek_row_constructor(&mut self) -> (r: bool)
        requires
            old(self).inv(),
        ensures
            final(self).peeked(old(self)),
            r ==> final(self).next_is_name(PN::ROW),
            r == (old(self).name_ahead(0) == Some(PN::ROW) && old(self).ahead(1) == TK::OpenParen),
    {
        proof {
            self.lemma_ahead();
            assert(self.position.tokens@[0].kind == self.ahead(0));
        }
        if !self.peek_predefined_name(PN::ROW) {
            return false;
        }
        let r = self.peek_kind_offset(TK::OpenParen, 1);
        proof {
            self.lemma_ahead();
            assert(self.position.tokens@[1].kind == self.ahead(1));
        }
        r
    }

    fn parse_row_constructor(&mut self) -> (r: ParseTree<'a>)
        requires
            old(self).inv(),
        ensures
            final(self).inv(),
            final(self).measure() <= old(self).measure(),
            lossless(r) ==> final(self).consumed() == old(self).consumed() + tokens_of(r),
            final(self).input() == old(self).input(),
            tree_wf(r),
            r is Row,
        decreases old(self).measure(), if old(self).next_is_name(PN::ROW) { 3int } else { 100150int },
    {
        let row = self.eat_predefined_name(PN::ROW);
        let elements = self.parse_parenthesized_comma_separated_list(Element::Expression);
        parse_tree::row(row, elements)
    }

    // | TRY_CAST '(' expression AS type_ ')'                                                 #cast
    fn peek_try_cast(&mut self) -> (r: bool)
        requires
            old(self).inv(),
        ensures
            final(self).peeked(old(self)),
            r ==> final(self).next_is_name(PN::TRY_CAST),
            r == (old(self).name_ahead(0) == Some(PN::TRY_CAST) && old(self).ahead(1) == TK::OpenParen),
    {
        proof {
            self.lemma_ahead();
            assert(self.position.tokens@[0].kind == self.ahead(0));
        }
        if !self.peek_predefined_name(PN::TRY_CAST) {
            return false;
        }
        let r = self.peek_kind_offset(TK::OpenParen, 1);
        proof {
            self.lemma_ahead();
            assert(self.position.tokens@[1].kind == self.ahead(1));
        }
        r
    }

    fn parse_try_cast(&mut self) -> (r: ParseTree<'a>)
        requires
            old(self).inv(),
        ensures
            final(self).inv(),
            final(self).measure() <= old(self).measure(),
            lossless(r) ==> final(self).consumed() == old(self).consumed() + tokens_of(r),
            final(self).input() == old(self).input(),
            tree_wf(r),
            r is TryCast,
        decreases old(self).measure(), if old(self).next_is_name(PN::TRY_CAST) { 3int } else { 100150int },
    {
        let try_cast = self.eat_predefined_name(PN::TRY_CAST);
        let open_paren = self.eat(TK::OpenParen);
        let value = self.parse_expression();
        let as_ = self.eat(TK::AS);
        let type_ = self.parse_type();
        let close_paren = self.eat(TK::CloseParen);
        parse_tree::try_cast(try_cast, open_paren, value, as_, type_, close_paren)
    }

    // | ARRAY '[' (expression (',' expression)*)? ']'                                       #arrayConstructor
    fn peek_array_constructor(&mut self) -> (r: bool)
        requires
            old(self).inv(),
        ensures
            final(self).peeked(old(self)),
            r ==> final(self).next_is_name(PN::ARRAY),
            r == (old(self).name_ahead(0) == Some(PN::ARRAY) && old(self).ahead(1) == TK::OpenSquare),
    {
        proof {
            self.lemma_ahead();
            assert(self.position.tokens@[0].kind == self.ahead(0));
        }
        if !self.peek_predefined_name(PN::ARRAY) {
            return false;
        }
        let r = self.peek_kind_offset(TK::OpenSquare, 1);
        proof {
            self.lemma_ahead();
            assert(self.position.tokens@[1].kind == self.ahead(1));
        }
        r
    }

    fn parse_array_constructor(&mut self) -> (r: ParseTree<'a>)
        requires
            old(self).inv(),
        ensures
            final(self).inv(),
            final(self).measure() <= old(self).measure(),
            lossless(r) ==> final(self).consumed() == old(self).consumed() + tokens_of(r),
            final(self).input() == old(self).input(),
            tree_wf(r),
            r is Array,
        decreases old(self).measure(), if old(self).next_is_name(PN::ARRAY) { 3int } else { 100150int },
    {
        let array = self.eat_predefined_name(PN::ARRAY);
        let elements = self.parse_delimited_separated_list_opt(
            TK::OpenSquare,
            TK::Comma,
            Peeker::Expression,
            Element::Expression,
            TK::CloseSquare,
        );
        parse_tree::array(array, elements)
    }

    // configureExpression
    //     : CONFIGURE '(' identifier ',' configure_value_ ')'
    fn peek_configure_expression(&self) -> (r: bool)
        requires
            self.inv(),
        ensures
            r == (self.next_kind() == TK::CONFIGURE),
    {
        self.peek_kind(TK::CONFIGURE)
    }

    fn parse_configure_expression(&mut self) -> (r: ParseTree<'a>)
        requires
            old(self).inv(),
        ensures
            final(self).inv(),
            final(self).measure() <= old(self).measure(),
            lossless(r) ==> final(self).consumed() == old(self).consumed() + tokens_of(r),
            final(self).input() == old(self).input(),
            tree_wf(r),
            r is ConfigureExpression,
    {
        let configure = self.eat(TK::CONFIGURE);
        let open_paren = self.eat(TK::OpenParen);
        let identifier = self.parse_identifier();
        let comma = self.eat(TK::Comma);
        let value = self.parse_configure_value();
        let close_paren = self.eat(TK::CloseParen);
        parse_tree::configure_expression(configure, open_paren, identifier, comma, value, close_paren)
    }

    // configure_value_
    // : string | number | booleanValue
    fn parse_configure_value(&mut self) -> (r: ParseTree<'a>)
        requires
            old(self).inv(),
        ensures
            final(self).inv(),
            final(self).measure() <= old(self).measure(),
            lossless(r) ==> final(self).consumed() == old(self).consumed() + tokens_of(r),
            final(self).input() == old(self).input(),
            tree_wf(r),
    {
        match self.peek() {
            TK::String | TK::UnicodeString | TK::Decimal | TK::Double | TK::Integer | TK::TRUE
            | TK::FALSE => self.parse_literal(),
            _ => self.expected_error("configure value"),
        }
    }

    // | SUBSTRING '(' valueExpression FROM valueExpression (FOR valueExpression)? ')'       #substring
    fn peek_substring(&mut self) -> (r: bool)
        requires
            old(self).inv(),
        ensures
            final(self).peeked(old(self)),
            r ==> final(self).next_is_name(PN::SUBSTRING),
            r == (old(self).name_ahead(0) == Some(PN::SUBSTRING) && old(self).ahead(1) == TK::OpenParen),
    {
        proof {
            self.lemma_ahead();
            assert(self.position.tokens@[0].kind == self.ahead(0));
        }
        if !self.peek_predefined_name(PN::SUBSTRING) {
            return false;
        }
        let r = self.peek_kind_offset(TK::OpenParen, 1);
        proof {
            self.lemma_ahead();
            assert(self.position.tokens@[1].kind == self.ahead(1));
        }
        r
    }

    #[verifier::spinoff_prover]
    #[verifier::rlimit(100)]
    fn parse_substring(&mut self) -> (r: ParseTree<'a>)
        requires
            old(self).inv(),
        ensures
            final(self).inv(),
            final(self).measure() <= old(self).measure(),
            lossless(r) ==> final(self).consumed() == old(self).consumed() + tokens_of(r),
            final(self).input() == old(self).input(),
            tree_wf(r),
            r is Substring,
        decreases old(self).measure(), if old(self).next_is_name(PN::SUBSTRING) { 3int } else { 100090int },
    {
        let substring = self.eat_predefined_name(PN::SUBSTRING);
        let open_paren = self.eat(TK::OpenParen);
        let value = self.parse_value_expression();
        let from = self.eat(TK::FROM);
        let from_value = self.parse_value_expression();
        let for_opt = self.eat_opt(TK::FOR);
        let for_value = if for_opt.is_empty() {
            self.eat_empty()
        } else {
            self.parse_value_expression()
        };
        let close_paren = self.eat(TK::CloseParen);
        parse_tree::substring(
            substring,
            open_paren,
            value,
            from,
            from_value,
            for_opt,
            for_value,
            close_paren,
        )
    }

    // | '(' query ')'                                                                       #subqueryExpression
    fn parse_subquery_expression(&mut self) -> (r: ParseTree<'a>)
        requires
            old(self).inv(),
        ensures
            final(self).inv(),
            final(self).measure() <= old(self).measure(),
            lossless(r) ==> final(self).consumed() == old(self).consumed() + tokens_of(r),
            final(self).input() == old(self).input(),
            tree_wf(r),
            r is SubqueryExpression,
        decreases old(self).measure(), if old(self).next_kind() == TK::OpenParen { 3int } else { 100070int },
    {
        let (open_paren, query, close_paren) = self.parse_parenthesized_query();
        parse_tree::subquery_expression(open_paren, query, close_paren)
    }

    // | GROUPING '(' (qualifiedName (',' qualifiedName)*)? ')'                              #groupingOperation
    fn parse_grouping(&mut self) -> (r: ParseTree<'a>)
        requires
            old(self).inv(),
        ensures
            final(self).inv(),
            final(self).measure() <= old(self).measure(),
            lossless(r) ==> final(self).consumed() == old(self).consumed() + tokens_of(r),
            final(self).input() == old(self).input(),
            tree_wf(r),
            r is Grouping,
        decreases old(self).measure(), if old(self).next_kind() == TK::GROUPING { 3int } else { 100010int },

    {
        let grouping = self.eat(TK::GROUPING);
        let groups = self.parse_delimited_separated_list_opt(
            TK::OpenParen,
            TK::Comma,
            Peeker::QualifiedName,
            Element::QualifiedName,
            TK::CloseParen,
        );
        parse_tree::grouping(grouping, groups)
    }

    // | EXTRACT '(' identifier FROM valueExpression ')'                                     #extract
    fn parse_extract(&mut self) -> (r: ParseTree<'a>)
        requires
            old(self).inv(),
        ensures
            final(self).inv(),
            final(self).measure() <= old(self).measure(),
            lossless(r) ==> final(self).consumed() == old(self).consumed() + tokens_of(r),
            final(self).input() == old(self).input(),
            tree_wf(r),
            r is Extract,
        decreases old(self).measure(), if old(self).next_kind() == TK::EXTRACT { 3int } else { 100090int },

    {
        let extract = self.eat(TK::EXTRACT);
        let open_paren = self.eat(TK::OpenParen);
        let identifier = self.parse_identifier();
        let from = self.eat(TK::FROM);
        let value = self.parse_value_expression();
        let close_paren = self.eat(TK::CloseParen);
        parse_tree::extract(extract, open_paren, identifier, from, value, close_paren)
    }

    // | name=CURRENT_PATH                                                                   #currentPath
    fn parse_current_path(&mut self) -> (r: ParseTree<'a>)
        requires
            old(self).inv(),
        ensures
            final(self).inv(),
            final(self).measure() <= old(self).measure(),
            lossless(r) ==> final(self).consumed() == old(self).consumed() + tokens_of(r),
            final(self).input() == old(self).input(),
            tree_wf(r),
            r == ParseTree::Literal(parse_tree::Literal { value: Box::new(ParseTree::Token(parse_tree::Token { token: old(self).position.tokens@[0] })) }),
            final(self).consumed() == old(self).consumed().push(old(self).position.tokens@[0]),
            lossless(r),
    {
        self.parse_literal()
    }

    // | name=CURRENT_USER                                                                   #currentUser
    fn parse_current_user(&mut self) -> (r: ParseTree<'a>)
        requires
            old(self).inv(),
        ensures
            final(self).inv(),
            final(self).measure() <= old(self).measure(),
            lossless(r) ==> final(self).consumed() == old(self).consumed() + tokens_of(r),
            final(self).input() == old(self).input(),
            tree_wf(r),
            r == ParseTree::Literal(parse_tree::Literal { value: Box::new(ParseTree::Token(parse_tree::Token { token: old(self).position.tokens@[0] })) }),
            final(self).consumed() == old(self).consumed().push(old(self).position.tokens@[0]),
            lossless(r),
    {
        self.parse_literal()
    }

    // | name=CURRENT_DATE                                                                   #specialDateTimeFunction
    fn parse_current_date(&mut self) -> (r: ParseTree<'a>)
        requires
            old(self).inv(),
        ensures
            final(self).inv(),
            final(self).measure() <= old(self).measure(),
            lossless(r) ==> final(self).consumed() == old(self).consumed() + tokens_of(r),
            final(self).input() == old(self).input(),
            tree_wf(r),
            r == ParseTree::Literal(parse_tree::Literal { value: Box::new(ParseTree::Token(parse_tree::Token { token: old(self).position.tokens@[0] })) }),
            final(self).consumed() == old(self).consumed().push(old(self).position.tokens@[0]),
            lossless(r),
    {
        self.parse_literal()
    }

    // | name=CURRENT_TIME ('(' precision=INTEGER_VALUE ')')?                                #specialDateTimeFunction
    fn parse_current_time(&mut self) -> (r: ParseTree<'a>)
        requires
            old(self).inv(),
        ensures
            final(self).inv(),
            final(self).measure() <= old(self).measure(),
            lossless(r) ==> final(self).consumed() == old(self).consumed() + tokens_of(r),
            final(self).input() == old(self).input(),
            tree_wf(r),
            r is CurrentTime,
        decreases old(self).measure(), 3int,

    {
        let current_time = self.eat(TK::CURRENT_TIME);
        let (open_paren, precision, close_paren) = if self.peek_kind(TK::OpenParen) {
            self.parse_parenthesized(Element::Integer)
        } else {
            (self.eat_empty(), self.eat_empty(), self.eat_empty())
        };
        parse_tree::current_time(current_time, open_paren, precision, close_paren)
    }

    // | name=CURRENT_TIMESTAMP ('(' precision=INTEGER_VALUE ')')?                           #specialDateTimeFunction
    fn parse_current_timestamp(&mut self) -> (r: ParseTree<'a>)
        requires
            old(self).inv(),
        ensures
            final(self).inv(),
            final(self).measure() <= old(self).measure(),
            lossless(r) ==> final(self).consumed() == old(self).consumed() + tokens_of(r),
            final(self).input() == old(self).input(),
            tree_wf(r),
            r is CurrentTimestamp,
        decreases old(self).measure(), 3int,

    {
        let current_timestamp = self.eat(TK::CURRENT_TIMESTAMP);
        let (open_paren, precision, close_paren) = if self.peek_kind(TK::OpenParen) {
            self.parse_parenthesized(Element::Integer)
        } else {
            (self.eat_empty(), self.eat_empty(), self.eat_empty())
        };
        parse_tree::current_timestamp(current_timestamp, open_paren, precision, close_paren)
    }

    // | NORMALIZE '(' valueExpression (',' normalForm)? ')'                                 #normalize
    fn parse_normalize(&mut self) -> (r: ParseTree<'a>)
        requires
            old(self).inv(),
        ensures
            final(self).inv(),
            final(self).measure() <= old(self).measure(),
            lossless(r) ==> final(self).consumed() == old(self).consumed() + tokens_of(r),
            final(self).input() == old(self).input(),
            tree_wf(r),
            r is Normalize,
        decreases old(self).measure(), if old(self).next_kind() == TK::NORMALIZE { 3int } else { 100090int },

    {
        let normalize = self.eat(TK::NORMALIZE);
        let open_paren = self.eat(TK::OpenParen);
        let value = self.parse_value_expression();
        let comma_opt = self.eat_opt(TK::Comma);
        let normal_form = if comma_opt.is_empty() {
            self.eat_empty()
        } else {
            self.parse_normal_form()
        };
        let close_paren = self.eat(TK::CloseParen);
        parse_tree::normalize(normalize, open_paren, value, comma_opt, normal_form, close_paren)
    }

    // normalForm
    // : NFD | NFC | NFKD | NFKC
    fn parse_normal_form(&mut self) -> (r: ParseTree<'a>)
        requires
            old(self).inv(),
        ensures
            final(self).inv(),
            final(self).measure() <= old(self).measure(),
            lossless(r) ==> final(self).consumed() == old(self).consumed() + tokens_of(r),
            final(self).input() == old(self).input(),
            tree_wf(r),
    {
        match self.maybe_peek_predefined_name() {
            Some(PN::NFD) | Some(PN::NFC) | Some(PN::NFKD) | Some(PN::NFKC) => self.eat_token(),
            _ => self.expected_error("normal form"),
        }
    }

    // | name=LOCALTIMESTAMP ('(' precision=INTEGER_VALUE ')')?                              #specialDateTimeFunction
    fn parse_localtimestamp(&mut self) -> (r: ParseTree<'a>)
        requires
            old(self).inv(),
        ensures
            final(self).inv(),
            final(self).measure() <= old(self).measure(),
            lossless(r) ==> final(self).consumed() == old(self).consumed() + tokens_of(r),
            final(self).input() == old(self).input(),
            tree_wf(r),
            r is Localtimestamp,
        decreases old(self).measure(), 3int,

    {
        let localtimestamp = self.eat(TK::LOCALTIMESTAMP);
        let (open_paren, precision, close_paren) = if self.peek_kind(TK::OpenParen) {
            self.parse_parenthesized(Element::Integer)
        } else {
            (self.eat_empty(), self.eat_empty(), self.eat_empty())
        };
        parse_tree::localtimestamp(localtimestamp, open_paren, precision, close_paren)
    }

    // | name=LOCALTIME ('(' precision=INTEGER_VALUE ')')?                                   #specialDateTimeFunction
    fn parse_localtime(&mut self) -> (r: ParseTree<'a>)
        requires
            old(self).inv(),
        ensures
            final(self).inv(),
            final(self).measure() <= old(self).measure(),
            lossless(r) ==> final(self).consumed() == old(self).consumed() + tokens_of(r),
            final(self).input() == old(self).input(),
            tree_wf(r),
            r is Localtime,
        decreases old(self).measure(), 3int,

    {
        let localtime = self.eat(TK::LOCALTIME);
        let (open_paren, precision, close_paren) = if self.peek_kind(TK::OpenParen) {
            self.parse_parenthesized(Element::Integer)
        } else {
            (self.eat_empty(), self.eat_empty(), self.eat_empty())
        };
        parse_tree::localtime(localtime, open_paren, precision, close_paren)
    }

    // | CAST '(' expression AS type_ ')'                                                     #cast
    fn parse_cast(&mut self) -> (r: ParseTree<'a>)
        requires
            old(self).inv(),
        ensures
            final(self).inv(),
            final(self).measure() <= old(self).measure(),
            lossless(r) ==> final(self).consumed() == old(self).consumed() + tokens_of(r),
            final(self).input() == old(self).input(),
            tree_wf(r),
            r is Cast,
        decreases old(self).measure(), if old(self).next_kind() == TK::CAST { 3int } else { 100150int },

    {
        let cast = self.eat(TK::CAST);
        let open_paren = self.eat(TK::OpenParen);
        let value = self.parse_expression();
        let as_ = self.eat(TK::AS);
        let type_ = self.parse_type();
        let close_paren = self.eat(TK::CloseParen);
        parse_tree::cast(cast, open_paren, value, as_, type_, close_paren)
    }

    // | CASE valueExpression whenClause+ (ELSE elseExpression=expression)? END              #simpleCase
    // | CASE whenClause+ (ELSE elseExpression=expression)? END                              #searchedCase
    fn parse_case(&mut self) -> (r: ParseTree<'a>)
        requires
            old(self).inv(),
        ensures
            final(self).inv(),
            final(self).measure() <= old(self).measure(),
            lossless(r) ==> final(self).consumed() == old(self).consumed() + tokens_of(r),
            final(self).input() == old(self).input(),
            tree_wf(r),
            r is Case,
        decreases old(self).measure(), if old(self).next_kind() == TK::CASE { 3int } else { 100160int },

    {
        let case = self.eat(TK::CASE);
        let value_opt = if self.peek_when_clause() {
            self.eat_empty()
        } else {
            self.parse_expression()
        };
        let when_clauses = self.parse_list(Peeker::WhenClause, Element::WhenClause);
        let else_opt = self.eat_opt(TK::ELSE);
        let default = if else_opt.is_empty() {
            self.eat_empty()
        } else {
            self.parse_expression()
        };
        let end = self.eat(TK::END);
        parse_tree::case(case, value_opt, when_clauses, else_opt, default, end)
    }

    // whenClause
    // : WHEN condition=expression THEN result=expression
    fn parse_when_clause(&mut self) -> (r: ParseTree<'a>)
        requires
            old(self).inv(),
        ensures
            final(self).inv(),
            final(self).measure() <= old(self).measure(),
            lossless(r) ==> final(self).consumed() == old(self).consumed() + tokens_of(r),
            final(self).input() == old(self).input(),
            tree_wf(r),
            r is WhenClause,
            old(self).next_kind() == TK::WHEN ==> final(self).measure() < old(self).measure(),
        decreases old(self).measure(), if old(self).next_kind() == TK::WHEN {
            3int
        } else {
            100150int
        },
    {
        let when = self.eat(TK::WHEN);
        let condition = self.parse_expression();
        let then = self.eat(TK::THEN);
        let result = self.parse_expression();
        parse_tree::when_clause(when, condition, then, result)
    }

    fn peek_when_clause(&self) -> (r: bool)
        requires
            self.inv(),
        ensures
            r == (self.next_kind() == TK::WHEN),
    {
        self.peek_kind(TK::WHEN)
    }

    // | EXISTS '(' query ')'                                                                #exists
    fn parse_exists(&mut self) -> (r: ParseTree<'a>)
        requires
            old(self).inv(),
        ensures
            final(self).inv(),
            final(self).measure() <= old(self).measure(),
            lossless(r) ==> final(self).consumed() == old(self).consumed() + tokens_of(r),
            final(self).input() == old(self).input(),
            tree_wf(r),
            r is Exists,
        decreases old(self).measure(), if old(self).next_kind() == TK::EXISTS { 3int } else { 100070int },

    {
        let exists = self.eat(TK::EXISTS);
        let (open_paren, query, close_paren) = self.parse_parenthesized_query();
        parse_tree::exists_(exists, open_paren, query, close_paren)
    }

    // | '?'                                                                                 #parameter
    fn parse_parameter(&mut self) -> (r: ParseTree<'a>)
        requires
            old(self).inv(),
        ensures
            final(self).inv(),
            final(self).measure() <= old(self).measure(),
            lossless(r) ==> final(self).consumed() == old(self).consumed() + tokens_of(r),
            final(self).input() == old(self).input(),
            tree_wf(r),
            old(self).next_kind() == TK::Question ==> r == ParseTree::Token(parse_tree::Token { token: old(self).position.tokens@[0] }),
    {
        self.eat(TK::Question)
    }

    fn parse_literal(&mut self) -> (r: ParseTree<'a>)
        requires
            old(self).inv(),
        ensures
            final(self).inv(),
            final(self).measure() <= old(self).measure(),
            lossless(r) ==> final(self).consumed() == old(self).consumed() + tokens_of(r),
            final(self).input() == old(self).input(),
            tree_wf(r),
            r is Literal,
            r == ParseTree::Literal(parse_tree::Literal { value: Box::new(ParseTree::Token(parse_tree::Token { token: old(self).position.tokens@[0] })) }),
            final(self).consumed() == old(self).consumed().push(old(self).position.tokens@[0]),
            lossless(r),
    {
        let value = self.eat_token();
        proof {
            lemma_leaf_tokens(value);
            assert(old(self).consumed() + seq![old(self).position.tokens@[0]] =~= old(self).consumed().push(
                old(self).position.tokens@[0],
            ));
        }
        parse_tree::literal(value)
    }

    // | identifier string                                                                   #typeConstructor
    // | DOUBLE_PRECISION string                                                             #typeConstructor
    fn parse_type_constructor(&mut self) -> (r: ParseTree<'a>)
        requires
            old(self).inv(),
        ensures
            final(self).inv(),
            final(self).measure() <= old(self).measure(),
            lossless(r) ==> final(self).consumed() == old(self).consumed() + tokens_of(r),
            final(self).input() == old(self).input(),
            tree_wf(r),
            r is TypeConstructor,
    {
        let type_ = if self.peek_kind(TK::DoublePrecision) {
            self.eat_token()
        } else {
            self.parse_identifier()
        };
        let value = self.parse_string();
        parse_tree::type_constructor(type_, value)
    }

    // | identifier string                                                                   #typeConstructor
    // | qualifiedName '(' ASTERISK ')' filter_? over?                                        #functionCall
    // | qualifiedName '(' (setQuantifier? expression (',' expression)*)?
    //     (ORDER BY sortItem (',' sortItem)*)? ')' filter_? over?                            #functionCall
    // | identifier '->' expression                                                          #lambda
    // | identifier                                                                          #columnReference
    fn parse_identifier_start_expression(&mut self) -> (r: ParseTree<'a>)
        requires
            old(self).inv(),
        ensures
            final(self).inv(),
            final(self).measure() <= old(self).measure(),
            lossless(r) ==> final(self).consumed() == old(self).consumed() + tokens_of(r),
            final(self).input() == old(self).input(),
            tree_wf(r),
            r is Lambda || r is TypeConstructor || r is FunctionCall || r is Identifier,
            old(self).identifier_start_tree(r),
        decreases old(self).measure(), if is_identifier_kind(old(self).next_kind()) { 5int } else { 100170int },
    {
        let ghost start = *self;
        let next = self.peek_offset(1);
        proof {
            self.lemma_ahead_at(1);
            Parser::lemma_same_lookahead(start, *self);
        }
        match next {
            TK::Arrow => self.parse_parenless_lambda(),
            TK::String | TK::UnicodeString => self.parse_type_constructor(),
            _ => {
                if self.peek_function_call() {
                    self.parse_function_call()
                } else {
                    parse_tree::identifier(self.eat_token())
                }
            },
        }
    }

    fn parse_parenless_lambda(&mut self) -> (r: ParseTree<'a>)
        requires
            old(self).inv(),
        ensures
            final(self).inv(),
            final(self).measure() <= old(self).measure(),
            lossless(r) ==> final(self).consumed() == old(self).consumed() + tokens_of(r),
            final(self).input() == old(self).input(),
            tree_wf(r),
            r is Lambda,
        decreases old(self).measure(), if is_identifier_kind(old(self).next_kind()) { 3int } else { 100150int },
    {
        let parameter = self.eat_token();
        let arrow = self.eat(TK::Arrow);
        let body = self.parse_expression();
        parse_tree::lambda(parameter, arrow, body)
    }

    // | qualifiedName '(' ASTERISK ')' filter_? over?                                        #functionCall
    // | qualifiedName '(' (setQuantifier? expression (',' expression)*)?
    //     (ORDER BY sortItem (',' sortItem)*)? ')' filter_? over?                            #functionCall
    #[verifier::spinoff_prover]
    #[verifier::rlimit(50)]
    fn peek_function_call(&mut self) -> (r: bool)
        requires
            old(self).inv(),
        ensures
            final(self).peeked(old(self)),
            r == old(self).function_call_ahead(),
    {
        let ghost start = *self;
        let mut offset: usize = 1;
        let ghost mut m: int = 0;
        loop
            invariant
                self.peeked(&start),
                start.inv(),
                start == *old(self),
                1 <= offset <= start.measure() + 1,
                0 <= m,
                offset == 1 + 2 * m,
                forall|j: int| 0 <= j < m ==> #[trigger] start.call_part_at(j),
            ensures
                self.peeked(&start),
                0 <= m,
                offset == 1 + 2 * m,
                offset <= start.measure() + 1,
                start.ahead(offset as int) != TK::Period,
                forall|j: int| 0 <= j < m ==> #[trigger] start.call_part_at(j),
            decreases start.measure() + 1 - offset,
        {
            let period = self.peek_kind_offset(TK::Period, offset);
            proof {
                self.lemma_ahead_at(offset as int);
            }
            if !period {
                break;
            }
            proof {
                reveal(Parser::inv);
                reveal(Parser::measure);
                self.position.lemma_offset_bound(offset as int);
            }
            offset += 1;
            if self.peek_identifier_offset(offset) {
                proof {
                    reveal(Parser::inv);
                    reveal(Parser::measure);
                    self.position.lemma_offset_bound(offset as int);
                    self.lemma_ahead_at(offset as int);
                    assert(start.call_part_at(m));
                    m = m + 1;
                }
                offset += 1;
            } else {
                proof {
                    self.lemma_ahead_at(offset as int);
                    start.lemma_call_broken(m);
                }
                return false;
            }
        }
        proof {
            reveal(Parser::inv);
            reveal(Parser::measure);
            self.position.lemma_measure_nonneg();
            start.lemma_call_end(m);
        }
        let r = self.peek_kind_offset(TK::OpenParen, offset);
        proof {
            self.lemma_ahead_at(offset as int);
        }
        r
    }

    #[verifier::spinoff_prover]
    #[verifier::rlimit(100)]
    fn parse_function_call(&mut self) -> (r: ParseTree<'a>)
        requires
            old(self).inv(),
        ensures
            final(self).inv(),
            final(self).measure() <= old(self).measure(),
            lossless(r) ==> final(self).consumed() == old(self).consumed() + tokens_of(r),
            final(self).input() == old(self).input(),
            tree_wf(r),
            r is FunctionCall,
        decreases old(self).measure(), if is_identifier_kind(old(self).next_kind()) { 3int } else { 100160int },
    {
        let name = self.parse_qualified_name();
        let open_paren = self.eat(TK::OpenParen);
        if self.peek_kind(TK::Asterisk) {
            let set_quantifier_opt = self.eat_empty();
            let arguments = self.eat(TK::Asterisk);
            let order_by_opt = self.eat_empty();
            let close_paren = self.eat(TK::CloseParen);
            let filter_opt = self.parse_filter_opt();
            let null_treatment_opt = self.eat_empty();
            let over_opt = self.parse_over_opt();
            parse_tree::function_call(
                name,
                open_paren,
                set_quantifier_opt,
                arguments,
                order_by_opt,
                close_paren,
                filter_opt,
                null_treatment_opt,
                over_opt,
            )
        } else {
            let set_quantifier_opt = self.parse_set_quantifier_opt(TailPeeker::FunctionArguments);
            let arguments = if set_quantifier_opt.is_empty() {
                self.parse_comma_separated_list_opt(Peeker::Expression, Element::Expression)
            } else {
                self.parse_comma_separated_list(Element::Expression)
            };
            let order_by_opt = self.parse_order_by_opt();
            let close_paren = self.eat(TK::CloseParen);
            let filter_opt = self.parse_filter_opt();
            let null_treatment_opt = self.parse_null_treatment_opt();
            let over_opt = if null_treatment_opt.is_empty() {
                self.parse_over_opt()
            } else {
                self.parse_over()
            };
            parse_tree::function_call(
                name,
                open_paren,
                set_quantifier_opt,
                arguments,
                order_by_opt,
                close_paren,
                filter_opt,
                null_treatment_opt,
                over_opt,
            )
        }
    }

    // filter
    // : FILTER '(' WHERE booleanExpression ')'
    fn parse_filter_opt(&mut self) -> (r: ParseTree<'a>)
        requires
            old(self).inv(),
        ensures
            final(self).inv(),
            final(self).measure() <= old(self).measure(),
            lossless(r) ==> final(self).consumed() == old(self).consumed() + tokens_of(r),
            final(self).input() == old(self).input(),
            tree_wf(r),
        decreases old(self).measure(), 1int,
    {
        if self.peek_filter() {
            let filter = self.eat_predefined_name(PN::FILTER);
            let open_paren = self.eat(TK::OpenParen);
            let where_ = self.eat(TK::WHERE);
            let predicate = self.parse_boolean_expression();
            let close_paren = self.eat(TK::CloseParen);
            parse_tree::filter(filter, open_paren, where_, predicate, close_paren)
        } else {
            self.eat_empty()
        }
    }

    fn peek_filter(&mut self) -> (r: bool)
        requires
            old(self).inv(),
        ensures
            final(self).peeked(old(self)),
            r ==> final(self).next_is_name(PN::FILTER),
    {
        self.peek_predefined_name(PN::FILTER) && self.peek_kind_offset(TK::OpenParen, 1)
    }

    // over
    // : OVER '('
    //     (PARTITION BY partition+=expression (',' partition+=expression)*)?
    //     (ORDER BY sortItem (',' sortItem)*)?
    //     windowFrame?
    //   ')'
    fn parse_over_opt(&mut self) -> (r: ParseTree<'a>)
        requires
            old(self).inv(),
        ensures
            final(self).inv(),
            final(self).measure() <= old(self).measure(),
            lossless(r) ==> final(self).consumed() == old(self).consumed() + tokens_of(r),
            final(self).input() == old(self).input(),
            tree_wf(r),
        decreases old(self).measure(), 5int,
    {
        if self.peek_over() {
            self.parse_over()
        } else {
            self.eat_empty()
        }
    }

    #[verifier::spinoff_prover]
    #[verifier::rlimit(100)]
    fn parse_over(&mut self) -> (r: ParseTree<'a>)
        requires
            old(self).inv(),
        ensures
            final(self).inv(),
            final(self).measure() <= old(self).measure(),
            lossless(r) ==> final(self).consumed() == old(self).consumed() + tokens_of(r),
            final(self).input() == old(self).input(),
            tree_wf(r),
        decreases old(self).measure(), if old(self).next_is_name(PN::OVER) { 3int } else { 100150int },
    {
        let over = self.eat_predefined_name(PN::OVER);
        let open_paren = self.eat(TK::OpenParen);
        let partition_opt = self.eat_predefined_name_opt(PN::PARTITION);
        let (by, partitions) = if partition_opt.is_empty() {
            (self.eat_empty(), self.eat_empty())
        } else {
            let by = self.eat(TK::BY);
            let partitions = self.parse_comma_separated_list(Element::Expression);
            (by, partitions)
        };
        let order_by_opt = self.parse_order_by_opt();
        let window_frame = self.parse_window_frame_opt();
        let close_paren = self.eat(TK::CloseParen);
        parse_tree::over(
            over,
            open_paren,
            partition_opt,
            by,
            partitions,
            order_by_opt,
            window_frame,
            close_paren,
        )
    }

    fn peek_over(&mut self) -> (r: bool)
        requires
            old(self).inv(),
        ensures
            final(self).peeked(old(self)),
            r ==> final(self).next_is_name(PN::OVER),
    {
        self.peek_predefined_name(PN::OVER) && self.peek_kind_offset(TK::OpenParen, 1)
    }

    // nullTreatment
    // : IGNORE NULLS
    // | RESPECT NULLS
    fn parse_null_treatment_opt(&mut self) -> (r: ParseTree<'a>)
        requires
            old(self).inv(),
        ensures
            final(self).inv(),
            final(self).measure() <= old(self).measure(),
            lossless(r) ==> final(self).consumed() == old(self).consumed() + tokens_of(r),
            final(self).input() == old(self).input(),
            tree_wf(r),
            !(r is Empty) ==> final(self).measure() < old(self).measure(),
    {
        if self.peek_null_treatment() {
            let treatment = self.eat(TK::Identifier);
            let nulls = self.eat_predefined_name(PN::NULLS);
            parse_tree::null_treatment(treatment, nulls)
        } else {
            self.eat_empty()
        }
    }

    fn peek_null_treatment(&mut self) -> (r: bool)
        requires
            old(self).inv(),
        ensures
            final(self).peeked(old(self)),
            r ==> final(self).next_kind() == TK::Identifier,
    {
        (self.peek_predefined_name(PN::IGNORE) || self.peek_predefined_name(PN::RESPECT))
            && self.peek_predefined_name_offset(PN::NULLS, 1)
        // null treatement must be followed by OVER
         && self.peek_predefined_name_offset(PN::OVER, 2)
    }

    // windowFrame
    // : frameType=RANGE startBound=frameBound
    // | frameType=ROWS startBound=frameBound
    // | frameType=RANGE BETWEEN startBound=frameBound AND end=frameBound
    // | frameType=ROWS BETWEEN startBound=frameBound AND end=frameBound
    fn parse_window_frame_opt(&mut self) -> (r: ParseTree<'a>)
        requires
            old(self).inv(),
        ensures
            final(self).inv(),
            final(self).measure() <= old(self).measure(),
            lossless(r) ==> final(self).consumed() == old(self).consumed() + tokens_of(r),
            final(self).input() == old(self).input(),
            tree_wf(r),
        decreases old(self).measure(), 1int,
    {
        if self.peek_predefined_name(PN::RANGE) || self.peek_predefined_name(PN::ROWS) {
            let frame_type = self.eat_token();
            let between_opt = self.eat_opt(TK::BETWEEN);
            let start = self.parse_frame_bound();
            let (and, end) = if between_opt.is_empty() {
                (self.eat_empty(), self.eat_empty())
            } else {
                let and = self.eat(TK::AND);
                let end = self.parse_frame_bound();
                (and, end)
            };
            parse_tree::window_frame(frame_type, between_opt, start, and, end)
        } else {
            self.eat_empty()
        }
    }

    // frameBound
    // : UNBOUNDED boundType=PRECEDING                 #unboundedFrame
    // | UNBOUNDED boundType=FOLLOWING                 #unboundedFrame
    // | CURRENT ROW                                   #currentRowBound
    // | expression boundType=(PRECEDING | FOLLOWING)  #boundedFrame // expression should be unsignedLiteral
    fn parse_frame_bound(&mut self) -> (r: ParseTree<'a>)
        requires
            old(self).inv(),
        ensures
            final(self).inv(),
            final(self).measure() <= old(self).measure(),
            lossless(r) ==> final(self).consumed() == old(self).consumed() + tokens_of(r),
            final(self).input() == old(self).input(),
            tree_wf(r),
        decreases old(self).measure(), 150int,
    {
        if self.peek_predefined_name(PN::UNBOUNDED) && (self.peek_predefined_name_offset(
            PN::PRECEDING,
            1,
        ) || self.peek_predefined_name_offset(PN::FOLLOWING, 1)) {
            let unbounded = self.eat_token();
            let bound_type = self.eat_token();
            parse_tree::unbounded_frame(unbounded, bound_type)
        } else if self.peek_predefined_name_offset(PN::CURRENT, 0)
            && self.peek_predefined_name_offset(PN::ROW, 1) {
            let current = self.eat_token();
            let row = self.eat_token();
            parse_tree::current_row_bound(current, row)
        } else {
            let bound = self.parse_expression();
            let bound_type = self.parse_bound_type();
            parse_tree::bounded_frame(bound, bound_type)
        }
    }

    fn parse_bound_type(&mut self) -> (r: ParseTree<'a>)
        requires
            old(self).inv(),
        ensures
            final(self).inv(),
            final(self).measure() <= old(self).measure(),
            lossless(r) ==> final(self).consumed() == old(self).consumed() + tokens_of(r),
            final(self).input() == old(self).input(),
            tree_wf(r),
    {
        match self.maybe_peek_predefined_name() {
            Some(PN::PRECEDING) | Some(PN::FOLLOWING) => self.eat_token(),
            _ => self.expected_error("PRECEDING, FOLLOWING"),
        }
    }

    // string
    // : STRING                                #basicStringLiteral
    // | UNICODE_STRING (UESCAPE STRING)?      #unicodeStringLiteral
    fn parse_string(&mut self) -> (r: ParseTree<'a>)
        requires
            old(self).inv(),
        ensures
            final(self).inv(),
            final(self).measure() <= old(self).measure(),
            lossless(r) ==> final(self).consumed() == old(self).consumed() + tokens_of(r),
            final(self).input() == old(self).input(),
            tree_wf(r),
    {
        match self.peek() {
            TK::String => self.parse_literal(),
            TK::UnicodeString => {
                let string = self.eat_token();
                let uescape_opt = self.eat_opt(TK::UESCAPE);
                let escape = if uescape_opt.is_empty() {
                    self.eat_empty()
                } else {
                    self.eat(TK::String)
                };
                parse_tree::unicode_string(string, uescape_opt, escape)
            },
            _ => self.expected_error("string"),
        }
    }

    fn peek_string(&self) -> (r: bool)
        requires
            self.inv(),
        ensures
            r == (self.next_kind() == TK::String || self.next_kind() == TK::UnicodeString),
    {
        match self.peek() {
            TK::String | TK::UnicodeString => true,
            _ => false,
        }
    }
}



impl<'a> Parser<'a> {
    // type_
    // : type_ ARRAY
    fn parse_type(&mut self) -> (r: ParseTree<'a>)
        requires
            old(self).inv(),
        ensures
            final(self).inv(),
            final(self).measure() <= old(self).measure(),
            lossless(r) ==> final(self).consumed() == old(self).consumed() + tokens_of(r),
            final(self).input() == old(self).input(),
            tree_wf(r),
        decreases old(self).measure(), 6int,
    {
        let ghost start = *self;
        let mut root_type = self.parse_root_type();
        while self.peek_predefined_name(PN::ARRAY)
            invariant
                self.inv(),
                start.inv(),
                start == *old(self),
                self.measure() <= start.measure(),
                lossless(root_type) ==> self.consumed() == start.consumed() + tokens_of(root_type),
                self.input() == start.input(),
                tree_wf(root_type),
            decreases self.measure(),
        {
            let array = self.eat_predefined_name(PN::ARRAY);
            root_type = parse_tree::array_type_suffix(root_type, array)
        }
        root_type
    }

    fn peek_type_offset(&mut self, offset: usize) -> (r: bool)
        requires
            old(self).inv(),
        ensures
            final(self).peeked(old(self)),
    {
        match self.peek_offset(offset) {
            TK::TimeWithTimeZone | TK::TimestampWithTimeZone | TK::DoublePrecision
            | TK::Identifier => true,
            _ => false,
        }
    }

    // | ARRAY '<' type_ '>'
    // | MAP '<' type_ ',' type_ '>'
    // | ROW '(' identifier type_ (',' identifier type_)* ')'
    // | baseType ('(' typeParameter (',' typeParameter)* ')')?
    // | INTERVAL from_=intervalField TO to=intervalField
    fn parse_root_type(&mut self) -> (r: ParseTree<'a>)
        requires
            old(self).inv(),
        ensures
            final(self).inv(),
            final(self).measure() <= old(self).measure(),
            lossless(r) ==> final(self).consumed() == old(self).consumed() + tokens_of(r),
            final(self).input() == old(self).input(),
            tree_wf(r),
        decreases old(self).measure(), 5int,
    {
        match self.peek() {
            TK::TimeWithTimeZone | TK::TimestampWithTimeZone | TK::DoublePrecision => (),
            TK::Identifier => {
                match self.maybe_peek_predefined_name() {
                    Some(PN::ARRAY) => {
                        if self.peek_array_type() {
                            return self.parse_array_type();
                        }
                    },
                    Some(PN::MAP) => {
                        if self.peek_map_type() {
                            return self.parse_map_type();
                        }
                    },
                    Some(PN::ROW) => {
                        if self.peek_row_type() {
                            return self.parse_row_type();
                        }
                    },
                    Some(PN::INTERVAL) => {
                        if self.peek_interval_type() {
                            return self.parse_interval_type();
                        }
                    },
                    _ => (),
                };
            },
            _ => return self.expected_error("type"),
        }
        let type_token = self.eat_token();
        let type_parameters = self.parse_parenthesized_comma_separated_list_opt(
            Element::TypeParameter,
        );
        parse_tree::named_type(type_token, type_parameters)
    }

    // typeParameter
    // : INTEGER_VALUE | type_
    fn parse_type_parameter(&mut self) -> (r: ParseTree<'a>)
        requires
            old(self).inv(),
        ensures
            final(self).inv(),
            final(self).measure() <= old(self).measure(),
            lossless(r) ==> final(self).consumed() == old(self).consumed() + tokens_of(r),
            final(self).input() == old(self).input(),
            tree_wf(r),
        decreases old(self).measure(), 7int,
    {
        if self.peek_kind(TK::Integer) {
            self.eat_token()
        } else {
            self.parse_type()
        }
    }

    // | ARRAY '<' type_ '>'
    fn peek_array_type(&mut self) -> (r: bool)
        requires
            old(self).inv(),
        ensures
            final(self).peeked(old(self)),
            r ==> final(self).next_is_name(PN::ARRAY),
    {
        self.peek_predefined_name(PN::ARRAY) && self.peek_kind_offset(TK::OpenAngle, 1)
    }

    fn parse_array_type(&mut self) -> (r: ParseTree<'a>)
        requires
            old(self).inv(),
        ensures
            final(self).inv(),
            final(self).measure() <= old(self).measure(),
            lossless(r) ==> final(self).consumed() == old(self).consumed() + tokens_of(r),
            final(self).input() == old(self).input(),
            tree_wf(r),
            r is ArrayType,
        decreases old(self).measure(), if old(self).next_is_name(PN::ARRAY) { 3int } else { 100010int },
    {
        let array = self.eat_predefined_name(PN::ARRAY);
        let (open_angle, element_type, close_angle) = self.parse_delimited(
            TK::OpenAngle,
            Element::Type,
            TK::CloseAngle,
        );
        parse_tree::array_type(array, open_angle, element_type, close_angle)
    }

    // | MAP '<' type_ ',' type_ '>'
    fn peek_map_type(&mut self) -> (r: bool)
        requires
            old(self).inv(),
        ensures
            final(self).peeked(old(self)),
            r ==> final(self).next_is_name(PN::MAP),
    {
        self.peek_predefined_name(PN::MAP) && self.peek_kind_offset(TK::OpenAngle, 1)
    }

    fn parse_map_type(&mut self) -> (r: ParseTree<'a>)
        requires
            old(self).inv(),
        ensures
            final(self).inv(),
            final(self).measure() <= old(self).measure(),
            lossless(r) ==> final(self).consumed() == old(self).consumed() + tokens_of(r),
            final(self).input() == old(self).input(),
            tree_wf(r),
            r is MapType,
        decreases old(self).measure(), if old(self).next_is_name(PN::MAP) { 3int } else { 100010int },
    {
        let map = self.eat_predefined_name(PN::MAP);
        let open_angle = self.eat(TK::OpenAngle);
        let key_type = self.parse_type();
        let comma = self.eat(TK::Comma);
        let value_type = self.parse_type();
        let close_angle = self.eat(TK::CloseAngle);
        parse_tree::map_type(map, open_angle, key_type, comma, value_type, close_angle)
    }

    // | ROW '(' identifier type_ (',' identifier type_)* ')'
    fn peek_row_type(&mut self) -> (r: bool)
        requires
            old(self).inv(),
        ensures
            final(self).peeked(old(self)),
            r ==> final(self).next_is_name(PN::ROW),
    {
        self.peek_predefined_name(PN::ROW) && self.peek_kind_offset(TK::OpenParen, 1)
            && self.peek_row_element_offset(2)
    }

    // identifier type_
    fn peek_row_element_offset(&mut self, offset: usize) -> (r: bool)
        requires
            old(self).inv(),
            offset < usize::MAX,
        ensures
            final(self).peeked(old(self)),
    {
        self.peek_identifier_offset(offset) && self.peek_type_offset(offset + 1)
    }

    fn parse_row_type(&mut self) -> (r: ParseTree<'a>)
        requires
            old(self).inv(),
        ensures
            final(self).inv(),
            final(self).measure() <= old(self).measure(),
            lossless(r) ==> final(self).consumed() == old(self).consumed() + tokens_of(r),
            final(self).input() == old(self).input(),
            tree_wf(r),
            r is RowType,
        decreases old(self).measure(), if old(self).next_is_name(PN::ROW) { 3int } else { 100012int },
    {
        let row = self.eat_predefined_name(PN::ROW);
        let element_types = self.parse_parenthesized_comma_separated_list(Element::RowTypeElement);
        parse_tree::row_type(row, element_types)
    }

    fn parse_row_type_element(&mut self) -> (r: ParseTree<'a>)
        requires
            old(self).inv(),
        ensures
            final(self).inv(),
            final(self).measure() <= old(self).measure(),
            lossless(r) ==> final(self).consumed() == old(self).consumed() + tokens_of(r),
            final(self).input() == old(self).input(),
            tree_wf(r),
            r is RowTypeElement,
        decreases old(self).measure(), 7int,
    {
        let identifier = self.parse_identifier();
        let type_ = self.parse_type();
        parse_tree::row_type_element(identifier, type_)
    }

    // | INTERVAL from_=intervalField TO to=intervalField
    fn peek_interval_type(&mut self) -> (r: bool)
        requires
            old(self).inv(),
        ensures
            final(self).peeked(old(self)),
    {
        self.peek_predefined_name(PN::INTERVAL) && self.peek_interval_field_offset(1)
    }

    fn parse_interval_type(&mut self) -> (r: ParseTree<'a>)
        requires
            old(self).inv(),
        ensures
            final(self).inv(),
            final(self).measure() <= old(self).measure(),
            lossless(r) ==> final(self).consumed() == old(self).consumed() + tokens_of(r),
            final(self).input() == old(self).input(),
            tree_wf(r),
            r is IntervalType,
    {
        let interval = self.eat_predefined_name(PN::INTERVAL);
        let from = self.parse_interval_field();
        let to_kw = self.eat_predefined_name(PN::TO);
        let to = self.parse_interval_field();
        parse_tree::interval_type(interval, from, to_kw, to)
    }

    /// Parses a statement: a query, CREATE, INSERT or DELETE.
    /// Any other start of a statement gives an error tree.
    pub fn parse_statement(&mut self) -> (r: ParseTree<'a>)
        requires
            old(self).inv(),
        ensures
            final(self).inv(),
            final(self).measure() <= old(self).measure(),
            lossless(r) ==> final(self).consumed() == old(self).consumed() + tokens_of(r),
            final(self).input() == old(self).input(),
            tree_wf(r),
            is_query_start(old(self).next_kind()) ==> r is Query,
            is_statement_tree_for(old(self).next_kind(), r),
            old(self).next_kind() == TK::CREATE && r is Error ==> final(self).peeked(old(self)) && final(self).position.tokens@.len() > 1 && !starts_create_statement(final(self).position.tokens@[1]),
            old(self).next_kind() == TK::CREATE ==> old(self).create_tree_for(r),
            old(self).next_kind() == TK::INSERT ==> r is InsertInto,
            old(self).next_kind() == TK::DELETE ==> r is Delete,
            !is_statement_start(old(self).next_kind()) ==> *final(self) == *old(self) && is_error_at(r, TextRange { start: old(self).next_full_start(), end: old(self).next_full_start() }, expected_message("statement"@, old(self).next_kind())),
        decreases old(self).measure(), 230int,

    {
        match self.peek() {
            TK::SELECT | TK::TABLE | TK::VALUES | TK::OpenParen | TK::WITH => self.parse_query(),
            TK::CREATE => self.parse_create_statement(),
            TK::INSERT => self.parse_insert_into(),
            TK::DELETE => self.parse_delete(),
            _ => self.expected_error("statement"),
        }
    }

    // | CREATE SCHEMA (IF NOT EXISTS)? qualifiedName
    // (WITH properties)?                                             #createSchema
    // | CREATE TABLE (IF NOT EXISTS)? qualifiedName columnAliases?
    //     (COMMENT string)?
    //     (WITH properties)? AS (query | '('query')')
    //     (WITH (NO)? DATA)?                                             #createTableAsSelect
    // | CREATE TABLE (IF NOT EXISTS)? qualifiedName
    //     '(' tableElement (',' tableElement)* ')'
    //      (COMMENT string)?
    //      (WITH properties)?                                            #createTable
    // | CREATE (OR REPLACE)? VIEW qualifiedName AS query                 #createView
    // | CREATE ROLE name=identifier
    //     (WITH ADMIN grantor)?                                          #createRole
    fn parse_create_statement(&mut self) -> (r: ParseTree<'a>)
        requires
            old(self).inv(),
        ensures
            final(self).inv(),
            final(self).measure() <= old(self).measure(),
            lossless(r) ==> final(self).consumed() == old(self).consumed() + tokens_of(r),
            final(self).input() == old(self).input(),
            tree_wf(r),
            r is CreateTable || r is CreateTableAsSelect || r is CreateView || r is CreateRole || r is Error,
            r is Error ==> final(self).peeked(old(self)) && final(self).position.tokens@.len() > 1 && !starts_create_statement(final(self).position.tokens@[1]),
            old(self).create_tree_for(r),
        decreases old(self).measure(), if old(self).next_kind() == TK::CREATE { 5int } else { 100220int },

    {
        let next = self.peek_offset(1);
        proof {
            self.lemma_ahead();
            assert(self.position.tokens@[1].kind == self.ahead(1));
        }
        match next {
            TK::TABLE => self.parse_create_table(),
            TK::OR => self.parse_create_view(),
            TK::Identifier => match self.maybe_peek_predefined_name_offset(1) {
                Some(PN::SCHEMA) => self.parse_create_schema(),
                Some(PN::VIEW) => self.parse_create_view(),
                Some(PN::ROLE) => self.parse_create_role(),
                _ => self.expected_error("create statement"),
            },
            _ => self.expected_error("create statement"),
        }
    }

    #[verifier::spinoff_prover]
    #[verifier::rlimit(100)]
    fn parse_create_table(&mut self) -> (r: ParseTree<'a>)
        requires
            old(self).inv(),
        ensures
            final(self).inv(),
            final(self).measure() <= old(self).measure(),
            lossless(r) ==> final(self).consumed() == old(self).consumed() + tokens_of(r),
            final(self).input() == old(self).input(),
            tree_wf(r),
            r is CreateTable || r is CreateTableAsSelect,
        decreases old(self).measure(), if old(self).next_kind() == TK::CREATE { 3int } else { 100210int },

    {
        let create = self.eat(TK::CREATE);
        let table = self.eat(TK::TABLE);
        let if_not_exists_opt = self.parse_if_not_exists_opt();
        let table_name = self.parse_qualified_name();
        if self.peek_kind(TK::OpenParen) && self.peek_table_element_offset(1) {
            // | CREATE TABLE (IF NOT EXISTS)? qualifiedName
            //     '(' tableElement (',' tableElement)* ')'
            //      (COMMENT string)?
            //      (WITH properties)?                                            #createTable
            let table_elements = self.parse_parenthesized_comma_separated_list(
                Element::TableElement,
            );
            let comment_opt = self.parse_comment_opt();
            let with_properties_opt = self.parse_with_properties_opt();
            parse_tree::create_table(
                create,
                table,
                if_not_exists_opt,
                table_name,
                table_elements,
                comment_opt,
                with_properties_opt,
            )
        } else {
            // | CREATE TABLE (IF NOT EXISTS)? qualifiedName columnAliases?
            //     (COMMENT string)?
            //     (WITH properties)? AS (query | '('query')')
            //     (WITH (NO)? DATA)?                                             #createTableAsSelect
            let column_aliases_opt = self.parse_column_aliases_opt();
            let comment_opt = self.parse_comment_opt();
            let with_properties_opt = self.parse_with_properties_opt();
            let as_ = self.eat(TK::AS);
            let (open_paren_opt, query, close_paren_opt) = if self.peek_kind(TK::OpenParen) {
                self.parse_parenthesized_query()
            } else {
                let open_paren_opt = self.eat_empty();
                let query = self.parse_query();
                let close_paren_opt = self.eat_empty();
                (open_paren_opt, query, close_paren_opt)
            };
            let with_data_opt = self.parse_with_data_opt();
            parse_tree::create_table_as_select(
                create,
                table,
                if_not_exists_opt,
                table_name,
                column_aliases_opt,
                comment_opt,
                with_properties_opt,
                as_,
                open_paren_opt,
                query,
                close_paren_opt,
                with_data_opt,
            )
        }
    }

    // (IF NOT EXISTS)?
    fn parse_if_not_exists_opt(&mut self) -> (r: ParseTree<'a>)
        requires
            old(self).inv(),
        ensures
            final(self).inv(),
            final(self).measure() <= old(self).measure(),
            lossless(r) ==> final(self).consumed() == old(self).consumed() + tokens_of(r),
            final(self).input() == old(self).input(),
            tree_wf(r),
    {
        let if_ = self.eat_predefined_name_opt(PN::IF);
        if if_.is_empty() {
            if_
        } else {
            let not = self.eat(TK::NOT);
            let exists = self.eat(TK::EXISTS);
            parse_tree::if_not_exists(if_, not, exists)
        }
    }

    // (COMMENT string)?
    fn parse_comment_opt(&mut self) -> (r: ParseTree<'a>)
        requires
            old(self).inv(),
        ensures
            final(self).inv(),
            final(self).measure() <= old(self).measure(),
            lossless(r) ==> final(self).consumed() == old(self).consumed() + tokens_of(r),
            final(self).input() == old(self).input(),
            tree_wf(r),
    {
        let comment = self.eat_predefined_name_opt(PN::COMMENT);
        if comment.is_empty() {
            comment
        } else {
            let value = self.parse_string();
            parse_tree::comment(comment, value)
        }
    }

    // principal
    // : USER identifier       #userPrincipal
    // | ROLE identifier       #rolePrincipal
    // | identifier            #unspecifiedPrincipal
    // ;
    fn parse_principal(&mut self) -> (r: ParseTree<'a>)
        requires
            old(self).inv(),
        ensures
            final(self).inv(),
            final(self).measure() <= old(self).measure(),
            lossless(r) ==> final(self).consumed() == old(self).consumed() + tokens_of(r),
            final(self).input() == old(self).input(),
            tree_wf(r),
    {
        let name = self.maybe_peek_predefined_name();
        let is_identifier = self.peek_identifier_offset(1);
        match (is_identifier, name) {
            (true, Some(PN::USER)) => {
                let user = self.eat_predefined_name(PN::USER);
                let identifier = self.parse_identifier();
                parse_tree::user_principal(user, identifier)
            },
            (true, Some(PN::ROLE)) => {
                let role = self.eat_predefined_name(PN::ROLE);
                let identifier = self.parse_identifier();
                parse_tree::role_principal(role, identifier)
            },
            (_, _) => {
                let identifier = self.parse_identifier();
                parse_tree::unspecified_principal(identifier)
            },
        }
    }

    // grantor
    // : CURRENT_USER          #currentUserGrantor
    // | CURRENT_ROLE          #currentRoleGrantor
    // | principal             #specifiedPrincipal
    // ;
    fn parse_grantor(&mut self) -> (r: ParseTree<'a>)
        requires
            old(self).inv(),
        ensures
            final(self).inv(),
            final(self).measure() <= old(self).measure(),
            lossless(r) ==> final(self).consumed() == old(self).consumed() + tokens_of(r),
            final(self).input() == old(self).input(),
            tree_wf(r),
    {
        if self.peek_kind(TK::CURRENT_USER) {
            self.eat_token()
        } else if self.peek_predefined_name(PN::CURRENT_ROLE) {
            self.eat_predefined_name(PN::CURRENT_ROLE)
        } else {
            self.parse_principal()
        }
    }

    // (WITH ADMIN grantor)?
    fn parse_with_admin_grantor_opt(&mut self) -> (r: ParseTree<'a>)
        requires
            old(self).inv(),
        ensures
            final(self).inv(),
            final(self).measure() <= old(self).measure(),
            lossless(r) ==> final(self).consumed() == old(self).consumed() + tokens_of(r),
            final(self).input() == old(self).input(),
            tree_wf(r),
    {
        let with = self.eat_opt(TK::WITH);
        if with.is_empty() {
            with
        } else {
            let admin = self.eat_predefined_name(PN::ADMIN);
            let grantor = self.parse_grantor();
            parse_tree::with_admin_grantor(with, admin, grantor)
        }
    }

    // (WITH properties)?
    fn parse_with_properties_opt(&mut self) -> (r: ParseTree<'a>)
        requires
            old(self).inv(),
        ensures
            final(self).inv(),
            final(self).measure() <= old(self).measure(),
            lossless(r) ==> final(self).consumed() == old(self).consumed() + tokens_of(r),
            final(self).input() == old(self).input(),
            tree_wf(r),
        decreases old(self).measure(), 1int,
    {
        let with = self.eat_opt(TK::WITH);
        if with.is_empty() {
            with
        } else {
            let properties = self.parse_parenthesized_comma_separated_list(Element::Property);
            parse_tree::with_properties(with, properties)
        }
    }

    // property_
    // : identifier EQ expression
    fn parse_property(&mut self) -> (r: ParseTree<'a>)
        requires
            old(self).inv(),
        ensures
            final(self).inv(),
            final(self).measure() <= old(self).measure(),
            lossless(r) ==> final(self).consumed() == old(self).consumed() + tokens_of(r),
            final(self).input() == old(self).input(),
            tree_wf(r),
            r is Property,
        decreases old(self).measure(), 150int,
    {
        let identifier = self.parse_identifier();
        let eq = self.eat(TK::Equal);
        let value = self.parse_expression();
        parse_tree::property(identifier, eq, value)
    }

    // (WITH (NO)? DATA)?
    fn parse_with_data_opt(&mut self) -> (r: ParseTree<'a>)
        requires
            old(self).inv(),
        ensures
            final(self).inv(),
            final(self).measure() <= old(self).measure(),
            lossless(r) ==> final(self).consumed() == old(self).consumed() + tokens_of(r),
            final(self).input() == old(self).input(),
            tree_wf(r),
    {
        let with = self.eat_opt(TK::WITH);
        if with.is_empty() {
            with
        } else {
            let no_opt = self.eat_predefined_name_opt(PN::NO);
            let data = self.eat_predefined_name(PN::DATA);
            parse_tree::with_data(with, no_opt, data)
        }
    }

    // tableElement
    //     : columnDefinition
    //     | likeClause
    //     ;
    fn peek_table_element_offset(&mut self, offset: usize) -> (r: bool)
        requires
            old(self).inv(),
            offset < usize::MAX,
        ensures
            final(self).peeked(old(self)),
    {
        // disambiguating between tableElement and column_aliases
        self.peek_kind_offset(TK::LIKE, offset) || (self.peek_kind_offset(TK::Identifier, offset)
            && !self.peek_kind_offset(TK::Comma, offset + 1))
    }

    fn parse_table_element(&mut self) -> (r: ParseTree<'a>)
        requires
            old(self).inv(),
        ensures
            final(self).inv(),
            final(self).measure() <= old(self).measure(),
            lossless(r) ==> final(self).consumed() == old(self).consumed() + tokens_of(r),
            final(self).input() == old(self).input(),
            tree_wf(r),
        decreases old(self).measure(), 9int,
    {
        if self.peek_kind(TK::LIKE) {
            self.parse_like_clause()
        } else {
            self.parse_column_definition()
        }
    }

    // columnDefinition
    //     : identifier type_ (NOT NULL)? (COMMENT string)? (WITH properties)?
    fn parse_column_definition(&mut self) -> (r: ParseTree<'a>)
        requires
            old(self).inv(),
        ensures
            final(self).inv(),
            final(self).measure() <= old(self).measure(),
            lossless(r) ==> final(self).consumed() == old(self).consumed() + tokens_of(r),
            final(self).input() == old(self).input(),
            tree_wf(r),
        decreases old(self).measure(), 8int,
    {
        let identifier = self.parse_identifier();
        let type_ = self.parse_type();
        let not_null_opt = self.parse_not_null_opt();
        let comment_opt = self.parse_comment_opt();
        let with_properties_opt = self.parse_with_properties_opt();
        parse_tree::column_definition(
            identifier,
            type_,
            not_null_opt,
            comment_opt,
            with_properties_opt,
        )
    }

    // (NOT NULL)?
    fn parse_not_null_opt(&mut self) -> (r: ParseTree<'a>)
        requires
            old(self).inv(),
        ensures
            final(self).inv(),
            final(self).measure() <= old(self).measure(),
            lossless(r) ==> final(self).consumed() == old(self).consumed() + tokens_of(r),
            final(self).input() == old(self).input(),
            tree_wf(r),
    {
        let not = self.eat_opt(TK::NOT);
        if not.is_empty() {
            not
        } else {
            let null = self.eat(TK::NULL);
            parse_tree::not_null(not, null)
        }
    }

    // likeClause
    //     : LIKE qualifiedName (optionType=(INCLUDING | EXCLUDING) PROPERTIES)?
    fn parse_like_clause(&mut self) -> (r: ParseTree<'a>)
        requires
            old(self).inv(),
        ensures
            final(self).inv(),
            final(self).measure() <= old(self).measure(),
            lossless(r) ==> final(self).consumed() == old(self).consumed() + tokens_of(r),
            final(self).input() == old(self).input(),
            tree_wf(r),
    {
        let like = self.eat(TK::LIKE);
        let name = self.parse_qualified_name();
        let has_option = match self.maybe_peek_predefined_name() {
            Some(PN::INCLUDING) | Some(PN::EXCLUDING) => true,
            _ => false,
        };
        let (option_type_opt, properties) = if has_option {
            let option_type = self.eat_token();
            let properties = self.eat_predefined_name(PN::PROPERTIES);
            (option_type, properties)
        } else {
            (self.eat_empty(), self.eat_empty())
        };
        parse_tree::like_clause(like, name, option_type_opt, properties)
    }

    #[verifier::spinoff_prover]
    #[verifier::rlimit(100)]
    fn parse_create_view(&mut self) -> (r: ParseTree<'a>)
        requires
            old(self).inv(),
        ensures
            final(self).inv(),
            final(self).measure() <= old(self).measure(),
            lossless(r) ==> final(self).consumed() == old(self).consumed() + tokens_of(r),
            final(self).input() == old(self).input(),
            tree_wf(r),
            r is CreateView,
        decreases old(self).measure(), if old(self).next_kind() == TK::CREATE { 3int } else { 100070int },

    {
        let create = self.eat(TK::CREATE);
        let (or, replace) = if self.peek_kind(TK::OR) {
            let or = self.eat_token();
            let replace = self.eat_predefined_name(PN::REPLACE);
            (or, replace)
        } else {
            (self.eat_empty(), self.eat_empty())
        };
        let view = self.eat_predefined_name(PN::VIEW);
        let qualified_name = self.parse_qualified_name();
        let as_ = self.eat(TK::AS);
        let query = self.parse_query();
        parse_tree::create_view(create, or, replace, view, qualified_name, as_, query)
    }

    /// CREATE SCHEMA is recognized but not parsed: gives an error tree.
    fn parse_create_schema(&mut self) -> (r: ParseTree<'a>)
        requires
            old(self).inv(),
        ensures
            final(self).inv(),
            final(self).measure() <= old(self).measure(),
            lossless(r) ==> final(self).consumed() == old(self).consumed() + tokens_of(r),
            final(self).input() == old(self).input(),
            tree_wf(r),
            r is Error,
            *final(self) == *old(self),
    {
        self.expected_error("a supported create statement")
    }

    fn parse_create_role(&mut self) -> (r: ParseTree<'a>)
        requires
            old(self).inv(),
        ensures
            final(self).inv(),
            final(self).measure() <= old(self).measure(),
            lossless(r) ==> final(self).consumed() == old(self).consumed() + tokens_of(r),
            final(self).input() == old(self).input(),
            tree_wf(r),
            r is CreateRole,
    {
        let create = self.eat(TK::CREATE);
        let role = self.eat_predefined_name(PN::ROLE);
        let name = self.parse_identifier();
        let with_admin_grantor_opt = self.parse_with_admin_grantor_opt();
        parse_tree::create_role(create, role, name, with_admin_grantor_opt)
    }

    // | INSERT INTO qualifiedName columnAliases? query                   #insertInto
    fn parse_insert_into(&mut self) -> (r: ParseTree<'a>)
        requires
            old(self).inv(),
        ensures
            final(self).inv(),
            final(self).measure() <= old(self).measure(),
            lossless(r) ==> final(self).consumed() == old(self).consumed() + tokens_of(r),
            final(self).input() == old(self).input(),
            tree_wf(r),
            r is InsertInto,
        decreases old(self).measure(), 70int,

    {
        let insert = self.eat(TK::INSERT);
        let into = self.eat(TK::INTO);
        let table_name = self.parse_qualified_name();
        let column_aliases_opt = self.parse_column_aliases_opt();
        let query = self.parse_query();
        parse_tree::insert_into(insert, into, table_name, column_aliases_opt, query)
    }

    // | DELETE FROM qualifiedName (WHERE booleanExpression)?             #delete
    fn parse_delete(&mut self) -> (r: ParseTree<'a>)
        requires
            old(self).inv(),
        ensures
            final(self).inv(),
            final(self).measure() <= old(self).measure(),
            lossless(r) ==> final(self).consumed() == old(self).consumed() + tokens_of(r),
            final(self).input() == old(self).input(),
            tree_wf(r),
            r is Delete,
        decreases old(self).measure(), 140int,

    {
        let delete = self.eat(TK::DELETE);
        let from = self.eat(TK::FROM);
        let table_name = self.parse_qualified_name();
        let where_opt = self.eat_opt(TK::WHERE);
        let predicate = if where_opt.is_empty() {
            self.eat_empty()
        } else {
            self.parse_boolean_expression()
        };
        parse_tree::delete(delete, from, table_name, where_opt, predicate)
    }
}



/// What is compared when errors are ordered: the code and the messages.
pub open spec fn error_view(e: SyntaxError) -> (i32, Seq<Message>) {
    (e.error_code, e.messages@)
}

/// The views of a sequence of errors.
pub open spec fn error_views(es: Seq<SyntaxError>) -> Seq<(i32, Seq<Message>)> {
    es.map_values(|e: SyntaxError| error_view(e))
}

/// The errors are in order of their ranges: by start, then by end.
pub open spec fn sorted_by_range(es: Seq<SyntaxError>) -> bool {
    forall|i: int, j: int|
        0 <= i < j < es.len() ==> range_le(
            (#[trigger] es[i]).messages@[0].range,
            (#[trigger] es[j]).messages@[0].range,
        )
}

/// A token tree holds its one token and drops nothing; an error tree may drop
/// tokens that were read.
pub proof fn lemma_leaf_tokens<'a>(t: ParseTree<'a>)
    ensures
        t is Token ==> tokens_of(t) == seq![t->Token_0.token] && lossless(t),
        t is Error ==> !lossless(t),
{
    reveal_with_fuel(tokens_of, 1);
    reveal_with_fuel(lossless, 1);
}

/// Whether an error's first message is at `k`: errors are ordered by that range.
pub open spec fn has_range(k: TextRange) -> spec_fn(SyntaxError) -> bool {
    |e: SyntaxError| e.messages@[0].range == k
}

/// Errors with the same views keep the same views when only those with a range are kept.
proof fn lemma_filter_views(a: Seq<SyntaxError>, b: Seq<SyntaxError>, k: TextRange)
    requires
        error_views(a) == error_views(b),
    ensures
        error_views(a.filter(has_range(k))) == error_views(b.filter(has_range(k))),
    decreases a.len(),
{
    reveal(Seq::filter);
    assert(a.len() == error_views(a).len() && b.len() == error_views(b).len());
    if a.len() > 0 {
        let n = a.len() - 1;
        assert(error_views(a.drop_last()) =~= error_views(a).drop_last());
        assert(error_views(b.drop_last()) =~= error_views(b).drop_last());
        lemma_filter_views(a.drop_last(), b.drop_last(), k);
        assert(error_view(a[n]) == error_views(a)[n]);
        assert(error_view(b[n]) == error_views(b)[n]);
        assert(a.last() == a[n] && b.last() == b[n]);
        let fa = a.drop_last().filter(has_range(k));
        let fb = b.drop_last().filter(has_range(k));
        assert(error_views(fa.push(a[n])) =~= error_views(fa).push(error_view(a[n])));
        assert(error_views(fb.push(b[n])) =~= error_views(fb).push(error_view(b[n])));
    }
}

/// Appends copies of `errors` to `out`.
fn append_copies(out: &mut Vec<SyntaxError>, errors: &Vec<&SyntaxError>)
    requires
        errors_wf(old(out)@),
        errors_wf(parse_tree::deref_seq(errors@)),
    ensures
        error_views(final(out)@) == error_views(old(out)@) + error_views(
            parse_tree::deref_seq(errors@),
        ),
        errors_wf(final(out)@),
{
    let ghost start = out@;
    let ghost es = parse_tree::deref_seq(errors@);
    let mut i: usize = 0;
    while i < errors.len()
        invariant
            i <= errors@.len(),
            es == parse_tree::deref_seq(errors@),
            errors_wf(es),
            errors_wf(out@),
            error_views(out@) == error_views(start) + error_views(es.take(i as int)),
        decreases errors@.len() - i,
    {
        let ghost before = out@;
        let copy = errors[i].duplicate();
        assert(es[i as int] == *errors@[i as int]);
        out.push(copy);
        proof {
            assert(error_views(out@) =~= error_views(before).push(error_view(es[i as int])));
            assert(es.take(i + 1) =~= es.take(i as int).push(es[i as int]));
            assert(error_views(es.take(i + 1)) =~= error_views(es.take(i as int)).push(
                error_view(es[i as int]),
            ));
            assert forall|k: int| 0 <= k < out@.len() implies (#[trigger] out@[k]).messages@.len()
                > 0 by {
                if k < before.len() {
                    assert(out@[k] == before[k]);
                }
            }
        }
        i += 1;
    }
    assert(es.take(es.len() as int) =~= es);
}

/// Sorts errors by their ranges, keeping errors with equal ranges in order.
pub fn sort_errors_by_range(errors: Vec<SyntaxError>) -> (r: Vec<SyntaxError>)
    requires
        errors_wf(errors@),
    ensures
        errors_wf(r@),
        sorted_by_range(r@),
        error_views(r@).to_multiset() == error_views(errors@).to_multiset(),
        forall|k: TextRange| #[trigger] r@.filter(has_range(k)) == errors@.filter(has_range(k)),
{
    broadcast use vstd::seq_lib::group_to_multiset_ensures;

    let mut result: Vec<SyntaxError> = Vec::new();
    let mut rest = errors;
    let ghost all = errors@;
    assert(all.take(0) =~= Seq::<SyntaxError>::empty());
    assert(error_views(result@) =~= Seq::<(i32, Seq<Message>)>::empty());
    assert(error_views(all.take(0)) =~= Seq::<(i32, Seq<Message>)>::empty());
    assert(rest@ =~= all.skip(0));
    while rest.len() > 0
        invariant
            errors_wf(all),
            errors_wf(result@),
            sorted_by_range(result@),
            0 <= all.len() - rest@.len() <= all.len(),
            rest@ == all.skip(all.len() - rest@.len()),
            error_views(result@).to_multiset() == error_views(all.take(all.len() - rest@.len())).to_multiset(),
            forall|k: TextRange| #[trigger] result@.filter(has_range(k)) == all.take(
                all.len() - rest@.len(),
            ).filter(has_range(k)),
        decreases rest@.len(),
    {
        let ghost done = all.len() - rest@.len();
        let error = rest.remove(0);
        assert(error == all[done]);
        assert(rest@ =~= all.skip(done + 1));
        let range = error.get_range();
        let mut pos: usize = 0;
        while pos < result.len() && result[pos].get_range().is_at_or_before(&range)
            invariant
                pos <= result@.len(),
                errors_wf(result@),
                sorted_by_range(result@),
                forall|k: int| 0 <= k < pos ==> range_le(
                    (#[trigger] result@[k]).messages@[0].range,
                    range,
                ),
            decreases result@.len() - pos,
        {
            pos += 1;
        }
        let ghost before = result@;
        result.insert(pos, error);
        proof {
            assert(result@ == before.insert(pos as int, error));
            assert(error_views(result@) =~= error_views(before).insert(pos as int, error_view(error)));
            assert(all.take(done + 1) =~= all.take(done).push(error));
            assert(error_views(all.take(done + 1)) =~= error_views(all.take(done)).push(
                error_view(error),
            ));
            vstd::seq_lib::to_multiset_insert(error_views(before), pos as int, error_view(error));
            vstd::seq_lib::to_multiset_build(error_views(all.take(done)), error_view(error));
            assert forall|k: int| 0 <= k < result@.len() implies (#[trigger] result@[k]).messages@.len()
                > 0 by {
                if k < pos {
                    assert(result@[k] == before[k]);
                } else if k > pos {
                    assert(result@[k] == before[k - 1]);
                }
            }
            assert forall|i: int, j: int| 0 <= i < j < result@.len() implies range_le(
                (#[trigger] result@[i]).messages@[0].range,
                (#[trigger] result@[j]).messages@[0].range,
            ) by {
                if pos < before.len() && j > pos {
                    assert(!range_le(before[pos as int].messages@[0].range, range));
                }
                if i < pos {
                    assert(result@[i] == before[i]);
                }
                if i > pos {
                    assert(result@[i] == before[i - 1]);
                }
                if j < pos {
                    assert(result@[j] == before[j]);
                }
                if j > pos {
                    assert(result@[j] == before[j - 1]);
                    assert(range_le(before[pos as int].messages@[0].range, before[j - 1].messages@[0].range));
                }
            }
            assert forall|k: TextRange| #[trigger] result@.filter(has_range(k)) == all.take(
                done + 1,
            ).filter(has_range(k)) by {
                let p = has_range(k);
                let a = before.take(pos as int);
                let b = before.skip(pos as int);
                let e = Seq::<SyntaxError>::empty();
                assert(before =~= a + b);
                assert(result@ =~= a + seq![error] + b);
                Seq::filter_distributes_over_add(a + seq![error], b, p);
                Seq::filter_distributes_over_add(a, seq![error], p);
                Seq::filter_distributes_over_add(a, b, p);
                all.take(done).lemma_filter_push(error, p);
                e.lemma_filter_push(error, p);
                assert(e.push(error) =~= seq![error]);
                e.lemma_all_neg_filter_empty(p);
                assert(e.filter(p) =~= e);
                if error.messages@[0].range == k {
                    assert forall|i: int| 0 <= i < b.len() implies !p(#[trigger] b[i]) by {
                        assert(b[i] == before[pos + i]);
                        assert(!range_le(before[pos as int].messages@[0].range, range));
                        assert(range_le(before[pos as int].messages@[0].range, before[pos + i].messages@[0].range));
                    }
                    b.lemma_all_neg_filter_empty(p);
                    assert(b.filter(p) =~= e);
                }
            }
        }
    }
    assert(all.take(all.len() as int) =~= all);
    result
}

/// Parses `text` for the production `element`.
/// Returns the parse tree and all errors: those within the tree and those
/// the parser reported, sorted by range.
fn parse_entrypoint<'a>(text: &'a [char], element: Element) -> (r: (ParseTree<'a>, Vec<SyntaxError>))
    requires
        text@.len() < i32::MAX,
    ensures
        tree_wf(r.0),
        r.0 is Entrypoint,
        *r.0->Entrypoint_0.beginning_of_file is Token,
        r.0->Entrypoint_0.beginning_of_file->Token_0.token.kind == TK::BeginningOfFile,
        *r.0->Entrypoint_0.end_of_file is Token ==> r.0->Entrypoint_0.end_of_file->Token_0.token.kind
            == TK::EndOfFile,
        lossless(r.0) ==> tokens_of(r.0).last().kind == TK::EndOfFile,
        r.1@.len() == 0 ==> lossless(r.0),
        element == Element::Statement ==> is_statement_tree_for(
            first_token_kind(text@),
            *r.0->Entrypoint_0.tree,
        ),
        element == Element::Statement && first_token_kind(text@) == TK::CREATE
            && *r.0->Entrypoint_0.tree is Error ==> !starts_create_lexeme(
            text@,
            second_token_start(text@),
        ),
        lossless(r.0) ==> exists|starts: Seq<int>|
            lexed_from(text@, starts, tokens_of(r.0).drop_first()) && forall|k: int|
                0 <= k < starts.len() ==> 0 <= #[trigger] starts[k] <= text@.len(),
        errors_wf(r.1@),
        sorted_by_range(r.1@),
        exists|reported: Seq<SyntaxError>|
            (forall|k: int|
                0 <= k < reported.len() ==> (#[trigger] reported[k]).error_code
                    == syntax_error::ERROR_SYNTAX_ERROR) && error_views(r.1@).to_multiset()
                == error_views(tree_walk::errors_of(r.0) + reported).to_multiset() && forall|
                k: TextRange,
            |
                #![trigger r.1@.filter(has_range(k))]
                error_views(r.1@.filter(has_range(k))) == error_views(
                    (tree_walk::errors_of(r.0) + reported).filter(has_range(k)),
                ),
        error_views(tree_walk::errors_of(r.0)).to_multiset().subset_of(
            error_views(r.1@).to_multiset(),
        ),
{
    let mut parser = Parser::new(text);
    let tree = parser.parse_entrypoint(element);
    proof {
        reveal(Parser::inv);
        if lossless(tree) {
            let e = tree->Entrypoint_0;
            lemma_leaf_tokens(*e.beginning_of_file);
            lemma_leaf_tokens(*e.end_of_file);
            let consumed = parser.consumed();
            assert(consumed =~= tokens_of(tree));
            let position = parser.position;
            let n = consumed.len() - 1;
            lemma_lexed_from_prefix(text@, position.starts@, position.lexed(), n);
            assert(position.lexed().take(n) =~= tokens_of(tree).drop_first());
        }
    }
    let tree_errors = errors_of_tree(&tree);
    let mut errors: Vec<SyntaxError> = Vec::new();
    proof {
        assert(errors_wf(errors@));
    }
    append_copies(&mut errors, &tree_errors);
    let ghost copies = errors@;
    proof {
        reveal(Parser::inv);
        assert(error_views(Seq::<SyntaxError>::empty()) =~= Seq::<(i32, Seq<Message>)>::empty());
        assert(error_views(copies) =~= error_views(tree_walk::errors_of(tree)));
    }
    let mut parser_errors = parser.errors;
    let ghost from_parser = parser_errors@;
    errors.append(&mut parser_errors);
    proof {
        assert(errors@ =~= copies + from_parser);
        assert(error_views(errors@) =~= error_views(copies) + error_views(from_parser));
        vstd::seq_lib::lemma_multiset_commutative(error_views(copies), error_views(from_parser));
        assert forall|k: int| 0 <= k < errors@.len() implies (#[trigger] errors@[k]).messages@.len()
            > 0 by {
            if k < copies.len() {
                assert(errors@[k] == copies[k]);
            } else {
                assert(errors@[k] == from_parser[k - copies.len()]);
            }
        }
    }
    let ghost unsorted = errors@;
    let errors = sort_errors_by_range(errors);
    proof {
        broadcast use vstd::multiset::group_multiset_axioms;

        assert(error_views(tree_walk::errors_of(tree) + from_parser) =~= error_views(
            tree_walk::errors_of(tree),
        ) + error_views(from_parser));
        assert(forall|k: int|
            0 <= k < from_parser.len() ==> (#[trigger] from_parser[k]).error_code
                == syntax_error::ERROR_SYNTAX_ERROR);
        // Errors with equal ranges keep the order they had: the tree's, then the parser's.
        assert forall|k: TextRange|
            error_views(#[trigger] errors@.filter(has_range(k))) == error_views(
                (tree_walk::errors_of(tree) + from_parser).filter(has_range(k)),
            ) by {
            let p = has_range(k);
            assert(errors@.filter(p) == unsorted.filter(p));
            assert(unsorted =~= copies + from_parser);
            Seq::filter_distributes_over_add(copies, from_parser, p);
            Seq::filter_distributes_over_add(tree_walk::errors_of(tree), from_parser, p);
            lemma_filter_views(copies, tree_walk::errors_of(tree), k);
            assert(error_views(copies.filter(p) + from_parser.filter(p)) =~= error_views(
                copies.filter(p),
            ) + error_views(from_parser.filter(p)));
            assert(error_views(tree_walk::errors_of(tree).filter(p) + from_parser.filter(p))
                =~= error_views(tree_walk::errors_of(tree).filter(p)) + error_views(
                from_parser.filter(p),
            ));
        }
        if errors@.len() == 0 {
            // Without errors, the walk of the tree meets no error tree: it is lossless.
            let within = error_views(tree_walk::errors_of(tree)).to_multiset();
            vstd::seq_lib::to_multiset_len(error_views(errors@));
            vstd::multiset::lemma_multiset_empty_len(error_views(errors@).to_multiset());
            assert(within =~= vstd::multiset::Multiset::empty()) by {
                assert forall|v| #[trigger] within.count(v) == 0 by {
                    assert(within.count(v) <= error_views(errors@).to_multiset().count(v));
                }
            }
            vstd::seq_lib::to_multiset_len(error_views(tree_walk::errors_of(tree)));
            completeness::lemma_no_errors_lossless(tree);
        }
    }
    (tree, errors)
}

/// The syntax errors within `tree`, in source order: those of its tokens and
/// its error trees.
pub fn errors_of_tree<'a>(tree: &'a ParseTree<'a>) -> (r: Vec<&'a SyntaxError>)
    ensures
        parse_tree::deref_seq(r@) == tree_walk::errors_of(*tree),
        tree_wf(*tree) ==> errors_wf(parse_tree::deref_seq(r@)),
{
    let trees = visit_post_order(tree);
    let ghost walk = parse_tree::deref_seq(trees@);
    proof {
        if tree_wf(*tree) {
            tree_walk::lemma_post_order_wf(*tree);
        }
    }
    let mut errors: Vec<&'a SyntaxError> = Vec::new();
    let mut i: usize = 0;
    while i < trees.len()
        invariant
            0 <= i <= trees.len(),
            walk == parse_tree::deref_seq(trees@),
            walk == tree_walk::post_order(*tree),
            parse_tree::deref_seq(errors@) == tree_walk::errors_in(walk.take(i as int)),
            tree_wf(*tree) ==> forall|k: int| 0 <= k < walk.len() ==> tree_wf(#[trigger] walk[k]),
            tree_wf(*tree) ==> errors_wf(parse_tree::deref_seq(errors@)),
        decreases trees.len() - i,
    {
        let t = trees[i];
        let ghost before = parse_tree::deref_seq(errors@);
        assert(walk[i as int] == *t);
        proof {
            reveal_with_fuel(tree_wf, 1);
        }
        match t {
            ParseTree::Token(x) => {
                let mut j: usize = 0;
                while j < x.token.errors.len()
                    invariant
                        0 <= j <= x.token.errors.len(),
                        parse_tree::deref_seq(errors@) == before + x.token.errors@.take(j as int),
                        tree_wf(*tree) ==> errors_wf(before) && errors_wf(x.token.errors@),
                    decreases x.token.errors.len() - j,
                {
                    let ghost prev = parse_tree::deref_seq(errors@);
                    let error = &x.token.errors[j];
                    assert(*error == x.token.errors@[j as int]);
                    errors.push(error);
                    assert(parse_tree::deref_seq(errors@) =~= prev.push(x.token.errors@[j as int]));
                    assert(x.token.errors@.take(j + 1) =~= x.token.errors@.take(j as int).push(
                        x.token.errors@[j as int],
                    ));
                    j += 1;
                }
                assert(x.token.errors@.take(j as int) =~= x.token.errors@);
            },
            ParseTree::Error(x) => {
                errors.push(&x.error);
                assert(parse_tree::deref_seq(errors@) =~= before + seq![x.error]);
            },
            _ => {},
        }
        assert(walk.take(i + 1).drop_last() =~= walk.take(i as int));
        i += 1;
    }
    assert(walk.take(i as int) =~= walk);
    errors
}

/// Parses text containing a statement.
/// The errors returned include all errors contained within the tree.
pub fn parse_statement<'a>(text: &'a [char]) -> (r: (ParseTree<'a>, Vec<SyntaxError>))
    requires
        text@.len() < i32::MAX,
    ensures
        tree_wf(r.0),
        r.0 is Entrypoint,
        *r.0->Entrypoint_0.beginning_of_file is Token,
        r.0->Entrypoint_0.beginning_of_file->Token_0.token.kind == TK::BeginningOfFile,
        *r.0->Entrypoint_0.end_of_file is Token ==> r.0->Entrypoint_0.end_of_file->Token_0.token.kind
            == TK::EndOfFile,
        lossless(r.0) ==> tokens_of(r.0).last().kind == TK::EndOfFile,
        r.1@.len() == 0 ==> lossless(r.0),
        is_statement_tree_for(first_token_kind(text@), *r.0->Entrypoint_0.tree),
        first_token_kind(text@) == TK::CREATE && *r.0->Entrypoint_0.tree is Error
            ==> !starts_create_lexeme(text@, second_token_start(text@)),
        lossless(r.0) ==> exists|starts: Seq<int>|
            lexed_from(text@, starts, tokens_of(r.0).drop_first()) && forall|k: int|
                0 <= k < starts.len() ==> 0 <= #[trigger] starts[k] <= text@.len(),
        errors_wf(r.1@),
        sorted_by_range(r.1@),
        exists|reported: Seq<SyntaxError>|
            (forall|k: int|
                0 <= k < reported.len() ==> (#[trigger] reported[k]).error_code
                    == syntax_error::ERROR_SYNTAX_ERROR) && error_views(r.1@).to_multiset()
                == error_views(tree_walk::errors_of(r.0) + reported).to_multiset() && forall|
                k: TextRange,
            |
                #![trigger r.1@.filter(has_range(k))]
                error_views(r.1@.filter(has_range(k))) == error_views(
                    (tree_walk::errors_of(r.0) + reported).filter(has_range(k)),
                ),
        error_views(tree_walk::errors_of(r.0)).to_multiset().subset_of(
            error_views(r.1@).to_multiset(),
        ),
{
    parse_entrypoint(text, Element::Statement)
}

} // verus!
