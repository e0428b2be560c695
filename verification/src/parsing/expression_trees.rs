//! Parse trees of expressions and types.
use super::parse_tree::{deref_opt, deref_seq, first_of, last_of, children_of, tokens_of, tree_wf, lossless, ParseTree};
use crate::lexing::token;
use vstd::prelude::*;

verus! {

#[derive(Debug)]
pub struct BinaryExpression<'a> {
    pub left: Box<ParseTree<'a>>,
    pub operator: Box<ParseTree<'a>>,
    pub right: Box<ParseTree<'a>>,
}

pub fn binary_expression<'a>(
    left: ParseTree<'a>,
    operator: ParseTree<'a>,
    right: ParseTree<'a>,
) -> (r: ParseTree<'a>)
    ensures
        r == ParseTree::BinaryExpression(BinaryExpression { left: Box::new(left), operator: Box::new(operator), right: Box::new(right) }),
        tokens_of(r) == tokens_of(left) + tokens_of(operator) + tokens_of(right),
        tree_wf(r) == (tree_wf(left) && tree_wf(operator) && tree_wf(right)),
        lossless(r) == (lossless(left) && lossless(operator) && lossless(right)),
{
    assert(tokens_of(ParseTree::BinaryExpression(BinaryExpression { left: Box::new(left), operator: Box::new(operator), right: Box::new(right) })) == tokens_of(left) + tokens_of(operator) + tokens_of(right)) by {
        reveal_with_fuel(tokens_of, 1);
    }
    assert(tree_wf(ParseTree::BinaryExpression(BinaryExpression { left: Box::new(left), operator: Box::new(operator), right: Box::new(right) })) == (tree_wf(left) && tree_wf(operator) && tree_wf(right))) by {
        reveal_with_fuel(tree_wf, 1);
    }
    assert(lossless(ParseTree::BinaryExpression(BinaryExpression { left: Box::new(left), operator: Box::new(operator), right: Box::new(right) })) == (lossless(left) && lossless(operator) && lossless(right))) by {
        reveal_with_fuel(lossless, 1);
    }
    ParseTree::BinaryExpression(BinaryExpression { left: Box::new(left), operator: Box::new(operator), right: Box::new(right) })
}

impl<'a> BinaryExpression<'a> {
    pub fn to_tree(self) -> (r: ParseTree<'a>)
        ensures
            r == ParseTree::BinaryExpression(self),
    {
        ParseTree::BinaryExpression(self)
    }

    pub fn children(&self) -> (r: Vec<&ParseTree<'a>>)
        ensures
            deref_seq(r@) == children_of(ParseTree::BinaryExpression(*self)),
    {
        let mut result: Vec<&ParseTree<'a>> = Vec::new();
        result.push(&*self.left);
        result.push(&*self.operator);
        result.push(&*self.right);
        assert(deref_seq(result@) =~= children_of(ParseTree::BinaryExpression(*self)));
        result
    }

    pub fn unbox(self) -> (r: (ParseTree<'a>, ParseTree<'a>, ParseTree<'a>))
        ensures
            r == (*self.left, *self.operator, *self.right),
    {
        (*self.left, *self.operator, *self.right)
    }

    pub fn get_first_child(&self) -> (r: &ParseTree<'a>)
        ensures
            *r == *self.left,
    {
        &self.left
    }

    pub fn get_last_child(&self) -> (r: &ParseTree<'a>)
        ensures
            *r == *self.right,
    {
        &self.right
    }

    pub fn get_first_token(&self) -> (r: Option<&token::Token<'a>>)
        ensures
            deref_opt(r) == first_of(tokens_of(ParseTree::BinaryExpression(*self))),
        decreases *self, 0nat,
    {
        assert(tokens_of(ParseTree::BinaryExpression(*self)) == tokens_of(*self.left) + tokens_of(*self.operator) + tokens_of(*self.right)) by {
            reveal_with_fuel(tokens_of, 1);
        }
        if let Some(token) = self.left.get_first_token() {
            return Some(token);
        }
        if let Some(token) = self.operator.get_first_token() {
            return Some(token);
        }
        if let Some(token) = self.right.get_first_token() {
            return Some(token);
        }
        None
    }

    pub fn get_last_token(&self) -> (r: Option<&token::Token<'a>>)
        ensures
            deref_opt(r) == last_of(tokens_of(ParseTree::BinaryExpression(*self))),
        decreases *self, 0nat,
    {
        assert(tokens_of(ParseTree::BinaryExpression(*self)) == tokens_of(*self.left) + tokens_of(*self.operator) + tokens_of(*self.right)) by {
            reveal_with_fuel(tokens_of, 1);
        }
        if let Some(token) = self.right.get_last_token() {
            return Some(token);
        }
        if let Some(token) = self.operator.get_last_token() {
            return Some(token);
        }
        if let Some(token) = self.left.get_last_token() {
            return Some(token);
        }
        None
    }
}

#[derive(Debug)]
pub struct UnaryExpression<'a> {
    pub operator: Box<ParseTree<'a>>,
    pub operand: Box<ParseTree<'a>>,
}

pub fn unary_expression<'a>(
    operator: ParseTree<'a>,
    operand: ParseTree<'a>,
) -> (r: ParseTree<'a>)
    ensures
        r == ParseTree::UnaryExpression(UnaryExpression { operator: Box::new(operator), operand: Box::new(operand) }),
        tokens_of(r) == tokens_of(operator) + tokens_of(operand),
        tree_wf(r) == (tree_wf(operator) && tree_wf(operand)),
        lossless(r) == (lossless(operator) && lossless(operand)),
{
    assert(tokens_of(ParseTree::UnaryExpression(UnaryExpression { operator: Box::new(operator), operand: Box::new(operand) })) == tokens_of(operator) + tokens_of(operand)) by {
        reveal_with_fuel(tokens_of, 1);
    }
    assert(tree_wf(ParseTree::UnaryExpression(UnaryExpression { operator: Box::new(operator), operand: Box::new(operand) })) == (tree_wf(operator) && tree_wf(operand))) by {
        reveal_with_fuel(tree_wf, 1);
    }
    assert(lossless(ParseTree::UnaryExpression(UnaryExpression { operator: Box::new(operator), operand: Box::new(operand) })) == (lossless(operator) && lossless(operand))) by {
        reveal_with_fuel(lossless, 1);
    }
    ParseTree::UnaryExpression(UnaryExpression { operator: Box::new(operator), operand: Box::new(operand) })
}

impl<'a> UnaryExpression<'a> {
    pub fn to_tree(self) -> (r: ParseTree<'a>)
        ensures
            r == ParseTree::UnaryExpression(self),
    {
        ParseTree::UnaryExpression(self)
    }

    pub fn children(&self) -> (r: Vec<&ParseTree<'a>>)
        ensures
            deref_seq(r@) == children_of(ParseTree::UnaryExpression(*self)),
    {
        let mut result: Vec<&ParseTree<'a>> = Vec::new();
        result.push(&*self.operator);
        result.push(&*self.operand);
        assert(deref_seq(result@) =~= children_of(ParseTree::UnaryExpression(*self)));
        result
    }

    pub fn unbox(self) -> (r: (ParseTree<'a>, ParseTree<'a>))
        ensures
            r == (*self.operator, *self.operand),
    {
        (*self.operator, *self.operand)
    }

    pub fn get_first_child(&self) -> (r: &ParseTree<'a>)
        ensures
            *r == *self.operator,
    {
        &self.operator
    }

    pub fn get_last_child(&self) -> (r: &ParseTree<'a>)
        ensures
            *r == *self.operand,
    {
        &self.operand
    }

    pub fn get_first_token(&self) -> (r: Option<&token::Token<'a>>)
        ensures
            deref_opt(r) == first_of(tokens_of(ParseTree::UnaryExpression(*self))),
        decreases *self, 0nat,
    {
        assert(tokens_of(ParseTree::UnaryExpression(*self)) == tokens_of(*self.operator) + tokens_of(*self.operand)) by {
            reveal_with_fuel(tokens_of, 1);
        }
        if let Some(token) = self.operator.get_first_token() {
            return Some(token);
        }
        if let Some(token) = self.operand.get_first_token() {
            return Some(token);
        }
        None
    }

    pub fn get_last_token(&self) -> (r: Option<&token::Token<'a>>)
        ensures
            deref_opt(r) == last_of(tokens_of(ParseTree::UnaryExpression(*self))),
        decreases *self, 0nat,
    {
        assert(tokens_of(ParseTree::UnaryExpression(*self)) == tokens_of(*self.operator) + tokens_of(*self.operand)) by {
            reveal_with_fuel(tokens_of, 1);
        }
        if let Some(token) = self.operand.get_last_token() {
            return Some(token);
        }
        if let Some(token) = self.operator.get_last_token() {
            return Some(token);
        }
        None
    }
}

#[derive(Debug)]
pub struct QuantifiedComparison<'a> {
    pub operand: Box<ParseTree<'a>>,
    pub operator: Box<ParseTree<'a>>,
    pub comparison_quantifier: Box<ParseTree<'a>>,
    pub open_paren: Box<ParseTree<'a>>,
    pub query: Box<ParseTree<'a>>,
    pub close_paren: Box<ParseTree<'a>>,
}

pub fn quantified_comparison<'a>(
    operand: ParseTree<'a>,
    operator: ParseTree<'a>,
    comparison_quantifier: ParseTree<'a>,
    open_paren: ParseTree<'a>,
    query: ParseTree<'a>,
    close_paren: ParseTree<'a>,
) -> (r: ParseTree<'a>)
    ensures
        r == ParseTree::QuantifiedComparison(QuantifiedComparison { operand: Box::new(operand), operator: Box::new(operator), comparison_quantifier: Box::new(comparison_quantifier), open_paren: Box::new(open_paren), query: Box::new(query), close_paren: Box::new(close_paren) }),
        tokens_of(r) == tokens_of(operand) + tokens_of(operator) + tokens_of(comparison_quantifier) + tokens_of(open_paren) + tokens_of(query) + tokens_of(close_paren),
        tree_wf(r) == (tree_wf(operand) && tree_wf(operator) && tree_wf(comparison_quantifier) && tree_wf(open_paren) && tree_wf(query) && tree_wf(close_paren)),
        lossless(r) == (lossless(operand) && lossless(operator) && lossless(comparison_quantifier) && lossless(open_paren) && lossless(query) && lossless(close_paren)),
{
    assert(tokens_of(ParseTree::QuantifiedComparison(QuantifiedComparison { operand: Box::new(operand), operator: Box::new(operator), comparison_quantifier: Box::new(comparison_quantifier), open_paren: Box::new(open_paren), query: Box::new(query), close_paren: Box::new(close_paren) })) == tokens_of(operand) + tokens_of(operator) + tokens_of(comparison_quantifier) + tokens_of(open_paren) + tokens_of(query) + tokens_of(close_paren)) by {
        reveal_with_fuel(tokens_of, 1);
    }
    assert(tree_wf(ParseTree::QuantifiedComparison(QuantifiedComparison { operand: Box::new(operand), operator: Box::new(operator), comparison_quantifier: Box::new(comparison_quantifier), open_paren: Box::new(open_paren), query: Box::new(query), close_paren: Box::new(close_paren) })) == (tree_wf(operand) && tree_wf(operator) && tree_wf(comparison_quantifier) && tree_wf(open_paren) && tree_wf(query) && tree_wf(close_paren))) by {
        reveal_with_fuel(tree_wf, 1);
    }
    assert(lossless(ParseTree::QuantifiedComparison(QuantifiedComparison { operand: Box::new(operand), operator: Box::new(operator), comparison_quantifier: Box::new(comparison_quantifier), open_paren: Box::new(open_paren), query: Box::new(query), close_paren: Box::new(close_paren) })) == (lossless(operand) && lossless(operator) && lossless(comparison_quantifier) && lossless(open_paren) && lossless(query) && lossless(close_paren))) by {
        reveal_with_fuel(lossless, 1);
    }
    ParseTree::QuantifiedComparison(QuantifiedComparison { operand: Box::new(operand), operator: Box::new(operator), comparison_quantifier: Box::new(comparison_quantifier), open_paren: Box::new(open_paren), query: Box::new(query), close_paren: Box::new(close_paren) })
}

impl<'a> QuantifiedComparison<'a> {
    pub fn to_tree(self) -> (r: ParseTree<'a>)
        ensures
            r == ParseTree::QuantifiedComparison(self),
    {
        ParseTree::QuantifiedComparison(self)
    }

    pub fn children(&self) -> (r: Vec<&ParseTree<'a>>)
        ensures
            deref_seq(r@) == children_of(ParseTree::QuantifiedComparison(*self)),
    {
        let mut result: Vec<&ParseTree<'a>> = Vec::new();
        result.push(&*self.operand);
        result.push(&*self.operator);
        result.push(&*self.comparison_quantifier);
        result.push(&*self.open_paren);
        result.push(&*self.query);
        result.push(&*self.close_paren);
        assert(deref_seq(result@) =~= children_of(ParseTree::QuantifiedComparison(*self)));
        result
    }

    pub fn unbox(self) -> (r: (ParseTree<'a>, ParseTree<'a>, ParseTree<'a>, ParseTree<'a>, ParseTree<'a>, ParseTree<'a>))
        ensures
            r == (*self.operand, *self.operator, *self.comparison_quantifier, *self.open_paren, *self.query, *self.close_paren),
    {
        (*self.operand, *self.operator, *self.comparison_quantifier, *self.open_paren, *self.query, *self.close_paren)
    }

    pub fn get_first_child(&self) -> (r: &ParseTree<'a>)
        ensures
            *r == *self.operand,
    {
        &self.operand
    }

    pub fn get_last_child(&self) -> (r: &ParseTree<'a>)
        ensures
            *r == *self.close_paren,
    {
        &self.close_paren
    }

    pub fn get_first_token(&self) -> (r: Option<&token::Token<'a>>)
        ensures
            deref_opt(r) == first_of(tokens_of(ParseTree::QuantifiedComparison(*self))),
        decreases *self, 0nat,
    {
        assert(tokens_of(ParseTree::QuantifiedComparison(*self)) == tokens_of(*self.operand) + tokens_of(*self.operator) + tokens_of(*self.comparison_quantifier) + tokens_of(*self.open_paren) + tokens_of(*self.query) + tokens_of(*self.close_paren)) by {
            reveal_with_fuel(tokens_of, 1);
        }
        if let Some(token) = self.operand.get_first_token() {
            return Some(token);
        }
        if let Some(token) = self.operator.get_first_token() {
            return Some(token);
        }
        if let Some(token) = self.comparison_quantifier.get_first_token() {
            return Some(token);
        }
        if let Some(token) = self.open_paren.get_first_token() {
            return Some(token);
        }
        if let Some(token) = self.query.get_first_token() {
            return Some(token);
        }
        if let Some(token) = self.close_paren.get_first_token() {
            return Some(token);
        }
        None
    }

    pub fn get_last_token(&self) -> (r: Option<&token::Token<'a>>)
        ensures
            deref_opt(r) == last_of(tokens_of(ParseTree::QuantifiedComparison(*self))),
        decreases *self, 0nat,
    {
        assert(tokens_of(ParseTree::QuantifiedComparison(*self)) == tokens_of(*self.operand) + tokens_of(*self.operator) + tokens_of(*self.comparison_quantifier) + tokens_of(*self.open_paren) + tokens_of(*self.query) + tokens_of(*self.close_paren)) by {
            reveal_with_fuel(tokens_of, 1);
        }
        if let Some(token) = self.close_paren.get_last_token() {
            return Some(token);
        }
        if let Some(token) = self.query.get_last_token() {
            return Some(token);
        }
        if let Some(token) = self.open_paren.get_last_token() {
            return Some(token);
        }
        if let Some(token) = self.comparison_quantifier.get_last_token() {
            return Some(token);
        }
        if let Some(token) = self.operator.get_last_token() {
            return Some(token);
        }
        if let Some(token) = self.operand.get_last_token() {
            return Some(token);
        }
        None
    }
}

#[derive(Debug)]
pub struct NullPredicate<'a> {
    pub value: Box<ParseTree<'a>>,
    pub is: Box<ParseTree<'a>>,
    pub not_opt: Box<ParseTree<'a>>,
    pub null: Box<ParseTree<'a>>,
}

pub fn null_predicate<'a>(
    value: ParseTree<'a>,
    is: ParseTree<'a>,
    not_opt: ParseTree<'a>,
    null: ParseTree<'a>,
) -> (r: ParseTree<'a>)
    ensures
        r == ParseTree::NullPredicate(NullPredicate { value: Box::new(value), is: Box::new(is), not_opt: Box::new(not_opt), null: Box::new(null) }),
        tokens_of(r) == tokens_of(value) + tokens_of(is) + tokens_of(not_opt) + tokens_of(null),
        tree_wf(r) == (tree_wf(value) && tree_wf(is) && tree_wf(not_opt) && tree_wf(null)),
        lossless(r) == (lossless(value) && lossless(is) && lossless(not_opt) && lossless(null)),
{
    assert(tokens_of(ParseTree::NullPredicate(NullPredicate { value: Box::new(value), is: Box::new(is), not_opt: Box::new(not_opt), null: Box::new(null) })) == tokens_of(value) + tokens_of(is) + tokens_of(not_opt) + tokens_of(null)) by {
        reveal_with_fuel(tokens_of, 1);
    }
    assert(tree_wf(ParseTree::NullPredicate(NullPredicate { value: Box::new(value), is: Box::new(is), not_opt: Box::new(not_opt), null: Box::new(null) })) == (tree_wf(value) && tree_wf(is) && tree_wf(not_opt) && tree_wf(null))) by {
        reveal_with_fuel(tree_wf, 1);
    }
    assert(lossless(ParseTree::NullPredicate(NullPredicate { value: Box::new(value), is: Box::new(is), not_opt: Box::new(not_opt), null: Box::new(null) })) == (lossless(value) && lossless(is) && lossless(not_opt) && lossless(null))) by {
        reveal_with_fuel(lossless, 1);
    }
    ParseTree::NullPredicate(NullPredicate { value: Box::new(value), is: Box::new(is), not_opt: Box::new(not_opt), null: Box::new(null) })
}

impl<'a> NullPredicate<'a> {
    pub fn to_tree(self) -> (r: ParseTree<'a>)
        ensures
            r == ParseTree::NullPredicate(self),
    {
        ParseTree::NullPredicate(self)
    }

    pub fn children(&self) -> (r: Vec<&ParseTree<'a>>)
        ensures
            deref_seq(r@) == children_of(ParseTree::NullPredicate(*self)),
    {
        let mut result: Vec<&ParseTree<'a>> = Vec::new();
        result.push(&*self.value);
        result.push(&*self.is);
        result.push(&*self.not_opt);
        result.push(&*self.null);
        assert(deref_seq(result@) =~= children_of(ParseTree::NullPredicate(*self)));
        result
    }

    pub fn unbox(self) -> (r: (ParseTree<'a>, ParseTree<'a>, ParseTree<'a>, ParseTree<'a>))
        ensures
            r == (*self.value, *self.is, *self.not_opt, *self.null),
    {
        (*self.value, *self.is, *self.not_opt, *self.null)
    }

    pub fn get_first_child(&self) -> (r: &ParseTree<'a>)
        ensures
            *r == *self.value,
    {
        &self.value
    }

    pub fn get_last_child(&self) -> (r: &ParseTree<'a>)
        ensures
            *r == *self.null,
    {
        &self.null
    }

    pub fn get_first_token(&self) -> (r: Option<&token::Token<'a>>)
        ensures
            deref_opt(r) == first_of(tokens_of(ParseTree::NullPredicate(*self))),
        decreases *self, 0nat,
    {
        assert(tokens_of(ParseTree::NullPredicate(*self)) == tokens_of(*self.value) + tokens_of(*self.is) + tokens_of(*self.not_opt) + tokens_of(*self.null)) by {
            reveal_with_fuel(tokens_of, 1);
        }
        if let Some(token) = self.value.get_first_token() {
            return Some(token);
        }
        if let Some(token) = self.is.get_first_token() {
            return Some(token);
        }
        if let Some(token) = self.not_opt.get_first_token() {
            return Some(token);
        }
        if let Some(token) = self.null.get_first_token() {
            return Some(token);
        }
        None
    }

    pub fn get_last_token(&self) -> (r: Option<&token::Token<'a>>)
        ensures
            deref_opt(r) == last_of(tokens_of(ParseTree::NullPredicate(*self))),
        decreases *self, 0nat,
    {
        assert(tokens_of(ParseTree::NullPredicate(*self)) == tokens_of(*self.value) + tokens_of(*self.is) + tokens_of(*self.not_opt) + tokens_of(*self.null)) by {
            reveal_with_fuel(tokens_of, 1);
        }
        if let Some(token) = self.null.get_last_token() {
            return Some(token);
        }
        if let Some(token) = self.not_opt.get_last_token() {
            return Some(token);
        }
        if let Some(token) = self.is.get_last_token() {
            return Some(token);
        }
        if let Some(token) = self.value.get_last_token() {
            return Some(token);
        }
        None
    }
}

#[derive(Debug)]
pub struct DistinctFrom<'a> {
    pub left: Box<ParseTree<'a>>,
    pub is: Box<ParseTree<'a>>,
    pub not_opt: Box<ParseTree<'a>>,
    pub distinct: Box<ParseTree<'a>>,
    pub from: Box<ParseTree<'a>>,
    pub right: Box<ParseTree<'a>>,
}

pub fn distinct_from<'a>(
    left: ParseTree<'a>,
    is: ParseTree<'a>,
    not_opt: ParseTree<'a>,
    distinct: ParseTree<'a>,
    from: ParseTree<'a>,
    right: ParseTree<'a>,
) -> (r: ParseTree<'a>)
    ensures
        r == ParseTree::DistinctFrom(DistinctFrom { left: Box::new(left), is: Box::new(is), not_opt: Box::new(not_opt), distinct: Box::new(distinct), from: Box::new(from), right: Box::new(right) }),
        tokens_of(r) == tokens_of(left) + tokens_of(is) + tokens_of(not_opt) + tokens_of(distinct) + tokens_of(from) + tokens_of(right),
        tree_wf(r) == (tree_wf(left) && tree_wf(is) && tree_wf(not_opt) && tree_wf(distinct) && tree_wf(from) && tree_wf(right)),
        lossless(r) == (lossless(left) && lossless(is) && lossless(not_opt) && lossless(distinct) && lossless(from) && lossless(right)),
{
    assert(tokens_of(ParseTree::DistinctFrom(DistinctFrom { left: Box::new(left), is: Box::new(is), not_opt: Box::new(not_opt), distinct: Box::new(distinct), from: Box::new(from), right: Box::new(right) })) == tokens_of(left) + tokens_of(is) + tokens_of(not_opt) + tokens_of(distinct) + tokens_of(from) + tokens_of(right)) by {
        reveal_with_fuel(tokens_of, 1);
    }
    assert(tree_wf(ParseTree::DistinctFrom(DistinctFrom { left: Box::new(left), is: Box::new(is), not_opt: Box::new(not_opt), distinct: Box::new(distinct), from: Box::new(from), right: Box::new(right) })) == (tree_wf(left) && tree_wf(is) && tree_wf(not_opt) && tree_wf(distinct) && tree_wf(from) && tree_wf(right))) by {
        reveal_with_fuel(tree_wf, 1);
    }
    assert(lossless(ParseTree::DistinctFrom(DistinctFrom { left: Box::new(left), is: Box::new(is), not_opt: Box::new(not_opt), distinct: Box::new(distinct), from: Box::new(from), right: Box::new(right) })) == (lossless(left) && lossless(is) && lossless(not_opt) && lossless(distinct) && lossless(from) && lossless(right))) by {
        reveal_with_fuel(lossless, 1);
    }
    ParseTree::DistinctFrom(DistinctFrom { left: Box::new(left), is: Box::new(is), not_opt: Box::new(not_opt), distinct: Box::new(distinct), from: Box::new(from), right: Box::new(right) })
}

impl<'a> DistinctFrom<'a> {
    pub fn to_tree(self) -> (r: ParseTree<'a>)
        ensures
            r == ParseTree::DistinctFrom(self),
    {
        ParseTree::DistinctFrom(self)
    }

    pub fn children(&self) -> (r: Vec<&ParseTree<'a>>)
        ensures
            deref_seq(r@) == children_of(ParseTree::DistinctFrom(*self)),
    {
        let mut result: Vec<&ParseTree<'a>> = Vec::new();
        result.push(&*self.left);
        result.push(&*self.is);
        result.push(&*self.not_opt);
        result.push(&*self.distinct);
        result.push(&*self.from);
        result.push(&*self.right);
        assert(deref_seq(result@) =~= children_of(ParseTree::DistinctFrom(*self)));
        result
    }

    pub fn unbox(self) -> (r: (ParseTree<'a>, ParseTree<'a>, ParseTree<'a>, ParseTree<'a>, ParseTree<'a>, ParseTree<'a>))
        ensures
            r == (*self.left, *self.is, *self.not_opt, *self.distinct, *self.from, *self.right),
    {
        (*self.left, *self.is, *self.not_opt, *self.distinct, *self.from, *self.right)
    }

    pub fn get_first_child(&self) -> (r: &ParseTree<'a>)
        ensures
            *r == *self.left,
    {
        &self.left
    }

    pub fn get_last_child(&self) -> (r: &ParseTree<'a>)
        ensures
            *r == *self.right,
    {
        &self.right
    }

    pub fn get_first_token(&self) -> (r: Option<&token::Token<'a>>)
        ensures
            deref_opt(r) == first_of(tokens_of(ParseTree::DistinctFrom(*self))),
        decreases *self, 0nat,
    {
        assert(tokens_of(ParseTree::DistinctFrom(*self)) == tokens_of(*self.left) + tokens_of(*self.is) + tokens_of(*self.not_opt) + tokens_of(*self.distinct) + tokens_of(*self.from) + tokens_of(*self.right)) by {
            reveal_with_fuel(tokens_of, 1);
        }
        if let Some(token) = self.left.get_first_token() {
            return Some(token);
        }
        if let Some(token) = self.is.get_first_token() {
            return Some(token);
        }
        if let Some(token) = self.not_opt.get_first_token() {
            return Some(token);
        }
        if let Some(token) = self.distinct.get_first_token() {
            return Some(token);
        }
        if let Some(token) = self.from.get_first_token() {
            return Some(token);
        }
        if let Some(token) = self.right.get_first_token() {
            return Some(token);
        }
        None
    }

    pub fn get_last_token(&self) -> (r: Option<&token::Token<'a>>)
        ensures
            deref_opt(r) == last_of(tokens_of(ParseTree::DistinctFrom(*self))),
        decreases *self, 0nat,
    {
        assert(tokens_of(ParseTree::DistinctFrom(*self)) == tokens_of(*self.left) + tokens_of(*self.is) + tokens_of(*self.not_opt) + tokens_of(*self.distinct) + tokens_of(*self.from) + tokens_of(*self.right)) by {
            reveal_with_fuel(tokens_of, 1);
        }
        if let Some(token) = self.right.get_last_token() {
            return Some(token);
        }
        if let Some(token) = self.from.get_last_token() {
            return Some(token);
        }
        if let Some(token) = self.distinct.get_last_token() {
            return Some(token);
        }
        if let Some(token) = self.not_opt.get_last_token() {
            return Some(token);
        }
        if let Some(token) = self.is.get_last_token() {
            return Some(token);
        }
        if let Some(token) = self.left.get_last_token() {
            return Some(token);
        }
        None
    }
}

#[derive(Debug)]
pub struct Between<'a> {
    pub value: Box<ParseTree<'a>>,
    pub not_opt: Box<ParseTree<'a>>,
    pub between: Box<ParseTree<'a>>,
    pub lower: Box<ParseTree<'a>>,
    pub and: Box<ParseTree<'a>>,
    pub upper: Box<ParseTree<'a>>,
}

pub fn between<'a>(
    value: ParseTree<'a>,
    not_opt: ParseTree<'a>,
    between_tree: ParseTree<'a>,
    lower: ParseTree<'a>,
    and: ParseTree<'a>,
    upper: ParseTree<'a>,
) -> (r: ParseTree<'a>)
    ensures
        r == ParseTree::Between(Between { value: Box::new(value), not_opt: Box::new(not_opt), between: Box::new(between_tree), lower: Box::new(lower), and: Box::new(and), upper: Box::new(upper) }),
        tokens_of(r) == tokens_of(value) + tokens_of(not_opt) + tokens_of(between_tree) + tokens_of(lower) + tokens_of(and) + tokens_of(upper),
        tree_wf(r) == (tree_wf(value) && tree_wf(not_opt) && tree_wf(between_tree) && tree_wf(lower) && tree_wf(and) && tree_wf(upper)),
        lossless(r) == (lossless(value) && lossless(not_opt) && lossless(between_tree) && lossless(lower) && lossless(and) && lossless(upper)),
{
    assert(tokens_of(ParseTree::Between(Between { value: Box::new(value), not_opt: Box::new(not_opt), between: Box::new(between_tree), lower: Box::new(lower), and: Box::new(and), upper: Box::new(upper) })) == tokens_of(value) + tokens_of(not_opt) + tokens_of(between_tree) + tokens_of(lower) + tokens_of(and) + tokens_of(upper)) by {
        reveal_with_fuel(tokens_of, 1);
    }
    assert(tree_wf(ParseTree::Between(Between { value: Box::new(value), not_opt: Box::new(not_opt), between: Box::new(between_tree), lower: Box::new(lower), and: Box::new(and), upper: Box::new(upper) })) == (tree_wf(value) && tree_wf(not_opt) && tree_wf(between_tree) && tree_wf(lower) && tree_wf(and) && tree_wf(upper))) by {
        reveal_with_fuel(tree_wf, 1);
    }
    assert(lossless(ParseTree::Between(Between { value: Box::new(value), not_opt: Box::new(not_opt), between: Box::new(between_tree), lower: Box::new(lower), and: Box::new(and), upper: Box::new(upper) })) == (lossless(value) && lossless(not_opt) && lossless(between_tree) && lossless(lower) && lossless(and) && lossless(upper))) by {
        reveal_with_fuel(lossless, 1);
    }
    ParseTree::Between(Between { value: Box::new(value), not_opt: Box::new(not_opt), between: Box::new(between_tree), lower: Box::new(lower), and: Box::new(and), upper: Box::new(upper) })
}

impl<'a> Between<'a> {
    pub fn to_tree(self) -> (r: ParseTree<'a>)
        ensures
            r == ParseTree::Between(self),
    {
        ParseTree::Between(self)
    }

    pub fn children(&self) -> (r: Vec<&ParseTree<'a>>)
        ensures
            deref_seq(r@) == children_of(ParseTree::Between(*self)),
    {
        let mut result: Vec<&ParseTree<'a>> = Vec::new();
        result.push(&*self.value);
        result.push(&*self.not_opt);
        result.push(&*self.between);
        result.push(&*self.lower);
        result.push(&*self.and);
        result.push(&*self.upper);
        assert(deref_seq(result@) =~= children_of(ParseTree::Between(*self)));
        result
    }

    pub fn unbox(self) -> (r: (ParseTree<'a>, ParseTree<'a>, ParseTree<'a>, ParseTree<'a>, ParseTree<'a>, ParseTree<'a>))
        ensures
            r == (*self.value, *self.not_opt, *self.between, *self.lower, *self.and, *self.upper),
    {
        (*self.value, *self.not_opt, *self.between, *self.lower, *self.and, *self.upper)
    }

    pub fn get_first_child(&self) -> (r: &ParseTree<'a>)
        ensures
            *r == *self.value,
    {
        &self.value
    }

    pub fn get_last_child(&self) -> (r: &ParseTree<'a>)
        ensures
            *r == *self.upper,
    {
        &self.upper
    }

    pub fn get_first_token(&self) -> (r: Option<&token::Token<'a>>)
        ensures
            deref_opt(r) == first_of(tokens_of(ParseTree::Between(*self))),
        decreases *self, 0nat,
    {
        assert(tokens_of(ParseTree::Between(*self)) == tokens_of(*self.value) + tokens_of(*self.not_opt) + tokens_of(*self.between) + tokens_of(*self.lower) + tokens_of(*self.and) + tokens_of(*self.upper)) by {
            reveal_with_fuel(tokens_of, 1);
        }
        if let Some(token) = self.value.get_first_token() {
            return Some(token);
        }
        if let Some(token) = self.not_opt.get_first_token() {
            return Some(token);
        }
        if let Some(token) = self.between.get_first_token() {
            return Some(token);
        }
        if let Some(token) = self.lower.get_first_token() {
            return Some(token);
        }
        if let Some(token) = self.and.get_first_token() {
            return Some(token);
        }
        if let Some(token) = self.upper.get_first_token() {
            return Some(token);
        }
        None
    }

    pub fn get_last_token(&self) -> (r: Option<&token::Token<'a>>)
        ensures
            deref_opt(r) == last_of(tokens_of(ParseTree::Between(*self))),
        decreases *self, 0nat,
    {
        assert(tokens_of(ParseTree::Between(*self)) == tokens_of(*self.value) + tokens_of(*self.not_opt) + tokens_of(*self.between) + tokens_of(*self.lower) + tokens_of(*self.and) + tokens_of(*self.upper)) by {
            reveal_with_fuel(tokens_of, 1);
        }
        if let Some(token) = self.upper.get_last_token() {
            return Some(token);
        }
        if let Some(token) = self.and.get_last_token() {
            return Some(token);
        }
        if let Some(token) = self.lower.get_last_token() {
            return Some(token);
        }
        if let Some(token) = self.between.get_last_token() {
            return Some(token);
        }
        if let Some(token) = self.not_opt.get_last_token() {
            return Some(token);
        }
        if let Some(token) = self.value.get_last_token() {
            return Some(token);
        }
        None
    }
}

#[derive(Debug)]
pub struct Like<'a> {
    pub value: Box<ParseTree<'a>>,
    pub not_opt: Box<ParseTree<'a>>,
    pub like: Box<ParseTree<'a>>,
    pub patrern: Box<ParseTree<'a>>,
    pub escape_opt: Box<ParseTree<'a>>,
    pub escape_value_opt: Box<ParseTree<'a>>,
}

pub fn like<'a>(
    value: ParseTree<'a>,
    not_opt: ParseTree<'a>,
    like_tree: ParseTree<'a>,
    patrern: ParseTree<'a>,
    escape_opt: ParseTree<'a>,
    escape_value_opt: ParseTree<'a>,
) -> (r: ParseTree<'a>)
    ensures
        r == ParseTree::Like(Like { value: Box::new(value), not_opt: Box::new(not_opt), like: Box::new(like_tree), patrern: Box::new(patrern), escape_opt: Box::new(escape_opt), escape_value_opt: Box::new(escape_value_opt) }),
        tokens_of(r) == tokens_of(value) + tokens_of(not_opt) + tokens_of(like_tree) + tokens_of(patrern) + tokens_of(escape_opt) + tokens_of(escape_value_opt),
        tree_wf(r) == (tree_wf(value) && tree_wf(not_opt) && tree_wf(like_tree) && tree_wf(patrern) && tree_wf(escape_opt) && tree_wf(escape_value_opt)),
        lossless(r) == (lossless(value) && lossless(not_opt) && lossless(like_tree) && lossless(patrern) && lossless(escape_opt) && lossless(escape_value_opt)),
{
    assert(tokens_of(ParseTree::Like(Like { value: Box::new(value), not_opt: Box::new(not_opt), like: Box::new(like_tree), patrern: Box::new(patrern), escape_opt: Box::new(escape_opt), escape_value_opt: Box::new(escape_value_opt) })) == tokens_of(value) + tokens_of(not_opt) + tokens_of(like_tree) + tokens_of(patrern) + tokens_of(escape_opt) + tokens_of(escape_value_opt)) by {
        reveal_with_fuel(tokens_of, 1);
    }
    assert(tree_wf(ParseTree::Like(Like { value: Box::new(value), not_opt: Box::new(not_opt), like: Box::new(like_tree), patrern: Box::new(patrern), escape_opt: Box::new(escape_opt), escape_value_opt: Box::new(escape_value_opt) })) == (tree_wf(value) && tree_wf(not_opt) && tree_wf(like_tree) && tree_wf(patrern) && tree_wf(escape_opt) && tree_wf(escape_value_opt))) by {
        reveal_with_fuel(tree_wf, 1);
    }
    assert(lossless(ParseTree::Like(Like { value: Box::new(value), not_opt: Box::new(not_opt), like: Box::new(like_tree), patrern: Box::new(patrern), escape_opt: Box::new(escape_opt), escape_value_opt: Box::new(escape_value_opt) })) == (lossless(value) && lossless(not_opt) && lossless(like_tree) && lossless(patrern) && lossless(escape_opt) && lossless(escape_value_opt))) by {
        reveal_with_fuel(lossless, 1);
    }
    ParseTree::Like(Like { value: Box::new(value), not_opt: Box::new(not_opt), like: Box::new(like_tree), patrern: Box::new(patrern), escape_opt: Box::new(escape_opt), escape_value_opt: Box::new(escape_value_opt) })
}

impl<'a> Like<'a> {
    pub fn to_tree(self) -> (r: ParseTree<'a>)
        ensures
            r == ParseTree::Like(self),
    {
        ParseTree::Like(self)
    }

    pub fn children(&self) -> (r: Vec<&ParseTree<'a>>)
        ensures
            deref_seq(r@) == children_of(ParseTree::Like(*self)),
    {
        let mut result: Vec<&ParseTree<'a>> = Vec::new();
        result.push(&*self.value);
        result.push(&*self.not_opt);
        result.push(&*self.like);
        result.push(&*self.patrern);
        result.push(&*self.escape_opt);
        result.push(&*self.escape_value_opt);
        assert(deref_seq(result@) =~= children_of(ParseTree::Like(*self)));
        result
    }

    pub fn unbox(self) -> (r: (ParseTree<'a>, ParseTree<'a>, ParseTree<'a>, ParseTree<'a>, ParseTree<'a>, ParseTree<'a>))
        ensures
            r == (*self.value, *self.not_opt, *self.like, *self.patrern, *self.escape_opt, *self.escape_value_opt),
    {
        (*self.value, *self.not_opt, *self.like, *self.patrern, *self.escape_opt, *self.escape_value_opt)
    }

    pub fn get_first_child(&self) -> (r: &ParseTree<'a>)
        ensures
            *r == *self.value,
    {
        &self.value
    }

    pub fn get_last_child(&self) -> (r: &ParseTree<'a>)
        ensures
            *r == *self.escape_value_opt,
    {
        &self.escape_value_opt
    }

    pub fn get_first_token(&self) -> (r: Option<&token::Token<'a>>)
        ensures
            deref_opt(r) == first_of(tokens_of(ParseTree::Like(*self))),
        decreases *self, 0nat,
    {
        assert(tokens_of(ParseTree::Like(*self)) == tokens_of(*self.value) + tokens_of(*self.not_opt) + tokens_of(*self.like) + tokens_of(*self.patrern) + tokens_of(*self.escape_opt) + tokens_of(*self.escape_value_opt)) by {
            reveal_with_fuel(tokens_of, 1);
        }
        if let Some(token) = self.value.get_first_token() {
            return Some(token);
        }
        if let Some(token) = self.not_opt.get_first_token() {
            return Some(token);
        }
        if let Some(token) = self.like.get_first_token() {
            return Some(token);
        }
        if let Some(token) = self.patrern.get_first_token() {
            return Some(token);
        }
        if let Some(token) = self.escape_opt.get_first_token() {
            return Some(token);
        }
        if let Some(token) = self.escape_value_opt.get_first_token() {
            return Some(token);
        }
        None
    }

    pub fn get_last_token(&self) -> (r: Option<&token::Token<'a>>)
        ensures
            deref_opt(r) == last_of(tokens_of(ParseTree::Like(*self))),
        decreases *self, 0nat,
    {
        assert(tokens_of(ParseTree::Like(*self)) == tokens_of(*self.value) + tokens_of(*self.not_opt) + tokens_of(*self.like) + tokens_of(*self.patrern) + tokens_of(*self.escape_opt) + tokens_of(*self.escape_value_opt)) by {
            reveal_with_fuel(tokens_of, 1);
        }
        if let Some(token) = self.escape_value_opt.get_last_token() {
            return Some(token);
        }
        if let Some(token) = self.escape_opt.get_last_token() {
            return Some(token);
        }
        if let Some(token) = self.patrern.get_last_token() {
            return Some(token);
        }
        if let Some(token) = self.like.get_last_token() {
            return Some(token);
        }
        if let Some(token) = self.not_opt.get_last_token() {
            return Some(token);
        }
        if let Some(token) = self.value.get_last_token() {
            return Some(token);
        }
        None
    }
}

#[derive(Debug)]
pub struct InSubquery<'a> {
    pub value: Box<ParseTree<'a>>,
    pub not_opt: Box<ParseTree<'a>>,
    pub in_: Box<ParseTree<'a>>,
    pub open_paren: Box<ParseTree<'a>>,
    pub query: Box<ParseTree<'a>>,
    pub close_paren: Box<ParseTree<'a>>,
}

pub fn in_subquery<'a>(
    value: ParseTree<'a>,
    not_opt: ParseTree<'a>,
    in_: ParseTree<'a>,
    open_paren: ParseTree<'a>,
    query: ParseTree<'a>,
    close_paren: ParseTree<'a>,
) -> (r: ParseTree<'a>)
    ensures
        r == ParseTree::InSubquery(InSubquery { value: Box::new(value), not_opt: Box::new(not_opt), in_: Box::new(in_), open_paren: Box::new(open_paren), query: Box::new(query), close_paren: Box::new(close_paren) }),
        tokens_of(r) == tokens_of(value) + tokens_of(not_opt) + tokens_of(in_) + tokens_of(open_paren) + tokens_of(query) + tokens_of(close_paren),
        tree_wf(r) == (tree_wf(value) && tree_wf(not_opt) && tree_wf(in_) && tree_wf(open_paren) && tree_wf(query) && tree_wf(close_paren)),
        lossless(r) == (lossless(value) && lossless(not_opt) && lossless(in_) && lossless(open_paren) && lossless(query) && lossless(close_paren)),
{
    assert(tokens_of(ParseTree::InSubquery(InSubquery { value: Box::new(value), not_opt: Box::new(not_opt), in_: Box::new(in_), open_paren: Box::new(open_paren), query: Box::new(query), close_paren: Box::new(close_paren) })) == tokens_of(value) + tokens_of(not_opt) + tokens_of(in_) + tokens_of(open_paren) + tokens_of(query) + tokens_of(close_paren)) by {
        reveal_with_fuel(tokens_of, 1);
    }
    assert(tree_wf(ParseTree::InSubquery(InSubquery { value: Box::new(value), not_opt: Box::new(not_opt), in_: Box::new(in_), open_paren: Box::new(open_paren), query: Box::new(query), close_paren: Box::new(close_paren) })) == (tree_wf(value) && tree_wf(not_opt) && tree_wf(in_) && tree_wf(open_paren) && tree_wf(query) && tree_wf(close_paren))) by {
        reveal_with_fuel(tree_wf, 1);
    }
    assert(lossless(ParseTree::InSubquery(InSubquery { value: Box::new(value), not_opt: Box::new(not_opt), in_: Box::new(in_), open_paren: Box::new(open_paren), query: Box::new(query), close_paren: Box::new(close_paren) })) == (lossless(value) && lossless(not_opt) && lossless(in_) && lossless(open_paren) && lossless(query) && lossless(close_paren))) by {
        reveal_with_fuel(lossless, 1);
    }
    ParseTree::InSubquery(InSubquery { value: Box::new(value), not_opt: Box::new(not_opt), in_: Box::new(in_), open_paren: Box::new(open_paren), query: Box::new(query), close_paren: Box::new(close_paren) })
}

impl<'a> InSubquery<'a> {
    pub fn to_tree(self) -> (r: ParseTree<'a>)
        ensures
            r == ParseTree::InSubquery(self),
    {
        ParseTree::InSubquery(self)
    }

    pub fn children(&self) -> (r: Vec<&ParseTree<'a>>)
        ensures
            deref_seq(r@) == children_of(ParseTree::InSubquery(*self)),
    {
        let mut result: Vec<&ParseTree<'a>> = Vec::new();
        result.push(&*self.value);
        result.push(&*self.not_opt);
        result.push(&*self.in_);
        result.push(&*self.open_paren);
        result.push(&*self.query);
        result.push(&*self.close_paren);
        assert(deref_seq(result@) =~= children_of(ParseTree::InSubquery(*self)));
        result
    }

    pub fn unbox(self) -> (r: (ParseTree<'a>, ParseTree<'a>, ParseTree<'a>, ParseTree<'a>, ParseTree<'a>, ParseTree<'a>))
        ensures
            r == (*self.value, *self.not_opt, *self.in_, *self.open_paren, *self.query, *self.close_paren),
    {
        (*self.value, *self.not_opt, *self.in_, *self.open_paren, *self.query, *self.close_paren)
    }

    pub fn get_first_child(&self) -> (r: &ParseTree<'a>)
        ensures
            *r == *self.value,
    {
        &self.value
    }

    pub fn get_last_child(&self) -> (r: &ParseTree<'a>)
        ensures
            *r == *self.close_paren,
    {
        &self.close_paren
    }

    pub fn get_first_token(&self) -> (r: Option<&token::Token<'a>>)
        ensures
            deref_opt(r) == first_of(tokens_of(ParseTree::InSubquery(*self))),
        decreases *self, 0nat,
    {
        assert(tokens_of(ParseTree::InSubquery(*self)) == tokens_of(*self.value) + tokens_of(*self.not_opt) + tokens_of(*self.in_) + tokens_of(*self.open_paren) + tokens_of(*self.query) + tokens_of(*self.close_paren)) by {
            reveal_with_fuel(tokens_of, 1);
        }
        if let Some(token) = self.value.get_first_token() {
            return Some(token);
        }
        if let Some(token) = self.not_opt.get_first_token() {
            return Some(token);
        }
        if let Some(token) = self.in_.get_first_token() {
            return Some(token);
        }
        if let Some(token) = self.open_paren.get_first_token() {
            return Some(token);
        }
        if let Some(token) = self.query.get_first_token() {
            return Some(token);
        }
        if let Some(token) = self.close_paren.get_first_token() {
            return Some(token);
        }
        None
    }

    pub fn get_last_token(&self) -> (r: Option<&token::Token<'a>>)
        ensures
            deref_opt(r) == last_of(tokens_of(ParseTree::InSubquery(*self))),
        decreases *self, 0nat,
    {
        assert(tokens_of(ParseTree::InSubquery(*self)) == tokens_of(*self.value) + tokens_of(*self.not_opt) + tokens_of(*self.in_) + tokens_of(*self.open_paren) + tokens_of(*self.query) + tokens_of(*self.close_paren)) by {
            reveal_with_fuel(tokens_of, 1);
        }
        if let Some(token) = self.close_paren.get_last_token() {
            return Some(token);
        }
        if let Some(token) = self.query.get_last_token() {
            return Some(token);
        }
        if let Some(token) = self.open_paren.get_last_token() {
            return Some(token);
        }
        if let Some(token) = self.in_.get_last_token() {
            return Some(token);
        }
        if let Some(token) = self.not_opt.get_last_token() {
            return Some(token);
        }
        if let Some(token) = self.value.get_last_token() {
            return Some(token);
        }
        None
    }
}

#[derive(Debug)]
pub struct InList<'a> {
    pub value: Box<ParseTree<'a>>,
    pub not_opt: Box<ParseTree<'a>>,
    pub in_: Box<ParseTree<'a>>,
    pub expressions: Box<ParseTree<'a>>,
}

pub fn in_list<'a>(
    value: ParseTree<'a>,
    not_opt: ParseTree<'a>,
    in_: ParseTree<'a>,
    expressions: ParseTree<'a>,
) -> (r: ParseTree<'a>)
    ensures
        r == ParseTree::InList(InList { value: Box::new(value), not_opt: Box::new(not_opt), in_: Box::new(in_), expressions: Box::new(expressions) }),
        tokens_of(r) == tokens_of(value) + tokens_of(not_opt) + tokens_of(in_) + tokens_of(expressions),
        tree_wf(r) == (tree_wf(value) && tree_wf(not_opt) && tree_wf(in_) && tree_wf(expressions)),
        lossless(r) == (lossless(value) && lossless(not_opt) && lossless(in_) && lossless(expressions)),
{
    assert(tokens_of(ParseTree::InList(InList { value: Box::new(value), not_opt: Box::new(not_opt), in_: Box::new(in_), expressions: Box::new(expressions) })) == tokens_of(value) + tokens_of(not_opt) + tokens_of(in_) + tokens_of(expressions)) by {
        reveal_with_fuel(tokens_of, 1);
    }
    assert(tree_wf(ParseTree::InList(InList { value: Box::new(value), not_opt: Box::new(not_opt), in_: Box::new(in_), expressions: Box::new(expressions) })) == (tree_wf(value) && tree_wf(not_opt) && tree_wf(in_) && tree_wf(expressions))) by {
        reveal_with_fuel(tree_wf, 1);
    }
    assert(lossless(ParseTree::InList(InList { value: Box::new(value), not_opt: Box::new(not_opt), in_: Box::new(in_), expressions: Box::new(expressions) })) == (lossless(value) && lossless(not_opt) && lossless(in_) && lossless(expressions))) by {
        reveal_with_fuel(lossless, 1);
    }
    ParseTree::InList(InList { value: Box::new(value), not_opt: Box::new(not_opt), in_: Box::new(in_), expressions: Box::new(expressions) })
}

impl<'a> InList<'a> {
    pub fn to_tree(self) -> (r: ParseTree<'a>)
        ensures
            r == ParseTree::InList(self),
    {
        ParseTree::InList(self)
    }

    pub fn children(&self) -> (r: Vec<&ParseTree<'a>>)
        ensures
            deref_seq(r@) == children_of(ParseTree::InList(*self)),
    {
        let mut result: Vec<&ParseTree<'a>> = Vec::new();
        result.push(&*self.value);
        result.push(&*self.not_opt);
        result.push(&*self.in_);
        result.push(&*self.expressions);
        assert(deref_seq(result@) =~= children_of(ParseTree::InList(*self)));
        result
    }

    pub fn unbox(self) -> (r: (ParseTree<'a>, ParseTree<'a>, ParseTree<'a>, ParseTree<'a>))
        ensures
            r == (*self.value, *self.not_opt, *self.in_, *self.expressions),
    {
        (*self.value, *self.not_opt, *self.in_, *self.expressions)
    }

    pub fn get_first_child(&self) -> (r: &ParseTree<'a>)
        ensures
            *r == *self.value,
    {
        &self.value
    }

    pub fn get_last_child(&self) -> (r: &ParseTree<'a>)
        ensures
            *r == *self.expressions,
    {
        &self.expressions
    }

    pub fn get_first_token(&self) -> (r: Option<&token::Token<'a>>)
        ensures
            deref_opt(r) == first_of(tokens_of(ParseTree::InList(*self))),
        decreases *self, 0nat,
    {
        assert(tokens_of(ParseTree::InList(*self)) == tokens_of(*self.value) + tokens_of(*self.not_opt) + tokens_of(*self.in_) + tokens_of(*self.expressions)) by {
            reveal_with_fuel(tokens_of, 1);
        }
        if let Some(token) = self.value.get_first_token() {
            return Some(token);
        }
        if let Some(token) = self.not_opt.get_first_token() {
            return Some(token);
        }
        if let Some(token) = self.in_.get_first_token() {
            return Some(token);
        }
        if let Some(token) = self.expressions.get_first_token() {
            return Some(token);
        }
        None
    }

    pub fn get_last_token(&self) -> (r: Option<&token::Token<'a>>)
        ensures
            deref_opt(r) == last_of(tokens_of(ParseTree::InList(*self))),
        decreases *self, 0nat,
    {
        assert(tokens_of(ParseTree::InList(*self)) == tokens_of(*self.value) + tokens_of(*self.not_opt) + tokens_of(*self.in_) + tokens_of(*self.expressions)) by {
            reveal_with_fuel(tokens_of, 1);
        }
        if let Some(token) = self.expressions.get_last_token() {
            return Some(token);
        }
        if let Some(token) = self.in_.get_last_token() {
            return Some(token);
        }
        if let Some(token) = self.not_opt.get_last_token() {
            return Some(token);
        }
        if let Some(token) = self.value.get_last_token() {
            return Some(token);
        }
        None
    }
}

#[derive(Debug)]
pub struct AtTimeZone<'a> {
    pub value: Box<ParseTree<'a>>,
    pub at: Box<ParseTree<'a>>,
    pub time: Box<ParseTree<'a>>,
    pub zone: Box<ParseTree<'a>>,
    pub specifier: Box<ParseTree<'a>>,
}

pub fn at_time_zone<'a>(
    value: ParseTree<'a>,
    at: ParseTree<'a>,
    time: ParseTree<'a>,
    zone: ParseTree<'a>,
    specifier: ParseTree<'a>,
) -> (r: ParseTree<'a>)
    ensures
        r == ParseTree::AtTimeZone(AtTimeZone { value: Box::new(value), at: Box::new(at), time: Box::new(time), zone: Box::new(zone), specifier: Box::new(specifier) }),
        tokens_of(r) == tokens_of(value) + tokens_of(at) + tokens_of(time) + tokens_of(zone) + tokens_of(specifier),
        tree_wf(r) == (tree_wf(value) && tree_wf(at) && tree_wf(time) && tree_wf(zone) && tree_wf(specifier)),
        lossless(r) == (lossless(value) && lossless(at) && lossless(time) && lossless(zone) && lossless(specifier)),
{
    assert(tokens_of(ParseTree::AtTimeZone(AtTimeZone { value: Box::new(value), at: Box::new(at), time: Box::new(time), zone: Box::new(zone), specifier: Box::new(specifier) })) == tokens_of(value) + tokens_of(at) + tokens_of(time) + tokens_of(zone) + tokens_of(specifier)) by {
        reveal_with_fuel(tokens_of, 1);
    }
    assert(tree_wf(ParseTree::AtTimeZone(AtTimeZone { value: Box::new(value), at: Box::new(at), time: Box::new(time), zone: Box::new(zone), specifier: Box::new(specifier) })) == (tree_wf(value) && tree_wf(at) && tree_wf(time) && tree_wf(zone) && tree_wf(specifier))) by {
        reveal_with_fuel(tree_wf, 1);
    }
    assert(lossless(ParseTree::AtTimeZone(AtTimeZone { value: Box::new(value), at: Box::new(at), time: Box::new(time), zone: Box::new(zone), specifier: Box::new(specifier) })) == (lossless(value) && lossless(at) && lossless(time) && lossless(zone) && lossless(specifier))) by {
        reveal_with_fuel(lossless, 1);
    }
    ParseTree::AtTimeZone(AtTimeZone { value: Box::new(value), at: Box::new(at), time: Box::new(time), zone: Box::new(zone), specifier: Box::new(specifier) })
}

impl<'a> AtTimeZone<'a> {
    pub fn to_tree(self) -> (r: ParseTree<'a>)
        ensures
            r == ParseTree::AtTimeZone(self),
    {
        ParseTree::AtTimeZone(self)
    }

    pub fn children(&self) -> (r: Vec<&ParseTree<'a>>)
        ensures
            deref_seq(r@) == children_of(ParseTree::AtTimeZone(*self)),
    {
        let mut result: Vec<&ParseTree<'a>> = Vec::new();
        result.push(&*self.value);
        result.push(&*self.at);
        result.push(&*self.time);
        result.push(&*self.zone);
        result.push(&*self.specifier);
        assert(deref_seq(result@) =~= children_of(ParseTree::AtTimeZone(*self)));
        result
    }

    pub fn unbox(self) -> (r: (ParseTree<'a>, ParseTree<'a>, ParseTree<'a>, ParseTree<'a>, ParseTree<'a>))
        ensures
            r == (*self.value, *self.at, *self.time, *self.zone, *self.specifier),
    {
        (*self.value, *self.at, *self.time, *self.zone, *self.specifier)
    }

    pub fn get_first_child(&self) -> (r: &ParseTree<'a>)
        ensures
            *r == *self.value,
    {
        &self.value
    }

    pub fn get_last_child(&self) -> (r: &ParseTree<'a>)
        ensures
            *r == *self.specifier,
    {
        &self.specifier
    }

    pub fn get_first_token(&self) -> (r: Option<&token::Token<'a>>)
        ensures
            deref_opt(r) == first_of(tokens_of(ParseTree::AtTimeZone(*self))),
        decreases *self, 0nat,
    {
        assert(tokens_of(ParseTree::AtTimeZone(*self)) == tokens_of(*self.value) + tokens_of(*self.at) + tokens_of(*self.time) + tokens_of(*self.zone) + tokens_of(*self.specifier)) by {
            reveal_with_fuel(tokens_of, 1);
        }
        if let Some(token) = self.value.get_first_token() {
            return Some(token);
        }
        if let Some(token) = self.at.get_first_token() {
            return Some(token);
        }
        if let Some(token) = self.time.get_first_token() {
            return Some(token);
        }
        if let Some(token) = self.zone.get_first_token() {
            return Some(token);
        }
        if let Some(token) = self.specifier.get_first_token() {
            return Some(token);
        }
        None
    }

    pub fn get_last_token(&self) -> (r: Option<&token::Token<'a>>)
        ensures
            deref_opt(r) == last_of(tokens_of(ParseTree::AtTimeZone(*self))),
        decreases *self, 0nat,
    {
        assert(tokens_of(ParseTree::AtTimeZone(*self)) == tokens_of(*self.value) + tokens_of(*self.at) + tokens_of(*self.time) + tokens_of(*self.zone) + tokens_of(*self.specifier)) by {
            reveal_with_fuel(tokens_of, 1);
        }
        if let Some(token) = self.specifier.get_last_token() {
            return Some(token);
        }
        if let Some(token) = self.zone.get_last_token() {
            return Some(token);
        }
        if let Some(token) = self.time.get_last_token() {
            return Some(token);
        }
        if let Some(token) = self.at.get_last_token() {
            return Some(token);
        }
        if let Some(token) = self.value.get_last_token() {
            return Some(token);
        }
        None
    }
}

#[derive(Debug)]
pub struct Dereference<'a> {
    pub object: Box<ParseTree<'a>>,
    pub period: Box<ParseTree<'a>>,
    pub field_name: Box<ParseTree<'a>>,
}

pub fn dereference<'a>(
    object: ParseTree<'a>,
    period: ParseTree<'a>,
    field_name: ParseTree<'a>,
) -> (r: ParseTree<'a>)
    ensures
        r == ParseTree::Dereference(Dereference { object: Box::new(object), period: Box::new(period), field_name: Box::new(field_name) }),
        tokens_of(r) == tokens_of(object) + tokens_of(period) + tokens_of(field_name),
        tree_wf(r) == (tree_wf(object) && tree_wf(period) && tree_wf(field_name)),
        lossless(r) == (lossless(object) && lossless(period) && lossless(field_name)),
{
    assert(tokens_of(ParseTree::Dereference(Dereference { object: Box::new(object), period: Box::new(period), field_name: Box::new(field_name) })) == tokens_of(object) + tokens_of(period) + tokens_of(field_name)) by {
        reveal_with_fuel(tokens_of, 1);
    }
    assert(tree_wf(ParseTree::Dereference(Dereference { object: Box::new(object), period: Box::new(period), field_name: Box::new(field_name) })) == (tree_wf(object) && tree_wf(period) && tree_wf(field_name))) by {
        reveal_with_fuel(tree_wf, 1);
    }
    assert(lossless(ParseTree::Dereference(Dereference { object: Box::new(object), period: Box::new(period), field_name: Box::new(field_name) })) == (lossless(object) && lossless(period) && lossless(field_name))) by {
        reveal_with_fuel(lossless, 1);
    }
    ParseTree::Dereference(Dereference { object: Box::new(object), period: Box::new(period), field_name: Box::new(field_name) })
}

impl<'a> Dereference<'a> {
    pub fn to_tree(self) -> (r: ParseTree<'a>)
        ensures
            r == ParseTree::Dereference(self),
    {
        ParseTree::Dereference(self)
    }

    pub fn children(&self) -> (r: Vec<&ParseTree<'a>>)
        ensures
            deref_seq(r@) == children_of(ParseTree::Dereference(*self)),
    {
        let mut result: Vec<&ParseTree<'a>> = Vec::new();
        result.push(&*self.object);
        result.push(&*self.period);
        result.push(&*self.field_name);
        assert(deref_seq(result@) =~= children_of(ParseTree::Dereference(*self)));
        result
    }

    pub fn unbox(self) -> (r: (ParseTree<'a>, ParseTree<'a>, ParseTree<'a>))
        ensures
            r == (*self.object, *self.period, *self.field_name),
    {
        (*self.object, *self.period, *self.field_name)
    }

    pub fn get_first_child(&self) -> (r: &ParseTree<'a>)
        ensures
            *r == *self.object,
    {
        &self.object
    }

    pub fn get_last_child(&self) -> (r: &ParseTree<'a>)
        ensures
            *r == *self.field_name,
    {
        &self.field_name
    }

    pub fn get_first_token(&self) -> (r: Option<&token::Token<'a>>)
        ensures
            deref_opt(r) == first_of(tokens_of(ParseTree::Dereference(*self))),
        decreases *self, 0nat,
    {
        assert(tokens_of(ParseTree::Dereference(*self)) == tokens_of(*self.object) + tokens_of(*self.period) + tokens_of(*self.field_name)) by {
            reveal_with_fuel(tokens_of, 1);
        }
        if let Some(token) = self.object.get_first_token() {
            return Some(token);
        }
        if let Some(token) = self.period.get_first_token() {
            return Some(token);
        }
        if let Some(token) = self.field_name.get_first_token() {
            return Some(token);
        }
        None
    }

    pub fn get_last_token(&self) -> (r: Option<&token::Token<'a>>)
        ensures
            deref_opt(r) == last_of(tokens_of(ParseTree::Dereference(*self))),
        decreases *self, 0nat,
    {
        assert(tokens_of(ParseTree::Dereference(*self)) == tokens_of(*self.object) + tokens_of(*self.period) + tokens_of(*self.field_name)) by {
            reveal_with_fuel(tokens_of, 1);
        }
        if let Some(token) = self.field_name.get_last_token() {
            return Some(token);
        }
        if let Some(token) = self.period.get_last_token() {
            return Some(token);
        }
        if let Some(token) = self.object.get_last_token() {
            return Some(token);
        }
        None
    }
}

#[derive(Debug)]
pub struct Subscript<'a> {
    pub operand: Box<ParseTree<'a>>,
    pub open_square: Box<ParseTree<'a>>,
    pub index: Box<ParseTree<'a>>,
    pub close_square: Box<ParseTree<'a>>,
}

pub fn subscript<'a>(
    operand: ParseTree<'a>,
    open_square: ParseTree<'a>,
    index: ParseTree<'a>,
    close_square: ParseTree<'a>,
) -> (r: ParseTree<'a>)
    ensures
        r == ParseTree::Subscript(Subscript { operand: Box::new(operand), open_square: Box::new(open_square), index: Box::new(index), close_square: Box::new(close_square) }),
        tokens_of(r) == tokens_of(operand) + tokens_of(open_square) + tokens_of(index) + tokens_of(close_square),
        tree_wf(r) == (tree_wf(operand) && tree_wf(open_square) && tree_wf(index) && tree_wf(close_square)),
        lossless(r) == (lossless(operand) && lossless(open_square) && lossless(index) && lossless(close_square)),
{
    assert(tokens_of(ParseTree::Subscript(Subscript { operand: Box::new(operand), open_square: Box::new(open_square), index: Box::new(index), close_square: Box::new(close_square) })) == tokens_of(operand) + tokens_of(open_square) + tokens_of(index) + tokens_of(close_square)) by {
        reveal_with_fuel(tokens_of, 1);
    }
    assert(tree_wf(ParseTree::Subscript(Subscript { operand: Box::new(operand), open_square: Box::new(open_square), index: Box::new(index), close_square: Box::new(close_square) })) == (tree_wf(operand) && tree_wf(open_square) && tree_wf(index) && tree_wf(close_square))) by {
        reveal_with_fuel(tree_wf, 1);
    }
    assert(lossless(ParseTree::Subscript(Subscript { operand: Box::new(operand), open_square: Box::new(open_square), index: Box::new(index), close_square: Box::new(close_square) })) == (lossless(operand) && lossless(open_square) && lossless(index) && lossless(close_square))) by {
        reveal_with_fuel(lossless, 1);
    }
    ParseTree::Subscript(Subscript { operand: Box::new(operand), open_square: Box::new(open_square), index: Box::new(index), close_square: Box::new(close_square) })
}

impl<'a> Subscript<'a> {
    pub fn to_tree(self) -> (r: ParseTree<'a>)
        ensures
            r == ParseTree::Subscript(self),
    {
        ParseTree::Subscript(self)
    }

    pub fn children(&self) -> (r: Vec<&ParseTree<'a>>)
        ensures
            deref_seq(r@) == children_of(ParseTree::Subscript(*self)),
    {
        let mut result: Vec<&ParseTree<'a>> = Vec::new();
        result.push(&*self.operand);
        result.push(&*self.open_square);
        result.push(&*self.index);
        result.push(&*self.close_square);
        assert(deref_seq(result@) =~= children_of(ParseTree::Subscript(*self)));
        result
    }

    pub fn unbox(self) -> (r: (ParseTree<'a>, ParseTree<'a>, ParseTree<'a>, ParseTree<'a>))
        ensures
            r == (*self.operand, *self.open_square, *self.index, *self.close_square),
    {
        (*self.operand, *self.open_square, *self.index, *self.close_square)
    }

    pub fn get_first_child(&self) -> (r: &ParseTree<'a>)
        ensures
            *r == *self.operand,
    {
        &self.operand
    }

    pub fn get_last_child(&self) -> (r: &ParseTree<'a>)
        ensures
            *r == *self.close_square,
    {
        &self.close_square
    }

    pub fn get_first_token(&self) -> (r: Option<&token::Token<'a>>)
        ensures
            deref_opt(r) == first_of(tokens_of(ParseTree::Subscript(*self))),
        decreases *self, 0nat,
    {
        assert(tokens_of(ParseTree::Subscript(*self)) == tokens_of(*self.operand) + tokens_of(*self.open_square) + tokens_of(*self.index) + tokens_of(*self.close_square)) by {
            reveal_with_fuel(tokens_of, 1);
        }
        if let Some(token) = self.operand.get_first_token() {
            return Some(token);
        }
        if let Some(token) = self.open_square.get_first_token() {
            return Some(token);
        }
        if let Some(token) = self.index.get_first_token() {
            return Some(token);
        }
        if let Some(token) = self.close_square.get_first_token() {
            return Some(token);
        }
        None
    }

    pub fn get_last_token(&self) -> (r: Option<&token::Token<'a>>)
        ensures
            deref_opt(r) == last_of(tokens_of(ParseTree::Subscript(*self))),
        decreases *self, 0nat,
    {
        assert(tokens_of(ParseTree::Subscript(*self)) == tokens_of(*self.operand) + tokens_of(*self.open_square) + tokens_of(*self.index) + tokens_of(*self.close_square)) by {
            reveal_with_fuel(tokens_of, 1);
        }
        if let Some(token) = self.close_square.get_last_token() {
            return Some(token);
        }
        if let Some(token) = self.index.get_last_token() {
            return Some(token);
        }
        if let Some(token) = self.open_square.get_last_token() {
            return Some(token);
        }
        if let Some(token) = self.operand.get_last_token() {
            return Some(token);
        }
        None
    }
}

#[derive(Debug)]
pub struct Lambda<'a> {
    pub parameters: Box<ParseTree<'a>>,
    pub array: Box<ParseTree<'a>>,
    pub body: Box<ParseTree<'a>>,
}

pub fn lambda<'a>(
    parameters: ParseTree<'a>,
    array: ParseTree<'a>,
    body: ParseTree<'a>,
) -> (r: ParseTree<'a>)
    ensures
        r == ParseTree::Lambda(Lambda { parameters: Box::new(parameters), array: Box::new(array), body: Box::new(body) }),
        tokens_of(r) == tokens_of(parameters) + tokens_of(array) + tokens_of(body),
        tree_wf(r) == (tree_wf(parameters) && tree_wf(array) && tree_wf(body)),
        lossless(r) == (lossless(parameters) && lossless(array) && lossless(body)),
{
    assert(tokens_of(ParseTree::Lambda(Lambda { parameters: Box::new(parameters), array: Box::new(array), body: Box::new(body) })) == tokens_of(parameters) + tokens_of(array) + tokens_of(body)) by {
        reveal_with_fuel(tokens_of, 1);
    }
    assert(tree_wf(ParseTree::Lambda(Lambda { parameters: Box::new(parameters), array: Box::new(array), body: Box::new(body) })) == (tree_wf(parameters) && tree_wf(array) && tree_wf(body))) by {
        reveal_with_fuel(tree_wf, 1);
    }
    assert(lossless(ParseTree::Lambda(Lambda { parameters: Box::new(parameters), array: Box::new(array), body: Box::new(body) })) == (lossless(parameters) && lossless(array) && lossless(body))) by {
        reveal_with_fuel(lossless, 1);
    }
    ParseTree::Lambda(Lambda { parameters: Box::new(parameters), array: Box::new(array), body: Box::new(body) })
}

impl<'a> Lambda<'a> {
    pub fn to_tree(self) -> (r: ParseTree<'a>)
        ensures
            r == ParseTree::Lambda(self),
    {
        ParseTree::Lambda(self)
    }

    pub fn children(&self) -> (r: Vec<&ParseTree<'a>>)
        ensures
            deref_seq(r@) == children_of(ParseTree::Lambda(*self)),
    {
        let mut result: Vec<&ParseTree<'a>> = Vec::new();
        result.push(&*self.parameters);
        result.push(&*self.array);
        result.push(&*self.body);
        assert(deref_seq(result@) =~= children_of(ParseTree::Lambda(*self)));
        result
    }

    pub fn unbox(self) -> (r: (ParseTree<'a>, ParseTree<'a>, ParseTree<'a>))
        ensures
            r == (*self.parameters, *self.array, *self.body),
    {
        (*self.parameters, *self.array, *self.body)
    }

    pub fn get_first_child(&self) -> (r: &ParseTree<'a>)
        ensures
            *r == *self.parameters,
    {
        &self.parameters
    }

    pub fn get_last_child(&self) -> (r: &ParseTree<'a>)
        ensures
            *r == *self.body,
    {
        &self.body
    }

    pub fn get_first_token(&self) -> (r: Option<&token::Token<'a>>)
        ensures
            deref_opt(r) == first_of(tokens_of(ParseTree::Lambda(*self))),
        decreases *self, 0nat,
    {
        assert(tokens_of(ParseTree::Lambda(*self)) == tokens_of(*self.parameters) + tokens_of(*self.array) + tokens_of(*self.body)) by {
            reveal_with_fuel(tokens_of, 1);
        }
        if let Some(token) = self.parameters.get_first_token() {
            return Some(token);
        }
        if let Some(token) = self.array.get_first_token() {
            return Some(token);
        }
        if let Some(token) = self.body.get_first_token() {
            return Some(token);
        }
        None
    }

    pub fn get_last_token(&self) -> (r: Option<&token::Token<'a>>)
        ensures
            deref_opt(r) == last_of(tokens_of(ParseTree::Lambda(*self))),
        decreases *self, 0nat,
    {
        assert(tokens_of(ParseTree::Lambda(*self)) == tokens_of(*self.parameters) + tokens_of(*self.array) + tokens_of(*self.body)) by {
            reveal_with_fuel(tokens_of, 1);
        }
        if let Some(token) = self.body.get_last_token() {
            return Some(token);
        }
        if let Some(token) = self.array.get_last_token() {
            return Some(token);
        }
        if let Some(token) = self.parameters.get_last_token() {
            return Some(token);
        }
        None
    }
}

#[derive(Debug)]
pub struct Literal<'a> {
    pub value: Box<ParseTree<'a>>,
}

pub fn literal<'a>(
    value: ParseTree<'a>,
) -> (r: ParseTree<'a>)
    ensures
        r == ParseTree::Literal(Literal { value: Box::new(value) }),
        tokens_of(r) == tokens_of(value),
        tree_wf(r) == (tree_wf(value)),
        lossless(r) == (lossless(value)),
{
    assert(tokens_of(ParseTree::Literal(Literal { value: Box::new(value) })) == tokens_of(value)) by {
        reveal_with_fuel(tokens_of, 1);
    }
    assert(tree_wf(ParseTree::Literal(Literal { value: Box::new(value) })) == (tree_wf(value))) by {
        reveal_with_fuel(tree_wf, 1);
    }
    assert(lossless(ParseTree::Literal(Literal { value: Box::new(value) })) == (lossless(value))) by {
        reveal_with_fuel(lossless, 1);
    }
    ParseTree::Literal(Literal { value: Box::new(value) })
}

impl<'a> Literal<'a> {
    pub fn to_tree(self) -> (r: ParseTree<'a>)
        ensures
            r == ParseTree::Literal(self),
    {
        ParseTree::Literal(self)
    }

    pub fn children(&self) -> (r: Vec<&ParseTree<'a>>)
        ensures
            deref_seq(r@) == children_of(ParseTree::Literal(*self)),
    {
        let mut result: Vec<&ParseTree<'a>> = Vec::new();
        result.push(&*self.value);
        assert(deref_seq(result@) =~= children_of(ParseTree::Literal(*self)));
        result
    }

    pub fn unbox(self) -> (r: (ParseTree<'a>,))
        ensures
            r == (*self.value,),
    {
        (*self.value,)
    }

    pub fn get_first_child(&self) -> (r: &ParseTree<'a>)
        ensures
            *r == *self.value,
    {
        &self.value
    }

    pub fn get_last_child(&self) -> (r: &ParseTree<'a>)
        ensures
            *r == *self.value,
    {
        &self.value
    }

    pub fn get_first_token(&self) -> (r: Option<&token::Token<'a>>)
        ensures
            deref_opt(r) == first_of(tokens_of(ParseTree::Literal(*self))),
        decreases *self, 0nat,
    {
        assert(tokens_of(ParseTree::Literal(*self)) == tokens_of(*self.value)) by {
            reveal_with_fuel(tokens_of, 1);
        }
        if let Some(token) = self.value.get_first_token() {
            return Some(token);
        }
        None
    }

    pub fn get_last_token(&self) -> (r: Option<&token::Token<'a>>)
        ensures
            deref_opt(r) == last_of(tokens_of(ParseTree::Literal(*self))),
        decreases *self, 0nat,
    {
        assert(tokens_of(ParseTree::Literal(*self)) == tokens_of(*self.value)) by {
            reveal_with_fuel(tokens_of, 1);
        }
        if let Some(token) = self.value.get_last_token() {
            return Some(token);
        }
        None
    }
}

#[derive(Debug)]
pub struct RowConstructor<'a> {
    pub elements: Box<ParseTree<'a>>,
}

pub fn row_constructor<'a>(
    elements: ParseTree<'a>,
) -> (r: ParseTree<'a>)
    ensures
        r == ParseTree::RowConstructor(RowConstructor { elements: Box::new(elements) }),
        tokens_of(r) == tokens_of(elements),
        tree_wf(r) == (tree_wf(elements)),
        lossless(r) == (lossless(elements)),
{
    assert(tokens_of(ParseTree::RowConstructor(RowConstructor { elements: Box::new(elements) })) == tokens_of(elements)) by {
        reveal_with_fuel(tokens_of, 1);
    }
    assert(tree_wf(ParseTree::RowConstructor(RowConstructor { elements: Box::new(elements) })) == (tree_wf(elements))) by {
        reveal_with_fuel(tree_wf, 1);
    }
    assert(lossless(ParseTree::RowConstructor(RowConstructor { elements: Box::new(elements) })) == (lossless(elements))) by {
        reveal_with_fuel(lossless, 1);
    }
    ParseTree::RowConstructor(RowConstructor { elements: Box::new(elements) })
}

impl<'a> RowConstructor<'a> {
    pub fn to_tree(self) -> (r: ParseTree<'a>)
        ensures
            r == ParseTree::RowConstructor(self),
    {
        ParseTree::RowConstructor(self)
    }

    pub fn children(&self) -> (r: Vec<&ParseTree<'a>>)
        ensures
            deref_seq(r@) == children_of(ParseTree::RowConstructor(*self)),
    {
        let mut result: Vec<&ParseTree<'a>> = Vec::new();
        result.push(&*self.elements);
        assert(deref_seq(result@) =~= children_of(ParseTree::RowConstructor(*self)));
        result
    }

    pub fn unbox(self) -> (r: (ParseTree<'a>,))
        ensures
            r == (*self.elements,),
    {
        (*self.elements,)
    }

    pub fn get_first_child(&self) -> (r: &ParseTree<'a>)
        ensures
            *r == *self.elements,
    {
        &self.elements
    }

    pub fn get_last_child(&self) -> (r: &ParseTree<'a>)
        ensures
            *r == *self.elements,
    {
        &self.elements
    }

    pub fn get_first_token(&self) -> (r: Option<&token::Token<'a>>)
        ensures
            deref_opt(r) == first_of(tokens_of(ParseTree::RowConstructor(*self))),
        decreases *self, 0nat,
    {
        assert(tokens_of(ParseTree::RowConstructor(*self)) == tokens_of(*self.elements)) by {
            reveal_with_fuel(tokens_of, 1);
        }
        if let Some(token) = self.elements.get_first_token() {
            return Some(token);
        }
        None
    }

    pub fn get_last_token(&self) -> (r: Option<&token::Token<'a>>)
        ensures
            deref_opt(r) == last_of(tokens_of(ParseTree::RowConstructor(*self))),
        decreases *self, 0nat,
    {
        assert(tokens_of(ParseTree::RowConstructor(*self)) == tokens_of(*self.elements)) by {
            reveal_with_fuel(tokens_of, 1);
        }
        if let Some(token) = self.elements.get_last_token() {
            return Some(token);
        }
        None
    }
}

#[derive(Debug)]
pub struct ParenthesizedExpression<'a> {
    pub open_paren: Box<ParseTree<'a>>,
    pub value: Box<ParseTree<'a>>,
    pub close_paren: Box<ParseTree<'a>>,
}

pub fn parenthesized_expression<'a>(
    open_paren: ParseTree<'a>,
    value: ParseTree<'a>,
    close_paren: ParseTree<'a>,
) -> (r: ParseTree<'a>)
    ensures
        r == ParseTree::ParenthesizedExpression(ParenthesizedExpression { open_paren: Box::new(open_paren), value: Box::new(value), close_paren: Box::new(close_paren) }),
        tokens_of(r) == tokens_of(open_paren) + tokens_of(value) + tokens_of(close_paren),
        tree_wf(r) == (tree_wf(open_paren) && tree_wf(value) && tree_wf(close_paren)),
        lossless(r) == (lossless(open_paren) && lossless(value) && lossless(close_paren)),
{
    assert(tokens_of(ParseTree::ParenthesizedExpression(ParenthesizedExpression { open_paren: Box::new(open_paren), value: Box::new(value), close_paren: Box::new(close_paren) })) == tokens_of(open_paren) + tokens_of(value) + tokens_of(close_paren)) by {
        reveal_with_fuel(tokens_of, 1);
    }
    assert(tree_wf(ParseTree::ParenthesizedExpression(ParenthesizedExpression { open_paren: Box::new(open_paren), value: Box::new(value), close_paren: Box::new(close_paren) })) == (tree_wf(open_paren) && tree_wf(value) && tree_wf(close_paren))) by {
        reveal_with_fuel(tree_wf, 1);
    }
    assert(lossless(ParseTree::ParenthesizedExpression(ParenthesizedExpression { open_paren: Box::new(open_paren), value: Box::new(value), close_paren: Box::new(close_paren) })) == (lossless(open_paren) && lossless(value) && lossless(close_paren))) by {
        reveal_with_fuel(lossless, 1);
    }
    ParseTree::ParenthesizedExpression(ParenthesizedExpression { open_paren: Box::new(open_paren), value: Box::new(value), close_paren: Box::new(close_paren) })
}

impl<'a> ParenthesizedExpression<'a> {
    pub fn to_tree(self) -> (r: ParseTree<'a>)
        ensures
            r == ParseTree::ParenthesizedExpression(self),
    {
        ParseTree::ParenthesizedExpression(self)
    }

    pub fn children(&self) -> (r: Vec<&ParseTree<'a>>)
        ensures
            deref_seq(r@) == children_of(ParseTree::ParenthesizedExpression(*self)),
    {
        let mut result: Vec<&ParseTree<'a>> = Vec::new();
        result.push(&*self.open_paren);
        result.push(&*self.value);
        result.push(&*self.close_paren);
        assert(deref_seq(result@) =~= children_of(ParseTree::ParenthesizedExpression(*self)));
        result
    }

    pub fn unbox(self) -> (r: (ParseTree<'a>, ParseTree<'a>, ParseTree<'a>))
        ensures
            r == (*self.open_paren, *self.value, *self.close_paren),
    {
        (*self.open_paren, *self.value, *self.close_paren)
    }

    pub fn get_first_child(&self) -> (r: &ParseTree<'a>)
        ensures
            *r == *self.open_paren,
    {
        &self.open_paren
    }

    pub fn get_last_child(&self) -> (r: &ParseTree<'a>)
        ensures
            *r == *self.close_paren,
    {
        &self.close_paren
    }

    pub fn get_first_token(&self) -> (r: Option<&token::Token<'a>>)
        ensures
            deref_opt(r) == first_of(tokens_of(ParseTree::ParenthesizedExpression(*self))),
        decreases *self, 0nat,
    {
        assert(tokens_of(ParseTree::ParenthesizedExpression(*self)) == tokens_of(*self.open_paren) + tokens_of(*self.value) + tokens_of(*self.close_paren)) by {
            reveal_with_fuel(tokens_of, 1);
        }
        if let Some(token) = self.open_paren.get_first_token() {
            return Some(token);
        }
        if let Some(token) = self.value.get_first_token() {
            return Some(token);
        }
        if let Some(token) = self.close_paren.get_first_token() {
            return Some(token);
        }
        None
    }

    pub fn get_last_token(&self) -> (r: Option<&token::Token<'a>>)
        ensures
            deref_opt(r) == last_of(tokens_of(ParseTree::ParenthesizedExpression(*self))),
        decreases *self, 0nat,
    {
        assert(tokens_of(ParseTree::ParenthesizedExpression(*self)) == tokens_of(*self.open_paren) + tokens_of(*self.value) + tokens_of(*self.close_paren)) by {
            reveal_with_fuel(tokens_of, 1);
        }
        if let Some(token) = self.close_paren.get_last_token() {
            return Some(token);
        }
        if let Some(token) = self.value.get_last_token() {
            return Some(token);
        }
        if let Some(token) = self.open_paren.get_last_token() {
            return Some(token);
        }
        None
    }
}

#[derive(Debug)]
pub struct Identifier<'a> {
    pub value: Box<ParseTree<'a>>,
}

pub fn identifier<'a>(
    value: ParseTree<'a>,
) -> (r: ParseTree<'a>)
    ensures
        r == ParseTree::Identifier(Identifier { value: Box::new(value) }),
        tokens_of(r) == tokens_of(value),
        tree_wf(r) == (tree_wf(value)),
        lossless(r) == (lossless(value)),
{
    assert(tokens_of(ParseTree::Identifier(Identifier { value: Box::new(value) })) == tokens_of(value)) by {
        reveal_with_fuel(tokens_of, 1);
    }
    assert(tree_wf(ParseTree::Identifier(Identifier { value: Box::new(value) })) == (tree_wf(value))) by {
        reveal_with_fuel(tree_wf, 1);
    }
    assert(lossless(ParseTree::Identifier(Identifier { value: Box::new(value) })) == (lossless(value))) by {
        reveal_with_fuel(lossless, 1);
    }
    ParseTree::Identifier(Identifier { value: Box::new(value) })
}

impl<'a> Identifier<'a> {
    pub fn to_tree(self) -> (r: ParseTree<'a>)
        ensures
            r == ParseTree::Identifier(self),
    {
        ParseTree::Identifier(self)
    }

    pub fn children(&self) -> (r: Vec<&ParseTree<'a>>)
        ensures
            deref_seq(r@) == children_of(ParseTree::Identifier(*self)),
    {
        let mut result: Vec<&ParseTree<'a>> = Vec::new();
        result.push(&*self.value);
        assert(deref_seq(result@) =~= children_of(ParseTree::Identifier(*self)));
        result
    }

    pub fn unbox(self) -> (r: (ParseTree<'a>,))
        ensures
            r == (*self.value,),
    {
        (*self.value,)
    }

    pub fn get_first_child(&self) -> (r: &ParseTree<'a>)
        ensures
            *r == *self.value,
    {
        &self.value
    }

    pub fn get_last_child(&self) -> (r: &ParseTree<'a>)
        ensures
            *r == *self.value,
    {
        &self.value
    }

    pub fn get_first_token(&self) -> (r: Option<&token::Token<'a>>)
        ensures
            deref_opt(r) == first_of(tokens_of(ParseTree::Identifier(*self))),
        decreases *self, 0nat,
    {
        assert(tokens_of(ParseTree::Identifier(*self)) == tokens_of(*self.value)) by {
            reveal_with_fuel(tokens_of, 1);
        }
        if let Some(token) = self.value.get_first_token() {
            return Some(token);
        }
        None
    }

    pub fn get_last_token(&self) -> (r: Option<&token::Token<'a>>)
        ensures
            deref_opt(r) == last_of(tokens_of(ParseTree::Identifier(*self))),
        decreases *self, 0nat,
    {
        assert(tokens_of(ParseTree::Identifier(*self)) == tokens_of(*self.value)) by {
            reveal_with_fuel(tokens_of, 1);
        }
        if let Some(token) = self.value.get_last_token() {
            return Some(token);
        }
        None
    }
}

#[derive(Debug)]
pub struct FunctionCall<'a> {
    pub name: Box<ParseTree<'a>>,
    pub open_paren: Box<ParseTree<'a>>,
    pub set_quantifier_opt: Box<ParseTree<'a>>,
    pub arguments: Box<ParseTree<'a>>,
    pub order_by_opt: Box<ParseTree<'a>>,
    pub close_paren: Box<ParseTree<'a>>,
    pub filter_opt: Box<ParseTree<'a>>,
    pub null_treatment_opt: Box<ParseTree<'a>>,
    pub over_opt: Box<ParseTree<'a>>,
}

pub fn function_call<'a>(
    name: ParseTree<'a>,
    open_paren: ParseTree<'a>,
    set_quantifier_opt: ParseTree<'a>,
    arguments: ParseTree<'a>,
    order_by_opt: ParseTree<'a>,
    close_paren: ParseTree<'a>,
    filter_opt: ParseTree<'a>,
    null_treatment_opt: ParseTree<'a>,
    over_opt: ParseTree<'a>,
) -> (r: ParseTree<'a>)
    ensures
        r == ParseTree::FunctionCall(FunctionCall { name: Box::new(name), open_paren: Box::new(open_paren), set_quantifier_opt: Box::new(set_quantifier_opt), arguments: Box::new(arguments), order_by_opt: Box::new(order_by_opt), close_paren: Box::new(close_paren), filter_opt: Box::new(filter_opt), null_treatment_opt: Box::new(null_treatment_opt), over_opt: Box::new(over_opt) }),
        tokens_of(r) == tokens_of(name) + tokens_of(open_paren) + tokens_of(set_quantifier_opt) + tokens_of(arguments) + tokens_of(order_by_opt) + tokens_of(close_paren) + tokens_of(filter_opt) + tokens_of(null_treatment_opt) + tokens_of(over_opt),
        tree_wf(r) == (tree_wf(name) && tree_wf(open_paren) && tree_wf(set_quantifier_opt) && tree_wf(arguments) && tree_wf(order_by_opt) && tree_wf(close_paren) && tree_wf(filter_opt) && tree_wf(null_treatment_opt) && tree_wf(over_opt)),
        lossless(r) == (lossless(name) && lossless(open_paren) && lossless(set_quantifier_opt) && lossless(arguments) && lossless(order_by_opt) && lossless(close_paren) && lossless(filter_opt) && lossless(null_treatment_opt) && lossless(over_opt)),
{
    assert(tokens_of(ParseTree::FunctionCall(FunctionCall { name: Box::new(name), open_paren: Box::new(open_paren), set_quantifier_opt: Box::new(set_quantifier_opt), arguments: Box::new(arguments), order_by_opt: Box::new(order_by_opt), close_paren: Box::new(close_paren), filter_opt: Box::new(filter_opt), null_treatment_opt: Box::new(null_treatment_opt), over_opt: Box::new(over_opt) })) == tokens_of(name) + tokens_of(open_paren) + tokens_of(set_quantifier_opt) + tokens_of(arguments) + tokens_of(order_by_opt) + tokens_of(close_paren) + tokens_of(filter_opt) + tokens_of(null_treatment_opt) + tokens_of(over_opt)) by {
        reveal_with_fuel(tokens_of, 1);
    }
    assert(tree_wf(ParseTree::FunctionCall(FunctionCall { name: Box::new(name), open_paren: Box::new(open_paren), set_quantifier_opt: Box::new(set_quantifier_opt), arguments: Box::new(arguments), order_by_opt: Box::new(order_by_opt), close_paren: Box::new(close_paren), filter_opt: Box::new(filter_opt), null_treatment_opt: Box::new(null_treatment_opt), over_opt: Box::new(over_opt) })) == (tree_wf(name) && tree_wf(open_paren) && tree_wf(set_quantifier_opt) && tree_wf(arguments) && tree_wf(order_by_opt) && tree_wf(close_paren) && tree_wf(filter_opt) && tree_wf(null_treatment_opt) && tree_wf(over_opt))) by {
        reveal_with_fuel(tree_wf, 1);
    }
    assert(lossless(ParseTree::FunctionCall(FunctionCall { name: Box::new(name), open_paren: Box::new(open_paren), set_quantifier_opt: Box::new(set_quantifier_opt), arguments: Box::new(arguments), order_by_opt: Box::new(order_by_opt), close_paren: Box::new(close_paren), filter_opt: Box::new(filter_opt), null_treatment_opt: Box::new(null_treatment_opt), over_opt: Box::new(over_opt) })) == (lossless(name) && lossless(open_paren) && lossless(set_quantifier_opt) && lossless(arguments) && lossless(order_by_opt) && lossless(close_paren) && lossless(filter_opt) && lossless(null_treatment_opt) && lossless(over_opt))) by {
        reveal_with_fuel(lossless, 1);
    }
    ParseTree::FunctionCall(FunctionCall { name: Box::new(name), open_paren: Box::new(open_paren), set_quantifier_opt: Box::new(set_quantifier_opt), arguments: Box::new(arguments), order_by_opt: Box::new(order_by_opt), close_paren: Box::new(close_paren), filter_opt: Box::new(filter_opt), null_treatment_opt: Box::new(null_treatment_opt), over_opt: Box::new(over_opt) })
}

impl<'a> FunctionCall<'a> {
    pub fn to_tree(self) -> (r: ParseTree<'a>)
        ensures
            r == ParseTree::FunctionCall(self),
    {
        ParseTree::FunctionCall(self)
    }

    pub fn children(&self) -> (r: Vec<&ParseTree<'a>>)
        ensures
            deref_seq(r@) == children_of(ParseTree::FunctionCall(*self)),
    {
        let mut result: Vec<&ParseTree<'a>> = Vec::new();
        result.push(&*self.name);
        result.push(&*self.open_paren);
        result.push(&*self.set_quantifier_opt);
        result.push(&*self.arguments);
        result.push(&*self.order_by_opt);
        result.push(&*self.close_paren);
        result.push(&*self.filter_opt);
        result.push(&*self.null_treatment_opt);
        result.push(&*self.over_opt);
        assert(deref_seq(result@) =~= children_of(ParseTree::FunctionCall(*self)));
        result
    }

    pub fn unbox(self) -> (r: (ParseTree<'a>, ParseTree<'a>, ParseTree<'a>, ParseTree<'a>, ParseTree<'a>, ParseTree<'a>, ParseTree<'a>, ParseTree<'a>, ParseTree<'a>))
        ensures
            r == (*self.name, *self.open_paren, *self.set_quantifier_opt, *self.arguments, *self.order_by_opt, *self.close_paren, *self.filter_opt, *self.null_treatment_opt, *self.over_opt),
    {
        (*self.name, *self.open_paren, *self.set_quantifier_opt, *self.arguments, *self.order_by_opt, *self.close_paren, *self.filter_opt, *self.null_treatment_opt, *self.over_opt)
    }

    pub fn get_first_child(&self) -> (r: &ParseTree<'a>)
        ensures
            *r == *self.name,
    {
        &self.name
    }

    pub fn get_last_child(&self) -> (r: &ParseTree<'a>)
        ensures
            *r == *self.over_opt,
    {
        &self.over_opt
    }

    pub fn get_first_token(&self) -> (r: Option<&token::Token<'a>>)
        ensures
            deref_opt(r) == first_of(tokens_of(ParseTree::FunctionCall(*self))),
        decreases *self, 0nat,
    {
        assert(tokens_of(ParseTree::FunctionCall(*self)) == tokens_of(*self.name) + tokens_of(*self.open_paren) + tokens_of(*self.set_quantifier_opt) + tokens_of(*self.arguments) + tokens_of(*self.order_by_opt) + tokens_of(*self.close_paren) + tokens_of(*self.filter_opt) + tokens_of(*self.null_treatment_opt) + tokens_of(*self.over_opt)) by {
            reveal_with_fuel(tokens_of, 1);
        }
        if let Some(token) = self.name.get_first_token() {
            return Some(token);
        }
        if let Some(token) = self.open_paren.get_first_token() {
            return Some(token);
        }
        if let Some(token) = self.set_quantifier_opt.get_first_token() {
            return Some(token);
        }
        if let Some(token) = self.arguments.get_first_token() {
            return Some(token);
        }
        if let Some(token) = self.order_by_opt.get_first_token() {
            return Some(token);
        }
        if let Some(token) = self.close_paren.get_first_token() {
            return Some(token);
        }
        if let Some(token) = self.filter_opt.get_first_token() {
            return Some(token);
        }
        if let Some(token) = self.null_treatment_opt.get_first_token() {
            return Some(token);
        }
        if let Some(token) = self.over_opt.get_first_token() {
            return Some(token);
        }
        None
    }

    pub fn get_last_token(&self) -> (r: Option<&token::Token<'a>>)
        ensures
            deref_opt(r) == last_of(tokens_of(ParseTree::FunctionCall(*self))),
        decreases *self, 0nat,
    {
        assert(tokens_of(ParseTree::FunctionCall(*self)) == tokens_of(*self.name) + tokens_of(*self.open_paren) + tokens_of(*self.set_quantifier_opt) + tokens_of(*self.arguments) + tokens_of(*self.order_by_opt) + tokens_of(*self.close_paren) + tokens_of(*self.filter_opt) + tokens_of(*self.null_treatment_opt) + tokens_of(*self.over_opt)) by {
            reveal_with_fuel(tokens_of, 1);
        }
        if let Some(token) = self.over_opt.get_last_token() {
            return Some(token);
        }
        if let Some(token) = self.null_treatment_opt.get_last_token() {
            return Some(token);
        }
        if let Some(token) = self.filter_opt.get_last_token() {
            return Some(token);
        }
        if let Some(token) = self.close_paren.get_last_token() {
            return Some(token);
        }
        if let Some(token) = self.order_by_opt.get_last_token() {
            return Some(token);
        }
        if let Some(token) = self.arguments.get_last_token() {
            return Some(token);
        }
        if let Some(token) = self.set_quantifier_opt.get_last_token() {
            return Some(token);
        }
        if let Some(token) = self.open_paren.get_last_token() {
            return Some(token);
        }
        if let Some(token) = self.name.get_last_token() {
            return Some(token);
        }
        None
    }
}

#[derive(Debug)]
pub struct Filter<'a> {
    pub filter: Box<ParseTree<'a>>,
    pub open_paren: Box<ParseTree<'a>>,
    pub where_: Box<ParseTree<'a>>,
    pub predicate: Box<ParseTree<'a>>,
    pub close_paren: Box<ParseTree<'a>>,
}

pub fn filter<'a>(
    filter_tree: ParseTree<'a>,
    open_paren: ParseTree<'a>,
    where_: ParseTree<'a>,
    predicate: ParseTree<'a>,
    close_paren: ParseTree<'a>,
) -> (r: ParseTree<'a>)
    ensures
        r == ParseTree::Filter(Filter { filter: Box::new(filter_tree), open_paren: Box::new(open_paren), where_: Box::new(where_), predicate: Box::new(predicate), close_paren: Box::new(close_paren) }),
        tokens_of(r) == tokens_of(filter_tree) + tokens_of(open_paren) + tokens_of(where_) + tokens_of(predicate) + tokens_of(close_paren),
        tree_wf(r) == (tree_wf(filter_tree) && tree_wf(open_paren) && tree_wf(where_) && tree_wf(predicate) && tree_wf(close_paren)),
        lossless(r) == (lossless(filter_tree) && lossless(open_paren) && lossless(where_) && lossless(predicate) && lossless(close_paren)),
{
    assert(tokens_of(ParseTree::Filter(Filter { filter: Box::new(filter_tree), open_paren: Box::new(open_paren), where_: Box::new(where_), predicate: Box::new(predicate), close_paren: Box::new(close_paren) })) == tokens_of(filter_tree) + tokens_of(open_paren) + tokens_of(where_) + tokens_of(predicate) + tokens_of(close_paren)) by {
        reveal_with_fuel(tokens_of, 1);
    }
    assert(tree_wf(ParseTree::Filter(Filter { filter: Box::new(filter_tree), open_paren: Box::new(open_paren), where_: Box::new(where_), predicate: Box::new(predicate), close_paren: Box::new(close_paren) })) == (tree_wf(filter_tree) && tree_wf(open_paren) && tree_wf(where_) && tree_wf(predicate) && tree_wf(close_paren))) by {
        reveal_with_fuel(tree_wf, 1);
    }
    assert(lossless(ParseTree::Filter(Filter { filter: Box::new(filter_tree), open_paren: Box::new(open_paren), where_: Box::new(where_), predicate: Box::new(predicate), close_paren: Box::new(close_paren) })) == (lossless(filter_tree) && lossless(open_paren) && lossless(where_) && lossless(predicate) && lossless(close_paren))) by {
        reveal_with_fuel(lossless, 1);
    }
    ParseTree::Filter(Filter { filter: Box::new(filter_tree), open_paren: Box::new(open_paren), where_: Box::new(where_), predicate: Box::new(predicate), close_paren: Box::new(close_paren) })
}

impl<'a> Filter<'a> {
    pub fn to_tree(self) -> (r: ParseTree<'a>)
        ensures
            r == ParseTree::Filter(self),
    {
        ParseTree::Filter(self)
    }

    pub fn children(&self) -> (r: Vec<&ParseTree<'a>>)
        ensures
            deref_seq(r@) == children_of(ParseTree::Filter(*self)),
    {
        let mut result: Vec<&ParseTree<'a>> = Vec::new();
        result.push(&*self.filter);
        result.push(&*self.open_paren);
        result.push(&*self.where_);
        result.push(&*self.predicate);
        result.push(&*self.close_paren);
        assert(deref_seq(result@) =~= children_of(ParseTree::Filter(*self)));
        result
    }

    pub fn unbox(self) -> (r: (ParseTree<'a>, ParseTree<'a>, ParseTree<'a>, ParseTree<'a>, ParseTree<'a>))
        ensures
            r == (*self.filter, *self.open_paren, *self.where_, *self.predicate, *self.close_paren),
    {
        (*self.filter, *self.open_paren, *self.where_, *self.predicate, *self.close_paren)
    }

    pub fn get_first_child(&self) -> (r: &ParseTree<'a>)
        ensures
            *r == *self.filter,
    {
        &self.filter
    }

    pub fn get_last_child(&self) -> (r: &ParseTree<'a>)
        ensures
            *r == *self.close_paren,
    {
        &self.close_paren
    }

    pub fn get_first_token(&self) -> (r: Option<&token::Token<'a>>)
        ensures
            deref_opt(r) == first_of(tokens_of(ParseTree::Filter(*self))),
        decreases *self, 0nat,
    {
        assert(tokens_of(ParseTree::Filter(*self)) == tokens_of(*self.filter) + tokens_of(*self.open_paren) + tokens_of(*self.where_) + tokens_of(*self.predicate) + tokens_of(*self.close_paren)) by {
            reveal_with_fuel(tokens_of, 1);
        }
        if let Some(token) = self.filter.get_first_token() {
            return Some(token);
        }
        if let Some(token) = self.open_paren.get_first_token() {
            return Some(token);
        }
        if let Some(token) = self.where_.get_first_token() {
            return Some(token);
        }
        if let Some(token) = self.predicate.get_first_token() {
            return Some(token);
        }
        if let Some(token) = self.close_paren.get_first_token() {
            return Some(token);
        }
        None
    }

    pub fn get_last_token(&self) -> (r: Option<&token::Token<'a>>)
        ensures
            deref_opt(r) == last_of(tokens_of(ParseTree::Filter(*self))),
        decreases *self, 0nat,
    {
        assert(tokens_of(ParseTree::Filter(*self)) == tokens_of(*self.filter) + tokens_of(*self.open_paren) + tokens_of(*self.where_) + tokens_of(*self.predicate) + tokens_of(*self.close_paren)) by {
            reveal_with_fuel(tokens_of, 1);
        }
        if let Some(token) = self.close_paren.get_last_token() {
            return Some(token);
        }
        if let Some(token) = self.predicate.get_last_token() {
            return Some(token);
        }
        if let Some(token) = self.where_.get_last_token() {
            return Some(token);
        }
        if let Some(token) = self.open_paren.get_last_token() {
            return Some(token);
        }
        if let Some(token) = self.filter.get_last_token() {
            return Some(token);
        }
        None
    }
}

#[derive(Debug)]
pub struct Over<'a> {
    pub over: Box<ParseTree<'a>>,
    pub open_paren: Box<ParseTree<'a>>,
    pub partition_opt: Box<ParseTree<'a>>,
    pub by: Box<ParseTree<'a>>,
    pub partitions: Box<ParseTree<'a>>,
    pub order_by_opt: Box<ParseTree<'a>>,
    pub window_frame: Box<ParseTree<'a>>,
    pub close_paren: Box<ParseTree<'a>>,
}

pub fn over<'a>(
    over_tree: ParseTree<'a>,
    open_paren: ParseTree<'a>,
    partition_opt: ParseTree<'a>,
    by: ParseTree<'a>,
    partitions: ParseTree<'a>,
    order_by_opt: ParseTree<'a>,
    window_frame: ParseTree<'a>,
    close_paren: ParseTree<'a>,
) -> (r: ParseTree<'a>)
    ensures
        r == ParseTree::Over(Over { over: Box::new(over_tree), open_paren: Box::new(open_paren), partition_opt: Box::new(partition_opt), by: Box::new(by), partitions: Box::new(partitions), order_by_opt: Box::new(order_by_opt), window_frame: Box::new(window_frame), close_paren: Box::new(close_paren) }),
        tokens_of(r) == tokens_of(over_tree) + tokens_of(open_paren) + tokens_of(partition_opt) + tokens_of(by) + tokens_of(partitions) + tokens_of(order_by_opt) + tokens_of(window_frame) + tokens_of(close_paren),
        tree_wf(r) == (tree_wf(over_tree) && tree_wf(open_paren) && tree_wf(partition_opt) && tree_wf(by) && tree_wf(partitions) && tree_wf(order_by_opt) && tree_wf(window_frame) && tree_wf(close_paren)),
        lossless(r) == (lossless(over_tree) && lossless(open_paren) && lossless(partition_opt) && lossless(by) && lossless(partitions) && lossless(order_by_opt) && lossless(window_frame) && lossless(close_paren)),
{
    assert(tokens_of(ParseTree::Over(Over { over: Box::new(over_tree), open_paren: Box::new(open_paren), partition_opt: Box::new(partition_opt), by: Box::new(by), partitions: Box::new(partitions), order_by_opt: Box::new(order_by_opt), window_frame: Box::new(window_frame), close_paren: Box::new(close_paren) })) == tokens_of(over_tree) + tokens_of(open_paren) + tokens_of(partition_opt) + tokens_of(by) + tokens_of(partitions) + tokens_of(order_by_opt) + tokens_of(window_frame) + tokens_of(close_paren)) by {
        reveal_with_fuel(tokens_of, 1);
    }
    assert(tree_wf(ParseTree::Over(Over { over: Box::new(over_tree), open_paren: Box::new(open_paren), partition_opt: Box::new(partition_opt), by: Box::new(by), partitions: Box::new(partitions), order_by_opt: Box::new(order_by_opt), window_frame: Box::new(window_frame), close_paren: Box::new(close_paren) })) == (tree_wf(over_tree) && tree_wf(open_paren) && tree_wf(partition_opt) && tree_wf(by) && tree_wf(partitions) && tree_wf(order_by_opt) && tree_wf(window_frame) && tree_wf(close_paren))) by {
        reveal_with_fuel(tree_wf, 1);
    }
    assert(lossless(ParseTree::Over(Over { over: Box::new(over_tree), open_paren: Box::new(open_paren), partition_opt: Box::new(partition_opt), by: Box::new(by), partitions: Box::new(partitions), order_by_opt: Box::new(order_by_opt), window_frame: Box::new(window_frame), close_paren: Box::new(close_paren) })) == (lossless(over_tree) && lossless(open_paren) && lossless(partition_opt) && lossless(by) && lossless(partitions) && lossless(order_by_opt) && lossless(window_frame) && lossless(close_paren))) by {
        reveal_with_fuel(lossless, 1);
    }
    ParseTree::Over(Over { over: Box::new(over_tree), open_paren: Box::new(open_paren), partition_opt: Box::new(partition_opt), by: Box::new(by), partitions: Box::new(partitions), order_by_opt: Box::new(order_by_opt), window_frame: Box::new(window_frame), close_paren: Box::new(close_paren) })
}

impl<'a> Over<'a> {
    pub fn to_tree(self) -> (r: ParseTree<'a>)
        ensures
            r == ParseTree::Over(self),
    {
        ParseTree::Over(self)
    }

    pub fn children(&self) -> (r: Vec<&ParseTree<'a>>)
        ensures
            deref_seq(r@) == children_of(ParseTree::Over(*self)),
    {
        let mut result: Vec<&ParseTree<'a>> = Vec::new();
        result.push(&*self.over);
        result.push(&*self.open_paren);
        result.push(&*self.partition_opt);
        result.push(&*self.by);
        result.push(&*self.partitions);
        result.push(&*self.order_by_opt);
        result.push(&*self.window_frame);
        result.push(&*self.close_paren);
        assert(deref_seq(result@) =~= children_of(ParseTree::Over(*self)));
        result
    }

    pub fn unbox(self) -> (r: (ParseTree<'a>, ParseTree<'a>, ParseTree<'a>, ParseTree<'a>, ParseTree<'a>, ParseTree<'a>, ParseTree<'a>, ParseTree<'a>))
        ensures
            r == (*self.over, *self.open_paren, *self.partition_opt, *self.by, *self.partitions, *self.order_by_opt, *self.window_frame, *self.close_paren),
    {
        (*self.over, *self.open_paren, *self.partition_opt, *self.by, *self.partitions, *self.order_by_opt, *self.window_frame, *self.close_paren)
    }

    pub fn get_first_child(&self) -> (r: &ParseTree<'a>)
        ensures
            *r == *self.over,
    {
        &self.over
    }

    pub fn get_last_child(&self) -> (r: &ParseTree<'a>)
        ensures
            *r == *self.close_paren,
    {
        &self.close_paren
    }

    pub fn get_first_token(&self) -> (r: Option<&token::Token<'a>>)
        ensures
            deref_opt(r) == first_of(tokens_of(ParseTree::Over(*self))),
        decreases *self, 0nat,
    {
        assert(tokens_of(ParseTree::Over(*self)) == tokens_of(*self.over) + tokens_of(*self.open_paren) + tokens_of(*self.partition_opt) + tokens_of(*self.by) + tokens_of(*self.partitions) + tokens_of(*self.order_by_opt) + tokens_of(*self.window_frame) + tokens_of(*self.close_paren)) by {
            reveal_with_fuel(tokens_of, 1);
        }
        if let Some(token) = self.over.get_first_token() {
            return Some(token);
        }
        if let Some(token) = self.open_paren.get_first_token() {
            return Some(token);
        }
        if let Some(token) = self.partition_opt.get_first_token() {
            return Some(token);
        }
        if let Some(token) = self.by.get_first_token() {
            return Some(token);
        }
        if let Some(token) = self.partitions.get_first_token() {
            return Some(token);
        }
        if let Some(token) = self.order_by_opt.get_first_token() {
            return Some(token);
        }
        if let Some(token) = self.window_frame.get_first_token() {
            return Some(token);
        }
        if let Some(token) = self.close_paren.get_first_token() {
            return Some(token);
        }
        None
    }

    pub fn get_last_token(&self) -> (r: Option<&token::Token<'a>>)
        ensures
            deref_opt(r) == last_of(tokens_of(ParseTree::Over(*self))),
        decreases *self, 0nat,
    {
        assert(tokens_of(ParseTree::Over(*self)) == tokens_of(*self.over) + tokens_of(*self.open_paren) + tokens_of(*self.partition_opt) + tokens_of(*self.by) + tokens_of(*self.partitions) + tokens_of(*self.order_by_opt) + tokens_of(*self.window_frame) + tokens_of(*self.close_paren)) by {
            reveal_with_fuel(tokens_of, 1);
        }
        if let Some(token) = self.close_paren.get_last_token() {
            return Some(token);
        }
        if let Some(token) = self.window_frame.get_last_token() {
            return Some(token);
        }
        if let Some(token) = self.order_by_opt.get_last_token() {
            return Some(token);
        }
        if let Some(token) = self.partitions.get_last_token() {
            return Some(token);
        }
        if let Some(token) = self.by.get_last_token() {
            return Some(token);
        }
        if let Some(token) = self.partition_opt.get_last_token() {
            return Some(token);
        }
        if let Some(token) = self.open_paren.get_last_token() {
            return Some(token);
        }
        if let Some(token) = self.over.get_last_token() {
            return Some(token);
        }
        None
    }
}

#[derive(Debug)]
pub struct WindowFrame<'a> {
    pub frame_type: Box<ParseTree<'a>>,
    pub between_opt: Box<ParseTree<'a>>,
    pub start: Box<ParseTree<'a>>,
    pub and: Box<ParseTree<'a>>,
    pub end: Box<ParseTree<'a>>,
}

pub fn window_frame<'a>(
    frame_type: ParseTree<'a>,
    between_opt: ParseTree<'a>,
    start: ParseTree<'a>,
    and: ParseTree<'a>,
    end: ParseTree<'a>,
) -> (r: ParseTree<'a>)
    ensures
        r == ParseTree::WindowFrame(WindowFrame { frame_type: Box::new(frame_type), between_opt: Box::new(between_opt), start: Box::new(start), and: Box::new(and), end: Box::new(end) }),
        tokens_of(r) == tokens_of(frame_type) + tokens_of(between_opt) + tokens_of(start) + tokens_of(and) + tokens_of(end),
        tree_wf(r) == (tree_wf(frame_type) && tree_wf(between_opt) && tree_wf(start) && tree_wf(and) && tree_wf(end)),
        lossless(r) == (lossless(frame_type) && lossless(between_opt) && lossless(start) && lossless(and) && lossless(end)),
{
    assert(tokens_of(ParseTree::WindowFrame(WindowFrame { frame_type: Box::new(frame_type), between_opt: Box::new(between_opt), start: Box::new(start), and: Box::new(and), end: Box::new(end) })) == tokens_of(frame_type) + tokens_of(between_opt) + tokens_of(start) + tokens_of(and) + tokens_of(end)) by {
        reveal_with_fuel(tokens_of, 1);
    }
    assert(tree_wf(ParseTree::WindowFrame(WindowFrame { frame_type: Box::new(frame_type), between_opt: Box::new(between_opt), start: Box::new(start), and: Box::new(and), end: Box::new(end) })) == (tree_wf(frame_type) && tree_wf(between_opt) && tree_wf(start) && tree_wf(and) && tree_wf(end))) by {
        reveal_with_fuel(tree_wf, 1);
    }
    assert(lossless(ParseTree::WindowFrame(WindowFrame { frame_type: Box::new(frame_type), between_opt: Box::new(between_opt), start: Box::new(start), and: Box::new(and), end: Box::new(end) })) == (lossless(frame_type) && lossless(between_opt) && lossless(start) && lossless(and) && lossless(end))) by {
        reveal_with_fuel(lossless, 1);
    }
    ParseTree::WindowFrame(WindowFrame { frame_type: Box::new(frame_type), between_opt: Box::new(between_opt), start: Box::new(start), and: Box::new(and), end: Box::new(end) })
}

impl<'a> WindowFrame<'a> {
    pub fn to_tree(self) -> (r: ParseTree<'a>)
        ensures
            r == ParseTree::WindowFrame(self),
    {
        ParseTree::WindowFrame(self)
    }

    pub fn children(&self) -> (r: Vec<&ParseTree<'a>>)
        ensures
            deref_seq(r@) == children_of(ParseTree::WindowFrame(*self)),
    {
        let mut result: Vec<&ParseTree<'a>> = Vec::new();
        result.push(&*self.frame_type);
        result.push(&*self.between_opt);
        result.push(&*self.start);
        result.push(&*self.and);
        result.push(&*self.end);
        assert(deref_seq(result@) =~= children_of(ParseTree::WindowFrame(*self)));
        result
    }

    pub fn unbox(self) -> (r: (ParseTree<'a>, ParseTree<'a>, ParseTree<'a>, ParseTree<'a>, ParseTree<'a>))
        ensures
            r == (*self.frame_type, *self.between_opt, *self.start, *self.and, *self.end),
    {
        (*self.frame_type, *self.between_opt, *self.start, *self.and, *self.end)
    }

    pub fn get_first_child(&self) -> (r: &ParseTree<'a>)
        ensures
            *r == *self.frame_type,
    {
        &self.frame_type
    }

    pub fn get_last_child(&self) -> (r: &ParseTree<'a>)
        ensures
            *r == *self.end,
    {
        &self.end
    }

    pub fn get_first_token(&self) -> (r: Option<&token::Token<'a>>)
        ensures
            deref_opt(r) == first_of(tokens_of(ParseTree::WindowFrame(*self))),
        decreases *self, 0nat,
    {
        assert(tokens_of(ParseTree::WindowFrame(*self)) == tokens_of(*self.frame_type) + tokens_of(*self.between_opt) + tokens_of(*self.start) + tokens_of(*self.and) + tokens_of(*self.end)) by {
            reveal_with_fuel(tokens_of, 1);
        }
        if let Some(token) = self.frame_type.get_first_token() {
            return Some(token);
        }
        if let Some(token) = self.between_opt.get_first_token() {
            return Some(token);
        }
        if let Some(token) = self.start.get_first_token() {
            return Some(token);
        }
        if let Some(token) = self.and.get_first_token() {
            return Some(token);
        }
        if let Some(token) = self.end.get_first_token() {
            return Some(token);
        }
        None
    }

    pub fn get_last_token(&self) -> (r: Option<&token::Token<'a>>)
        ensures
            deref_opt(r) == last_of(tokens_of(ParseTree::WindowFrame(*self))),
        decreases *self, 0nat,
    {
        assert(tokens_of(ParseTree::WindowFrame(*self)) == tokens_of(*self.frame_type) + tokens_of(*self.between_opt) + tokens_of(*self.start) + tokens_of(*self.and) + tokens_of(*self.end)) by {
            reveal_with_fuel(tokens_of, 1);
        }
        if let Some(token) = self.end.get_last_token() {
            return Some(token);
        }
        if let Some(token) = self.and.get_last_token() {
            return Some(token);
        }
        if let Some(token) = self.start.get_last_token() {
            return Some(token);
        }
        if let Some(token) = self.between_opt.get_last_token() {
            return Some(token);
        }
        if let Some(token) = self.frame_type.get_last_token() {
            return Some(token);
        }
        None
    }
}

#[derive(Debug)]
pub struct UnboundedFrame<'a> {
    pub unbounded: Box<ParseTree<'a>>,
    pub bound_type: Box<ParseTree<'a>>,
}

pub fn unbounded_frame<'a>(
    unbounded: ParseTree<'a>,
    bound_type: ParseTree<'a>,
) -> (r: ParseTree<'a>)
    ensures
        r == ParseTree::UnboundedFrame(UnboundedFrame { unbounded: Box::new(unbounded), bound_type: Box::new(bound_type) }),
        tokens_of(r) == tokens_of(unbounded) + tokens_of(bound_type),
        tree_wf(r) == (tree_wf(unbounded) && tree_wf(bound_type)),
        lossless(r) == (lossless(unbounded) && lossless(bound_type)),
{
    assert(tokens_of(ParseTree::UnboundedFrame(UnboundedFrame { unbounded: Box::new(unbounded), bound_type: Box::new(bound_type) })) == tokens_of(unbounded) + tokens_of(bound_type)) by {
        reveal_with_fuel(tokens_of, 1);
    }
    assert(tree_wf(ParseTree::UnboundedFrame(UnboundedFrame { unbounded: Box::new(unbounded), bound_type: Box::new(bound_type) })) == (tree_wf(unbounded) && tree_wf(bound_type))) by {
        reveal_with_fuel(tree_wf, 1);
    }
    assert(lossless(ParseTree::UnboundedFrame(UnboundedFrame { unbounded: Box::new(unbounded), bound_type: Box::new(bound_type) })) == (lossless(unbounded) && lossless(bound_type))) by {
        reveal_with_fuel(lossless, 1);
    }
    ParseTree::UnboundedFrame(UnboundedFrame { unbounded: Box::new(unbounded), bound_type: Box::new(bound_type) })
}

impl<'a> UnboundedFrame<'a> {
    pub fn to_tree(self) -> (r: ParseTree<'a>)
        ensures
            r == ParseTree::UnboundedFrame(self),
    {
        ParseTree::UnboundedFrame(self)
    }

    pub fn children(&self) -> (r: Vec<&ParseTree<'a>>)
        ensures
            deref_seq(r@) == children_of(ParseTree::UnboundedFrame(*self)),
    {
        let mut result: Vec<&ParseTree<'a>> = Vec::new();
        result.push(&*self.unbounded);
        result.push(&*self.bound_type);
        assert(deref_seq(result@) =~= children_of(ParseTree::UnboundedFrame(*self)));
        result
    }

    pub fn unbox(self) -> (r: (ParseTree<'a>, ParseTree<'a>))
        ensures
            r == (*self.unbounded, *self.bound_type),
    {
        (*self.unbounded, *self.bound_type)
    }

    pub fn get_first_child(&self) -> (r: &ParseTree<'a>)
        ensures
            *r == *self.unbounded,
    {
        &self.unbounded
    }

    pub fn get_last_child(&self) -> (r: &ParseTree<'a>)
        ensures
            *r == *self.bound_type,
    {
        &self.bound_type
    }

    pub fn get_first_token(&self) -> (r: Option<&token::Token<'a>>)
        ensures
            deref_opt(r) == first_of(tokens_of(ParseTree::UnboundedFrame(*self))),
        decreases *self, 0nat,
    {
        assert(tokens_of(ParseTree::UnboundedFrame(*self)) == tokens_of(*self.unbounded) + tokens_of(*self.bound_type)) by {
            reveal_with_fuel(tokens_of, 1);
        }
        if let Some(token) = self.unbounded.get_first_token() {
            return Some(token);
        }
        if let Some(token) = self.bound_type.get_first_token() {
            return Some(token);
        }
        None
    }

    pub fn get_last_token(&self) -> (r: Option<&token::Token<'a>>)
        ensures
            deref_opt(r) == last_of(tokens_of(ParseTree::UnboundedFrame(*self))),
        decreases *self, 0nat,
    {
        assert(tokens_of(ParseTree::UnboundedFrame(*self)) == tokens_of(*self.unbounded) + tokens_of(*self.bound_type)) by {
            reveal_with_fuel(tokens_of, 1);
        }
        if let Some(token) = self.bound_type.get_last_token() {
            return Some(token);
        }
        if let Some(token) = self.unbounded.get_last_token() {
            return Some(token);
        }
        None
    }
}

#[derive(Debug)]
pub struct CurrentRowBound<'a> {
    pub current: Box<ParseTree<'a>>,
    pub row: Box<ParseTree<'a>>,
}

pub fn current_row_bound<'a>(
    current: ParseTree<'a>,
    row: ParseTree<'a>,
) -> (r: ParseTree<'a>)
    ensures
        r == ParseTree::CurrentRowBound(CurrentRowBound { current: Box::new(current), row: Box::new(row) }),
        tokens_of(r) == tokens_of(current) + tokens_of(row),
        tree_wf(r) == (tree_wf(current) && tree_wf(row)),
        lossless(r) == (lossless(current) && lossless(row)),
{
    assert(tokens_of(ParseTree::CurrentRowBound(CurrentRowBound { current: Box::new(current), row: Box::new(row) })) == tokens_of(current) + tokens_of(row)) by {
        reveal_with_fuel(tokens_of, 1);
    }
    assert(tree_wf(ParseTree::CurrentRowBound(CurrentRowBound { current: Box::new(current), row: Box::new(row) })) == (tree_wf(current) && tree_wf(row))) by {
        reveal_with_fuel(tree_wf, 1);
    }
    assert(lossless(ParseTree::CurrentRowBound(CurrentRowBound { current: Box::new(current), row: Box::new(row) })) == (lossless(current) && lossless(row))) by {
        reveal_with_fuel(lossless, 1);
    }
    ParseTree::CurrentRowBound(CurrentRowBound { current: Box::new(current), row: Box::new(row) })
}

impl<'a> CurrentRowBound<'a> {
    pub fn to_tree(self) -> (r: ParseTree<'a>)
        ensures
            r == ParseTree::CurrentRowBound(self),
    {
        ParseTree::CurrentRowBound(self)
    }

    pub fn children(&self) -> (r: Vec<&ParseTree<'a>>)
        ensures
            deref_seq(r@) == children_of(ParseTree::CurrentRowBound(*self)),
    {
        let mut result: Vec<&ParseTree<'a>> = Vec::new();
        result.push(&*self.current);
        result.push(&*self.row);
        assert(deref_seq(result@) =~= children_of(ParseTree::CurrentRowBound(*self)));
        result
    }

    pub fn unbox(self) -> (r: (ParseTree<'a>, ParseTree<'a>))
        ensures
            r == (*self.current, *self.row),
    {
        (*self.current, *self.row)
    }

    pub fn get_first_child(&self) -> (r: &ParseTree<'a>)
        ensures
            *r == *self.current,
    {
        &self.current
    }

    pub fn get_last_child(&self) -> (r: &ParseTree<'a>)
        ensures
            *r == *self.row,
    {
        &self.row
    }

    pub fn get_first_token(&self) -> (r: Option<&token::Token<'a>>)
        ensures
            deref_opt(r) == first_of(tokens_of(ParseTree::CurrentRowBound(*self))),
        decreases *self, 0nat,
    {
        assert(tokens_of(ParseTree::CurrentRowBound(*self)) == tokens_of(*self.current) + tokens_of(*self.row)) by {
            reveal_with_fuel(tokens_of, 1);
        }
        if let Some(token) = self.current.get_first_token() {
            return Some(token);
        }
        if let Some(token) = self.row.get_first_token() {
            return Some(token);
        }
        None
    }

    pub fn get_last_token(&self) -> (r: Option<&token::Token<'a>>)
        ensures
            deref_opt(r) == last_of(tokens_of(ParseTree::CurrentRowBound(*self))),
        decreases *self, 0nat,
    {
        assert(tokens_of(ParseTree::CurrentRowBound(*self)) == tokens_of(*self.current) + tokens_of(*self.row)) by {
            reveal_with_fuel(tokens_of, 1);
        }
        if let Some(token) = self.row.get_last_token() {
            return Some(token);
        }
        if let Some(token) = self.current.get_last_token() {
            return Some(token);
        }
        None
    }
}

#[derive(Debug)]
pub struct BoundedFrame<'a> {
    pub bound: Box<ParseTree<'a>>,
    pub bound_type: Box<ParseTree<'a>>,
}

pub fn bounded_frame<'a>(
    bound: ParseTree<'a>,
    bound_type: ParseTree<'a>,
) -> (r: ParseTree<'a>)
    ensures
        r == ParseTree::BoundedFrame(BoundedFrame { bound: Box::new(bound), bound_type: Box::new(bound_type) }),
        tokens_of(r) == tokens_of(bound) + tokens_of(bound_type),
        tree_wf(r) == (tree_wf(bound) && tree_wf(bound_type)),
        lossless(r) == (lossless(bound) && lossless(bound_type)),
{
    assert(tokens_of(ParseTree::BoundedFrame(BoundedFrame { bound: Box::new(bound), bound_type: Box::new(bound_type) })) == tokens_of(bound) + tokens_of(bound_type)) by {
        reveal_with_fuel(tokens_of, 1);
    }
    assert(tree_wf(ParseTree::BoundedFrame(BoundedFrame { bound: Box::new(bound), bound_type: Box::new(bound_type) })) == (tree_wf(bound) && tree_wf(bound_type))) by {
        reveal_with_fuel(tree_wf, 1);
    }
    assert(lossless(ParseTree::BoundedFrame(BoundedFrame { bound: Box::new(bound), bound_type: Box::new(bound_type) })) == (lossless(bound) && lossless(bound_type))) by {
        reveal_with_fuel(lossless, 1);
    }
    ParseTree::BoundedFrame(BoundedFrame { bound: Box::new(bound), bound_type: Box::new(bound_type) })
}

impl<'a> BoundedFrame<'a> {
    pub fn to_tree(self) -> (r: ParseTree<'a>)
        ensures
            r == ParseTree::BoundedFrame(self),
    {
        ParseTree::BoundedFrame(self)
    }

    pub fn children(&self) -> (r: Vec<&ParseTree<'a>>)
        ensures
            deref_seq(r@) == children_of(ParseTree::BoundedFrame(*self)),
    {
        let mut result: Vec<&ParseTree<'a>> = Vec::new();
        result.push(&*self.bound);
        result.push(&*self.bound_type);
        assert(deref_seq(result@) =~= children_of(ParseTree::BoundedFrame(*self)));
        result
    }

    pub fn unbox(self) -> (r: (ParseTree<'a>, ParseTree<'a>))
        ensures
            r == (*self.bound, *self.bound_type),
    {
        (*self.bound, *self.bound_type)
    }

    pub fn get_first_child(&self) -> (r: &ParseTree<'a>)
        ensures
            *r == *self.bound,
    {
        &self.bound
    }

    pub fn get_last_child(&self) -> (r: &ParseTree<'a>)
        ensures
            *r == *self.bound_type,
    {
        &self.bound_type
    }

    pub fn get_first_token(&self) -> (r: Option<&token::Token<'a>>)
        ensures
            deref_opt(r) == first_of(tokens_of(ParseTree::BoundedFrame(*self))),
        decreases *self, 0nat,
    {
        assert(tokens_of(ParseTree::BoundedFrame(*self)) == tokens_of(*self.bound) + tokens_of(*self.bound_type)) by {
            reveal_with_fuel(tokens_of, 1);
        }
        if let Some(token) = self.bound.get_first_token() {
            return Some(token);
        }
        if let Some(token) = self.bound_type.get_first_token() {
            return Some(token);
        }
        None
    }

    pub fn get_last_token(&self) -> (r: Option<&token::Token<'a>>)
        ensures
            deref_opt(r) == last_of(tokens_of(ParseTree::BoundedFrame(*self))),
        decreases *self, 0nat,
    {
        assert(tokens_of(ParseTree::BoundedFrame(*self)) == tokens_of(*self.bound) + tokens_of(*self.bound_type)) by {
            reveal_with_fuel(tokens_of, 1);
        }
        if let Some(token) = self.bound_type.get_last_token() {
            return Some(token);
        }
        if let Some(token) = self.bound.get_last_token() {
            return Some(token);
        }
        None
    }
}

#[derive(Debug)]
pub struct UnicodeString<'a> {
    pub string: Box<ParseTree<'a>>,
    pub uescape_opt: Box<ParseTree<'a>>,
    pub escape: Box<ParseTree<'a>>,
}

pub fn unicode_string<'a>(
    string: ParseTree<'a>,
    uescape_opt: ParseTree<'a>,
    escape: ParseTree<'a>,
) -> (r: ParseTree<'a>)
    ensures
        r == ParseTree::UnicodeString(UnicodeString { string: Box::new(string), uescape_opt: Box::new(uescape_opt), escape: Box::new(escape) }),
        tokens_of(r) == tokens_of(string) + tokens_of(uescape_opt) + tokens_of(escape),
        tree_wf(r) == (tree_wf(string) && tree_wf(uescape_opt) && tree_wf(escape)),
        lossless(r) == (lossless(string) && lossless(uescape_opt) && lossless(escape)),
{
    assert(tokens_of(ParseTree::UnicodeString(UnicodeString { string: Box::new(string), uescape_opt: Box::new(uescape_opt), escape: Box::new(escape) })) == tokens_of(string) + tokens_of(uescape_opt) + tokens_of(escape)) by {
        reveal_with_fuel(tokens_of, 1);
    }
    assert(tree_wf(ParseTree::UnicodeString(UnicodeString { string: Box::new(string), uescape_opt: Box::new(uescape_opt), escape: Box::new(escape) })) == (tree_wf(string) && tree_wf(uescape_opt) && tree_wf(escape))) by {
        reveal_with_fuel(tree_wf, 1);
    }
    assert(lossless(ParseTree::UnicodeString(UnicodeString { string: Box::new(string), uescape_opt: Box::new(uescape_opt), escape: Box::new(escape) })) == (lossless(string) && lossless(uescape_opt) && lossless(escape))) by {
        reveal_with_fuel(lossless, 1);
    }
    ParseTree::UnicodeString(UnicodeString { string: Box::new(string), uescape_opt: Box::new(uescape_opt), escape: Box::new(escape) })
}

impl<'a> UnicodeString<'a> {
    pub fn to_tree(self) -> (r: ParseTree<'a>)
        ensures
            r == ParseTree::UnicodeString(self),
    {
        ParseTree::UnicodeString(self)
    }

    pub fn children(&self) -> (r: Vec<&ParseTree<'a>>)
        ensures
            deref_seq(r@) == children_of(ParseTree::UnicodeString(*self)),
    {
        let mut result: Vec<&ParseTree<'a>> = Vec::new();
        result.push(&*self.string);
        result.push(&*self.uescape_opt);
        result.push(&*self.escape);
        assert(deref_seq(result@) =~= children_of(ParseTree::UnicodeString(*self)));
        result
    }

    pub fn unbox(self) -> (r: (ParseTree<'a>, ParseTree<'a>, ParseTree<'a>))
        ensures
            r == (*self.string, *self.uescape_opt, *self.escape),
    {
        (*self.string, *self.uescape_opt, *self.escape)
    }

    pub fn get_first_child(&self) -> (r: &ParseTree<'a>)
        ensures
            *r == *self.string,
    {
        &self.string
    }

    pub fn get_last_child(&self) -> (r: &ParseTree<'a>)
        ensures
            *r == *self.escape,
    {
        &self.escape
    }

    pub fn get_first_token(&self) -> (r: Option<&token::Token<'a>>)
        ensures
            deref_opt(r) == first_of(tokens_of(ParseTree::UnicodeString(*self))),
        decreases *self, 0nat,
    {
        assert(tokens_of(ParseTree::UnicodeString(*self)) == tokens_of(*self.string) + tokens_of(*self.uescape_opt) + tokens_of(*self.escape)) by {
            reveal_with_fuel(tokens_of, 1);
        }
        if let Some(token) = self.string.get_first_token() {
            return Some(token);
        }
        if let Some(token) = self.uescape_opt.get_first_token() {
            return Some(token);
        }
        if let Some(token) = self.escape.get_first_token() {
            return Some(token);
        }
        None
    }

    pub fn get_last_token(&self) -> (r: Option<&token::Token<'a>>)
        ensures
            deref_opt(r) == last_of(tokens_of(ParseTree::UnicodeString(*self))),
        decreases *self, 0nat,
    {
        assert(tokens_of(ParseTree::UnicodeString(*self)) == tokens_of(*self.string) + tokens_of(*self.uescape_opt) + tokens_of(*self.escape)) by {
            reveal_with_fuel(tokens_of, 1);
        }
        if let Some(token) = self.escape.get_last_token() {
            return Some(token);
        }
        if let Some(token) = self.uescape_opt.get_last_token() {
            return Some(token);
        }
        if let Some(token) = self.string.get_last_token() {
            return Some(token);
        }
        None
    }
}

#[derive(Debug)]
pub struct ConfigureExpression<'a> {
    pub configure: Box<ParseTree<'a>>,
    pub open_paren: Box<ParseTree<'a>>,
    pub identifier: Box<ParseTree<'a>>,
    pub comma: Box<ParseTree<'a>>,
    pub value: Box<ParseTree<'a>>,
    pub close_paren: Box<ParseTree<'a>>,
}

pub fn configure_expression<'a>(
    configure: ParseTree<'a>,
    open_paren: ParseTree<'a>,
    identifier: ParseTree<'a>,
    comma: ParseTree<'a>,
    value: ParseTree<'a>,
    close_paren: ParseTree<'a>,
) -> (r: ParseTree<'a>)
    ensures
        r == ParseTree::ConfigureExpression(ConfigureExpression { configure: Box::new(configure), open_paren: Box::new(open_paren), identifier: Box::new(identifier), comma: Box::new(comma), value: Box::new(value), close_paren: Box::new(close_paren) }),
        tokens_of(r) == tokens_of(configure) + tokens_of(open_paren) + tokens_of(identifier) + tokens_of(comma) + tokens_of(value) + tokens_of(close_paren),
        tree_wf(r) == (tree_wf(configure) && tree_wf(open_paren) && tree_wf(identifier) && tree_wf(comma) && tree_wf(value) && tree_wf(close_paren)),
        lossless(r) == (lossless(configure) && lossless(open_paren) && lossless(identifier) && lossless(comma) && lossless(value) && lossless(close_paren)),
{
    assert(tokens_of(ParseTree::ConfigureExpression(ConfigureExpression { configure: Box::new(configure), open_paren: Box::new(open_paren), identifier: Box::new(identifier), comma: Box::new(comma), value: Box::new(value), close_paren: Box::new(close_paren) })) == tokens_of(configure) + tokens_of(open_paren) + tokens_of(identifier) + tokens_of(comma) + tokens_of(value) + tokens_of(close_paren)) by {
        reveal_with_fuel(tokens_of, 1);
    }
    assert(tree_wf(ParseTree::ConfigureExpression(ConfigureExpression { configure: Box::new(configure), open_paren: Box::new(open_paren), identifier: Box::new(identifier), comma: Box::new(comma), value: Box::new(value), close_paren: Box::new(close_paren) })) == (tree_wf(configure) && tree_wf(open_paren) && tree_wf(identifier) && tree_wf(comma) && tree_wf(value) && tree_wf(close_paren))) by {
        reveal_with_fuel(tree_wf, 1);
    }
    assert(lossless(ParseTree::ConfigureExpression(ConfigureExpression { configure: Box::new(configure), open_paren: Box::new(open_paren), identifier: Box::new(identifier), comma: Box::new(comma), value: Box::new(value), close_paren: Box::new(close_paren) })) == (lossless(configure) && lossless(open_paren) && lossless(identifier) && lossless(comma) && lossless(value) && lossless(close_paren))) by {
        reveal_with_fuel(lossless, 1);
    }
    ParseTree::ConfigureExpression(ConfigureExpression { configure: Box::new(configure), open_paren: Box::new(open_paren), identifier: Box::new(identifier), comma: Box::new(comma), value: Box::new(value), close_paren: Box::new(close_paren) })
}

impl<'a> ConfigureExpression<'a> {
    pub fn to_tree(self) -> (r: ParseTree<'a>)
        ensures
            r == ParseTree::ConfigureExpression(self),
    {
        ParseTree::ConfigureExpression(self)
    }

    pub fn children(&self) -> (r: Vec<&ParseTree<'a>>)
        ensures
            deref_seq(r@) == children_of(ParseTree::ConfigureExpression(*self)),
    {
        let mut result: Vec<&ParseTree<'a>> = Vec::new();
        result.push(&*self.configure);
        result.push(&*self.open_paren);
        result.push(&*self.identifier);
        result.push(&*self.comma);
        result.push(&*self.value);
        result.push(&*self.close_paren);
        assert(deref_seq(result@) =~= children_of(ParseTree::ConfigureExpression(*self)));
        result
    }

    pub fn unbox(self) -> (r: (ParseTree<'a>, ParseTree<'a>, ParseTree<'a>, ParseTree<'a>, ParseTree<'a>, ParseTree<'a>))
        ensures
            r == (*self.configure, *self.open_paren, *self.identifier, *self.comma, *self.value, *self.close_paren),
    {
        (*self.configure, *self.open_paren, *self.identifier, *self.comma, *self.value, *self.close_paren)
    }

    pub fn get_first_child(&self) -> (r: &ParseTree<'a>)
        ensures
            *r == *self.configure,
    {
        &self.configure
    }

    pub fn get_last_child(&self) -> (r: &ParseTree<'a>)
        ensures
            *r == *self.close_paren,
    {
        &self.close_paren
    }

    pub fn get_first_token(&self) -> (r: Option<&token::Token<'a>>)
        ensures
            deref_opt(r) == first_of(tokens_of(ParseTree::ConfigureExpression(*self))),
        decreases *self, 0nat,
    {
        assert(tokens_of(ParseTree::ConfigureExpression(*self)) == tokens_of(*self.configure) + tokens_of(*self.open_paren) + tokens_of(*self.identifier) + tokens_of(*self.comma) + tokens_of(*self.value) + tokens_of(*self.close_paren)) by {
            reveal_with_fuel(tokens_of, 1);
        }
        if let Some(token) = self.configure.get_first_token() {
            return Some(token);
        }
        if let Some(token) = self.open_paren.get_first_token() {
            return Some(token);
        }
        if let Some(token) = self.identifier.get_first_token() {
            return Some(token);
        }
        if let Some(token) = self.comma.get_first_token() {
            return Some(token);
        }
        if let Some(token) = self.value.get_first_token() {
            return Some(token);
        }
        if let Some(token) = self.close_paren.get_first_token() {
            return Some(token);
        }
        None
    }

    pub fn get_last_token(&self) -> (r: Option<&token::Token<'a>>)
        ensures
            deref_opt(r) == last_of(tokens_of(ParseTree::ConfigureExpression(*self))),
        decreases *self, 0nat,
    {
        assert(tokens_of(ParseTree::ConfigureExpression(*self)) == tokens_of(*self.configure) + tokens_of(*self.open_paren) + tokens_of(*self.identifier) + tokens_of(*self.comma) + tokens_of(*self.value) + tokens_of(*self.close_paren)) by {
            reveal_with_fuel(tokens_of, 1);
        }
        if let Some(token) = self.close_paren.get_last_token() {
            return Some(token);
        }
        if let Some(token) = self.value.get_last_token() {
            return Some(token);
        }
        if let Some(token) = self.comma.get_last_token() {
            return Some(token);
        }
        if let Some(token) = self.identifier.get_last_token() {
            return Some(token);
        }
        if let Some(token) = self.open_paren.get_last_token() {
            return Some(token);
        }
        if let Some(token) = self.configure.get_last_token() {
            return Some(token);
        }
        None
    }
}

#[derive(Debug)]
pub struct SubqueryExpression<'a> {
    pub open_paren: Box<ParseTree<'a>>,
    pub query: Box<ParseTree<'a>>,
    pub close_paren: Box<ParseTree<'a>>,
}

pub fn subquery_expression<'a>(
    open_paren: ParseTree<'a>,
    query: ParseTree<'a>,
    close_paren: ParseTree<'a>,
) -> (r: ParseTree<'a>)
    ensures
        r == ParseTree::SubqueryExpression(SubqueryExpression { open_paren: Box::new(open_paren), query: Box::new(query), close_paren: Box::new(close_paren) }),
        tokens_of(r) == tokens_of(open_paren) + tokens_of(query) + tokens_of(close_paren),
        tree_wf(r) == (tree_wf(open_paren) && tree_wf(query) && tree_wf(close_paren)),
        lossless(r) == (lossless(open_paren) && lossless(query) && lossless(close_paren)),
{
    assert(tokens_of(ParseTree::SubqueryExpression(SubqueryExpression { open_paren: Box::new(open_paren), query: Box::new(query), close_paren: Box::new(close_paren) })) == tokens_of(open_paren) + tokens_of(query) + tokens_of(close_paren)) by {
        reveal_with_fuel(tokens_of, 1);
    }
    assert(tree_wf(ParseTree::SubqueryExpression(SubqueryExpression { open_paren: Box::new(open_paren), query: Box::new(query), close_paren: Box::new(close_paren) })) == (tree_wf(open_paren) && tree_wf(query) && tree_wf(close_paren))) by {
        reveal_with_fuel(tree_wf, 1);
    }
    assert(lossless(ParseTree::SubqueryExpression(SubqueryExpression { open_paren: Box::new(open_paren), query: Box::new(query), close_paren: Box::new(close_paren) })) == (lossless(open_paren) && lossless(query) && lossless(close_paren))) by {
        reveal_with_fuel(lossless, 1);
    }
    ParseTree::SubqueryExpression(SubqueryExpression { open_paren: Box::new(open_paren), query: Box::new(query), close_paren: Box::new(close_paren) })
}

impl<'a> SubqueryExpression<'a> {
    pub fn to_tree(self) -> (r: ParseTree<'a>)
        ensures
            r == ParseTree::SubqueryExpression(self),
    {
        ParseTree::SubqueryExpression(self)
    }

    pub fn children(&self) -> (r: Vec<&ParseTree<'a>>)
        ensures
            deref_seq(r@) == children_of(ParseTree::SubqueryExpression(*self)),
    {
        let mut result: Vec<&ParseTree<'a>> = Vec::new();
        result.push(&*self.open_paren);
        result.push(&*self.query);
        result.push(&*self.close_paren);
        assert(deref_seq(result@) =~= children_of(ParseTree::SubqueryExpression(*self)));
        result
    }

    pub fn unbox(self) -> (r: (ParseTree<'a>, ParseTree<'a>, ParseTree<'a>))
        ensures
            r == (*self.open_paren, *self.query, *self.close_paren),
    {
        (*self.open_paren, *self.query, *self.close_paren)
    }

    pub fn get_first_child(&self) -> (r: &ParseTree<'a>)
        ensures
            *r == *self.open_paren,
    {
        &self.open_paren
    }

    pub fn get_last_child(&self) -> (r: &ParseTree<'a>)
        ensures
            *r == *self.close_paren,
    {
        &self.close_paren
    }

    pub fn get_first_token(&self) -> (r: Option<&token::Token<'a>>)
        ensures
            deref_opt(r) == first_of(tokens_of(ParseTree::SubqueryExpression(*self))),
        decreases *self, 0nat,
    {
        assert(tokens_of(ParseTree::SubqueryExpression(*self)) == tokens_of(*self.open_paren) + tokens_of(*self.query) + tokens_of(*self.close_paren)) by {
            reveal_with_fuel(tokens_of, 1);
        }
        if let Some(token) = self.open_paren.get_first_token() {
            return Some(token);
        }
        if let Some(token) = self.query.get_first_token() {
            return Some(token);
        }
        if let Some(token) = self.close_paren.get_first_token() {
            return Some(token);
        }
        None
    }

    pub fn get_last_token(&self) -> (r: Option<&token::Token<'a>>)
        ensures
            deref_opt(r) == last_of(tokens_of(ParseTree::SubqueryExpression(*self))),
        decreases *self, 0nat,
    {
        assert(tokens_of(ParseTree::SubqueryExpression(*self)) == tokens_of(*self.open_paren) + tokens_of(*self.query) + tokens_of(*self.close_paren)) by {
            reveal_with_fuel(tokens_of, 1);
        }
        if let Some(token) = self.close_paren.get_last_token() {
            return Some(token);
        }
        if let Some(token) = self.query.get_last_token() {
            return Some(token);
        }
        if let Some(token) = self.open_paren.get_last_token() {
            return Some(token);
        }
        None
    }
}

#[derive(Debug)]
pub struct Grouping<'a> {
    pub grouping: Box<ParseTree<'a>>,
    pub groups: Box<ParseTree<'a>>,
}

pub fn grouping<'a>(
    grouping_tree: ParseTree<'a>,
    groups: ParseTree<'a>,
) -> (r: ParseTree<'a>)
    ensures
        r == ParseTree::Grouping(Grouping { grouping: Box::new(grouping_tree), groups: Box::new(groups) }),
        tokens_of(r) == tokens_of(grouping_tree) + tokens_of(groups),
        tree_wf(r) == (tree_wf(grouping_tree) && tree_wf(groups)),
        lossless(r) == (lossless(grouping_tree) && lossless(groups)),
{
    assert(tokens_of(ParseTree::Grouping(Grouping { grouping: Box::new(grouping_tree), groups: Box::new(groups) })) == tokens_of(grouping_tree) + tokens_of(groups)) by {
        reveal_with_fuel(tokens_of, 1);
    }
    assert(tree_wf(ParseTree::Grouping(Grouping { grouping: Box::new(grouping_tree), groups: Box::new(groups) })) == (tree_wf(grouping_tree) && tree_wf(groups))) by {
        reveal_with_fuel(tree_wf, 1);
    }
    assert(lossless(ParseTree::Grouping(Grouping { grouping: Box::new(grouping_tree), groups: Box::new(groups) })) == (lossless(grouping_tree) && lossless(groups))) by {
        reveal_with_fuel(lossless, 1);
    }
    ParseTree::Grouping(Grouping { grouping: Box::new(grouping_tree), groups: Box::new(groups) })
}

impl<'a> Grouping<'a> {
    pub fn to_tree(self) -> (r: ParseTree<'a>)
        ensures
            r == ParseTree::Grouping(self),
    {
        ParseTree::Grouping(self)
    }

    pub fn children(&self) -> (r: Vec<&ParseTree<'a>>)
        ensures
            deref_seq(r@) == children_of(ParseTree::Grouping(*self)),
    {
        let mut result: Vec<&ParseTree<'a>> = Vec::new();
        result.push(&*self.grouping);
        result.push(&*self.groups);
        assert(deref_seq(result@) =~= children_of(ParseTree::Grouping(*self)));
        result
    }

    pub fn unbox(self) -> (r: (ParseTree<'a>, ParseTree<'a>))
        ensures
            r == (*self.grouping, *self.groups),
    {
        (*self.grouping, *self.groups)
    }

    pub fn get_first_child(&self) -> (r: &ParseTree<'a>)
        ensures
            *r == *self.grouping,
    {
        &self.grouping
    }

    pub fn get_last_child(&self) -> (r: &ParseTree<'a>)
        ensures
            *r == *self.groups,
    {
        &self.groups
    }

    pub fn get_first_token(&self) -> (r: Option<&token::Token<'a>>)
        ensures
            deref_opt(r) == first_of(tokens_of(ParseTree::Grouping(*self))),
        decreases *self, 0nat,
    {
        assert(tokens_of(ParseTree::Grouping(*self)) == tokens_of(*self.grouping) + tokens_of(*self.groups)) by {
            reveal_with_fuel(tokens_of, 1);
        }
        if let Some(token) = self.grouping.get_first_token() {
            return Some(token);
        }
        if let Some(token) = self.groups.get_first_token() {
            return Some(token);
        }
        None
    }

    pub fn get_last_token(&self) -> (r: Option<&token::Token<'a>>)
        ensures
            deref_opt(r) == last_of(tokens_of(ParseTree::Grouping(*self))),
        decreases *self, 0nat,
    {
        assert(tokens_of(ParseTree::Grouping(*self)) == tokens_of(*self.grouping) + tokens_of(*self.groups)) by {
            reveal_with_fuel(tokens_of, 1);
        }
        if let Some(token) = self.groups.get_last_token() {
            return Some(token);
        }
        if let Some(token) = self.grouping.get_last_token() {
            return Some(token);
        }
        None
    }
}

#[derive(Debug)]
pub struct Extract<'a> {
    pub extract: Box<ParseTree<'a>>,
    pub open_paren: Box<ParseTree<'a>>,
    pub identifier: Box<ParseTree<'a>>,
    pub from: Box<ParseTree<'a>>,
    pub value: Box<ParseTree<'a>>,
    pub close_paren: Box<ParseTree<'a>>,
}

pub fn extract<'a>(
    extract_tree: ParseTree<'a>,
    open_paren: ParseTree<'a>,
    identifier: ParseTree<'a>,
    from: ParseTree<'a>,
    value: ParseTree<'a>,
    close_paren: ParseTree<'a>,
) -> (r: ParseTree<'a>)
    ensures
        r == ParseTree::Extract(Extract { extract: Box::new(extract_tree), open_paren: Box::new(open_paren), identifier: Box::new(identifier), from: Box::new(from), value: Box::new(value), close_paren: Box::new(close_paren) }),
        tokens_of(r) == tokens_of(extract_tree) + tokens_of(open_paren) + tokens_of(identifier) + tokens_of(from) + tokens_of(value) + tokens_of(close_paren),
        tree_wf(r) == (tree_wf(extract_tree) && tree_wf(open_paren) && tree_wf(identifier) && tree_wf(from) && tree_wf(value) && tree_wf(close_paren)),
        lossless(r) == (lossless(extract_tree) && lossless(open_paren) && lossless(identifier) && lossless(from) && lossless(value) && lossless(close_paren)),
{
    assert(tokens_of(ParseTree::Extract(Extract { extract: Box::new(extract_tree), open_paren: Box::new(open_paren), identifier: Box::new(identifier), from: Box::new(from), value: Box::new(value), close_paren: Box::new(close_paren) })) == tokens_of(extract_tree) + tokens_of(open_paren) + tokens_of(identifier) + tokens_of(from) + tokens_of(value) + tokens_of(close_paren)) by {
        reveal_with_fuel(tokens_of, 1);
    }
    assert(tree_wf(ParseTree::Extract(Extract { extract: Box::new(extract_tree), open_paren: Box::new(open_paren), identifier: Box::new(identifier), from: Box::new(from), value: Box::new(value), close_paren: Box::new(close_paren) })) == (tree_wf(extract_tree) && tree_wf(open_paren) && tree_wf(identifier) && tree_wf(from) && tree_wf(value) && tree_wf(close_paren))) by {
        reveal_with_fuel(tree_wf, 1);
    }
    assert(lossless(ParseTree::Extract(Extract { extract: Box::new(extract_tree), open_paren: Box::new(open_paren), identifier: Box::new(identifier), from: Box::new(from), value: Box::new(value), close_paren: Box::new(close_paren) })) == (lossless(extract_tree) && lossless(open_paren) && lossless(identifier) && lossless(from) && lossless(value) && lossless(close_paren))) by {
        reveal_with_fuel(lossless, 1);
    }
    ParseTree::Extract(Extract { extract: Box::new(extract_tree), open_paren: Box::new(open_paren), identifier: Box::new(identifier), from: Box::new(from), value: Box::new(value), close_paren: Box::new(close_paren) })
}

impl<'a> Extract<'a> {
    pub fn to_tree(self) -> (r: ParseTree<'a>)
        ensures
            r == ParseTree::Extract(self),
    {
        ParseTree::Extract(self)
    }

    pub fn children(&self) -> (r: Vec<&ParseTree<'a>>)
        ensures
            deref_seq(r@) == children_of(ParseTree::Extract(*self)),
    {
        let mut result: Vec<&ParseTree<'a>> = Vec::new();
        result.push(&*self.extract);
        result.push(&*self.open_paren);
        result.push(&*self.identifier);
        result.push(&*self.from);
        result.push(&*self.value);
        result.push(&*self.close_paren);
        assert(deref_seq(result@) =~= children_of(ParseTree::Extract(*self)));
        result
    }

    pub fn unbox(self) -> (r: (ParseTree<'a>, ParseTree<'a>, ParseTree<'a>, ParseTree<'a>, ParseTree<'a>, ParseTree<'a>))
        ensures
            r == (*self.extract, *self.open_paren, *self.identifier, *self.from, *self.value, *self.close_paren),
    {
        (*self.extract, *self.open_paren, *self.identifier, *self.from, *self.value, *self.close_paren)
    }

    pub fn get_first_child(&self) -> (r: &ParseTree<'a>)
        ensures
            *r == *self.extract,
    {
        &self.extract
    }

    pub fn get_last_child(&self) -> (r: &ParseTree<'a>)
        ensures
            *r == *self.close_paren,
    {
        &self.close_paren
    }

    pub fn get_first_token(&self) -> (r: Option<&token::Token<'a>>)
        ensures
            deref_opt(r) == first_of(tokens_of(ParseTree::Extract(*self))),
        decreases *self, 0nat,
    {
        assert(tokens_of(ParseTree::Extract(*self)) == tokens_of(*self.extract) + tokens_of(*self.open_paren) + tokens_of(*self.identifier) + tokens_of(*self.from) + tokens_of(*self.value) + tokens_of(*self.close_paren)) by {
            reveal_with_fuel(tokens_of, 1);
        }
        if let Some(token) = self.extract.get_first_token() {
            return Some(token);
        }
        if let Some(token) = self.open_paren.get_first_token() {
            return Some(token);
        }
        if let Some(token) = self.identifier.get_first_token() {
            return Some(token);
        }
        if let Some(token) = self.from.get_first_token() {
            return Some(token);
        }
        if let Some(token) = self.value.get_first_token() {
            return Some(token);
        }
        if let Some(token) = self.close_paren.get_first_token() {
            return Some(token);
        }
        None
    }

    pub fn get_last_token(&self) -> (r: Option<&token::Token<'a>>)
        ensures
            deref_opt(r) == last_of(tokens_of(ParseTree::Extract(*self))),
        decreases *self, 0nat,
    {
        assert(tokens_of(ParseTree::Extract(*self)) == tokens_of(*self.extract) + tokens_of(*self.open_paren) + tokens_of(*self.identifier) + tokens_of(*self.from) + tokens_of(*self.value) + tokens_of(*self.close_paren)) by {
            reveal_with_fuel(tokens_of, 1);
        }
        if let Some(token) = self.close_paren.get_last_token() {
            return Some(token);
        }
        if let Some(token) = self.value.get_last_token() {
            return Some(token);
        }
        if let Some(token) = self.from.get_last_token() {
            return Some(token);
        }
        if let Some(token) = self.identifier.get_last_token() {
            return Some(token);
        }
        if let Some(token) = self.open_paren.get_last_token() {
            return Some(token);
        }
        if let Some(token) = self.extract.get_last_token() {
            return Some(token);
        }
        None
    }
}

#[derive(Debug)]
pub struct CurrentTime<'a> {
    pub current_time: Box<ParseTree<'a>>,
    pub open_paren: Box<ParseTree<'a>>,
    pub precision: Box<ParseTree<'a>>,
    pub close_paren: Box<ParseTree<'a>>,
}

pub fn current_time<'a>(
    current_time_tree: ParseTree<'a>,
    open_paren: ParseTree<'a>,
    precision: ParseTree<'a>,
    close_paren: ParseTree<'a>,
) -> (r: ParseTree<'a>)
    ensures
        r == ParseTree::CurrentTime(CurrentTime { current_time: Box::new(current_time_tree), open_paren: Box::new(open_paren), precision: Box::new(precision), close_paren: Box::new(close_paren) }),
        tokens_of(r) == tokens_of(current_time_tree) + tokens_of(open_paren) + tokens_of(precision) + tokens_of(close_paren),
        tree_wf(r) == (tree_wf(current_time_tree) && tree_wf(open_paren) && tree_wf(precision) && tree_wf(close_paren)),
        lossless(r) == (lossless(current_time_tree) && lossless(open_paren) && lossless(precision) && lossless(close_paren)),
{
    assert(tokens_of(ParseTree::CurrentTime(CurrentTime { current_time: Box::new(current_time_tree), open_paren: Box::new(open_paren), precision: Box::new(precision), close_paren: Box::new(close_paren) })) == tokens_of(current_time_tree) + tokens_of(open_paren) + tokens_of(precision) + tokens_of(close_paren)) by {
        reveal_with_fuel(tokens_of, 1);
    }
    assert(tree_wf(ParseTree::CurrentTime(CurrentTime { current_time: Box::new(current_time_tree), open_paren: Box::new(open_paren), precision: Box::new(precision), close_paren: Box::new(close_paren) })) == (tree_wf(current_time_tree) && tree_wf(open_paren) && tree_wf(precision) && tree_wf(close_paren))) by {
        reveal_with_fuel(tree_wf, 1);
    }
    assert(lossless(ParseTree::CurrentTime(CurrentTime { current_time: Box::new(current_time_tree), open_paren: Box::new(open_paren), precision: Box::new(precision), close_paren: Box::new(close_paren) })) == (lossless(current_time_tree) && lossless(open_paren) && lossless(precision) && lossless(close_paren))) by {
        reveal_with_fuel(lossless, 1);
    }
    ParseTree::CurrentTime(CurrentTime { current_time: Box::new(current_time_tree), open_paren: Box::new(open_paren), precision: Box::new(precision), close_paren: Box::new(close_paren) })
}

impl<'a> CurrentTime<'a> {
    pub fn to_tree(self) -> (r: ParseTree<'a>)
        ensures
            r == ParseTree::CurrentTime(self),
    {
        ParseTree::CurrentTime(self)
    }

    pub fn children(&self) -> (r: Vec<&ParseTree<'a>>)
        ensures
            deref_seq(r@) == children_of(ParseTree::CurrentTime(*self)),
    {
        let mut result: Vec<&ParseTree<'a>> = Vec::new();
        result.push(&*self.current_time);
        result.push(&*self.open_paren);
        result.push(&*self.precision);
        result.push(&*self.close_paren);
        assert(deref_seq(result@) =~= children_of(ParseTree::CurrentTime(*self)));
        result
    }

    pub fn unbox(self) -> (r: (ParseTree<'a>, ParseTree<'a>, ParseTree<'a>, ParseTree<'a>))
        ensures
            r == (*self.current_time, *self.open_paren, *self.precision, *self.close_paren),
    {
        (*self.current_time, *self.open_paren, *self.precision, *self.close_paren)
    }

    pub fn get_first_child(&self) -> (r: &ParseTree<'a>)
        ensures
            *r == *self.current_time,
    {
        &self.current_time
    }

    pub fn get_last_child(&self) -> (r: &ParseTree<'a>)
        ensures
            *r == *self.close_paren,
    {
        &self.close_paren
    }

    pub fn get_first_token(&self) -> (r: Option<&token::Token<'a>>)
        ensures
            deref_opt(r) == first_of(tokens_of(ParseTree::CurrentTime(*self))),
        decreases *self, 0nat,
    {
        assert(tokens_of(ParseTree::CurrentTime(*self)) == tokens_of(*self.current_time) + tokens_of(*self.open_paren) + tokens_of(*self.precision) + tokens_of(*self.close_paren)) by {
            reveal_with_fuel(tokens_of, 1);
        }
        if let Some(token) = self.current_time.get_first_token() {
            return Some(token);
        }
        if let Some(token) = self.open_paren.get_first_token() {
            return Some(token);
        }
        if let Some(token) = self.precision.get_first_token() {
            return Some(token);
        }
        if let Some(token) = self.close_paren.get_first_token() {
            return Some(token);
        }
        None
    }

    pub fn get_last_token(&self) -> (r: Option<&token::Token<'a>>)
        ensures
            deref_opt(r) == last_of(tokens_of(ParseTree::CurrentTime(*self))),
        decreases *self, 0nat,
    {
        assert(tokens_of(ParseTree::CurrentTime(*self)) == tokens_of(*self.current_time) + tokens_of(*self.open_paren) + tokens_of(*self.precision) + tokens_of(*self.close_paren)) by {
            reveal_with_fuel(tokens_of, 1);
        }
        if let Some(token) = self.close_paren.get_last_token() {
            return Some(token);
        }
        if let Some(token) = self.precision.get_last_token() {
            return Some(token);
        }
        if let Some(token) = self.open_paren.get_last_token() {
            return Some(token);
        }
        if let Some(token) = self.current_time.get_last_token() {
            return Some(token);
        }
        None
    }
}

#[derive(Debug)]
pub struct CurrentTimestamp<'a> {
    pub current_timestamp: Box<ParseTree<'a>>,
    pub open_paren: Box<ParseTree<'a>>,
    pub precision: Box<ParseTree<'a>>,
    pub close_paren: Box<ParseTree<'a>>,
}

pub fn current_timestamp<'a>(
    current_timestamp_tree: ParseTree<'a>,
    open_paren: ParseTree<'a>,
    precision: ParseTree<'a>,
    close_paren: ParseTree<'a>,
) -> (r: ParseTree<'a>)
    ensures
        r == ParseTree::CurrentTimestamp(CurrentTimestamp { current_timestamp: Box::new(current_timestamp_tree), open_paren: Box::new(open_paren), precision: Box::new(precision), close_paren: Box::new(close_paren) }),
        tokens_of(r) == tokens_of(current_timestamp_tree) + tokens_of(open_paren) + tokens_of(precision) + tokens_of(close_paren),
        tree_wf(r) == (tree_wf(current_timestamp_tree) && tree_wf(open_paren) && tree_wf(precision) && tree_wf(close_paren)),
        lossless(r) == (lossless(current_timestamp_tree) && lossless(open_paren) && lossless(precision) && lossless(close_paren)),
{
    assert(tokens_of(ParseTree::CurrentTimestamp(CurrentTimestamp { current_timestamp: Box::new(current_timestamp_tree), open_paren: Box::new(open_paren), precision: Box::new(precision), close_paren: Box::new(close_paren) })) == tokens_of(current_timestamp_tree) + tokens_of(open_paren) + tokens_of(precision) + tokens_of(close_paren)) by {
        reveal_with_fuel(tokens_of, 1);
    }
    assert(tree_wf(ParseTree::CurrentTimestamp(CurrentTimestamp { current_timestamp: Box::new(current_timestamp_tree), open_paren: Box::new(open_paren), precision: Box::new(precision), close_paren: Box::new(close_paren) })) == (tree_wf(current_timestamp_tree) && tree_wf(open_paren) && tree_wf(precision) && tree_wf(close_paren))) by {
        reveal_with_fuel(tree_wf, 1);
    }
    assert(lossless(ParseTree::CurrentTimestamp(CurrentTimestamp { current_timestamp: Box::new(current_timestamp_tree), open_paren: Box::new(open_paren), precision: Box::new(precision), close_paren: Box::new(close_paren) })) == (lossless(current_timestamp_tree) && lossless(open_paren) && lossless(precision) && lossless(close_paren))) by {
        reveal_with_fuel(lossless, 1);
    }
    ParseTree::CurrentTimestamp(CurrentTimestamp { current_timestamp: Box::new(current_timestamp_tree), open_paren: Box::new(open_paren), precision: Box::new(precision), close_paren: Box::new(close_paren) })
}

impl<'a> CurrentTimestamp<'a> {
    pub fn to_tree(self) -> (r: ParseTree<'a>)
        ensures
            r == ParseTree::CurrentTimestamp(self),
    {
        ParseTree::CurrentTimestamp(self)
    }

    pub fn children(&self) -> (r: Vec<&ParseTree<'a>>)
        ensures
            deref_seq(r@) == children_of(ParseTree::CurrentTimestamp(*self)),
    {
        let mut result: Vec<&ParseTree<'a>> = Vec::new();
        result.push(&*self.current_timestamp);
        result.push(&*self.open_paren);
        result.push(&*self.precision);
        result.push(&*self.close_paren);
        assert(deref_seq(result@) =~= children_of(ParseTree::CurrentTimestamp(*self)));
        result
    }

    pub fn unbox(self) -> (r: (ParseTree<'a>, ParseTree<'a>, ParseTree<'a>, ParseTree<'a>))
        ensures
            r == (*self.current_timestamp, *self.open_paren, *self.precision, *self.close_paren),
    {
        (*self.current_timestamp, *self.open_paren, *self.precision, *self.close_paren)
    }

    pub fn get_first_child(&self) -> (r: &ParseTree<'a>)
        ensures
            *r == *self.current_timestamp,
    {
        &self.current_timestamp
    }

    pub fn get_last_child(&self) -> (r: &ParseTree<'a>)
        ensures
            *r == *self.close_paren,
    {
        &self.close_paren
    }

    pub fn get_first_token(&self) -> (r: Option<&token::Token<'a>>)
        ensures
            deref_opt(r) == first_of(tokens_of(ParseTree::CurrentTimestamp(*self))),
        decreases *self, 0nat,
    {
        assert(tokens_of(ParseTree::CurrentTimestamp(*self)) == tokens_of(*self.current_timestamp) + tokens_of(*self.open_paren) + tokens_of(*self.precision) + tokens_of(*self.close_paren)) by {
            reveal_with_fuel(tokens_of, 1);
        }
        if let Some(token) = self.current_timestamp.get_first_token() {
            return Some(token);
        }
        if let Some(token) = self.open_paren.get_first_token() {
            return Some(token);
        }
        if let Some(token) = self.precision.get_first_token() {
            return Some(token);
        }
        if let Some(token) = self.close_paren.get_first_token() {
            return Some(token);
        }
        None
    }

    pub fn get_last_token(&self) -> (r: Option<&token::Token<'a>>)
        ensures
            deref_opt(r) == last_of(tokens_of(ParseTree::CurrentTimestamp(*self))),
        decreases *self, 0nat,
    {
        assert(tokens_of(ParseTree::CurrentTimestamp(*self)) == tokens_of(*self.current_timestamp) + tokens_of(*self.open_paren) + tokens_of(*self.precision) + tokens_of(*self.close_paren)) by {
            reveal_with_fuel(tokens_of, 1);
        }
        if let Some(token) = self.close_paren.get_last_token() {
            return Some(token);
        }
        if let Some(token) = self.precision.get_last_token() {
            return Some(token);
        }
        if let Some(token) = self.open_paren.get_last_token() {
            return Some(token);
        }
        if let Some(token) = self.current_timestamp.get_last_token() {
            return Some(token);
        }
        None
    }
}

#[derive(Debug)]
pub struct Normalize<'a> {
    pub normalize: Box<ParseTree<'a>>,
    pub open_paren: Box<ParseTree<'a>>,
    pub value: Box<ParseTree<'a>>,
    pub comma_opt: Box<ParseTree<'a>>,
    pub normal_form: Box<ParseTree<'a>>,
    pub close_paren: Box<ParseTree<'a>>,
}

pub fn normalize<'a>(
    normalize_tree: ParseTree<'a>,
    open_paren: ParseTree<'a>,
    value: ParseTree<'a>,
    comma_opt: ParseTree<'a>,
    normal_form: ParseTree<'a>,
    close_paren: ParseTree<'a>,
) -> (r: ParseTree<'a>)
    ensures
        r == ParseTree::Normalize(Normalize { normalize: Box::new(normalize_tree), open_paren: Box::new(open_paren), value: Box::new(value), comma_opt: Box::new(comma_opt), normal_form: Box::new(normal_form), close_paren: Box::new(close_paren) }),
        tokens_of(r) == tokens_of(normalize_tree) + tokens_of(open_paren) + tokens_of(value) + tokens_of(comma_opt) + tokens_of(normal_form) + tokens_of(close_paren),
        tree_wf(r) == (tree_wf(normalize_tree) && tree_wf(open_paren) && tree_wf(value) && tree_wf(comma_opt) && tree_wf(normal_form) && tree_wf(close_paren)),
        lossless(r) == (lossless(normalize_tree) && lossless(open_paren) && lossless(value) && lossless(comma_opt) && lossless(normal_form) && lossless(close_paren)),
{
    assert(tokens_of(ParseTree::Normalize(Normalize { normalize: Box::new(normalize_tree), open_paren: Box::new(open_paren), value: Box::new(value), comma_opt: Box::new(comma_opt), normal_form: Box::new(normal_form), close_paren: Box::new(close_paren) })) == tokens_of(normalize_tree) + tokens_of(open_paren) + tokens_of(value) + tokens_of(comma_opt) + tokens_of(normal_form) + tokens_of(close_paren)) by {
        reveal_with_fuel(tokens_of, 1);
    }
    assert(tree_wf(ParseTree::Normalize(Normalize { normalize: Box::new(normalize_tree), open_paren: Box::new(open_paren), value: Box::new(value), comma_opt: Box::new(comma_opt), normal_form: Box::new(normal_form), close_paren: Box::new(close_paren) })) == (tree_wf(normalize_tree) && tree_wf(open_paren) && tree_wf(value) && tree_wf(comma_opt) && tree_wf(normal_form) && tree_wf(close_paren))) by {
        reveal_with_fuel(tree_wf, 1);
    }
    assert(lossless(ParseTree::Normalize(Normalize { normalize: Box::new(normalize_tree), open_paren: Box::new(open_paren), value: Box::new(value), comma_opt: Box::new(comma_opt), normal_form: Box::new(normal_form), close_paren: Box::new(close_paren) })) == (lossless(normalize_tree) && lossless(open_paren) && lossless(value) && lossless(comma_opt) && lossless(normal_form) && lossless(close_paren))) by {
        reveal_with_fuel(lossless, 1);
    }
    ParseTree::Normalize(Normalize { normalize: Box::new(normalize_tree), open_paren: Box::new(open_paren), value: Box::new(value), comma_opt: Box::new(comma_opt), normal_form: Box::new(normal_form), close_paren: Box::new(close_paren) })
}

impl<'a> Normalize<'a> {
    pub fn to_tree(self) -> (r: ParseTree<'a>)
        ensures
            r == ParseTree::Normalize(self),
    {
        ParseTree::Normalize(self)
    }

    pub fn children(&self) -> (r: Vec<&ParseTree<'a>>)
        ensures
            deref_seq(r@) == children_of(ParseTree::Normalize(*self)),
    {
        let mut result: Vec<&ParseTree<'a>> = Vec::new();
        result.push(&*self.normalize);
        result.push(&*self.open_paren);
        result.push(&*self.value);
        result.push(&*self.comma_opt);
        result.push(&*self.normal_form);
        result.push(&*self.close_paren);
        assert(deref_seq(result@) =~= children_of(ParseTree::Normalize(*self)));
        result
    }

    pub fn unbox(self) -> (r: (ParseTree<'a>, ParseTree<'a>, ParseTree<'a>, ParseTree<'a>, ParseTree<'a>, ParseTree<'a>))
        ensures
            r == (*self.normalize, *self.open_paren, *self.value, *self.comma_opt, *self.normal_form, *self.close_paren),
    {
        (*self.normalize, *self.open_paren, *self.value, *self.comma_opt, *self.normal_form, *self.close_paren)
    }

    pub fn get_first_child(&self) -> (r: &ParseTree<'a>)
        ensures
            *r == *self.normalize,
    {
        &self.normalize
    }

    pub fn get_last_child(&self) -> (r: &ParseTree<'a>)
        ensures
            *r == *self.close_paren,
    {
        &self.close_paren
    }

    pub fn get_first_token(&self) -> (r: Option<&token::Token<'a>>)
        ensures
            deref_opt(r) == first_of(tokens_of(ParseTree::Normalize(*self))),
        decreases *self, 0nat,
    {
        assert(tokens_of(ParseTree::Normalize(*self)) == tokens_of(*self.normalize) + tokens_of(*self.open_paren) + tokens_of(*self.value) + tokens_of(*self.comma_opt) + tokens_of(*self.normal_form) + tokens_of(*self.close_paren)) by {
            reveal_with_fuel(tokens_of, 1);
        }
        if let Some(token) = self.normalize.get_first_token() {
            return Some(token);
        }
        if let Some(token) = self.open_paren.get_first_token() {
            return Some(token);
        }
        if let Some(token) = self.value.get_first_token() {
            return Some(token);
        }
        if let Some(token) = self.comma_opt.get_first_token() {
            return Some(token);
        }
        if let Some(token) = self.normal_form.get_first_token() {
            return Some(token);
        }
        if let Some(token) = self.close_paren.get_first_token() {
            return Some(token);
        }
        None
    }

    pub fn get_last_token(&self) -> (r: Option<&token::Token<'a>>)
        ensures
            deref_opt(r) == last_of(tokens_of(ParseTree::Normalize(*self))),
        decreases *self, 0nat,
    {
        assert(tokens_of(ParseTree::Normalize(*self)) == tokens_of(*self.normalize) + tokens_of(*self.open_paren) + tokens_of(*self.value) + tokens_of(*self.comma_opt) + tokens_of(*self.normal_form) + tokens_of(*self.close_paren)) by {
            reveal_with_fuel(tokens_of, 1);
        }
        if let Some(token) = self.close_paren.get_last_token() {
            return Some(token);
        }
        if let Some(token) = self.normal_form.get_last_token() {
            return Some(token);
        }
        if let Some(token) = self.comma_opt.get_last_token() {
            return Some(token);
        }
        if let Some(token) = self.value.get_last_token() {
            return Some(token);
        }
        if let Some(token) = self.open_paren.get_last_token() {
            return Some(token);
        }
        if let Some(token) = self.normalize.get_last_token() {
            return Some(token);
        }
        None
    }
}

#[derive(Debug)]
pub struct Localtime<'a> {
    pub localtime: Box<ParseTree<'a>>,
    pub open_paren: Box<ParseTree<'a>>,
    pub precision: Box<ParseTree<'a>>,
    pub close_paren: Box<ParseTree<'a>>,
}

pub fn localtime<'a>(
    localtime_tree: ParseTree<'a>,
    open_paren: ParseTree<'a>,
    precision: ParseTree<'a>,
    close_paren: ParseTree<'a>,
) -> (r: ParseTree<'a>)
    ensures
        r == ParseTree::Localtime(Localtime { localtime: Box::new(localtime_tree), open_paren: Box::new(open_paren), precision: Box::new(precision), close_paren: Box::new(close_paren) }),
        tokens_of(r) == tokens_of(localtime_tree) + tokens_of(open_paren) + tokens_of(precision) + tokens_of(close_paren),
        tree_wf(r) == (tree_wf(localtime_tree) && tree_wf(open_paren) && tree_wf(precision) && tree_wf(close_paren)),
        lossless(r) == (lossless(localtime_tree) && lossless(open_paren) && lossless(precision) && lossless(close_paren)),
{
    assert(tokens_of(ParseTree::Localtime(Localtime { localtime: Box::new(localtime_tree), open_paren: Box::new(open_paren), precision: Box::new(precision), close_paren: Box::new(close_paren) })) == tokens_of(localtime_tree) + tokens_of(open_paren) + tokens_of(precision) + tokens_of(close_paren)) by {
        reveal_with_fuel(tokens_of, 1);
    }
    assert(tree_wf(ParseTree::Localtime(Localtime { localtime: Box::new(localtime_tree), open_paren: Box::new(open_paren), precision: Box::new(precision), close_paren: Box::new(close_paren) })) == (tree_wf(localtime_tree) && tree_wf(open_paren) && tree_wf(precision) && tree_wf(close_paren))) by {
        reveal_with_fuel(tree_wf, 1);
    }
    assert(lossless(ParseTree::Localtime(Localtime { localtime: Box::new(localtime_tree), open_paren: Box::new(open_paren), precision: Box::new(precision), close_paren: Box::new(close_paren) })) == (lossless(localtime_tree) && lossless(open_paren) && lossless(precision) && lossless(close_paren))) by {
        reveal_with_fuel(lossless, 1);
    }
    ParseTree::Localtime(Localtime { localtime: Box::new(localtime_tree), open_paren: Box::new(open_paren), precision: Box::new(precision), close_paren: Box::new(close_paren) })
}

impl<'a> Localtime<'a> {
    pub fn to_tree(self) -> (r: ParseTree<'a>)
        ensures
            r == ParseTree::Localtime(self),
    {
        ParseTree::Localtime(self)
    }

    pub fn children(&self) -> (r: Vec<&ParseTree<'a>>)
        ensures
            deref_seq(r@) == children_of(ParseTree::Localtime(*self)),
    {
        let mut result: Vec<&ParseTree<'a>> = Vec::new();
        result.push(&*self.localtime);
        result.push(&*self.open_paren);
        result.push(&*self.precision);
        result.push(&*self.close_paren);
        assert(deref_seq(result@) =~= children_of(ParseTree::Localtime(*self)));
        result
    }

    pub fn unbox(self) -> (r: (ParseTree<'a>, ParseTree<'a>, ParseTree<'a>, ParseTree<'a>))
        ensures
            r == (*self.localtime, *self.open_paren, *self.precision, *self.close_paren),
    {
        (*self.localtime, *self.open_paren, *self.precision, *self.close_paren)
    }

    pub fn get_first_child(&self) -> (r: &ParseTree<'a>)
        ensures
            *r == *self.localtime,
    {
        &self.localtime
    }

    pub fn get_last_child(&self) -> (r: &ParseTree<'a>)
        ensures
            *r == *self.close_paren,
    {
        &self.close_paren
    }

    pub fn get_first_token(&self) -> (r: Option<&token::Token<'a>>)
        ensures
            deref_opt(r) == first_of(tokens_of(ParseTree::Localtime(*self))),
        decreases *self, 0nat,
    {
        assert(tokens_of(ParseTree::Localtime(*self)) == tokens_of(*self.localtime) + tokens_of(*self.open_paren) + tokens_of(*self.precision) + tokens_of(*self.close_paren)) by {
            reveal_with_fuel(tokens_of, 1);
        }
        if let Some(token) = self.localtime.get_first_token() {
            return Some(token);
        }
        if let Some(token) = self.open_paren.get_first_token() {
            return Some(token);
        }
        if let Some(token) = self.precision.get_first_token() {
            return Some(token);
        }
        if let Some(token) = self.close_paren.get_first_token() {
            return Some(token);
        }
        None
    }

    pub fn get_last_token(&self) -> (r: Option<&token::Token<'a>>)
        ensures
            deref_opt(r) == last_of(tokens_of(ParseTree::Localtime(*self))),
        decreases *self, 0nat,
    {
        assert(tokens_of(ParseTree::Localtime(*self)) == tokens_of(*self.localtime) + tokens_of(*self.open_paren) + tokens_of(*self.precision) + tokens_of(*self.close_paren)) by {
            reveal_with_fuel(tokens_of, 1);
        }
        if let Some(token) = self.close_paren.get_last_token() {
            return Some(token);
        }
        if let Some(token) = self.precision.get_last_token() {
            return Some(token);
        }
        if let Some(token) = self.open_paren.get_last_token() {
            return Some(token);
        }
        if let Some(token) = self.localtime.get_last_token() {
            return Some(token);
        }
        None
    }
}

#[derive(Debug)]
pub struct Localtimestamp<'a> {
    pub localtimestamp: Box<ParseTree<'a>>,
    pub open_paren: Box<ParseTree<'a>>,
    pub precision: Box<ParseTree<'a>>,
    pub close_paren: Box<ParseTree<'a>>,
}

pub fn localtimestamp<'a>(
    localtimestamp_tree: ParseTree<'a>,
    open_paren: ParseTree<'a>,
    precision: ParseTree<'a>,
    close_paren: ParseTree<'a>,
) -> (r: ParseTree<'a>)
    ensures
        r == ParseTree::Localtimestamp(Localtimestamp { localtimestamp: Box::new(localtimestamp_tree), open_paren: Box::new(open_paren), precision: Box::new(precision), close_paren: Box::new(close_paren) }),
        tokens_of(r) == tokens_of(localtimestamp_tree) + tokens_of(open_paren) + tokens_of(precision) + tokens_of(close_paren),
        tree_wf(r) == (tree_wf(localtimestamp_tree) && tree_wf(open_paren) && tree_wf(precision) && tree_wf(close_paren)),
        lossless(r) == (lossless(localtimestamp_tree) && lossless(open_paren) && lossless(precision) && lossless(close_paren)),
{
    assert(tokens_of(ParseTree::Localtimestamp(Localtimestamp { localtimestamp: Box::new(localtimestamp_tree), open_paren: Box::new(open_paren), precision: Box::new(precision), close_paren: Box::new(close_paren) })) == tokens_of(localtimestamp_tree) + tokens_of(open_paren) + tokens_of(precision) + tokens_of(close_paren)) by {
        reveal_with_fuel(tokens_of, 1);
    }
    assert(tree_wf(ParseTree::Localtimestamp(Localtimestamp { localtimestamp: Box::new(localtimestamp_tree), open_paren: Box::new(open_paren), precision: Box::new(precision), close_paren: Box::new(close_paren) })) == (tree_wf(localtimestamp_tree) && tree_wf(open_paren) && tree_wf(precision) && tree_wf(close_paren))) by {
        reveal_with_fuel(tree_wf, 1);
    }
    assert(lossless(ParseTree::Localtimestamp(Localtimestamp { localtimestamp: Box::new(localtimestamp_tree), open_paren: Box::new(open_paren), precision: Box::new(precision), close_paren: Box::new(close_paren) })) == (lossless(localtimestamp_tree) && lossless(open_paren) && lossless(precision) && lossless(close_paren))) by {
        reveal_with_fuel(lossless, 1);
    }
    ParseTree::Localtimestamp(Localtimestamp { localtimestamp: Box::new(localtimestamp_tree), open_paren: Box::new(open_paren), precision: Box::new(precision), close_paren: Box::new(close_paren) })
}

impl<'a> Localtimestamp<'a> {
    pub fn to_tree(self) -> (r: ParseTree<'a>)
        ensures
            r == ParseTree::Localtimestamp(self),
    {
        ParseTree::Localtimestamp(self)
    }

    pub fn children(&self) -> (r: Vec<&ParseTree<'a>>)
        ensures
            deref_seq(r@) == children_of(ParseTree::Localtimestamp(*self)),
    {
        let mut result: Vec<&ParseTree<'a>> = Vec::new();
        result.push(&*self.localtimestamp);
        result.push(&*self.open_paren);
        result.push(&*self.precision);
        result.push(&*self.close_paren);
        assert(deref_seq(result@) =~= children_of(ParseTree::Localtimestamp(*self)));
        result
    }

    pub fn unbox(self) -> (r: (ParseTree<'a>, ParseTree<'a>, ParseTree<'a>, ParseTree<'a>))
        ensures
            r == (*self.localtimestamp, *self.open_paren, *self.precision, *self.close_paren),
    {
        (*self.localtimestamp, *self.open_paren, *self.precision, *self.close_paren)
    }

    pub fn get_first_child(&self) -> (r: &ParseTree<'a>)
        ensures
            *r == *self.localtimestamp,
    {
        &self.localtimestamp
    }

    pub fn get_last_child(&self) -> (r: &ParseTree<'a>)
        ensures
            *r == *self.close_paren,
    {
        &self.close_paren
    }

    pub fn get_first_token(&self) -> (r: Option<&token::Token<'a>>)
        ensures
            deref_opt(r) == first_of(tokens_of(ParseTree::Localtimestamp(*self))),
        decreases *self, 0nat,
    {
        assert(tokens_of(ParseTree::Localtimestamp(*self)) == tokens_of(*self.localtimestamp) + tokens_of(*self.open_paren) + tokens_of(*self.precision) + tokens_of(*self.close_paren)) by {
            reveal_with_fuel(tokens_of, 1);
        }
        if let Some(token) = self.localtimestamp.get_first_token() {
            return Some(token);
        }
        if let Some(token) = self.open_paren.get_first_token() {
            return Some(token);
        }
        if let Some(token) = self.precision.get_first_token() {
            return Some(token);
        }
        if let Some(token) = self.close_paren.get_first_token() {
            return Some(token);
        }
        None
    }

    pub fn get_last_token(&self) -> (r: Option<&token::Token<'a>>)
        ensures
            deref_opt(r) == last_of(tokens_of(ParseTree::Localtimestamp(*self))),
        decreases *self, 0nat,
    {
        assert(tokens_of(ParseTree::Localtimestamp(*self)) == tokens_of(*self.localtimestamp) + tokens_of(*self.open_paren) + tokens_of(*self.precision) + tokens_of(*self.close_paren)) by {
            reveal_with_fuel(tokens_of, 1);
        }
        if let Some(token) = self.close_paren.get_last_token() {
            return Some(token);
        }
        if let Some(token) = self.precision.get_last_token() {
            return Some(token);
        }
        if let Some(token) = self.open_paren.get_last_token() {
            return Some(token);
        }
        if let Some(token) = self.localtimestamp.get_last_token() {
            return Some(token);
        }
        None
    }
}

#[derive(Debug)]
pub struct Cast<'a> {
    pub cast: Box<ParseTree<'a>>,
    pub open_paren: Box<ParseTree<'a>>,
    pub value: Box<ParseTree<'a>>,
    pub as_: Box<ParseTree<'a>>,
    pub type_: Box<ParseTree<'a>>,
    pub close_paren: Box<ParseTree<'a>>,
}

pub fn cast<'a>(
    cast_tree: ParseTree<'a>,
    open_paren: ParseTree<'a>,
    value: ParseTree<'a>,
    as_: ParseTree<'a>,
    type_: ParseTree<'a>,
    close_paren: ParseTree<'a>,
) -> (r: ParseTree<'a>)
    ensures
        r == ParseTree::Cast(Cast { cast: Box::new(cast_tree), open_paren: Box::new(open_paren), value: Box::new(value), as_: Box::new(as_), type_: Box::new(type_), close_paren: Box::new(close_paren) }),
        tokens_of(r) == tokens_of(cast_tree) + tokens_of(open_paren) + tokens_of(value) + tokens_of(as_) + tokens_of(type_) + tokens_of(close_paren),
        tree_wf(r) == (tree_wf(cast_tree) && tree_wf(open_paren) && tree_wf(value) && tree_wf(as_) && tree_wf(type_) && tree_wf(close_paren)),
        lossless(r) == (lossless(cast_tree) && lossless(open_paren) && lossless(value) && lossless(as_) && lossless(type_) && lossless(close_paren)),
{
    assert(tokens_of(ParseTree::Cast(Cast { cast: Box::new(cast_tree), open_paren: Box::new(open_paren), value: Box::new(value), as_: Box::new(as_), type_: Box::new(type_), close_paren: Box::new(close_paren) })) == tokens_of(cast_tree) + tokens_of(open_paren) + tokens_of(value) + tokens_of(as_) + tokens_of(type_) + tokens_of(close_paren)) by {
        reveal_with_fuel(tokens_of, 1);
    }
    assert(tree_wf(ParseTree::Cast(Cast { cast: Box::new(cast_tree), open_paren: Box::new(open_paren), value: Box::new(value), as_: Box::new(as_), type_: Box::new(type_), close_paren: Box::new(close_paren) })) == (tree_wf(cast_tree) && tree_wf(open_paren) && tree_wf(value) && tree_wf(as_) && tree_wf(type_) && tree_wf(close_paren))) by {
        reveal_with_fuel(tree_wf, 1);
    }
    assert(lossless(ParseTree::Cast(Cast { cast: Box::new(cast_tree), open_paren: Box::new(open_paren), value: Box::new(value), as_: Box::new(as_), type_: Box::new(type_), close_paren: Box::new(close_paren) })) == (lossless(cast_tree) && lossless(open_paren) && lossless(value) && lossless(as_) && lossless(type_) && lossless(close_paren))) by {
        reveal_with_fuel(lossless, 1);
    }
    ParseTree::Cast(Cast { cast: Box::new(cast_tree), open_paren: Box::new(open_paren), value: Box::new(value), as_: Box::new(as_), type_: Box::new(type_), close_paren: Box::new(close_paren) })
}

impl<'a> Cast<'a> {
    pub fn to_tree(self) -> (r: ParseTree<'a>)
        ensures
            r == ParseTree::Cast(self),
    {
        ParseTree::Cast(self)
    }

    pub fn children(&self) -> (r: Vec<&ParseTree<'a>>)
        ensures
            deref_seq(r@) == children_of(ParseTree::Cast(*self)),
    {
        let mut result: Vec<&ParseTree<'a>> = Vec::new();
        result.push(&*self.cast);
        result.push(&*self.open_paren);
        result.push(&*self.value);
        result.push(&*self.as_);
        result.push(&*self.type_);
        result.push(&*self.close_paren);
        assert(deref_seq(result@) =~= children_of(ParseTree::Cast(*self)));
        result
    }

    pub fn unbox(self) -> (r: (ParseTree<'a>, ParseTree<'a>, ParseTree<'a>, ParseTree<'a>, ParseTree<'a>, ParseTree<'a>))
        ensures
            r == (*self.cast, *self.open_paren, *self.value, *self.as_, *self.type_, *self.close_paren),
    {
        (*self.cast, *self.open_paren, *self.value, *self.as_, *self.type_, *self.close_paren)
    }

    pub fn get_first_child(&self) -> (r: &ParseTree<'a>)
        ensures
            *r == *self.cast,
    {
        &self.cast
    }

    pub fn get_last_child(&self) -> (r: &ParseTree<'a>)
        ensures
            *r == *self.close_paren,
    {
        &self.close_paren
    }

    pub fn get_first_token(&self) -> (r: Option<&token::Token<'a>>)
        ensures
            deref_opt(r) == first_of(tokens_of(ParseTree::Cast(*self))),
        decreases *self, 0nat,
    {
        assert(tokens_of(ParseTree::Cast(*self)) == tokens_of(*self.cast) + tokens_of(*self.open_paren) + tokens_of(*self.value) + tokens_of(*self.as_) + tokens_of(*self.type_) + tokens_of(*self.close_paren)) by {
            reveal_with_fuel(tokens_of, 1);
        }
        if let Some(token) = self.cast.get_first_token() {
            return Some(token);
        }
        if let Some(token) = self.open_paren.get_first_token() {
            return Some(token);
        }
        if let Some(token) = self.value.get_first_token() {
            return Some(token);
        }
        if let Some(token) = self.as_.get_first_token() {
            return Some(token);
        }
        if let Some(token) = self.type_.get_first_token() {
            return Some(token);
        }
        if let Some(token) = self.close_paren.get_first_token() {
            return Some(token);
        }
        None
    }

    pub fn get_last_token(&self) -> (r: Option<&token::Token<'a>>)
        ensures
            deref_opt(r) == last_of(tokens_of(ParseTree::Cast(*self))),
        decreases *self, 0nat,
    {
        assert(tokens_of(ParseTree::Cast(*self)) == tokens_of(*self.cast) + tokens_of(*self.open_paren) + tokens_of(*self.value) + tokens_of(*self.as_) + tokens_of(*self.type_) + tokens_of(*self.close_paren)) by {
            reveal_with_fuel(tokens_of, 1);
        }
        if let Some(token) = self.close_paren.get_last_token() {
            return Some(token);
        }
        if let Some(token) = self.type_.get_last_token() {
            return Some(token);
        }
        if let Some(token) = self.as_.get_last_token() {
            return Some(token);
        }
        if let Some(token) = self.value.get_last_token() {
            return Some(token);
        }
        if let Some(token) = self.open_paren.get_last_token() {
            return Some(token);
        }
        if let Some(token) = self.cast.get_last_token() {
            return Some(token);
        }
        None
    }
}

#[derive(Debug)]
pub struct WhenClause<'a> {
    pub when: Box<ParseTree<'a>>,
    pub condition: Box<ParseTree<'a>>,
    pub then_: Box<ParseTree<'a>>,
    pub result: Box<ParseTree<'a>>,
}

pub fn when_clause<'a>(
    when: ParseTree<'a>,
    condition: ParseTree<'a>,
    then_: ParseTree<'a>,
    result: ParseTree<'a>,
) -> (r: ParseTree<'a>)
    ensures
        r == ParseTree::WhenClause(WhenClause { when: Box::new(when), condition: Box::new(condition), then_: Box::new(then_), result: Box::new(result) }),
        tokens_of(r) == tokens_of(when) + tokens_of(condition) + tokens_of(then_) + tokens_of(result),
        tree_wf(r) == (tree_wf(when) && tree_wf(condition) && tree_wf(then_) && tree_wf(result)),
        lossless(r) == (lossless(when) && lossless(condition) && lossless(then_) && lossless(result)),
{
    assert(tokens_of(ParseTree::WhenClause(WhenClause { when: Box::new(when), condition: Box::new(condition), then_: Box::new(then_), result: Box::new(result) })) == tokens_of(when) + tokens_of(condition) + tokens_of(then_) + tokens_of(result)) by {
        reveal_with_fuel(tokens_of, 1);
    }
    assert(tree_wf(ParseTree::WhenClause(WhenClause { when: Box::new(when), condition: Box::new(condition), then_: Box::new(then_), result: Box::new(result) })) == (tree_wf(when) && tree_wf(condition) && tree_wf(then_) && tree_wf(result))) by {
        reveal_with_fuel(tree_wf, 1);
    }
    assert(lossless(ParseTree::WhenClause(WhenClause { when: Box::new(when), condition: Box::new(condition), then_: Box::new(then_), result: Box::new(result) })) == (lossless(when) && lossless(condition) && lossless(then_) && lossless(result))) by {
        reveal_with_fuel(lossless, 1);
    }
    ParseTree::WhenClause(WhenClause { when: Box::new(when), condition: Box::new(condition), then_: Box::new(then_), result: Box::new(result) })
}

impl<'a> WhenClause<'a> {
    pub fn to_tree(self) -> (r: ParseTree<'a>)
        ensures
            r == ParseTree::WhenClause(self),
    {
        ParseTree::WhenClause(self)
    }

    pub fn children(&self) -> (r: Vec<&ParseTree<'a>>)
        ensures
            deref_seq(r@) == children_of(ParseTree::WhenClause(*self)),
    {
        let mut result: Vec<&ParseTree<'a>> = Vec::new();
        result.push(&*self.when);
        result.push(&*self.condition);
        result.push(&*self.then_);
        result.push(&*self.result);
        assert(deref_seq(result@) =~= children_of(ParseTree::WhenClause(*self)));
        result
    }

    pub fn unbox(self) -> (r: (ParseTree<'a>, ParseTree<'a>, ParseTree<'a>, ParseTree<'a>))
        ensures
            r == (*self.when, *self.condition, *self.then_, *self.result),
    {
        (*self.when, *self.condition, *self.then_, *self.result)
    }

    pub fn get_first_child(&self) -> (r: &ParseTree<'a>)
        ensures
            *r == *self.when,
    {
        &self.when
    }

    pub fn get_last_child(&self) -> (r: &ParseTree<'a>)
        ensures
            *r == *self.result,
    {
        &self.result
    }

    pub fn get_first_token(&self) -> (r: Option<&token::Token<'a>>)
        ensures
            deref_opt(r) == first_of(tokens_of(ParseTree::WhenClause(*self))),
        decreases *self, 0nat,
    {
        assert(tokens_of(ParseTree::WhenClause(*self)) == tokens_of(*self.when) + tokens_of(*self.condition) + tokens_of(*self.then_) + tokens_of(*self.result)) by {
            reveal_with_fuel(tokens_of, 1);
        }
        if let Some(token) = self.when.get_first_token() {
            return Some(token);
        }
        if let Some(token) = self.condition.get_first_token() {
            return Some(token);
        }
        if let Some(token) = self.then_.get_first_token() {
            return Some(token);
        }
        if let Some(token) = self.result.get_first_token() {
            return Some(token);
        }
        None
    }

    pub fn get_last_token(&self) -> (r: Option<&token::Token<'a>>)
        ensures
            deref_opt(r) == last_of(tokens_of(ParseTree::WhenClause(*self))),
        decreases *self, 0nat,
    {
        assert(tokens_of(ParseTree::WhenClause(*self)) == tokens_of(*self.when) + tokens_of(*self.condition) + tokens_of(*self.then_) + tokens_of(*self.result)) by {
            reveal_with_fuel(tokens_of, 1);
        }
        if let Some(token) = self.result.get_last_token() {
            return Some(token);
        }
        if let Some(token) = self.then_.get_last_token() {
            return Some(token);
        }
        if let Some(token) = self.condition.get_last_token() {
            return Some(token);
        }
        if let Some(token) = self.when.get_last_token() {
            return Some(token);
        }
        None
    }
}

#[derive(Debug)]
pub struct Case<'a> {
    pub case: Box<ParseTree<'a>>,
    pub value_opt: Box<ParseTree<'a>>,
    pub when_clauses: Box<ParseTree<'a>>,
    pub else_opt: Box<ParseTree<'a>>,
    pub default: Box<ParseTree<'a>>,
    pub end: Box<ParseTree<'a>>,
}

pub fn case<'a>(
    case_tree: ParseTree<'a>,
    value_opt: ParseTree<'a>,
    when_clauses: ParseTree<'a>,
    else_opt: ParseTree<'a>,
    default: ParseTree<'a>,
    end: ParseTree<'a>,
) -> (r: ParseTree<'a>)
    ensures
        r == ParseTree::Case(Case { case: Box::new(case_tree), value_opt: Box::new(value_opt), when_clauses: Box::new(when_clauses), else_opt: Box::new(else_opt), default: Box::new(default), end: Box::new(end) }),
        tokens_of(r) == tokens_of(case_tree) + tokens_of(value_opt) + tokens_of(when_clauses) + tokens_of(else_opt) + tokens_of(default) + tokens_of(end),
        tree_wf(r) == (tree_wf(case_tree) && tree_wf(value_opt) && tree_wf(when_clauses) && tree_wf(else_opt) && tree_wf(default) && tree_wf(end)),
        lossless(r) == (lossless(case_tree) && lossless(value_opt) && lossless(when_clauses) && lossless(else_opt) && lossless(default) && lossless(end)),
{
    assert(tokens_of(ParseTree::Case(Case { case: Box::new(case_tree), value_opt: Box::new(value_opt), when_clauses: Box::new(when_clauses), else_opt: Box::new(else_opt), default: Box::new(default), end: Box::new(end) })) == tokens_of(case_tree) + tokens_of(value_opt) + tokens_of(when_clauses) + tokens_of(else_opt) + tokens_of(default) + tokens_of(end)) by {
        reveal_with_fuel(tokens_of, 1);
    }
    assert(tree_wf(ParseTree::Case(Case { case: Box::new(case_tree), value_opt: Box::new(value_opt), when_clauses: Box::new(when_clauses), else_opt: Box::new(else_opt), default: Box::new(default), end: Box::new(end) })) == (tree_wf(case_tree) && tree_wf(value_opt) && tree_wf(when_clauses) && tree_wf(else_opt) && tree_wf(default) && tree_wf(end))) by {
        reveal_with_fuel(tree_wf, 1);
    }
    assert(lossless(ParseTree::Case(Case { case: Box::new(case_tree), value_opt: Box::new(value_opt), when_clauses: Box::new(when_clauses), else_opt: Box::new(else_opt), default: Box::new(default), end: Box::new(end) })) == (lossless(case_tree) && lossless(value_opt) && lossless(when_clauses) && lossless(else_opt) && lossless(default) && lossless(end))) by {
        reveal_with_fuel(lossless, 1);
    }
    ParseTree::Case(Case { case: Box::new(case_tree), value_opt: Box::new(value_opt), when_clauses: Box::new(when_clauses), else_opt: Box::new(else_opt), default: Box::new(default), end: Box::new(end) })
}

impl<'a> Case<'a> {
    pub fn to_tree(self) -> (r: ParseTree<'a>)
        ensures
            r == ParseTree::Case(self),
    {
        ParseTree::Case(self)
    }

    pub fn children(&self) -> (r: Vec<&ParseTree<'a>>)
        ensures
            deref_seq(r@) == children_of(ParseTree::Case(*self)),
    {
        let mut result: Vec<&ParseTree<'a>> = Vec::new();
        result.push(&*self.case);
        result.push(&*self.value_opt);
        result.push(&*self.when_clauses);
        result.push(&*self.else_opt);
        result.push(&*self.default);
        result.push(&*self.end);
        assert(deref_seq(result@) =~= children_of(ParseTree::Case(*self)));
        result
    }

    pub fn unbox(self) -> (r: (ParseTree<'a>, ParseTree<'a>, ParseTree<'a>, ParseTree<'a>, ParseTree<'a>, ParseTree<'a>))
        ensures
            r == (*self.case, *self.value_opt, *self.when_clauses, *self.else_opt, *self.default, *self.end),
    {
        (*self.case, *self.value_opt, *self.when_clauses, *self.else_opt, *self.default, *self.end)
    }

    pub fn get_first_child(&self) -> (r: &ParseTree<'a>)
        ensures
            *r == *self.case,
    {
        &self.case
    }

    pub fn get_last_child(&self) -> (r: &ParseTree<'a>)
        ensures
            *r == *self.end,
    {
        &self.end
    }

    pub fn get_first_token(&self) -> (r: Option<&token::Token<'a>>)
        ensures
            deref_opt(r) == first_of(tokens_of(ParseTree::Case(*self))),
        decreases *self, 0nat,
    {
        assert(tokens_of(ParseTree::Case(*self)) == tokens_of(*self.case) + tokens_of(*self.value_opt) + tokens_of(*self.when_clauses) + tokens_of(*self.else_opt) + tokens_of(*self.default) + tokens_of(*self.end)) by {
            reveal_with_fuel(tokens_of, 1);
        }
        if let Some(token) = self.case.get_first_token() {
            return Some(token);
        }
        if let Some(token) = self.value_opt.get_first_token() {
            return Some(token);
        }
        if let Some(token) = self.when_clauses.get_first_token() {
            return Some(token);
        }
        if let Some(token) = self.else_opt.get_first_token() {
            return Some(token);
        }
        if let Some(token) = self.default.get_first_token() {
            return Some(token);
        }
        if let Some(token) = self.end.get_first_token() {
            return Some(token);
        }
        None
    }

    pub fn get_last_token(&self) -> (r: Option<&token::Token<'a>>)
        ensures
            deref_opt(r) == last_of(tokens_of(ParseTree::Case(*self))),
        decreases *self, 0nat,
    {
        assert(tokens_of(ParseTree::Case(*self)) == tokens_of(*self.case) + tokens_of(*self.value_opt) + tokens_of(*self.when_clauses) + tokens_of(*self.else_opt) + tokens_of(*self.default) + tokens_of(*self.end)) by {
            reveal_with_fuel(tokens_of, 1);
        }
        if let Some(token) = self.end.get_last_token() {
            return Some(token);
        }
        if let Some(token) = self.default.get_last_token() {
            return Some(token);
        }
        if let Some(token) = self.else_opt.get_last_token() {
            return Some(token);
        }
        if let Some(token) = self.when_clauses.get_last_token() {
            return Some(token);
        }
        if let Some(token) = self.value_opt.get_last_token() {
            return Some(token);
        }
        if let Some(token) = self.case.get_last_token() {
            return Some(token);
        }
        None
    }
}

#[derive(Debug)]
pub struct Exists<'a> {
    pub exists: Box<ParseTree<'a>>,
    pub open_paren: Box<ParseTree<'a>>,
    pub query: Box<ParseTree<'a>>,
    pub close_paren: Box<ParseTree<'a>>,
}

pub fn exists_<'a>(
    exists: ParseTree<'a>,
    open_paren: ParseTree<'a>,
    query: ParseTree<'a>,
    close_paren: ParseTree<'a>,
) -> (r: ParseTree<'a>)
    ensures
        r == ParseTree::Exists(Exists { exists: Box::new(exists), open_paren: Box::new(open_paren), query: Box::new(query), close_paren: Box::new(close_paren) }),
        tokens_of(r) == tokens_of(exists) + tokens_of(open_paren) + tokens_of(query) + tokens_of(close_paren),
        tree_wf(r) == (tree_wf(exists) && tree_wf(open_paren) && tree_wf(query) && tree_wf(close_paren)),
        lossless(r) == (lossless(exists) && lossless(open_paren) && lossless(query) && lossless(close_paren)),
{
    assert(tokens_of(ParseTree::Exists(Exists { exists: Box::new(exists), open_paren: Box::new(open_paren), query: Box::new(query), close_paren: Box::new(close_paren) })) == tokens_of(exists) + tokens_of(open_paren) + tokens_of(query) + tokens_of(close_paren)) by {
        reveal_with_fuel(tokens_of, 1);
    }
    assert(tree_wf(ParseTree::Exists(Exists { exists: Box::new(exists), open_paren: Box::new(open_paren), query: Box::new(query), close_paren: Box::new(close_paren) })) == (tree_wf(exists) && tree_wf(open_paren) && tree_wf(query) && tree_wf(close_paren))) by {
        reveal_with_fuel(tree_wf, 1);
    }
    assert(lossless(ParseTree::Exists(Exists { exists: Box::new(exists), open_paren: Box::new(open_paren), query: Box::new(query), close_paren: Box::new(close_paren) })) == (lossless(exists) && lossless(open_paren) && lossless(query) && lossless(close_paren))) by {
        reveal_with_fuel(lossless, 1);
    }
    ParseTree::Exists(Exists { exists: Box::new(exists), open_paren: Box::new(open_paren), query: Box::new(query), close_paren: Box::new(close_paren) })
}

impl<'a> Exists<'a> {
    pub fn to_tree(self) -> (r: ParseTree<'a>)
        ensures
            r == ParseTree::Exists(self),
    {
        ParseTree::Exists(self)
    }

    pub fn children(&self) -> (r: Vec<&ParseTree<'a>>)
        ensures
            deref_seq(r@) == children_of(ParseTree::Exists(*self)),
    {
        let mut result: Vec<&ParseTree<'a>> = Vec::new();
        result.push(&*self.exists);
        result.push(&*self.open_paren);
        result.push(&*self.query);
        result.push(&*self.close_paren);
        assert(deref_seq(result@) =~= children_of(ParseTree::Exists(*self)));
        result
    }

    pub fn unbox(self) -> (r: (ParseTree<'a>, ParseTree<'a>, ParseTree<'a>, ParseTree<'a>))
        ensures
            r == (*self.exists, *self.open_paren, *self.query, *self.close_paren),
    {
        (*self.exists, *self.open_paren, *self.query, *self.close_paren)
    }

    pub fn get_first_child(&self) -> (r: &ParseTree<'a>)
        ensures
            *r == *self.exists,
    {
        &self.exists
    }

    pub fn get_last_child(&self) -> (r: &ParseTree<'a>)
        ensures
            *r == *self.close_paren,
    {
        &self.close_paren
    }

    pub fn get_first_token(&self) -> (r: Option<&token::Token<'a>>)
        ensures
            deref_opt(r) == first_of(tokens_of(ParseTree::Exists(*self))),
        decreases *self, 0nat,
    {
        assert(tokens_of(ParseTree::Exists(*self)) == tokens_of(*self.exists) + tokens_of(*self.open_paren) + tokens_of(*self.query) + tokens_of(*self.close_paren)) by {
            reveal_with_fuel(tokens_of, 1);
        }
        if let Some(token) = self.exists.get_first_token() {
            return Some(token);
        }
        if let Some(token) = self.open_paren.get_first_token() {
            return Some(token);
        }
        if let Some(token) = self.query.get_first_token() {
            return Some(token);
        }
        if let Some(token) = self.close_paren.get_first_token() {
            return Some(token);
        }
        None
    }

    pub fn get_last_token(&self) -> (r: Option<&token::Token<'a>>)
        ensures
            deref_opt(r) == last_of(tokens_of(ParseTree::Exists(*self))),
        decreases *self, 0nat,
    {
        assert(tokens_of(ParseTree::Exists(*self)) == tokens_of(*self.exists) + tokens_of(*self.open_paren) + tokens_of(*self.query) + tokens_of(*self.close_paren)) by {
            reveal_with_fuel(tokens_of, 1);
        }
        if let Some(token) = self.close_paren.get_last_token() {
            return Some(token);
        }
        if let Some(token) = self.query.get_last_token() {
            return Some(token);
        }
        if let Some(token) = self.open_paren.get_last_token() {
            return Some(token);
        }
        if let Some(token) = self.exists.get_last_token() {
            return Some(token);
        }
        None
    }
}

#[derive(Debug)]
pub struct TypeConstructor<'a> {
    pub type_: Box<ParseTree<'a>>,
    pub value: Box<ParseTree<'a>>,
}

pub fn type_constructor<'a>(
    type_: ParseTree<'a>,
    value: ParseTree<'a>,
) -> (r: ParseTree<'a>)
    ensures
        r == ParseTree::TypeConstructor(TypeConstructor { type_: Box::new(type_), value: Box::new(value) }),
        tokens_of(r) == tokens_of(type_) + tokens_of(value),
        tree_wf(r) == (tree_wf(type_) && tree_wf(value)),
        lossless(r) == (lossless(type_) && lossless(value)),
{
    assert(tokens_of(ParseTree::TypeConstructor(TypeConstructor { type_: Box::new(type_), value: Box::new(value) })) == tokens_of(type_) + tokens_of(value)) by {
        reveal_with_fuel(tokens_of, 1);
    }
    assert(tree_wf(ParseTree::TypeConstructor(TypeConstructor { type_: Box::new(type_), value: Box::new(value) })) == (tree_wf(type_) && tree_wf(value))) by {
        reveal_with_fuel(tree_wf, 1);
    }
    assert(lossless(ParseTree::TypeConstructor(TypeConstructor { type_: Box::new(type_), value: Box::new(value) })) == (lossless(type_) && lossless(value))) by {
        reveal_with_fuel(lossless, 1);
    }
    ParseTree::TypeConstructor(TypeConstructor { type_: Box::new(type_), value: Box::new(value) })
}

impl<'a> TypeConstructor<'a> {
    pub fn to_tree(self) -> (r: ParseTree<'a>)
        ensures
            r == ParseTree::TypeConstructor(self),
    {
        ParseTree::TypeConstructor(self)
    }

    pub fn children(&self) -> (r: Vec<&ParseTree<'a>>)
        ensures
            deref_seq(r@) == children_of(ParseTree::TypeConstructor(*self)),
    {
        let mut result: Vec<&ParseTree<'a>> = Vec::new();
        result.push(&*self.type_);
        result.push(&*self.value);
        assert(deref_seq(result@) =~= children_of(ParseTree::TypeConstructor(*self)));
        result
    }

    pub fn unbox(self) -> (r: (ParseTree<'a>, ParseTree<'a>))
        ensures
            r == (*self.type_, *self.value),
    {
        (*self.type_, *self.value)
    }

    pub fn get_first_child(&self) -> (r: &ParseTree<'a>)
        ensures
            *r == *self.type_,
    {
        &self.type_
    }

    pub fn get_last_child(&self) -> (r: &ParseTree<'a>)
        ensures
            *r == *self.value,
    {
        &self.value
    }

    pub fn get_first_token(&self) -> (r: Option<&token::Token<'a>>)
        ensures
            deref_opt(r) == first_of(tokens_of(ParseTree::TypeConstructor(*self))),
        decreases *self, 0nat,
    {
        assert(tokens_of(ParseTree::TypeConstructor(*self)) == tokens_of(*self.type_) + tokens_of(*self.value)) by {
            reveal_with_fuel(tokens_of, 1);
        }
        if let Some(token) = self.type_.get_first_token() {
            return Some(token);
        }
        if let Some(token) = self.value.get_first_token() {
            return Some(token);
        }
        None
    }

    pub fn get_last_token(&self) -> (r: Option<&token::Token<'a>>)
        ensures
            deref_opt(r) == last_of(tokens_of(ParseTree::TypeConstructor(*self))),
        decreases *self, 0nat,
    {
        assert(tokens_of(ParseTree::TypeConstructor(*self)) == tokens_of(*self.type_) + tokens_of(*self.value)) by {
            reveal_with_fuel(tokens_of, 1);
        }
        if let Some(token) = self.value.get_last_token() {
            return Some(token);
        }
        if let Some(token) = self.type_.get_last_token() {
            return Some(token);
        }
        None
    }
}

#[derive(Debug)]
pub struct Array<'a> {
    pub array: Box<ParseTree<'a>>,
    pub elements: Box<ParseTree<'a>>,
}

pub fn array<'a>(
    array_tree: ParseTree<'a>,
    elements: ParseTree<'a>,
) -> (r: ParseTree<'a>)
    ensures
        r == ParseTree::Array(Array { array: Box::new(array_tree), elements: Box::new(elements) }),
        tokens_of(r) == tokens_of(array_tree) + tokens_of(elements),
        tree_wf(r) == (tree_wf(array_tree) && tree_wf(elements)),
        lossless(r) == (lossless(array_tree) && lossless(elements)),
{
    assert(tokens_of(ParseTree::Array(Array { array: Box::new(array_tree), elements: Box::new(elements) })) == tokens_of(array_tree) + tokens_of(elements)) by {
        reveal_with_fuel(tokens_of, 1);
    }
    assert(tree_wf(ParseTree::Array(Array { array: Box::new(array_tree), elements: Box::new(elements) })) == (tree_wf(array_tree) && tree_wf(elements))) by {
        reveal_with_fuel(tree_wf, 1);
    }
    assert(lossless(ParseTree::Array(Array { array: Box::new(array_tree), elements: Box::new(elements) })) == (lossless(array_tree) && lossless(elements))) by {
        reveal_with_fuel(lossless, 1);
    }
    ParseTree::Array(Array { array: Box::new(array_tree), elements: Box::new(elements) })
}

impl<'a> Array<'a> {
    pub fn to_tree(self) -> (r: ParseTree<'a>)
        ensures
            r == ParseTree::Array(self),
    {
        ParseTree::Array(self)
    }

    pub fn children(&self) -> (r: Vec<&ParseTree<'a>>)
        ensures
            deref_seq(r@) == children_of(ParseTree::Array(*self)),
    {
        let mut result: Vec<&ParseTree<'a>> = Vec::new();
        result.push(&*self.array);
        result.push(&*self.elements);
        assert(deref_seq(result@) =~= children_of(ParseTree::Array(*self)));
        result
    }

    pub fn unbox(self) -> (r: (ParseTree<'a>, ParseTree<'a>))
        ensures
            r == (*self.array, *self.elements),
    {
        (*self.array, *self.elements)
    }

    pub fn get_first_child(&self) -> (r: &ParseTree<'a>)
        ensures
            *r == *self.array,
    {
        &self.array
    }

    pub fn get_last_child(&self) -> (r: &ParseTree<'a>)
        ensures
            *r == *self.elements,
    {
        &self.elements
    }

    pub fn get_first_token(&self) -> (r: Option<&token::Token<'a>>)
        ensures
            deref_opt(r) == first_of(tokens_of(ParseTree::Array(*self))),
        decreases *self, 0nat,
    {
        assert(tokens_of(ParseTree::Array(*self)) == tokens_of(*self.array) + tokens_of(*self.elements)) by {
            reveal_with_fuel(tokens_of, 1);
        }
        if let Some(token) = self.array.get_first_token() {
            return Some(token);
        }
        if let Some(token) = self.elements.get_first_token() {
            return Some(token);
        }
        None
    }

    pub fn get_last_token(&self) -> (r: Option<&token::Token<'a>>)
        ensures
            deref_opt(r) == last_of(tokens_of(ParseTree::Array(*self))),
        decreases *self, 0nat,
    {
        assert(tokens_of(ParseTree::Array(*self)) == tokens_of(*self.array) + tokens_of(*self.elements)) by {
            reveal_with_fuel(tokens_of, 1);
        }
        if let Some(token) = self.elements.get_last_token() {
            return Some(token);
        }
        if let Some(token) = self.array.get_last_token() {
            return Some(token);
        }
        None
    }
}

#[derive(Debug)]
pub struct Interval<'a> {
    pub interval: Box<ParseTree<'a>>,
    pub sign_opt: Box<ParseTree<'a>>,
    pub value: Box<ParseTree<'a>>,
    pub from: Box<ParseTree<'a>>,
    pub to_kw_opt: Box<ParseTree<'a>>,
    pub to: Box<ParseTree<'a>>,
}

pub fn interval<'a>(
    interval_tree: ParseTree<'a>,
    sign_opt: ParseTree<'a>,
    value: ParseTree<'a>,
    from: ParseTree<'a>,
    to_kw_opt: ParseTree<'a>,
    to: ParseTree<'a>,
) -> (r: ParseTree<'a>)
    ensures
        r == ParseTree::Interval(Interval { interval: Box::new(interval_tree), sign_opt: Box::new(sign_opt), value: Box::new(value), from: Box::new(from), to_kw_opt: Box::new(to_kw_opt), to: Box::new(to) }),
        tokens_of(r) == tokens_of(interval_tree) + tokens_of(sign_opt) + tokens_of(value) + tokens_of(from) + tokens_of(to_kw_opt) + tokens_of(to),
        tree_wf(r) == (tree_wf(interval_tree) && tree_wf(sign_opt) && tree_wf(value) && tree_wf(from) && tree_wf(to_kw_opt) && tree_wf(to)),
        lossless(r) == (lossless(interval_tree) && lossless(sign_opt) && lossless(value) && lossless(from) && lossless(to_kw_opt) && lossless(to)),
{
    assert(tokens_of(ParseTree::Interval(Interval { interval: Box::new(interval_tree), sign_opt: Box::new(sign_opt), value: Box::new(value), from: Box::new(from), to_kw_opt: Box::new(to_kw_opt), to: Box::new(to) })) == tokens_of(interval_tree) + tokens_of(sign_opt) + tokens_of(value) + tokens_of(from) + tokens_of(to_kw_opt) + tokens_of(to)) by {
        reveal_with_fuel(tokens_of, 1);
    }
    assert(tree_wf(ParseTree::Interval(Interval { interval: Box::new(interval_tree), sign_opt: Box::new(sign_opt), value: Box::new(value), from: Box::new(from), to_kw_opt: Box::new(to_kw_opt), to: Box::new(to) })) == (tree_wf(interval_tree) && tree_wf(sign_opt) && tree_wf(value) && tree_wf(from) && tree_wf(to_kw_opt) && tree_wf(to))) by {
        reveal_with_fuel(tree_wf, 1);
    }
    assert(lossless(ParseTree::Interval(Interval { interval: Box::new(interval_tree), sign_opt: Box::new(sign_opt), value: Box::new(value), from: Box::new(from), to_kw_opt: Box::new(to_kw_opt), to: Box::new(to) })) == (lossless(interval_tree) && lossless(sign_opt) && lossless(value) && lossless(from) && lossless(to_kw_opt) && lossless(to))) by {
        reveal_with_fuel(lossless, 1);
    }
    ParseTree::Interval(Interval { interval: Box::new(interval_tree), sign_opt: Box::new(sign_opt), value: Box::new(value), from: Box::new(from), to_kw_opt: Box::new(to_kw_opt), to: Box::new(to) })
}

impl<'a> Interval<'a> {
    pub fn to_tree(self) -> (r: ParseTree<'a>)
        ensures
            r == ParseTree::Interval(self),
    {
        ParseTree::Interval(self)
    }

    pub fn children(&self) -> (r: Vec<&ParseTree<'a>>)
        ensures
            deref_seq(r@) == children_of(ParseTree::Interval(*self)),
    {
        let mut result: Vec<&ParseTree<'a>> = Vec::new();
        result.push(&*self.interval);
        result.push(&*self.sign_opt);
        result.push(&*self.value);
        result.push(&*self.from);
        result.push(&*self.to_kw_opt);
        result.push(&*self.to);
        assert(deref_seq(result@) =~= children_of(ParseTree::Interval(*self)));
        result
    }

    pub fn unbox(self) -> (r: (ParseTree<'a>, ParseTree<'a>, ParseTree<'a>, ParseTree<'a>, ParseTree<'a>, ParseTree<'a>))
        ensures
            r == (*self.interval, *self.sign_opt, *self.value, *self.from, *self.to_kw_opt, *self.to),
    {
        (*self.interval, *self.sign_opt, *self.value, *self.from, *self.to_kw_opt, *self.to)
    }

    pub fn get_first_child(&self) -> (r: &ParseTree<'a>)
        ensures
            *r == *self.interval,
    {
        &self.interval
    }

    pub fn get_last_child(&self) -> (r: &ParseTree<'a>)
        ensures
            *r == *self.to,
    {
        &self.to
    }

    pub fn get_first_token(&self) -> (r: Option<&token::Token<'a>>)
        ensures
            deref_opt(r) == first_of(tokens_of(ParseTree::Interval(*self))),
        decreases *self, 0nat,
    {
        assert(tokens_of(ParseTree::Interval(*self)) == tokens_of(*self.interval) + tokens_of(*self.sign_opt) + tokens_of(*self.value) + tokens_of(*self.from) + tokens_of(*self.to_kw_opt) + tokens_of(*self.to)) by {
            reveal_with_fuel(tokens_of, 1);
        }
        if let Some(token) = self.interval.get_first_token() {
            return Some(token);
        }
        if let Some(token) = self.sign_opt.get_first_token() {
            return Some(token);
        }
        if let Some(token) = self.value.get_first_token() {
            return Some(token);
        }
        if let Some(token) = self.from.get_first_token() {
            return Some(token);
        }
        if let Some(token) = self.to_kw_opt.get_first_token() {
            return Some(token);
        }
        if let Some(token) = self.to.get_first_token() {
            return Some(token);
        }
        None
    }

    pub fn get_last_token(&self) -> (r: Option<&token::Token<'a>>)
        ensures
            deref_opt(r) == last_of(tokens_of(ParseTree::Interval(*self))),
        decreases *self, 0nat,
    {
        assert(tokens_of(ParseTree::Interval(*self)) == tokens_of(*self.interval) + tokens_of(*self.sign_opt) + tokens_of(*self.value) + tokens_of(*self.from) + tokens_of(*self.to_kw_opt) + tokens_of(*self.to)) by {
            reveal_with_fuel(tokens_of, 1);
        }
        if let Some(token) = self.to.get_last_token() {
            return Some(token);
        }
        if let Some(token) = self.to_kw_opt.get_last_token() {
            return Some(token);
        }
        if let Some(token) = self.from.get_last_token() {
            return Some(token);
        }
        if let Some(token) = self.value.get_last_token() {
            return Some(token);
        }
        if let Some(token) = self.sign_opt.get_last_token() {
            return Some(token);
        }
        if let Some(token) = self.interval.get_last_token() {
            return Some(token);
        }
        None
    }
}

#[derive(Debug)]
pub struct Row<'a> {
    pub row: Box<ParseTree<'a>>,
    pub elements: Box<ParseTree<'a>>,
}

pub fn row<'a>(
    row_tree: ParseTree<'a>,
    elements: ParseTree<'a>,
) -> (r: ParseTree<'a>)
    ensures
        r == ParseTree::Row(Row { row: Box::new(row_tree), elements: Box::new(elements) }),
        tokens_of(r) == tokens_of(row_tree) + tokens_of(elements),
        tree_wf(r) == (tree_wf(row_tree) && tree_wf(elements)),
        lossless(r) == (lossless(row_tree) && lossless(elements)),
{
    assert(tokens_of(ParseTree::Row(Row { row: Box::new(row_tree), elements: Box::new(elements) })) == tokens_of(row_tree) + tokens_of(elements)) by {
        reveal_with_fuel(tokens_of, 1);
    }
    assert(tree_wf(ParseTree::Row(Row { row: Box::new(row_tree), elements: Box::new(elements) })) == (tree_wf(row_tree) && tree_wf(elements))) by {
        reveal_with_fuel(tree_wf, 1);
    }
    assert(lossless(ParseTree::Row(Row { row: Box::new(row_tree), elements: Box::new(elements) })) == (lossless(row_tree) && lossless(elements))) by {
        reveal_with_fuel(lossless, 1);
    }
    ParseTree::Row(Row { row: Box::new(row_tree), elements: Box::new(elements) })
}

impl<'a> Row<'a> {
    pub fn to_tree(self) -> (r: ParseTree<'a>)
        ensures
            r == ParseTree::Row(self),
    {
        ParseTree::Row(self)
    }

    pub fn children(&self) -> (r: Vec<&ParseTree<'a>>)
        ensures
            deref_seq(r@) == children_of(ParseTree::Row(*self)),
    {
        let mut result: Vec<&ParseTree<'a>> = Vec::new();
        result.push(&*self.row);
        result.push(&*self.elements);
        assert(deref_seq(result@) =~= children_of(ParseTree::Row(*self)));
        result
    }

    pub fn unbox(self) -> (r: (ParseTree<'a>, ParseTree<'a>))
        ensures
            r == (*self.row, *self.elements),
    {
        (*self.row, *self.elements)
    }

    pub fn get_first_child(&self) -> (r: &ParseTree<'a>)
        ensures
            *r == *self.row,
    {
        &self.row
    }

    pub fn get_last_child(&self) -> (r: &ParseTree<'a>)
        ensures
            *r == *self.elements,
    {
        &self.elements
    }

    pub fn get_first_token(&self) -> (r: Option<&token::Token<'a>>)
        ensures
            deref_opt(r) == first_of(tokens_of(ParseTree::Row(*self))),
        decreases *self, 0nat,
    {
        assert(tokens_of(ParseTree::Row(*self)) == tokens_of(*self.row) + tokens_of(*self.elements)) by {
            reveal_with_fuel(tokens_of, 1);
        }
        if let Some(token) = self.row.get_first_token() {
            return Some(token);
        }
        if let Some(token) = self.elements.get_first_token() {
            return Some(token);
        }
        None
    }

    pub fn get_last_token(&self) -> (r: Option<&token::Token<'a>>)
        ensures
            deref_opt(r) == last_of(tokens_of(ParseTree::Row(*self))),
        decreases *self, 0nat,
    {
        assert(tokens_of(ParseTree::Row(*self)) == tokens_of(*self.row) + tokens_of(*self.elements)) by {
            reveal_with_fuel(tokens_of, 1);
        }
        if let Some(token) = self.elements.get_last_token() {
            return Some(token);
        }
        if let Some(token) = self.row.get_last_token() {
            return Some(token);
        }
        None
    }
}

#[derive(Debug)]
pub struct TryCast<'a> {
    pub try_cast: Box<ParseTree<'a>>,
    pub open_paren: Box<ParseTree<'a>>,
    pub value: Box<ParseTree<'a>>,
    pub as_: Box<ParseTree<'a>>,
    pub type_: Box<ParseTree<'a>>,
    pub close_paren: Box<ParseTree<'a>>,
}

pub fn try_cast<'a>(
    try_cast_tree: ParseTree<'a>,
    open_paren: ParseTree<'a>,
    value: ParseTree<'a>,
    as_: ParseTree<'a>,
    type_: ParseTree<'a>,
    close_paren: ParseTree<'a>,
) -> (r: ParseTree<'a>)
    ensures
        r == ParseTree::TryCast(TryCast { try_cast: Box::new(try_cast_tree), open_paren: Box::new(open_paren), value: Box::new(value), as_: Box::new(as_), type_: Box::new(type_), close_paren: Box::new(close_paren) }),
        tokens_of(r) == tokens_of(try_cast_tree) + tokens_of(open_paren) + tokens_of(value) + tokens_of(as_) + tokens_of(type_) + tokens_of(close_paren),
        tree_wf(r) == (tree_wf(try_cast_tree) && tree_wf(open_paren) && tree_wf(value) && tree_wf(as_) && tree_wf(type_) && tree_wf(close_paren)),
        lossless(r) == (lossless(try_cast_tree) && lossless(open_paren) && lossless(value) && lossless(as_) && lossless(type_) && lossless(close_paren)),
{
    assert(tokens_of(ParseTree::TryCast(TryCast { try_cast: Box::new(try_cast_tree), open_paren: Box::new(open_paren), value: Box::new(value), as_: Box::new(as_), type_: Box::new(type_), close_paren: Box::new(close_paren) })) == tokens_of(try_cast_tree) + tokens_of(open_paren) + tokens_of(value) + tokens_of(as_) + tokens_of(type_) + tokens_of(close_paren)) by {
        reveal_with_fuel(tokens_of, 1);
    }
    assert(tree_wf(ParseTree::TryCast(TryCast { try_cast: Box::new(try_cast_tree), open_paren: Box::new(open_paren), value: Box::new(value), as_: Box::new(as_), type_: Box::new(type_), close_paren: Box::new(close_paren) })) == (tree_wf(try_cast_tree) && tree_wf(open_paren) && tree_wf(value) && tree_wf(as_) && tree_wf(type_) && tree_wf(close_paren))) by {
        reveal_with_fuel(tree_wf, 1);
    }
    assert(lossless(ParseTree::TryCast(TryCast { try_cast: Box::new(try_cast_tree), open_paren: Box::new(open_paren), value: Box::new(value), as_: Box::new(as_), type_: Box::new(type_), close_paren: Box::new(close_paren) })) == (lossless(try_cast_tree) && lossless(open_paren) && lossless(value) && lossless(as_) && lossless(type_) && lossless(close_paren))) by {
        reveal_with_fuel(lossless, 1);
    }
    ParseTree::TryCast(TryCast { try_cast: Box::new(try_cast_tree), open_paren: Box::new(open_paren), value: Box::new(value), as_: Box::new(as_), type_: Box::new(type_), close_paren: Box::new(close_paren) })
}

impl<'a> TryCast<'a> {
    pub fn to_tree(self) -> (r: ParseTree<'a>)
        ensures
            r == ParseTree::TryCast(self),
    {
        ParseTree::TryCast(self)
    }

    pub fn children(&self) -> (r: Vec<&ParseTree<'a>>)
        ensures
            deref_seq(r@) == children_of(ParseTree::TryCast(*self)),
    {
        let mut result: Vec<&ParseTree<'a>> = Vec::new();
        result.push(&*self.try_cast);
        result.push(&*self.open_paren);
        result.push(&*self.value);
        result.push(&*self.as_);
        result.push(&*self.type_);
        result.push(&*self.close_paren);
        assert(deref_seq(result@) =~= children_of(ParseTree::TryCast(*self)));
        result
    }

    pub fn unbox(self) -> (r: (ParseTree<'a>, ParseTree<'a>, ParseTree<'a>, ParseTree<'a>, ParseTree<'a>, ParseTree<'a>))
        ensures
            r == (*self.try_cast, *self.open_paren, *self.value, *self.as_, *self.type_, *self.close_paren),
    {
        (*self.try_cast, *self.open_paren, *self.value, *self.as_, *self.type_, *self.close_paren)
    }

    pub fn get_first_child(&self) -> (r: &ParseTree<'a>)
        ensures
            *r == *self.try_cast,
    {
        &self.try_cast
    }

    pub fn get_last_child(&self) -> (r: &ParseTree<'a>)
        ensures
            *r == *self.close_paren,
    {
        &self.close_paren
    }

    pub fn get_first_token(&self) -> (r: Option<&token::Token<'a>>)
        ensures
            deref_opt(r) == first_of(tokens_of(ParseTree::TryCast(*self))),
        decreases *self, 0nat,
    {
        assert(tokens_of(ParseTree::TryCast(*self)) == tokens_of(*self.try_cast) + tokens_of(*self.open_paren) + tokens_of(*self.value) + tokens_of(*self.as_) + tokens_of(*self.type_) + tokens_of(*self.close_paren)) by {
            reveal_with_fuel(tokens_of, 1);
        }
        if let Some(token) = self.try_cast.get_first_token() {
            return Some(token);
        }
        if let Some(token) = self.open_paren.get_first_token() {
            return Some(token);
        }
        if let Some(token) = self.value.get_first_token() {
            return Some(token);
        }
        if let Some(token) = self.as_.get_first_token() {
            return Some(token);
        }
        if let Some(token) = self.type_.get_first_token() {
            return Some(token);
        }
        if let Some(token) = self.close_paren.get_first_token() {
            return Some(token);
        }
        None
    }

    pub fn get_last_token(&self) -> (r: Option<&token::Token<'a>>)
        ensures
            deref_opt(r) == last_of(tokens_of(ParseTree::TryCast(*self))),
        decreases *self, 0nat,
    {
        assert(tokens_of(ParseTree::TryCast(*self)) == tokens_of(*self.try_cast) + tokens_of(*self.open_paren) + tokens_of(*self.value) + tokens_of(*self.as_) + tokens_of(*self.type_) + tokens_of(*self.close_paren)) by {
            reveal_with_fuel(tokens_of, 1);
        }
        if let Some(token) = self.close_paren.get_last_token() {
            return Some(token);
        }
        if let Some(token) = self.type_.get_last_token() {
            return Some(token);
        }
        if let Some(token) = self.as_.get_last_token() {
            return Some(token);
        }
        if let Some(token) = self.value.get_last_token() {
            return Some(token);
        }
        if let Some(token) = self.open_paren.get_last_token() {
            return Some(token);
        }
        if let Some(token) = self.try_cast.get_last_token() {
            return Some(token);
        }
        None
    }
}

#[derive(Debug)]
pub struct Substring<'a> {
    pub substring: Box<ParseTree<'a>>,
    pub open_paren: Box<ParseTree<'a>>,
    pub value: Box<ParseTree<'a>>,
    pub from: Box<ParseTree<'a>>,
    pub from_value: Box<ParseTree<'a>>,
    pub for_opt: Box<ParseTree<'a>>,
    pub for_value: Box<ParseTree<'a>>,
    pub close_paren: Box<ParseTree<'a>>,
}

pub fn substring<'a>(
    substring_tree: ParseTree<'a>,
    open_paren: ParseTree<'a>,
    value: ParseTree<'a>,
    from: ParseTree<'a>,
    from_value: ParseTree<'a>,
    for_opt: ParseTree<'a>,
    for_value: ParseTree<'a>,
    close_paren: ParseTree<'a>,
) -> (r: ParseTree<'a>)
    ensures
        r == ParseTree::Substring(Substring { substring: Box::new(substring_tree), open_paren: Box::new(open_paren), value: Box::new(value), from: Box::new(from), from_value: Box::new(from_value), for_opt: Box::new(for_opt), for_value: Box::new(for_value), close_paren: Box::new(close_paren) }),
        tokens_of(r) == tokens_of(substring_tree) + tokens_of(open_paren) + tokens_of(value) + tokens_of(from) + tokens_of(from_value) + tokens_of(for_opt) + tokens_of(for_value) + tokens_of(close_paren),
        tree_wf(r) == (tree_wf(substring_tree) && tree_wf(open_paren) && tree_wf(value) && tree_wf(from) && tree_wf(from_value) && tree_wf(for_opt) && tree_wf(for_value) && tree_wf(close_paren)),
        lossless(r) == (lossless(substring_tree) && lossless(open_paren) && lossless(value) && lossless(from) && lossless(from_value) && lossless(for_opt) && lossless(for_value) && lossless(close_paren)),
{
    assert(tokens_of(ParseTree::Substring(Substring { substring: Box::new(substring_tree), open_paren: Box::new(open_paren), value: Box::new(value), from: Box::new(from), from_value: Box::new(from_value), for_opt: Box::new(for_opt), for_value: Box::new(for_value), close_paren: Box::new(close_paren) })) == tokens_of(substring_tree) + tokens_of(open_paren) + tokens_of(value) + tokens_of(from) + tokens_of(from_value) + tokens_of(for_opt) + tokens_of(for_value) + tokens_of(close_paren)) by {
        reveal_with_fuel(tokens_of, 1);
    }
    assert(tree_wf(ParseTree::Substring(Substring { substring: Box::new(substring_tree), open_paren: Box::new(open_paren), value: Box::new(value), from: Box::new(from), from_value: Box::new(from_value), for_opt: Box::new(for_opt), for_value: Box::new(for_value), close_paren: Box::new(close_paren) })) == (tree_wf(substring_tree) && tree_wf(open_paren) && tree_wf(value) && tree_wf(from) && tree_wf(from_value) && tree_wf(for_opt) && tree_wf(for_value) && tree_wf(close_paren))) by {
        reveal_with_fuel(tree_wf, 1);
    }
    assert(lossless(ParseTree::Substring(Substring { substring: Box::new(substring_tree), open_paren: Box::new(open_paren), value: Box::new(value), from: Box::new(from), from_value: Box::new(from_value), for_opt: Box::new(for_opt), for_value: Box::new(for_value), close_paren: Box::new(close_paren) })) == (lossless(substring_tree) && lossless(open_paren) && lossless(value) && lossless(from) && lossless(from_value) && lossless(for_opt) && lossless(for_value) && lossless(close_paren))) by {
        reveal_with_fuel(lossless, 1);
    }
    ParseTree::Substring(Substring { substring: Box::new(substring_tree), open_paren: Box::new(open_paren), value: Box::new(value), from: Box::new(from), from_value: Box::new(from_value), for_opt: Box::new(for_opt), for_value: Box::new(for_value), close_paren: Box::new(close_paren) })
}

impl<'a> Substring<'a> {
    pub fn to_tree(self) -> (r: ParseTree<'a>)
        ensures
            r == ParseTree::Substring(self),
    {
        ParseTree::Substring(self)
    }

    pub fn children(&self) -> (r: Vec<&ParseTree<'a>>)
        ensures
            deref_seq(r@) == children_of(ParseTree::Substring(*self)),
    {
        let mut result: Vec<&ParseTree<'a>> = Vec::new();
        result.push(&*self.substring);
        result.push(&*self.open_paren);
        result.push(&*self.value);
        result.push(&*self.from);
        result.push(&*self.from_value);
        result.push(&*self.for_opt);
        result.push(&*self.for_value);
        result.push(&*self.close_paren);
        assert(deref_seq(result@) =~= children_of(ParseTree::Substring(*self)));
        result
    }

    pub fn unbox(self) -> (r: (ParseTree<'a>, ParseTree<'a>, ParseTree<'a>, ParseTree<'a>, ParseTree<'a>, ParseTree<'a>, ParseTree<'a>, ParseTree<'a>))
        ensures
            r == (*self.substring, *self.open_paren, *self.value, *self.from, *self.from_value, *self.for_opt, *self.for_value, *self.close_paren),
    {
        (*self.substring, *self.open_paren, *self.value, *self.from, *self.from_value, *self.for_opt, *self.for_value, *self.close_paren)
    }

    pub fn get_first_child(&self) -> (r: &ParseTree<'a>)
        ensures
            *r == *self.substring,
    {
        &self.substring
    }

    pub fn get_last_child(&self) -> (r: &ParseTree<'a>)
        ensures
            *r == *self.close_paren,
    {
        &self.close_paren
    }

    pub fn get_first_token(&self) -> (r: Option<&token::Token<'a>>)
        ensures
            deref_opt(r) == first_of(tokens_of(ParseTree::Substring(*self))),
        decreases *self, 0nat,
    {
        assert(tokens_of(ParseTree::Substring(*self)) == tokens_of(*self.substring) + tokens_of(*self.open_paren) + tokens_of(*self.value) + tokens_of(*self.from) + tokens_of(*self.from_value) + tokens_of(*self.for_opt) + tokens_of(*self.for_value) + tokens_of(*self.close_paren)) by {
            reveal_with_fuel(tokens_of, 1);
        }
        if let Some(token) = self.substring.get_first_token() {
            return Some(token);
        }
        if let Some(token) = self.open_paren.get_first_token() {
            return Some(token);
        }
        if let Some(token) = self.value.get_first_token() {
            return Some(token);
        }
        if let Some(token) = self.from.get_first_token() {
            return Some(token);
        }
        if let Some(token) = self.from_value.get_first_token() {
            return Some(token);
        }
        if let Some(token) = self.for_opt.get_first_token() {
            return Some(token);
        }
        if let Some(token) = self.for_value.get_first_token() {
            return Some(token);
        }
        if let Some(token) = self.close_paren.get_first_token() {
            return Some(token);
        }
        None
    }

    pub fn get_last_token(&self) -> (r: Option<&token::Token<'a>>)
        ensures
            deref_opt(r) == last_of(tokens_of(ParseTree::Substring(*self))),
        decreases *self, 0nat,
    {
        assert(tokens_of(ParseTree::Substring(*self)) == tokens_of(*self.substring) + tokens_of(*self.open_paren) + tokens_of(*self.value) + tokens_of(*self.from) + tokens_of(*self.from_value) + tokens_of(*self.for_opt) + tokens_of(*self.for_value) + tokens_of(*self.close_paren)) by {
            reveal_with_fuel(tokens_of, 1);
        }
        if let Some(token) = self.close_paren.get_last_token() {
            return Some(token);
        }
        if let Some(token) = self.for_value.get_last_token() {
            return Some(token);
        }
        if let Some(token) = self.for_opt.get_last_token() {
            return Some(token);
        }
        if let Some(token) = self.from_value.get_last_token() {
            return Some(token);
        }
        if let Some(token) = self.from.get_last_token() {
            return Some(token);
        }
        if let Some(token) = self.value.get_last_token() {
            return Some(token);
        }
        if let Some(token) = self.open_paren.get_last_token() {
            return Some(token);
        }
        if let Some(token) = self.substring.get_last_token() {
            return Some(token);
        }
        None
    }
}

#[derive(Debug)]
pub struct Position<'a> {
    pub position: Box<ParseTree<'a>>,
    pub open_paren: Box<ParseTree<'a>>,
    pub value: Box<ParseTree<'a>>,
    pub in_: Box<ParseTree<'a>>,
    pub target: Box<ParseTree<'a>>,
    pub close_paren: Box<ParseTree<'a>>,
}

pub fn position<'a>(
    position_tree: ParseTree<'a>,
    open_paren: ParseTree<'a>,
    value: ParseTree<'a>,
    in_: ParseTree<'a>,
    target: ParseTree<'a>,
    close_paren: ParseTree<'a>,
) -> (r: ParseTree<'a>)
    ensures
        r == ParseTree::Position(Position { position: Box::new(position_tree), open_paren: Box::new(open_paren), value: Box::new(value), in_: Box::new(in_), target: Box::new(target), close_paren: Box::new(close_paren) }),
        tokens_of(r) == tokens_of(position_tree) + tokens_of(open_paren) + tokens_of(value) + tokens_of(in_) + tokens_of(target) + tokens_of(close_paren),
        tree_wf(r) == (tree_wf(position_tree) && tree_wf(open_paren) && tree_wf(value) && tree_wf(in_) && tree_wf(target) && tree_wf(close_paren)),
        lossless(r) == (lossless(position_tree) && lossless(open_paren) && lossless(value) && lossless(in_) && lossless(target) && lossless(close_paren)),
{
    assert(tokens_of(ParseTree::Position(Position { position: Box::new(position_tree), open_paren: Box::new(open_paren), value: Box::new(value), in_: Box::new(in_), target: Box::new(target), close_paren: Box::new(close_paren) })) == tokens_of(position_tree) + tokens_of(open_paren) + tokens_of(value) + tokens_of(in_) + tokens_of(target) + tokens_of(close_paren)) by {
        reveal_with_fuel(tokens_of, 1);
    }
    assert(tree_wf(ParseTree::Position(Position { position: Box::new(position_tree), open_paren: Box::new(open_paren), value: Box::new(value), in_: Box::new(in_), target: Box::new(target), close_paren: Box::new(close_paren) })) == (tree_wf(position_tree) && tree_wf(open_paren) && tree_wf(value) && tree_wf(in_) && tree_wf(target) && tree_wf(close_paren))) by {
        reveal_with_fuel(tree_wf, 1);
    }
    assert(lossless(ParseTree::Position(Position { position: Box::new(position_tree), open_paren: Box::new(open_paren), value: Box::new(value), in_: Box::new(in_), target: Box::new(target), close_paren: Box::new(close_paren) })) == (lossless(position_tree) && lossless(open_paren) && lossless(value) && lossless(in_) && lossless(target) && lossless(close_paren))) by {
        reveal_with_fuel(lossless, 1);
    }
    ParseTree::Position(Position { position: Box::new(position_tree), open_paren: Box::new(open_paren), value: Box::new(value), in_: Box::new(in_), target: Box::new(target), close_paren: Box::new(close_paren) })
}

impl<'a> Position<'a> {
    pub fn to_tree(self) -> (r: ParseTree<'a>)
        ensures
            r == ParseTree::Position(self),
    {
        ParseTree::Position(self)
    }

    pub fn children(&self) -> (r: Vec<&ParseTree<'a>>)
        ensures
            deref_seq(r@) == children_of(ParseTree::Position(*self)),
    {
        let mut result: Vec<&ParseTree<'a>> = Vec::new();
        result.push(&*self.position);
        result.push(&*self.open_paren);
        result.push(&*self.value);
        result.push(&*self.in_);
        result.push(&*self.target);
        result.push(&*self.close_paren);
        assert(deref_seq(result@) =~= children_of(ParseTree::Position(*self)));
        result
    }

    pub fn unbox(self) -> (r: (ParseTree<'a>, ParseTree<'a>, ParseTree<'a>, ParseTree<'a>, ParseTree<'a>, ParseTree<'a>))
        ensures
            r == (*self.position, *self.open_paren, *self.value, *self.in_, *self.target, *self.close_paren),
    {
        (*self.position, *self.open_paren, *self.value, *self.in_, *self.target, *self.close_paren)
    }

    pub fn get_first_child(&self) -> (r: &ParseTree<'a>)
        ensures
            *r == *self.position,
    {
        &self.position
    }

    pub fn get_last_child(&self) -> (r: &ParseTree<'a>)
        ensures
            *r == *self.close_paren,
    {
        &self.close_paren
    }

    pub fn get_first_token(&self) -> (r: Option<&token::Token<'a>>)
        ensures
            deref_opt(r) == first_of(tokens_of(ParseTree::Position(*self))),
        decreases *self, 0nat,
    {
        assert(tokens_of(ParseTree::Position(*self)) == tokens_of(*self.position) + tokens_of(*self.open_paren) + tokens_of(*self.value) + tokens_of(*self.in_) + tokens_of(*self.target) + tokens_of(*self.close_paren)) by {
            reveal_with_fuel(tokens_of, 1);
        }
        if let Some(token) = self.position.get_first_token() {
            return Some(token);
        }
        if let Some(token) = self.open_paren.get_first_token() {
            return Some(token);
        }
        if let Some(token) = self.value.get_first_token() {
            return Some(token);
        }
        if let Some(token) = self.in_.get_first_token() {
            return Some(token);
        }
        if let Some(token) = self.target.get_first_token() {
            return Some(token);
        }
        if let Some(token) = self.close_paren.get_first_token() {
            return Some(token);
        }
        None
    }

    pub fn get_last_token(&self) -> (r: Option<&token::Token<'a>>)
        ensures
            deref_opt(r) == last_of(tokens_of(ParseTree::Position(*self))),
        decreases *self, 0nat,
    {
        assert(tokens_of(ParseTree::Position(*self)) == tokens_of(*self.position) + tokens_of(*self.open_paren) + tokens_of(*self.value) + tokens_of(*self.in_) + tokens_of(*self.target) + tokens_of(*self.close_paren)) by {
            reveal_with_fuel(tokens_of, 1);
        }
        if let Some(token) = self.close_paren.get_last_token() {
            return Some(token);
        }
        if let Some(token) = self.target.get_last_token() {
            return Some(token);
        }
        if let Some(token) = self.in_.get_last_token() {
            return Some(token);
        }
        if let Some(token) = self.value.get_last_token() {
            return Some(token);
        }
        if let Some(token) = self.open_paren.get_last_token() {
            return Some(token);
        }
        if let Some(token) = self.position.get_last_token() {
            return Some(token);
        }
        None
    }
}

#[derive(Debug)]
pub struct ArrayTypeSuffix<'a> {
    pub base_type: Box<ParseTree<'a>>,
    pub array: Box<ParseTree<'a>>,
}

pub fn array_type_suffix<'a>(
    base_type: ParseTree<'a>,
    array: ParseTree<'a>,
) -> (r: ParseTree<'a>)
    ensures
        r == ParseTree::ArrayTypeSuffix(ArrayTypeSuffix { base_type: Box::new(base_type), array: Box::new(array) }),
        tokens_of(r) == tokens_of(base_type) + tokens_of(array),
        tree_wf(r) == (tree_wf(base_type) && tree_wf(array)),
        lossless(r) == (lossless(base_type) && lossless(array)),
{
    assert(tokens_of(ParseTree::ArrayTypeSuffix(ArrayTypeSuffix { base_type: Box::new(base_type), array: Box::new(array) })) == tokens_of(base_type) + tokens_of(array)) by {
        reveal_with_fuel(tokens_of, 1);
    }
    assert(tree_wf(ParseTree::ArrayTypeSuffix(ArrayTypeSuffix { base_type: Box::new(base_type), array: Box::new(array) })) == (tree_wf(base_type) && tree_wf(array))) by {
        reveal_with_fuel(tree_wf, 1);
    }
    assert(lossless(ParseTree::ArrayTypeSuffix(ArrayTypeSuffix { base_type: Box::new(base_type), array: Box::new(array) })) == (lossless(base_type) && lossless(array))) by {
        reveal_with_fuel(lossless, 1);
    }
    ParseTree::ArrayTypeSuffix(ArrayTypeSuffix { base_type: Box::new(base_type), array: Box::new(array) })
}

impl<'a> ArrayTypeSuffix<'a> {
    pub fn to_tree(self) -> (r: ParseTree<'a>)
        ensures
            r == ParseTree::ArrayTypeSuffix(self),
    {
        ParseTree::ArrayTypeSuffix(self)
    }

    pub fn children(&self) -> (r: Vec<&ParseTree<'a>>)
        ensures
            deref_seq(r@) == children_of(ParseTree::ArrayTypeSuffix(*self)),
    {
        let mut result: Vec<&ParseTree<'a>> = Vec::new();
        result.push(&*self.base_type);
        result.push(&*self.array);
        assert(deref_seq(result@) =~= children_of(ParseTree::ArrayTypeSuffix(*self)));
        result
    }

    pub fn unbox(self) -> (r: (ParseTree<'a>, ParseTree<'a>))
        ensures
            r == (*self.base_type, *self.array),
    {
        (*self.base_type, *self.array)
    }

    pub fn get_first_child(&self) -> (r: &ParseTree<'a>)
        ensures
            *r == *self.base_type,
    {
        &self.base_type
    }

    pub fn get_last_child(&self) -> (r: &ParseTree<'a>)
        ensures
            *r == *self.array,
    {
        &self.array
    }

    pub fn get_first_token(&self) -> (r: Option<&token::Token<'a>>)
        ensures
            deref_opt(r) == first_of(tokens_of(ParseTree::ArrayTypeSuffix(*self))),
        decreases *self, 0nat,
    {
        assert(tokens_of(ParseTree::ArrayTypeSuffix(*self)) == tokens_of(*self.base_type) + tokens_of(*self.array)) by {
            reveal_with_fuel(tokens_of, 1);
        }
        if let Some(token) = self.base_type.get_first_token() {
            return Some(token);
        }
        if let Some(token) = self.array.get_first_token() {
            return Some(token);
        }
        None
    }

    pub fn get_last_token(&self) -> (r: Option<&token::Token<'a>>)
        ensures
            deref_opt(r) == last_of(tokens_of(ParseTree::ArrayTypeSuffix(*self))),
        decreases *self, 0nat,
    {
        assert(tokens_of(ParseTree::ArrayTypeSuffix(*self)) == tokens_of(*self.base_type) + tokens_of(*self.array)) by {
            reveal_with_fuel(tokens_of, 1);
        }
        if let Some(token) = self.array.get_last_token() {
            return Some(token);
        }
        if let Some(token) = self.base_type.get_last_token() {
            return Some(token);
        }
        None
    }
}

#[derive(Debug)]
pub struct NamedType<'a> {
    pub name: Box<ParseTree<'a>>,
    pub type_parameters: Box<ParseTree<'a>>,
}

pub fn named_type<'a>(
    name: ParseTree<'a>,
    type_parameters: ParseTree<'a>,
) -> (r: ParseTree<'a>)
    ensures
        r == ParseTree::NamedType(NamedType { name: Box::new(name), type_parameters: Box::new(type_parameters) }),
        tokens_of(r) == tokens_of(name) + tokens_of(type_parameters),
        tree_wf(r) == (tree_wf(name) && tree_wf(type_parameters)),
        lossless(r) == (lossless(name) && lossless(type_parameters)),
{
    assert(tokens_of(ParseTree::NamedType(NamedType { name: Box::new(name), type_parameters: Box::new(type_parameters) })) == tokens_of(name) + tokens_of(type_parameters)) by {
        reveal_with_fuel(tokens_of, 1);
    }
    assert(tree_wf(ParseTree::NamedType(NamedType { name: Box::new(name), type_parameters: Box::new(type_parameters) })) == (tree_wf(name) && tree_wf(type_parameters))) by {
        reveal_with_fuel(tree_wf, 1);
    }
    assert(lossless(ParseTree::NamedType(NamedType { name: Box::new(name), type_parameters: Box::new(type_parameters) })) == (lossless(name) && lossless(type_parameters))) by {
        reveal_with_fuel(lossless, 1);
    }
    ParseTree::NamedType(NamedType { name: Box::new(name), type_parameters: Box::new(type_parameters) })
}

impl<'a> NamedType<'a> {
    pub fn to_tree(self) -> (r: ParseTree<'a>)
        ensures
            r == ParseTree::NamedType(self),
    {
        ParseTree::NamedType(self)
    }

    pub fn children(&self) -> (r: Vec<&ParseTree<'a>>)
        ensures
            deref_seq(r@) == children_of(ParseTree::NamedType(*self)),
    {
        let mut result: Vec<&ParseTree<'a>> = Vec::new();
        result.push(&*self.name);
        result.push(&*self.type_parameters);
        assert(deref_seq(result@) =~= children_of(ParseTree::NamedType(*self)));
        result
    }

    pub fn unbox(self) -> (r: (ParseTree<'a>, ParseTree<'a>))
        ensures
            r == (*self.name, *self.type_parameters),
    {
        (*self.name, *self.type_parameters)
    }

    pub fn get_first_child(&self) -> (r: &ParseTree<'a>)
        ensures
            *r == *self.name,
    {
        &self.name
    }

    pub fn get_last_child(&self) -> (r: &ParseTree<'a>)
        ensures
            *r == *self.type_parameters,
    {
        &self.type_parameters
    }

    pub fn get_first_token(&self) -> (r: Option<&token::Token<'a>>)
        ensures
            deref_opt(r) == first_of(tokens_of(ParseTree::NamedType(*self))),
        decreases *self, 0nat,
    {
        assert(tokens_of(ParseTree::NamedType(*self)) == tokens_of(*self.name) + tokens_of(*self.type_parameters)) by {
            reveal_with_fuel(tokens_of, 1);
        }
        if let Some(token) = self.name.get_first_token() {
            return Some(token);
        }
        if let Some(token) = self.type_parameters.get_first_token() {
            return Some(token);
        }
        None
    }

    pub fn get_last_token(&self) -> (r: Option<&token::Token<'a>>)
        ensures
            deref_opt(r) == last_of(tokens_of(ParseTree::NamedType(*self))),
        decreases *self, 0nat,
    {
        assert(tokens_of(ParseTree::NamedType(*self)) == tokens_of(*self.name) + tokens_of(*self.type_parameters)) by {
            reveal_with_fuel(tokens_of, 1);
        }
        if let Some(token) = self.type_parameters.get_last_token() {
            return Some(token);
        }
        if let Some(token) = self.name.get_last_token() {
            return Some(token);
        }
        None
    }
}

#[derive(Debug)]
pub struct ArrayType<'a> {
    pub array: Box<ParseTree<'a>>,
    pub open_angle: Box<ParseTree<'a>>,
    pub element_type: Box<ParseTree<'a>>,
    pub close_angle: Box<ParseTree<'a>>,
}

pub fn array_type<'a>(
    array: ParseTree<'a>,
    open_angle: ParseTree<'a>,
    element_type: ParseTree<'a>,
    close_angle: ParseTree<'a>,
) -> (r: ParseTree<'a>)
    ensures
        r == ParseTree::ArrayType(ArrayType { array: Box::new(array), open_angle: Box::new(open_angle), element_type: Box::new(element_type), close_angle: Box::new(close_angle) }),
        tokens_of(r) == tokens_of(array) + tokens_of(open_angle) + tokens_of(element_type) + tokens_of(close_angle),
        tree_wf(r) == (tree_wf(array) && tree_wf(open_angle) && tree_wf(element_type) && tree_wf(close_angle)),
        lossless(r) == (lossless(array) && lossless(open_angle) && lossless(element_type) && lossless(close_angle)),
{
    assert(tokens_of(ParseTree::ArrayType(ArrayType { array: Box::new(array), open_angle: Box::new(open_angle), element_type: Box::new(element_type), close_angle: Box::new(close_angle) })) == tokens_of(array) + tokens_of(open_angle) + tokens_of(element_type) + tokens_of(close_angle)) by {
        reveal_with_fuel(tokens_of, 1);
    }
    assert(tree_wf(ParseTree::ArrayType(ArrayType { array: Box::new(array), open_angle: Box::new(open_angle), element_type: Box::new(element_type), close_angle: Box::new(close_angle) })) == (tree_wf(array) && tree_wf(open_angle) && tree_wf(element_type) && tree_wf(close_angle))) by {
        reveal_with_fuel(tree_wf, 1);
    }
    assert(lossless(ParseTree::ArrayType(ArrayType { array: Box::new(array), open_angle: Box::new(open_angle), element_type: Box::new(element_type), close_angle: Box::new(close_angle) })) == (lossless(array) && lossless(open_angle) && lossless(element_type) && lossless(close_angle))) by {
        reveal_with_fuel(lossless, 1);
    }
    ParseTree::ArrayType(ArrayType { array: Box::new(array), open_angle: Box::new(open_angle), element_type: Box::new(element_type), close_angle: Box::new(close_angle) })
}

impl<'a> ArrayType<'a> {
    pub fn to_tree(self) -> (r: ParseTree<'a>)
        ensures
            r == ParseTree::ArrayType(self),
    {
        ParseTree::ArrayType(self)
    }

    pub fn children(&self) -> (r: Vec<&ParseTree<'a>>)
        ensures
            deref_seq(r@) == children_of(ParseTree::ArrayType(*self)),
    {
        let mut result: Vec<&ParseTree<'a>> = Vec::new();
        result.push(&*self.array);
        result.push(&*self.open_angle);
        result.push(&*self.element_type);
        result.push(&*self.close_angle);
        assert(deref_seq(result@) =~= children_of(ParseTree::ArrayType(*self)));
        result
    }

    pub fn unbox(self) -> (r: (ParseTree<'a>, ParseTree<'a>, ParseTree<'a>, ParseTree<'a>))
        ensures
            r == (*self.array, *self.open_angle, *self.element_type, *self.close_angle),
    {
        (*self.array, *self.open_angle, *self.element_type, *self.close_angle)
    }

    pub fn get_first_child(&self) -> (r: &ParseTree<'a>)
        ensures
            *r == *self.array,
    {
        &self.array
    }

    pub fn get_last_child(&self) -> (r: &ParseTree<'a>)
        ensures
            *r == *self.close_angle,
    {
        &self.close_angle
    }

    pub fn get_first_token(&self) -> (r: Option<&token::Token<'a>>)
        ensures
            deref_opt(r) == first_of(tokens_of(ParseTree::ArrayType(*self))),
        decreases *self, 0nat,
    {
        assert(tokens_of(ParseTree::ArrayType(*self)) == tokens_of(*self.array) + tokens_of(*self.open_angle) + tokens_of(*self.element_type) + tokens_of(*self.close_angle)) by {
            reveal_with_fuel(tokens_of, 1);
        }
        if let Some(token) = self.array.get_first_token() {
            return Some(token);
        }
        if let Some(token) = self.open_angle.get_first_token() {
            return Some(token);
        }
        if let Some(token) = self.element_type.get_first_token() {
            return Some(token);
        }
        if let Some(token) = self.close_angle.get_first_token() {
            return Some(token);
        }
        None
    }

    pub fn get_last_token(&self) -> (r: Option<&token::Token<'a>>)
        ensures
            deref_opt(r) == last_of(tokens_of(ParseTree::ArrayType(*self))),
        decreases *self, 0nat,
    {
        assert(tokens_of(ParseTree::ArrayType(*self)) == tokens_of(*self.array) + tokens_of(*self.open_angle) + tokens_of(*self.element_type) + tokens_of(*self.close_angle)) by {
            reveal_with_fuel(tokens_of, 1);
        }
        if let Some(token) = self.close_angle.get_last_token() {
            return Some(token);
        }
        if let Some(token) = self.element_type.get_last_token() {
            return Some(token);
        }
        if let Some(token) = self.open_angle.get_last_token() {
            return Some(token);
        }
        if let Some(token) = self.array.get_last_token() {
            return Some(token);
        }
        None
    }
}

#[derive(Debug)]
pub struct MapType<'a> {
    pub map: Box<ParseTree<'a>>,
    pub open_angle: Box<ParseTree<'a>>,
    pub key_type: Box<ParseTree<'a>>,
    pub comma: Box<ParseTree<'a>>,
    pub value_type: Box<ParseTree<'a>>,
    pub close_angle: Box<ParseTree<'a>>,
}

pub fn map_type<'a>(
    map: ParseTree<'a>,
    open_angle: ParseTree<'a>,
    key_type: ParseTree<'a>,
    comma: ParseTree<'a>,
    value_type: ParseTree<'a>,
    close_angle: ParseTree<'a>,
) -> (r: ParseTree<'a>)
    ensures
        r == ParseTree::MapType(MapType { map: Box::new(map), open_angle: Box::new(open_angle), key_type: Box::new(key_type), comma: Box::new(comma), value_type: Box::new(value_type), close_angle: Box::new(close_angle) }),
        tokens_of(r) == tokens_of(map) + tokens_of(open_angle) + tokens_of(key_type) + tokens_of(comma) + tokens_of(value_type) + tokens_of(close_angle),
        tree_wf(r) == (tree_wf(map) && tree_wf(open_angle) && tree_wf(key_type) && tree_wf(comma) && tree_wf(value_type) && tree_wf(close_angle)),
        lossless(r) == (lossless(map) && lossless(open_angle) && lossless(key_type) && lossless(comma) && lossless(value_type) && lossless(close_angle)),
{
    assert(tokens_of(ParseTree::MapType(MapType { map: Box::new(map), open_angle: Box::new(open_angle), key_type: Box::new(key_type), comma: Box::new(comma), value_type: Box::new(value_type), close_angle: Box::new(close_angle) })) == tokens_of(map) + tokens_of(open_angle) + tokens_of(key_type) + tokens_of(comma) + tokens_of(value_type) + tokens_of(close_angle)) by {
        reveal_with_fuel(tokens_of, 1);
    }
    assert(tree_wf(ParseTree::MapType(MapType { map: Box::new(map), open_angle: Box::new(open_angle), key_type: Box::new(key_type), comma: Box::new(comma), value_type: Box::new(value_type), close_angle: Box::new(close_angle) })) == (tree_wf(map) && tree_wf(open_angle) && tree_wf(key_type) && tree_wf(comma) && tree_wf(value_type) && tree_wf(close_angle))) by {
        reveal_with_fuel(tree_wf, 1);
    }
    assert(lossless(ParseTree::MapType(MapType { map: Box::new(map), open_angle: Box::new(open_angle), key_type: Box::new(key_type), comma: Box::new(comma), value_type: Box::new(value_type), close_angle: Box::new(close_angle) })) == (lossless(map) && lossless(open_angle) && lossless(key_type) && lossless(comma) && lossless(value_type) && lossless(close_angle))) by {
        reveal_with_fuel(lossless, 1);
    }
    ParseTree::MapType(MapType { map: Box::new(map), open_angle: Box::new(open_angle), key_type: Box::new(key_type), comma: Box::new(comma), value_type: Box::new(value_type), close_angle: Box::new(close_angle) })
}

impl<'a> MapType<'a> {
    pub fn to_tree(self) -> (r: ParseTree<'a>)
        ensures
            r == ParseTree::MapType(self),
    {
        ParseTree::MapType(self)
    }

    pub fn children(&self) -> (r: Vec<&ParseTree<'a>>)
        ensures
            deref_seq(r@) == children_of(ParseTree::MapType(*self)),
    {
        let mut result: Vec<&ParseTree<'a>> = Vec::new();
        result.push(&*self.map);
        result.push(&*self.open_angle);
        result.push(&*self.key_type);
        result.push(&*self.comma);
        result.push(&*self.value_type);
        result.push(&*self.close_angle);
        assert(deref_seq(result@) =~= children_of(ParseTree::MapType(*self)));
        result
    }

    pub fn unbox(self) -> (r: (ParseTree<'a>, ParseTree<'a>, ParseTree<'a>, ParseTree<'a>, ParseTree<'a>, ParseTree<'a>))
        ensures
            r == (*self.map, *self.open_angle, *self.key_type, *self.comma, *self.value_type, *self.close_angle),
    {
        (*self.map, *self.open_angle, *self.key_type, *self.comma, *self.value_type, *self.close_angle)
    }

    pub fn get_first_child(&self) -> (r: &ParseTree<'a>)
        ensures
            *r == *self.map,
    {
        &self.map
    }

    pub fn get_last_child(&self) -> (r: &ParseTree<'a>)
        ensures
            *r == *self.close_angle,
    {
        &self.close_angle
    }

    pub fn get_first_token(&self) -> (r: Option<&token::Token<'a>>)
        ensures
            deref_opt(r) == first_of(tokens_of(ParseTree::MapType(*self))),
        decreases *self, 0nat,
    {
        assert(tokens_of(ParseTree::MapType(*self)) == tokens_of(*self.map) + tokens_of(*self.open_angle) + tokens_of(*self.key_type) + tokens_of(*self.comma) + tokens_of(*self.value_type) + tokens_of(*self.close_angle)) by {
            reveal_with_fuel(tokens_of, 1);
        }
        if let Some(token) = self.map.get_first_token() {
            return Some(token);
        }
        if let Some(token) = self.open_angle.get_first_token() {
            return Some(token);
        }
        if let Some(token) = self.key_type.get_first_token() {
            return Some(token);
        }
        if let Some(token) = self.comma.get_first_token() {
            return Some(token);
        }
        if let Some(token) = self.value_type.get_first_token() {
            return Some(token);
        }
        if let Some(token) = self.close_angle.get_first_token() {
            return Some(token);
        }
        None
    }

    pub fn get_last_token(&self) -> (r: Option<&token::Token<'a>>)
        ensures
            deref_opt(r) == last_of(tokens_of(ParseTree::MapType(*self))),
        decreases *self, 0nat,
    {
        assert(tokens_of(ParseTree::MapType(*self)) == tokens_of(*self.map) + tokens_of(*self.open_angle) + tokens_of(*self.key_type) + tokens_of(*self.comma) + tokens_of(*self.value_type) + tokens_of(*self.close_angle)) by {
            reveal_with_fuel(tokens_of, 1);
        }
        if let Some(token) = self.close_angle.get_last_token() {
            return Some(token);
        }
        if let Some(token) = self.value_type.get_last_token() {
            return Some(token);
        }
        if let Some(token) = self.comma.get_last_token() {
            return Some(token);
        }
        if let Some(token) = self.key_type.get_last_token() {
            return Some(token);
        }
        if let Some(token) = self.open_angle.get_last_token() {
            return Some(token);
        }
        if let Some(token) = self.map.get_last_token() {
            return Some(token);
        }
        None
    }
}

#[derive(Debug)]
pub struct RowType<'a> {
    pub row: Box<ParseTree<'a>>,
    pub element_types: Box<ParseTree<'a>>,
}

pub fn row_type<'a>(
    row: ParseTree<'a>,
    element_types: ParseTree<'a>,
) -> (r: ParseTree<'a>)
    ensures
        r == ParseTree::RowType(RowType { row: Box::new(row), element_types: Box::new(element_types) }),
        tokens_of(r) == tokens_of(row) + tokens_of(element_types),
        tree_wf(r) == (tree_wf(row) && tree_wf(element_types)),
        lossless(r) == (lossless(row) && lossless(element_types)),
{
    assert(tokens_of(ParseTree::RowType(RowType { row: Box::new(row), element_types: Box::new(element_types) })) == tokens_of(row) + tokens_of(element_types)) by {
        reveal_with_fuel(tokens_of, 1);
    }
    assert(tree_wf(ParseTree::RowType(RowType { row: Box::new(row), element_types: Box::new(element_types) })) == (tree_wf(row) && tree_wf(element_types))) by {
        reveal_with_fuel(tree_wf, 1);
    }
    assert(lossless(ParseTree::RowType(RowType { row: Box::new(row), element_types: Box::new(element_types) })) == (lossless(row) && lossless(element_types))) by {
        reveal_with_fuel(lossless, 1);
    }
    ParseTree::RowType(RowType { row: Box::new(row), element_types: Box::new(element_types) })
}

impl<'a> RowType<'a> {
    pub fn to_tree(self) -> (r: ParseTree<'a>)
        ensures
            r == ParseTree::RowType(self),
    {
        ParseTree::RowType(self)
    }

    pub fn children(&self) -> (r: Vec<&ParseTree<'a>>)
        ensures
            deref_seq(r@) == children_of(ParseTree::RowType(*self)),
    {
        let mut result: Vec<&ParseTree<'a>> = Vec::new();
        result.push(&*self.row);
        result.push(&*self.element_types);
        assert(deref_seq(result@) =~= children_of(ParseTree::RowType(*self)));
        result
    }

    pub fn unbox(self) -> (r: (ParseTree<'a>, ParseTree<'a>))
        ensures
            r == (*self.row, *self.element_types),
    {
        (*self.row, *self.element_types)
    }

    pub fn get_first_child(&self) -> (r: &ParseTree<'a>)
        ensures
            *r == *self.row,
    {
        &self.row
    }

    pub fn get_last_child(&self) -> (r: &ParseTree<'a>)
        ensures
            *r == *self.element_types,
    {
        &self.element_types
    }

    pub fn get_first_token(&self) -> (r: Option<&token::Token<'a>>)
        ensures
            deref_opt(r) == first_of(tokens_of(ParseTree::RowType(*self))),
        decreases *self, 0nat,
    {
        assert(tokens_of(ParseTree::RowType(*self)) == tokens_of(*self.row) + tokens_of(*self.element_types)) by {
            reveal_with_fuel(tokens_of, 1);
        }
        if let Some(token) = self.row.get_first_token() {
            return Some(token);
        }
        if let Some(token) = self.element_types.get_first_token() {
            return Some(token);
        }
        None
    }

    pub fn get_last_token(&self) -> (r: Option<&token::Token<'a>>)
        ensures
            deref_opt(r) == last_of(tokens_of(ParseTree::RowType(*self))),
        decreases *self, 0nat,
    {
        assert(tokens_of(ParseTree::RowType(*self)) == tokens_of(*self.row) + tokens_of(*self.element_types)) by {
            reveal_with_fuel(tokens_of, 1);
        }
        if let Some(token) = self.element_types.get_last_token() {
            return Some(token);
        }
        if let Some(token) = self.row.get_last_token() {
            return Some(token);
        }
        None
    }
}

#[derive(Debug)]
pub struct RowTypeElement<'a> {
    pub identifier: Box<ParseTree<'a>>,
    pub type_: Box<ParseTree<'a>>,
}

pub fn row_type_element<'a>(
    identifier: ParseTree<'a>,
    type_: ParseTree<'a>,
) -> (r: ParseTree<'a>)
    ensures
        r == ParseTree::RowTypeElement(RowTypeElement { identifier: Box::new(identifier), type_: Box::new(type_) }),
        tokens_of(r) == tokens_of(identifier) + tokens_of(type_),
        tree_wf(r) == (tree_wf(identifier) && tree_wf(type_)),
        lossless(r) == (lossless(identifier) && lossless(type_)),
{
    assert(tokens_of(ParseTree::RowTypeElement(RowTypeElement { identifier: Box::new(identifier), type_: Box::new(type_) })) == tokens_of(identifier) + tokens_of(type_)) by {
        reveal_with_fuel(tokens_of, 1);
    }
    assert(tree_wf(ParseTree::RowTypeElement(RowTypeElement { identifier: Box::new(identifier), type_: Box::new(type_) })) == (tree_wf(identifier) && tree_wf(type_))) by {
        reveal_with_fuel(tree_wf, 1);
    }
    assert(lossless(ParseTree::RowTypeElement(RowTypeElement { identifier: Box::new(identifier), type_: Box::new(type_) })) == (lossless(identifier) && lossless(type_))) by {
        reveal_with_fuel(lossless, 1);
    }
    ParseTree::RowTypeElement(RowTypeElement { identifier: Box::new(identifier), type_: Box::new(type_) })
}

impl<'a> RowTypeElement<'a> {
    pub fn to_tree(self) -> (r: ParseTree<'a>)
        ensures
            r == ParseTree::RowTypeElement(self),
    {
        ParseTree::RowTypeElement(self)
    }

    pub fn children(&self) -> (r: Vec<&ParseTree<'a>>)
        ensures
            deref_seq(r@) == children_of(ParseTree::RowTypeElement(*self)),
    {
        let mut result: Vec<&ParseTree<'a>> = Vec::new();
        result.push(&*self.identifier);
        result.push(&*self.type_);
        assert(deref_seq(result@) =~= children_of(ParseTree::RowTypeElement(*self)));
        result
    }

    pub fn unbox(self) -> (r: (ParseTree<'a>, ParseTree<'a>))
        ensures
            r == (*self.identifier, *self.type_),
    {
        (*self.identifier, *self.type_)
    }

    pub fn get_first_child(&self) -> (r: &ParseTree<'a>)
        ensures
            *r == *self.identifier,
    {
        &self.identifier
    }

    pub fn get_last_child(&self) -> (r: &ParseTree<'a>)
        ensures
            *r == *self.type_,
    {
        &self.type_
    }

    pub fn get_first_token(&self) -> (r: Option<&token::Token<'a>>)
        ensures
            deref_opt(r) == first_of(tokens_of(ParseTree::RowTypeElement(*self))),
        decreases *self, 0nat,
    {
        assert(tokens_of(ParseTree::RowTypeElement(*self)) == tokens_of(*self.identifier) + tokens_of(*self.type_)) by {
            reveal_with_fuel(tokens_of, 1);
        }
        if let Some(token) = self.identifier.get_first_token() {
            return Some(token);
        }
        if let Some(token) = self.type_.get_first_token() {
            return Some(token);
        }
        None
    }

    pub fn get_last_token(&self) -> (r: Option<&token::Token<'a>>)
        ensures
            deref_opt(r) == last_of(tokens_of(ParseTree::RowTypeElement(*self))),
        decreases *self, 0nat,
    {
        assert(tokens_of(ParseTree::RowTypeElement(*self)) == tokens_of(*self.identifier) + tokens_of(*self.type_)) by {
            reveal_with_fuel(tokens_of, 1);
        }
        if let Some(token) = self.type_.get_last_token() {
            return Some(token);
        }
        if let Some(token) = self.identifier.get_last_token() {
            return Some(token);
        }
        None
    }
}

#[derive(Debug)]
pub struct IntervalType<'a> {
    pub interval: Box<ParseTree<'a>>,
    pub from: Box<ParseTree<'a>>,
    pub to_kw: Box<ParseTree<'a>>,
    pub to: Box<ParseTree<'a>>,
}

pub fn interval_type<'a>(
    interval: ParseTree<'a>,
    from: ParseTree<'a>,
    to_kw: ParseTree<'a>,
    to: ParseTree<'a>,
) -> (r: ParseTree<'a>)
    ensures
        r == ParseTree::IntervalType(IntervalType { interval: Box::new(interval), from: Box::new(from), to_kw: Box::new(to_kw), to: Box::new(to) }),
        tokens_of(r) == tokens_of(interval) + tokens_of(from) + tokens_of(to_kw) + tokens_of(to),
        tree_wf(r) == (tree_wf(interval) && tree_wf(from) && tree_wf(to_kw) && tree_wf(to)),
        lossless(r) == (lossless(interval) && lossless(from) && lossless(to_kw) && lossless(to)),
{
    assert(tokens_of(ParseTree::IntervalType(IntervalType { interval: Box::new(interval), from: Box::new(from), to_kw: Box::new(to_kw), to: Box::new(to) })) == tokens_of(interval) + tokens_of(from) + tokens_of(to_kw) + tokens_of(to)) by {
        reveal_with_fuel(tokens_of, 1);
    }
    assert(tree_wf(ParseTree::IntervalType(IntervalType { interval: Box::new(interval), from: Box::new(from), to_kw: Box::new(to_kw), to: Box::new(to) })) == (tree_wf(interval) && tree_wf(from) && tree_wf(to_kw) && tree_wf(to))) by {
        reveal_with_fuel(tree_wf, 1);
    }
    assert(lossless(ParseTree::IntervalType(IntervalType { interval: Box::new(interval), from: Box::new(from), to_kw: Box::new(to_kw), to: Box::new(to) })) == (lossless(interval) && lossless(from) && lossless(to_kw) && lossless(to))) by {
        reveal_with_fuel(lossless, 1);
    }
    ParseTree::IntervalType(IntervalType { interval: Box::new(interval), from: Box::new(from), to_kw: Box::new(to_kw), to: Box::new(to) })
}

impl<'a> IntervalType<'a> {
    pub fn to_tree(self) -> (r: ParseTree<'a>)
        ensures
            r == ParseTree::IntervalType(self),
    {
        ParseTree::IntervalType(self)
    }

    pub fn children(&self) -> (r: Vec<&ParseTree<'a>>)
        ensures
            deref_seq(r@) == children_of(ParseTree::IntervalType(*self)),
    {
        let mut result: Vec<&ParseTree<'a>> = Vec::new();
        result.push(&*self.interval);
        result.push(&*self.from);
        result.push(&*self.to_kw);
        result.push(&*self.to);
        assert(deref_seq(result@) =~= children_of(ParseTree::IntervalType(*self)));
        result
    }

    pub fn unbox(self) -> (r: (ParseTree<'a>, ParseTree<'a>, ParseTree<'a>, ParseTree<'a>))
        ensures
            r == (*self.interval, *self.from, *self.to_kw, *self.to),
    {
        (*self.interval, *self.from, *self.to_kw, *self.to)
    }

    pub fn get_first_child(&self) -> (r: &ParseTree<'a>)
        ensures
            *r == *self.interval,
    {
        &self.interval
    }

    pub fn get_last_child(&self) -> (r: &ParseTree<'a>)
        ensures
            *r == *self.to,
    {
        &self.to
    }

    pub fn get_first_token(&self) -> (r: Option<&token::Token<'a>>)
        ensures
            deref_opt(r) == first_of(tokens_of(ParseTree::IntervalType(*self))),
        decreases *self, 0nat,
    {
        assert(tokens_of(ParseTree::IntervalType(*self)) == tokens_of(*self.interval) + tokens_of(*self.from) + tokens_of(*self.to_kw) + tokens_of(*self.to)) by {
            reveal_with_fuel(tokens_of, 1);
        }
        if let Some(token) = self.interval.get_first_token() {
            return Some(token);
        }
        if let Some(token) = self.from.get_first_token() {
            return Some(token);
        }
        if let Some(token) = self.to_kw.get_first_token() {
            return Some(token);
        }
        if let Some(token) = self.to.get_first_token() {
            return Some(token);
        }
        None
    }

    pub fn get_last_token(&self) -> (r: Option<&token::Token<'a>>)
        ensures
            deref_opt(r) == last_of(tokens_of(ParseTree::IntervalType(*self))),
        decreases *self, 0nat,
    {
        assert(tokens_of(ParseTree::IntervalType(*self)) == tokens_of(*self.interval) + tokens_of(*self.from) + tokens_of(*self.to_kw) + tokens_of(*self.to)) by {
            reveal_with_fuel(tokens_of, 1);
        }
        if let Some(token) = self.to.get_last_token() {
            return Some(token);
        }
        if let Some(token) = self.to_kw.get_last_token() {
            return Some(token);
        }
        if let Some(token) = self.from.get_last_token() {
            return Some(token);
        }
        if let Some(token) = self.interval.get_last_token() {
            return Some(token);
        }
        None
    }
}

} // verus!
