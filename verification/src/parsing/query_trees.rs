//! Parse trees of queries and relations.
use super::parse_tree::{deref_opt, deref_seq, first_of, last_of, children_of, tokens_of, tree_wf, lossless, ParseTree};
use crate::lexing::token;
use vstd::prelude::*;

verus! {

#[derive(Debug)]
pub struct Query<'a> {
    pub with: Box<ParseTree<'a>>,
    pub query_no_with: Box<ParseTree<'a>>,
}

pub fn query<'a>(
    with: ParseTree<'a>,
    query_no_with: ParseTree<'a>,
) -> (r: ParseTree<'a>)
    ensures
        r == ParseTree::Query(Query { with: Box::new(with), query_no_with: Box::new(query_no_with) }),
        tokens_of(r) == tokens_of(with) + tokens_of(query_no_with),
        tree_wf(r) == (tree_wf(with) && tree_wf(query_no_with)),
        lossless(r) == (lossless(with) && lossless(query_no_with)),
{
    assert(tokens_of(ParseTree::Query(Query { with: Box::new(with), query_no_with: Box::new(query_no_with) })) == tokens_of(with) + tokens_of(query_no_with)) by {
        reveal_with_fuel(tokens_of, 1);
    }
    assert(tree_wf(ParseTree::Query(Query { with: Box::new(with), query_no_with: Box::new(query_no_with) })) == (tree_wf(with) && tree_wf(query_no_with))) by {
        reveal_with_fuel(tree_wf, 1);
    }
    assert(lossless(ParseTree::Query(Query { with: Box::new(with), query_no_with: Box::new(query_no_with) })) == (lossless(with) && lossless(query_no_with))) by {
        reveal_with_fuel(lossless, 1);
    }
    ParseTree::Query(Query { with: Box::new(with), query_no_with: Box::new(query_no_with) })
}

impl<'a> Query<'a> {
    pub fn to_tree(self) -> (r: ParseTree<'a>)
        ensures
            r == ParseTree::Query(self),
    {
        ParseTree::Query(self)
    }

    pub fn children(&self) -> (r: Vec<&ParseTree<'a>>)
        ensures
            deref_seq(r@) == children_of(ParseTree::Query(*self)),
    {
        let mut result: Vec<&ParseTree<'a>> = Vec::new();
        result.push(&*self.with);
        result.push(&*self.query_no_with);
        assert(deref_seq(result@) =~= children_of(ParseTree::Query(*self)));
        result
    }

    pub fn unbox(self) -> (r: (ParseTree<'a>, ParseTree<'a>))
        ensures
            r == (*self.with, *self.query_no_with),
    {
        (*self.with, *self.query_no_with)
    }

    pub fn get_first_child(&self) -> (r: &ParseTree<'a>)
        ensures
            *r == *self.with,
    {
        &self.with
    }

    pub fn get_last_child(&self) -> (r: &ParseTree<'a>)
        ensures
            *r == *self.query_no_with,
    {
        &self.query_no_with
    }

    pub fn get_first_token(&self) -> (r: Option<&token::Token<'a>>)
        ensures
            deref_opt(r) == first_of(tokens_of(ParseTree::Query(*self))),
        decreases *self, 0nat,
    {
        assert(tokens_of(ParseTree::Query(*self)) == tokens_of(*self.with) + tokens_of(*self.query_no_with)) by {
            reveal_with_fuel(tokens_of, 1);
        }
        if let Some(token) = self.with.get_first_token() {
            return Some(token);
        }
        if let Some(token) = self.query_no_with.get_first_token() {
            return Some(token);
        }
        None
    }

    pub fn get_last_token(&self) -> (r: Option<&token::Token<'a>>)
        ensures
            deref_opt(r) == last_of(tokens_of(ParseTree::Query(*self))),
        decreases *self, 0nat,
    {
        assert(tokens_of(ParseTree::Query(*self)) == tokens_of(*self.with) + tokens_of(*self.query_no_with)) by {
            reveal_with_fuel(tokens_of, 1);
        }
        if let Some(token) = self.query_no_with.get_last_token() {
            return Some(token);
        }
        if let Some(token) = self.with.get_last_token() {
            return Some(token);
        }
        None
    }
}

#[derive(Debug)]
pub struct With<'a> {
    pub with: Box<ParseTree<'a>>,
    pub recursive: Box<ParseTree<'a>>,
    pub named_queries: Box<ParseTree<'a>>,
}

pub fn with<'a>(
    with_tree: ParseTree<'a>,
    recursive: ParseTree<'a>,
    named_queries: ParseTree<'a>,
) -> (r: ParseTree<'a>)
    ensures
        r == ParseTree::With(With { with: Box::new(with_tree), recursive: Box::new(recursive), named_queries: Box::new(named_queries) }),
        tokens_of(r) == tokens_of(with_tree) + tokens_of(recursive) + tokens_of(named_queries),
        tree_wf(r) == (tree_wf(with_tree) && tree_wf(recursive) && tree_wf(named_queries)),
        lossless(r) == (lossless(with_tree) && lossless(recursive) && lossless(named_queries)),
{
    assert(tokens_of(ParseTree::With(With { with: Box::new(with_tree), recursive: Box::new(recursive), named_queries: Box::new(named_queries) })) == tokens_of(with_tree) + tokens_of(recursive) + tokens_of(named_queries)) by {
        reveal_with_fuel(tokens_of, 1);
    }
    assert(tree_wf(ParseTree::With(With { with: Box::new(with_tree), recursive: Box::new(recursive), named_queries: Box::new(named_queries) })) == (tree_wf(with_tree) && tree_wf(recursive) && tree_wf(named_queries))) by {
        reveal_with_fuel(tree_wf, 1);
    }
    assert(lossless(ParseTree::With(With { with: Box::new(with_tree), recursive: Box::new(recursive), named_queries: Box::new(named_queries) })) == (lossless(with_tree) && lossless(recursive) && lossless(named_queries))) by {
        reveal_with_fuel(lossless, 1);
    }
    ParseTree::With(With { with: Box::new(with_tree), recursive: Box::new(recursive), named_queries: Box::new(named_queries) })
}

impl<'a> With<'a> {
    pub fn to_tree(self) -> (r: ParseTree<'a>)
        ensures
            r == ParseTree::With(self),
    {
        ParseTree::With(self)
    }

    pub fn children(&self) -> (r: Vec<&ParseTree<'a>>)
        ensures
            deref_seq(r@) == children_of(ParseTree::With(*self)),
    {
        let mut result: Vec<&ParseTree<'a>> = Vec::new();
        result.push(&*self.with);
        result.push(&*self.recursive);
        result.push(&*self.named_queries);
        assert(deref_seq(result@) =~= children_of(ParseTree::With(*self)));
        result
    }

    pub fn unbox(self) -> (r: (ParseTree<'a>, ParseTree<'a>, ParseTree<'a>))
        ensures
            r == (*self.with, *self.recursive, *self.named_queries),
    {
        (*self.with, *self.recursive, *self.named_queries)
    }

    pub fn get_first_child(&self) -> (r: &ParseTree<'a>)
        ensures
            *r == *self.with,
    {
        &self.with
    }

    pub fn get_last_child(&self) -> (r: &ParseTree<'a>)
        ensures
            *r == *self.named_queries,
    {
        &self.named_queries
    }

    pub fn get_first_token(&self) -> (r: Option<&token::Token<'a>>)
        ensures
            deref_opt(r) == first_of(tokens_of(ParseTree::With(*self))),
        decreases *self, 0nat,
    {
        assert(tokens_of(ParseTree::With(*self)) == tokens_of(*self.with) + tokens_of(*self.recursive) + tokens_of(*self.named_queries)) by {
            reveal_with_fuel(tokens_of, 1);
        }
        if let Some(token) = self.with.get_first_token() {
            return Some(token);
        }
        if let Some(token) = self.recursive.get_first_token() {
            return Some(token);
        }
        if let Some(token) = self.named_queries.get_first_token() {
            return Some(token);
        }
        None
    }

    pub fn get_last_token(&self) -> (r: Option<&token::Token<'a>>)
        ensures
            deref_opt(r) == last_of(tokens_of(ParseTree::With(*self))),
        decreases *self, 0nat,
    {
        assert(tokens_of(ParseTree::With(*self)) == tokens_of(*self.with) + tokens_of(*self.recursive) + tokens_of(*self.named_queries)) by {
            reveal_with_fuel(tokens_of, 1);
        }
        if let Some(token) = self.named_queries.get_last_token() {
            return Some(token);
        }
        if let Some(token) = self.recursive.get_last_token() {
            return Some(token);
        }
        if let Some(token) = self.with.get_last_token() {
            return Some(token);
        }
        None
    }
}

#[derive(Debug)]
pub struct NamedQuery<'a> {
    pub name: Box<ParseTree<'a>>,
    pub column_aliases_opt: Box<ParseTree<'a>>,
    pub as_: Box<ParseTree<'a>>,
    pub open_paren: Box<ParseTree<'a>>,
    pub query: Box<ParseTree<'a>>,
    pub close_paren: Box<ParseTree<'a>>,
}

pub fn named_query<'a>(
    name: ParseTree<'a>,
    column_aliases_opt: ParseTree<'a>,
    as_: ParseTree<'a>,
    open_paren: ParseTree<'a>,
    query: ParseTree<'a>,
    close_paren: ParseTree<'a>,
) -> (r: ParseTree<'a>)
    ensures
        r == ParseTree::NamedQuery(NamedQuery { name: Box::new(name), column_aliases_opt: Box::new(column_aliases_opt), as_: Box::new(as_), open_paren: Box::new(open_paren), query: Box::new(query), close_paren: Box::new(close_paren) }),
        tokens_of(r) == tokens_of(name) + tokens_of(column_aliases_opt) + tokens_of(as_) + tokens_of(open_paren) + tokens_of(query) + tokens_of(close_paren),
        tree_wf(r) == (tree_wf(name) && tree_wf(column_aliases_opt) && tree_wf(as_) && tree_wf(open_paren) && tree_wf(query) && tree_wf(close_paren)),
        lossless(r) == (lossless(name) && lossless(column_aliases_opt) && lossless(as_) && lossless(open_paren) && lossless(query) && lossless(close_paren)),
{
    assert(tokens_of(ParseTree::NamedQuery(NamedQuery { name: Box::new(name), column_aliases_opt: Box::new(column_aliases_opt), as_: Box::new(as_), open_paren: Box::new(open_paren), query: Box::new(query), close_paren: Box::new(close_paren) })) == tokens_of(name) + tokens_of(column_aliases_opt) + tokens_of(as_) + tokens_of(open_paren) + tokens_of(query) + tokens_of(close_paren)) by {
        reveal_with_fuel(tokens_of, 1);
    }
    assert(tree_wf(ParseTree::NamedQuery(NamedQuery { name: Box::new(name), column_aliases_opt: Box::new(column_aliases_opt), as_: Box::new(as_), open_paren: Box::new(open_paren), query: Box::new(query), close_paren: Box::new(close_paren) })) == (tree_wf(name) && tree_wf(column_aliases_opt) && tree_wf(as_) && tree_wf(open_paren) && tree_wf(query) && tree_wf(close_paren))) by {
        reveal_with_fuel(tree_wf, 1);
    }
    assert(lossless(ParseTree::NamedQuery(NamedQuery { name: Box::new(name), column_aliases_opt: Box::new(column_aliases_opt), as_: Box::new(as_), open_paren: Box::new(open_paren), query: Box::new(query), close_paren: Box::new(close_paren) })) == (lossless(name) && lossless(column_aliases_opt) && lossless(as_) && lossless(open_paren) && lossless(query) && lossless(close_paren))) by {
        reveal_with_fuel(lossless, 1);
    }
    ParseTree::NamedQuery(NamedQuery { name: Box::new(name), column_aliases_opt: Box::new(column_aliases_opt), as_: Box::new(as_), open_paren: Box::new(open_paren), query: Box::new(query), close_paren: Box::new(close_paren) })
}

impl<'a> NamedQuery<'a> {
    pub fn to_tree(self) -> (r: ParseTree<'a>)
        ensures
            r == ParseTree::NamedQuery(self),
    {
        ParseTree::NamedQuery(self)
    }

    pub fn children(&self) -> (r: Vec<&ParseTree<'a>>)
        ensures
            deref_seq(r@) == children_of(ParseTree::NamedQuery(*self)),
    {
        let mut result: Vec<&ParseTree<'a>> = Vec::new();
        result.push(&*self.name);
        result.push(&*self.column_aliases_opt);
        result.push(&*self.as_);
        result.push(&*self.open_paren);
        result.push(&*self.query);
        result.push(&*self.close_paren);
        assert(deref_seq(result@) =~= children_of(ParseTree::NamedQuery(*self)));
        result
    }

    pub fn unbox(self) -> (r: (ParseTree<'a>, ParseTree<'a>, ParseTree<'a>, ParseTree<'a>, ParseTree<'a>, ParseTree<'a>))
        ensures
            r == (*self.name, *self.column_aliases_opt, *self.as_, *self.open_paren, *self.query, *self.close_paren),
    {
        (*self.name, *self.column_aliases_opt, *self.as_, *self.open_paren, *self.query, *self.close_paren)
    }

    pub fn get_first_child(&self) -> (r: &ParseTree<'a>)
        ensures
            *r == *self.name,
    {
        &self.name
    }

    pub fn get_last_child(&self) -> (r: &ParseTree<'a>)
        ensures
            *r == *self.close_paren,
    {
        &self.close_paren
    }

    pub fn get_first_token(&self) -> (r: Option<&token::Token<'a>>)
        ensures
            deref_opt(r) == first_of(tokens_of(ParseTree::NamedQuery(*self))),
        decreases *self, 0nat,
    {
        assert(tokens_of(ParseTree::NamedQuery(*self)) == tokens_of(*self.name) + tokens_of(*self.column_aliases_opt) + tokens_of(*self.as_) + tokens_of(*self.open_paren) + tokens_of(*self.query) + tokens_of(*self.close_paren)) by {
            reveal_with_fuel(tokens_of, 1);
        }
        if let Some(token) = self.name.get_first_token() {
            return Some(token);
        }
        if let Some(token) = self.column_aliases_opt.get_first_token() {
            return Some(token);
        }
        if let Some(token) = self.as_.get_first_token() {
            return Some(token);
        }
        if let Some(token) = self.open_paren.get_first_token() {
            return Some(token);
        }
        if let Some(token) = self.query.get_first_token() {
            return Some(token);
        }
        if let Some(token) = self.close_paren.get_first_token() {
            return Some(token);
        }
        None
    }

    pub fn get_last_token(&self) -> (r: Option<&token::Token<'a>>)
        ensures
            deref_opt(r) == last_of(tokens_of(ParseTree::NamedQuery(*self))),
        decreases *self, 0nat,
    {
        assert(tokens_of(ParseTree::NamedQuery(*self)) == tokens_of(*self.name) + tokens_of(*self.column_aliases_opt) + tokens_of(*self.as_) + tokens_of(*self.open_paren) + tokens_of(*self.query) + tokens_of(*self.close_paren)) by {
            reveal_with_fuel(tokens_of, 1);
        }
        if let Some(token) = self.close_paren.get_last_token() {
            return Some(token);
        }
        if let Some(token) = self.query.get_last_token() {
            return Some(token);
        }
        if let Some(token) = self.open_paren.get_last_token() {
            return Some(token);
        }
        if let Some(token) = self.as_.get_last_token() {
            return Some(token);
        }
        if let Some(token) = self.column_aliases_opt.get_last_token() {
            return Some(token);
        }
        if let Some(token) = self.name.get_last_token() {
            return Some(token);
        }
        None
    }
}

#[derive(Debug)]
pub struct QueryNoWith<'a> {
    pub query_term: Box<ParseTree<'a>>,
    pub order_by_opt: Box<ParseTree<'a>>,
    pub limit_opt: Box<ParseTree<'a>>,
}

pub fn query_no_with<'a>(
    query_term: ParseTree<'a>,
    order_by_opt: ParseTree<'a>,
    limit_opt: ParseTree<'a>,
) -> (r: ParseTree<'a>)
    ensures
        r == ParseTree::QueryNoWith(QueryNoWith { query_term: Box::new(query_term), order_by_opt: Box::new(order_by_opt), limit_opt: Box::new(limit_opt) }),
        tokens_of(r) == tokens_of(query_term) + tokens_of(order_by_opt) + tokens_of(limit_opt),
        tree_wf(r) == (tree_wf(query_term) && tree_wf(order_by_opt) && tree_wf(limit_opt)),
        lossless(r) == (lossless(query_term) && lossless(order_by_opt) && lossless(limit_opt)),
{
    assert(tokens_of(ParseTree::QueryNoWith(QueryNoWith { query_term: Box::new(query_term), order_by_opt: Box::new(order_by_opt), limit_opt: Box::new(limit_opt) })) == tokens_of(query_term) + tokens_of(order_by_opt) + tokens_of(limit_opt)) by {
        reveal_with_fuel(tokens_of, 1);
    }
    assert(tree_wf(ParseTree::QueryNoWith(QueryNoWith { query_term: Box::new(query_term), order_by_opt: Box::new(order_by_opt), limit_opt: Box::new(limit_opt) })) == (tree_wf(query_term) && tree_wf(order_by_opt) && tree_wf(limit_opt))) by {
        reveal_with_fuel(tree_wf, 1);
    }
    assert(lossless(ParseTree::QueryNoWith(QueryNoWith { query_term: Box::new(query_term), order_by_opt: Box::new(order_by_opt), limit_opt: Box::new(limit_opt) })) == (lossless(query_term) && lossless(order_by_opt) && lossless(limit_opt))) by {
        reveal_with_fuel(lossless, 1);
    }
    ParseTree::QueryNoWith(QueryNoWith { query_term: Box::new(query_term), order_by_opt: Box::new(order_by_opt), limit_opt: Box::new(limit_opt) })
}

impl<'a> QueryNoWith<'a> {
    pub fn to_tree(self) -> (r: ParseTree<'a>)
        ensures
            r == ParseTree::QueryNoWith(self),
    {
        ParseTree::QueryNoWith(self)
    }

    pub fn children(&self) -> (r: Vec<&ParseTree<'a>>)
        ensures
            deref_seq(r@) == children_of(ParseTree::QueryNoWith(*self)),
    {
        let mut result: Vec<&ParseTree<'a>> = Vec::new();
        result.push(&*self.query_term);
        result.push(&*self.order_by_opt);
        result.push(&*self.limit_opt);
        assert(deref_seq(result@) =~= children_of(ParseTree::QueryNoWith(*self)));
        result
    }

    pub fn unbox(self) -> (r: (ParseTree<'a>, ParseTree<'a>, ParseTree<'a>))
        ensures
            r == (*self.query_term, *self.order_by_opt, *self.limit_opt),
    {
        (*self.query_term, *self.order_by_opt, *self.limit_opt)
    }

    pub fn get_first_child(&self) -> (r: &ParseTree<'a>)
        ensures
            *r == *self.query_term,
    {
        &self.query_term
    }

    pub fn get_last_child(&self) -> (r: &ParseTree<'a>)
        ensures
            *r == *self.limit_opt,
    {
        &self.limit_opt
    }

    pub fn get_first_token(&self) -> (r: Option<&token::Token<'a>>)
        ensures
            deref_opt(r) == first_of(tokens_of(ParseTree::QueryNoWith(*self))),
        decreases *self, 0nat,
    {
        assert(tokens_of(ParseTree::QueryNoWith(*self)) == tokens_of(*self.query_term) + tokens_of(*self.order_by_opt) + tokens_of(*self.limit_opt)) by {
            reveal_with_fuel(tokens_of, 1);
        }
        if let Some(token) = self.query_term.get_first_token() {
            return Some(token);
        }
        if let Some(token) = self.order_by_opt.get_first_token() {
            return Some(token);
        }
        if let Some(token) = self.limit_opt.get_first_token() {
            return Some(token);
        }
        None
    }

    pub fn get_last_token(&self) -> (r: Option<&token::Token<'a>>)
        ensures
            deref_opt(r) == last_of(tokens_of(ParseTree::QueryNoWith(*self))),
        decreases *self, 0nat,
    {
        assert(tokens_of(ParseTree::QueryNoWith(*self)) == tokens_of(*self.query_term) + tokens_of(*self.order_by_opt) + tokens_of(*self.limit_opt)) by {
            reveal_with_fuel(tokens_of, 1);
        }
        if let Some(token) = self.limit_opt.get_last_token() {
            return Some(token);
        }
        if let Some(token) = self.order_by_opt.get_last_token() {
            return Some(token);
        }
        if let Some(token) = self.query_term.get_last_token() {
            return Some(token);
        }
        None
    }
}

#[derive(Debug)]
pub struct OrderBy<'a> {
    pub order: Box<ParseTree<'a>>,
    pub by: Box<ParseTree<'a>>,
    pub sort_items: Box<ParseTree<'a>>,
}

pub fn order_by<'a>(
    order: ParseTree<'a>,
    by: ParseTree<'a>,
    sort_items: ParseTree<'a>,
) -> (r: ParseTree<'a>)
    ensures
        r == ParseTree::OrderBy(OrderBy { order: Box::new(order), by: Box::new(by), sort_items: Box::new(sort_items) }),
        tokens_of(r) == tokens_of(order) + tokens_of(by) + tokens_of(sort_items),
        tree_wf(r) == (tree_wf(order) && tree_wf(by) && tree_wf(sort_items)),
        lossless(r) == (lossless(order) && lossless(by) && lossless(sort_items)),
{
    assert(tokens_of(ParseTree::OrderBy(OrderBy { order: Box::new(order), by: Box::new(by), sort_items: Box::new(sort_items) })) == tokens_of(order) + tokens_of(by) + tokens_of(sort_items)) by {
        reveal_with_fuel(tokens_of, 1);
    }
    assert(tree_wf(ParseTree::OrderBy(OrderBy { order: Box::new(order), by: Box::new(by), sort_items: Box::new(sort_items) })) == (tree_wf(order) && tree_wf(by) && tree_wf(sort_items))) by {
        reveal_with_fuel(tree_wf, 1);
    }
    assert(lossless(ParseTree::OrderBy(OrderBy { order: Box::new(order), by: Box::new(by), sort_items: Box::new(sort_items) })) == (lossless(order) && lossless(by) && lossless(sort_items))) by {
        reveal_with_fuel(lossless, 1);
    }
    ParseTree::OrderBy(OrderBy { order: Box::new(order), by: Box::new(by), sort_items: Box::new(sort_items) })
}

impl<'a> OrderBy<'a> {
    pub fn to_tree(self) -> (r: ParseTree<'a>)
        ensures
            r == ParseTree::OrderBy(self),
    {
        ParseTree::OrderBy(self)
    }

    pub fn children(&self) -> (r: Vec<&ParseTree<'a>>)
        ensures
            deref_seq(r@) == children_of(ParseTree::OrderBy(*self)),
    {
        let mut result: Vec<&ParseTree<'a>> = Vec::new();
        result.push(&*self.order);
        result.push(&*self.by);
        result.push(&*self.sort_items);
        assert(deref_seq(result@) =~= children_of(ParseTree::OrderBy(*self)));
        result
    }

    pub fn unbox(self) -> (r: (ParseTree<'a>, ParseTree<'a>, ParseTree<'a>))
        ensures
            r == (*self.order, *self.by, *self.sort_items),
    {
        (*self.order, *self.by, *self.sort_items)
    }

    pub fn get_first_child(&self) -> (r: &ParseTree<'a>)
        ensures
            *r == *self.order,
    {
        &self.order
    }

    pub fn get_last_child(&self) -> (r: &ParseTree<'a>)
        ensures
            *r == *self.sort_items,
    {
        &self.sort_items
    }

    pub fn get_first_token(&self) -> (r: Option<&token::Token<'a>>)
        ensures
            deref_opt(r) == first_of(tokens_of(ParseTree::OrderBy(*self))),
        decreases *self, 0nat,
    {
        assert(tokens_of(ParseTree::OrderBy(*self)) == tokens_of(*self.order) + tokens_of(*self.by) + tokens_of(*self.sort_items)) by {
            reveal_with_fuel(tokens_of, 1);
        }
        if let Some(token) = self.order.get_first_token() {
            return Some(token);
        }
        if let Some(token) = self.by.get_first_token() {
            return Some(token);
        }
        if let Some(token) = self.sort_items.get_first_token() {
            return Some(token);
        }
        None
    }

    pub fn get_last_token(&self) -> (r: Option<&token::Token<'a>>)
        ensures
            deref_opt(r) == last_of(tokens_of(ParseTree::OrderBy(*self))),
        decreases *self, 0nat,
    {
        assert(tokens_of(ParseTree::OrderBy(*self)) == tokens_of(*self.order) + tokens_of(*self.by) + tokens_of(*self.sort_items)) by {
            reveal_with_fuel(tokens_of, 1);
        }
        if let Some(token) = self.sort_items.get_last_token() {
            return Some(token);
        }
        if let Some(token) = self.by.get_last_token() {
            return Some(token);
        }
        if let Some(token) = self.order.get_last_token() {
            return Some(token);
        }
        None
    }
}

#[derive(Debug)]
pub struct Limit<'a> {
    pub limit: Box<ParseTree<'a>>,
    pub value: Box<ParseTree<'a>>,
}

pub fn limit<'a>(
    limit_tree: ParseTree<'a>,
    value: ParseTree<'a>,
) -> (r: ParseTree<'a>)
    ensures
        r == ParseTree::Limit(Limit { limit: Box::new(limit_tree), value: Box::new(value) }),
        tokens_of(r) == tokens_of(limit_tree) + tokens_of(value),
        tree_wf(r) == (tree_wf(limit_tree) && tree_wf(value)),
        lossless(r) == (lossless(limit_tree) && lossless(value)),
{
    assert(tokens_of(ParseTree::Limit(Limit { limit: Box::new(limit_tree), value: Box::new(value) })) == tokens_of(limit_tree) + tokens_of(value)) by {
        reveal_with_fuel(tokens_of, 1);
    }
    assert(tree_wf(ParseTree::Limit(Limit { limit: Box::new(limit_tree), value: Box::new(value) })) == (tree_wf(limit_tree) && tree_wf(value))) by {
        reveal_with_fuel(tree_wf, 1);
    }
    assert(lossless(ParseTree::Limit(Limit { limit: Box::new(limit_tree), value: Box::new(value) })) == (lossless(limit_tree) && lossless(value))) by {
        reveal_with_fuel(lossless, 1);
    }
    ParseTree::Limit(Limit { limit: Box::new(limit_tree), value: Box::new(value) })
}

impl<'a> Limit<'a> {
    pub fn to_tree(self) -> (r: ParseTree<'a>)
        ensures
            r == ParseTree::Limit(self),
    {
        ParseTree::Limit(self)
    }

    pub fn children(&self) -> (r: Vec<&ParseTree<'a>>)
        ensures
            deref_seq(r@) == children_of(ParseTree::Limit(*self)),
    {
        let mut result: Vec<&ParseTree<'a>> = Vec::new();
        result.push(&*self.limit);
        result.push(&*self.value);
        assert(deref_seq(result@) =~= children_of(ParseTree::Limit(*self)));
        result
    }

    pub fn unbox(self) -> (r: (ParseTree<'a>, ParseTree<'a>))
        ensures
            r == (*self.limit, *self.value),
    {
        (*self.limit, *self.value)
    }

    pub fn get_first_child(&self) -> (r: &ParseTree<'a>)
        ensures
            *r == *self.limit,
    {
        &self.limit
    }

    pub fn get_last_child(&self) -> (r: &ParseTree<'a>)
        ensures
            *r == *self.value,
    {
        &self.value
    }

    pub fn get_first_token(&self) -> (r: Option<&token::Token<'a>>)
        ensures
            deref_opt(r) == first_of(tokens_of(ParseTree::Limit(*self))),
        decreases *self, 0nat,
    {
        assert(tokens_of(ParseTree::Limit(*self)) == tokens_of(*self.limit) + tokens_of(*self.value)) by {
            reveal_with_fuel(tokens_of, 1);
        }
        if let Some(token) = self.limit.get_first_token() {
            return Some(token);
        }
        if let Some(token) = self.value.get_first_token() {
            return Some(token);
        }
        None
    }

    pub fn get_last_token(&self) -> (r: Option<&token::Token<'a>>)
        ensures
            deref_opt(r) == last_of(tokens_of(ParseTree::Limit(*self))),
        decreases *self, 0nat,
    {
        assert(tokens_of(ParseTree::Limit(*self)) == tokens_of(*self.limit) + tokens_of(*self.value)) by {
            reveal_with_fuel(tokens_of, 1);
        }
        if let Some(token) = self.value.get_last_token() {
            return Some(token);
        }
        if let Some(token) = self.limit.get_last_token() {
            return Some(token);
        }
        None
    }
}

#[derive(Debug)]
pub struct QuerySetOperation<'a> {
    pub left: Box<ParseTree<'a>>,
    pub operator: Box<ParseTree<'a>>,
    pub set_quantifier_opt: Box<ParseTree<'a>>,
    pub right: Box<ParseTree<'a>>,
}

pub fn query_set_operation<'a>(
    left: ParseTree<'a>,
    operator: ParseTree<'a>,
    set_quantifier_opt: ParseTree<'a>,
    right: ParseTree<'a>,
) -> (r: ParseTree<'a>)
    ensures
        r == ParseTree::QuerySetOperation(QuerySetOperation { left: Box::new(left), operator: Box::new(operator), set_quantifier_opt: Box::new(set_quantifier_opt), right: Box::new(right) }),
        tokens_of(r) == tokens_of(left) + tokens_of(operator) + tokens_of(set_quantifier_opt) + tokens_of(right),
        tree_wf(r) == (tree_wf(left) && tree_wf(operator) && tree_wf(set_quantifier_opt) && tree_wf(right)),
        lossless(r) == (lossless(left) && lossless(operator) && lossless(set_quantifier_opt) && lossless(right)),
{
    assert(tokens_of(ParseTree::QuerySetOperation(QuerySetOperation { left: Box::new(left), operator: Box::new(operator), set_quantifier_opt: Box::new(set_quantifier_opt), right: Box::new(right) })) == tokens_of(left) + tokens_of(operator) + tokens_of(set_quantifier_opt) + tokens_of(right)) by {
        reveal_with_fuel(tokens_of, 1);
    }
    assert(tree_wf(ParseTree::QuerySetOperation(QuerySetOperation { left: Box::new(left), operator: Box::new(operator), set_quantifier_opt: Box::new(set_quantifier_opt), right: Box::new(right) })) == (tree_wf(left) && tree_wf(operator) && tree_wf(set_quantifier_opt) && tree_wf(right))) by {
        reveal_with_fuel(tree_wf, 1);
    }
    assert(lossless(ParseTree::QuerySetOperation(QuerySetOperation { left: Box::new(left), operator: Box::new(operator), set_quantifier_opt: Box::new(set_quantifier_opt), right: Box::new(right) })) == (lossless(left) && lossless(operator) && lossless(set_quantifier_opt) && lossless(right))) by {
        reveal_with_fuel(lossless, 1);
    }
    ParseTree::QuerySetOperation(QuerySetOperation { left: Box::new(left), operator: Box::new(operator), set_quantifier_opt: Box::new(set_quantifier_opt), right: Box::new(right) })
}

impl<'a> QuerySetOperation<'a> {
    pub fn to_tree(self) -> (r: ParseTree<'a>)
        ensures
            r == ParseTree::QuerySetOperation(self),
    {
        ParseTree::QuerySetOperation(self)
    }

    pub fn children(&self) -> (r: Vec<&ParseTree<'a>>)
        ensures
            deref_seq(r@) == children_of(ParseTree::QuerySetOperation(*self)),
    {
        let mut result: Vec<&ParseTree<'a>> = Vec::new();
        result.push(&*self.left);
        result.push(&*self.operator);
        result.push(&*self.set_quantifier_opt);
        result.push(&*self.right);
        assert(deref_seq(result@) =~= children_of(ParseTree::QuerySetOperation(*self)));
        result
    }

    pub fn unbox(self) -> (r: (ParseTree<'a>, ParseTree<'a>, ParseTree<'a>, ParseTree<'a>))
        ensures
            r == (*self.left, *self.operator, *self.set_quantifier_opt, *self.right),
    {
        (*self.left, *self.operator, *self.set_quantifier_opt, *self.right)
    }

    pub fn get_first_child(&self) -> (r: &ParseTree<'a>)
        ensures
            *r == *self.left,
    {
        &self.left
    }

    pub fn get_last_child(&self) -> (r: &ParseTree<'a>)
        ensures
            *r == *self.right,
    {
        &self.right
    }

    pub fn get_first_token(&self) -> (r: Option<&token::Token<'a>>)
        ensures
            deref_opt(r) == first_of(tokens_of(ParseTree::QuerySetOperation(*self))),
        decreases *self, 0nat,
    {
        assert(tokens_of(ParseTree::QuerySetOperation(*self)) == tokens_of(*self.left) + tokens_of(*self.operator) + tokens_of(*self.set_quantifier_opt) + tokens_of(*self.right)) by {
            reveal_with_fuel(tokens_of, 1);
        }
        if let Some(token) = self.left.get_first_token() {
            return Some(token);
        }
        if let Some(token) = self.operator.get_first_token() {
            return Some(token);
        }
        if let Some(token) = self.set_quantifier_opt.get_first_token() {
            return Some(token);
        }
        if let Some(token) = self.right.get_first_token() {
            return Some(token);
        }
        None
    }

    pub fn get_last_token(&self) -> (r: Option<&token::Token<'a>>)
        ensures
            deref_opt(r) == last_of(tokens_of(ParseTree::QuerySetOperation(*self))),
        decreases *self, 0nat,
    {
        assert(tokens_of(ParseTree::QuerySetOperation(*self)) == tokens_of(*self.left) + tokens_of(*self.operator) + tokens_of(*self.set_quantifier_opt) + tokens_of(*self.right)) by {
            reveal_with_fuel(tokens_of, 1);
        }
        if let Some(token) = self.right.get_last_token() {
            return Some(token);
        }
        if let Some(token) = self.set_quantifier_opt.get_last_token() {
            return Some(token);
        }
        if let Some(token) = self.operator.get_last_token() {
            return Some(token);
        }
        if let Some(token) = self.left.get_last_token() {
            return Some(token);
        }
        None
    }
}

#[derive(Debug)]
pub struct SortItem<'a> {
    pub expression: Box<ParseTree<'a>>,
    pub ordering_opt: Box<ParseTree<'a>>,
    pub nulls: Box<ParseTree<'a>>,
    pub null_ordering_opt: Box<ParseTree<'a>>,
}

pub fn sort_item<'a>(
    expression: ParseTree<'a>,
    ordering_opt: ParseTree<'a>,
    nulls: ParseTree<'a>,
    null_ordering_opt: ParseTree<'a>,
) -> (r: ParseTree<'a>)
    ensures
        r == ParseTree::SortItem(SortItem { expression: Box::new(expression), ordering_opt: Box::new(ordering_opt), nulls: Box::new(nulls), null_ordering_opt: Box::new(null_ordering_opt) }),
        tokens_of(r) == tokens_of(expression) + tokens_of(ordering_opt) + tokens_of(nulls) + tokens_of(null_ordering_opt),
        tree_wf(r) == (tree_wf(expression) && tree_wf(ordering_opt) && tree_wf(nulls) && tree_wf(null_ordering_opt)),
        lossless(r) == (lossless(expression) && lossless(ordering_opt) && lossless(nulls) && lossless(null_ordering_opt)),
{
    assert(tokens_of(ParseTree::SortItem(SortItem { expression: Box::new(expression), ordering_opt: Box::new(ordering_opt), nulls: Box::new(nulls), null_ordering_opt: Box::new(null_ordering_opt) })) == tokens_of(expression) + tokens_of(ordering_opt) + tokens_of(nulls) + tokens_of(null_ordering_opt)) by {
        reveal_with_fuel(tokens_of, 1);
    }
    assert(tree_wf(ParseTree::SortItem(SortItem { expression: Box::new(expression), ordering_opt: Box::new(ordering_opt), nulls: Box::new(nulls), null_ordering_opt: Box::new(null_ordering_opt) })) == (tree_wf(expression) && tree_wf(ordering_opt) && tree_wf(nulls) && tree_wf(null_ordering_opt))) by {
        reveal_with_fuel(tree_wf, 1);
    }
    assert(lossless(ParseTree::SortItem(SortItem { expression: Box::new(expression), ordering_opt: Box::new(ordering_opt), nulls: Box::new(nulls), null_ordering_opt: Box::new(null_ordering_opt) })) == (lossless(expression) && lossless(ordering_opt) && lossless(nulls) && lossless(null_ordering_opt))) by {
        reveal_with_fuel(lossless, 1);
    }
    ParseTree::SortItem(SortItem { expression: Box::new(expression), ordering_opt: Box::new(ordering_opt), nulls: Box::new(nulls), null_ordering_opt: Box::new(null_ordering_opt) })
}

impl<'a> SortItem<'a> {
    pub fn to_tree(self) -> (r: ParseTree<'a>)
        ensures
            r == ParseTree::SortItem(self),
    {
        ParseTree::SortItem(self)
    }

    pub fn children(&self) -> (r: Vec<&ParseTree<'a>>)
        ensures
            deref_seq(r@) == children_of(ParseTree::SortItem(*self)),
    {
        let mut result: Vec<&ParseTree<'a>> = Vec::new();
        result.push(&*self.expression);
        result.push(&*self.ordering_opt);
        result.push(&*self.nulls);
        result.push(&*self.null_ordering_opt);
        assert(deref_seq(result@) =~= children_of(ParseTree::SortItem(*self)));
        result
    }

    pub fn unbox(self) -> (r: (ParseTree<'a>, ParseTree<'a>, ParseTree<'a>, ParseTree<'a>))
        ensures
            r == (*self.expression, *self.ordering_opt, *self.nulls, *self.null_ordering_opt),
    {
        (*self.expression, *self.ordering_opt, *self.nulls, *self.null_ordering_opt)
    }

    pub fn get_first_child(&self) -> (r: &ParseTree<'a>)
        ensures
            *r == *self.expression,
    {
        &self.expression
    }

    pub fn get_last_child(&self) -> (r: &ParseTree<'a>)
        ensures
            *r == *self.null_ordering_opt,
    {
        &self.null_ordering_opt
    }

    pub fn get_first_token(&self) -> (r: Option<&token::Token<'a>>)
        ensures
            deref_opt(r) == first_of(tokens_of(ParseTree::SortItem(*self))),
        decreases *self, 0nat,
    {
        assert(tokens_of(ParseTree::SortItem(*self)) == tokens_of(*self.expression) + tokens_of(*self.ordering_opt) + tokens_of(*self.nulls) + tokens_of(*self.null_ordering_opt)) by {
            reveal_with_fuel(tokens_of, 1);
        }
        if let Some(token) = self.expression.get_first_token() {
            return Some(token);
        }
        if let Some(token) = self.ordering_opt.get_first_token() {
            return Some(token);
        }
        if let Some(token) = self.nulls.get_first_token() {
            return Some(token);
        }
        if let Some(token) = self.null_ordering_opt.get_first_token() {
            return Some(token);
        }
        None
    }

    pub fn get_last_token(&self) -> (r: Option<&token::Token<'a>>)
        ensures
            deref_opt(r) == last_of(tokens_of(ParseTree::SortItem(*self))),
        decreases *self, 0nat,
    {
        assert(tokens_of(ParseTree::SortItem(*self)) == tokens_of(*self.expression) + tokens_of(*self.ordering_opt) + tokens_of(*self.nulls) + tokens_of(*self.null_ordering_opt)) by {
            reveal_with_fuel(tokens_of, 1);
        }
        if let Some(token) = self.null_ordering_opt.get_last_token() {
            return Some(token);
        }
        if let Some(token) = self.nulls.get_last_token() {
            return Some(token);
        }
        if let Some(token) = self.ordering_opt.get_last_token() {
            return Some(token);
        }
        if let Some(token) = self.expression.get_last_token() {
            return Some(token);
        }
        None
    }
}

#[derive(Debug)]
pub struct Subquery<'a> {
    pub open_paren: Box<ParseTree<'a>>,
    pub query_no_with: Box<ParseTree<'a>>,
    pub close_paren: Box<ParseTree<'a>>,
}

pub fn subquery<'a>(
    open_paren: ParseTree<'a>,
    query_no_with: ParseTree<'a>,
    close_paren: ParseTree<'a>,
) -> (r: ParseTree<'a>)
    ensures
        r == ParseTree::Subquery(Subquery { open_paren: Box::new(open_paren), query_no_with: Box::new(query_no_with), close_paren: Box::new(close_paren) }),
        tokens_of(r) == tokens_of(open_paren) + tokens_of(query_no_with) + tokens_of(close_paren),
        tree_wf(r) == (tree_wf(open_paren) && tree_wf(query_no_with) && tree_wf(close_paren)),
        lossless(r) == (lossless(open_paren) && lossless(query_no_with) && lossless(close_paren)),
{
    assert(tokens_of(ParseTree::Subquery(Subquery { open_paren: Box::new(open_paren), query_no_with: Box::new(query_no_with), close_paren: Box::new(close_paren) })) == tokens_of(open_paren) + tokens_of(query_no_with) + tokens_of(close_paren)) by {
        reveal_with_fuel(tokens_of, 1);
    }
    assert(tree_wf(ParseTree::Subquery(Subquery { open_paren: Box::new(open_paren), query_no_with: Box::new(query_no_with), close_paren: Box::new(close_paren) })) == (tree_wf(open_paren) && tree_wf(query_no_with) && tree_wf(close_paren))) by {
        reveal_with_fuel(tree_wf, 1);
    }
    assert(lossless(ParseTree::Subquery(Subquery { open_paren: Box::new(open_paren), query_no_with: Box::new(query_no_with), close_paren: Box::new(close_paren) })) == (lossless(open_paren) && lossless(query_no_with) && lossless(close_paren))) by {
        reveal_with_fuel(lossless, 1);
    }
    ParseTree::Subquery(Subquery { open_paren: Box::new(open_paren), query_no_with: Box::new(query_no_with), close_paren: Box::new(close_paren) })
}

impl<'a> Subquery<'a> {
    pub fn to_tree(self) -> (r: ParseTree<'a>)
        ensures
            r == ParseTree::Subquery(self),
    {
        ParseTree::Subquery(self)
    }

    pub fn children(&self) -> (r: Vec<&ParseTree<'a>>)
        ensures
            deref_seq(r@) == children_of(ParseTree::Subquery(*self)),
    {
        let mut result: Vec<&ParseTree<'a>> = Vec::new();
        result.push(&*self.open_paren);
        result.push(&*self.query_no_with);
        result.push(&*self.close_paren);
        assert(deref_seq(result@) =~= children_of(ParseTree::Subquery(*self)));
        result
    }

    pub fn unbox(self) -> (r: (ParseTree<'a>, ParseTree<'a>, ParseTree<'a>))
        ensures
            r == (*self.open_paren, *self.query_no_with, *self.close_paren),
    {
        (*self.open_paren, *self.query_no_with, *self.close_paren)
    }

    pub fn get_first_child(&self) -> (r: &ParseTree<'a>)
        ensures
            *r == *self.open_paren,
    {
        &self.open_paren
    }

    pub fn get_last_child(&self) -> (r: &ParseTree<'a>)
        ensures
            *r == *self.close_paren,
    {
        &self.close_paren
    }

    pub fn get_first_token(&self) -> (r: Option<&token::Token<'a>>)
        ensures
            deref_opt(r) == first_of(tokens_of(ParseTree::Subquery(*self))),
        decreases *self, 0nat,
    {
        assert(tokens_of(ParseTree::Subquery(*self)) == tokens_of(*self.open_paren) + tokens_of(*self.query_no_with) + tokens_of(*self.close_paren)) by {
            reveal_with_fuel(tokens_of, 1);
        }
        if let Some(token) = self.open_paren.get_first_token() {
            return Some(token);
        }
        if let Some(token) = self.query_no_with.get_first_token() {
            return Some(token);
        }
        if let Some(token) = self.close_paren.get_first_token() {
            return Some(token);
        }
        None
    }

    pub fn get_last_token(&self) -> (r: Option<&token::Token<'a>>)
        ensures
            deref_opt(r) == last_of(tokens_of(ParseTree::Subquery(*self))),
        decreases *self, 0nat,
    {
        assert(tokens_of(ParseTree::Subquery(*self)) == tokens_of(*self.open_paren) + tokens_of(*self.query_no_with) + tokens_of(*self.close_paren)) by {
            reveal_with_fuel(tokens_of, 1);
        }
        if let Some(token) = self.close_paren.get_last_token() {
            return Some(token);
        }
        if let Some(token) = self.query_no_with.get_last_token() {
            return Some(token);
        }
        if let Some(token) = self.open_paren.get_last_token() {
            return Some(token);
        }
        None
    }
}

#[derive(Debug)]
pub struct InlineTable<'a> {
    pub values: Box<ParseTree<'a>>,
    pub expressions: Box<ParseTree<'a>>,
}

pub fn inline_table<'a>(
    values: ParseTree<'a>,
    expressions: ParseTree<'a>,
) -> (r: ParseTree<'a>)
    ensures
        r == ParseTree::InlineTable(InlineTable { values: Box::new(values), expressions: Box::new(expressions) }),
        tokens_of(r) == tokens_of(values) + tokens_of(expressions),
        tree_wf(r) == (tree_wf(values) && tree_wf(expressions)),
        lossless(r) == (lossless(values) && lossless(expressions)),
{
    assert(tokens_of(ParseTree::InlineTable(InlineTable { values: Box::new(values), expressions: Box::new(expressions) })) == tokens_of(values) + tokens_of(expressions)) by {
        reveal_with_fuel(tokens_of, 1);
    }
    assert(tree_wf(ParseTree::InlineTable(InlineTable { values: Box::new(values), expressions: Box::new(expressions) })) == (tree_wf(values) && tree_wf(expressions))) by {
        reveal_with_fuel(tree_wf, 1);
    }
    assert(lossless(ParseTree::InlineTable(InlineTable { values: Box::new(values), expressions: Box::new(expressions) })) == (lossless(values) && lossless(expressions))) by {
        reveal_with_fuel(lossless, 1);
    }
    ParseTree::InlineTable(InlineTable { values: Box::new(values), expressions: Box::new(expressions) })
}

impl<'a> InlineTable<'a> {
    pub fn to_tree(self) -> (r: ParseTree<'a>)
        ensures
            r == ParseTree::InlineTable(self),
    {
        ParseTree::InlineTable(self)
    }

    pub fn children(&self) -> (r: Vec<&ParseTree<'a>>)
        ensures
            deref_seq(r@) == children_of(ParseTree::InlineTable(*self)),
    {
        let mut result: Vec<&ParseTree<'a>> = Vec::new();
        result.push(&*self.values);
        result.push(&*self.expressions);
        assert(deref_seq(result@) =~= children_of(ParseTree::InlineTable(*self)));
        result
    }

    pub fn unbox(self) -> (r: (ParseTree<'a>, ParseTree<'a>))
        ensures
            r == (*self.values, *self.expressions),
    {
        (*self.values, *self.expressions)
    }

    pub fn get_first_child(&self) -> (r: &ParseTree<'a>)
        ensures
            *r == *self.values,
    {
        &self.values
    }

    pub fn get_last_child(&self) -> (r: &ParseTree<'a>)
        ensures
            *r == *self.expressions,
    {
        &self.expressions
    }

    pub fn get_first_token(&self) -> (r: Option<&token::Token<'a>>)
        ensures
            deref_opt(r) == first_of(tokens_of(ParseTree::InlineTable(*self))),
        decreases *self, 0nat,
    {
        assert(tokens_of(ParseTree::InlineTable(*self)) == tokens_of(*self.values) + tokens_of(*self.expressions)) by {
            reveal_with_fuel(tokens_of, 1);
        }
        if let Some(token) = self.values.get_first_token() {
            return Some(token);
        }
        if let Some(token) = self.expressions.get_first_token() {
            return Some(token);
        }
        None
    }

    pub fn get_last_token(&self) -> (r: Option<&token::Token<'a>>)
        ensures
            deref_opt(r) == last_of(tokens_of(ParseTree::InlineTable(*self))),
        decreases *self, 0nat,
    {
        assert(tokens_of(ParseTree::InlineTable(*self)) == tokens_of(*self.values) + tokens_of(*self.expressions)) by {
            reveal_with_fuel(tokens_of, 1);
        }
        if let Some(token) = self.expressions.get_last_token() {
            return Some(token);
        }
        if let Some(token) = self.values.get_last_token() {
            return Some(token);
        }
        None
    }
}

#[derive(Debug)]
pub struct Table<'a> {
    pub table: Box<ParseTree<'a>>,
    pub qualified_name: Box<ParseTree<'a>>,
}

pub fn table<'a>(
    table_tree: ParseTree<'a>,
    qualified_name: ParseTree<'a>,
) -> (r: ParseTree<'a>)
    ensures
        r == ParseTree::Table(Table { table: Box::new(table_tree), qualified_name: Box::new(qualified_name) }),
        tokens_of(r) == tokens_of(table_tree) + tokens_of(qualified_name),
        tree_wf(r) == (tree_wf(table_tree) && tree_wf(qualified_name)),
        lossless(r) == (lossless(table_tree) && lossless(qualified_name)),
{
    assert(tokens_of(ParseTree::Table(Table { table: Box::new(table_tree), qualified_name: Box::new(qualified_name) })) == tokens_of(table_tree) + tokens_of(qualified_name)) by {
        reveal_with_fuel(tokens_of, 1);
    }
    assert(tree_wf(ParseTree::Table(Table { table: Box::new(table_tree), qualified_name: Box::new(qualified_name) })) == (tree_wf(table_tree) && tree_wf(qualified_name))) by {
        reveal_with_fuel(tree_wf, 1);
    }
    assert(lossless(ParseTree::Table(Table { table: Box::new(table_tree), qualified_name: Box::new(qualified_name) })) == (lossless(table_tree) && lossless(qualified_name))) by {
        reveal_with_fuel(lossless, 1);
    }
    ParseTree::Table(Table { table: Box::new(table_tree), qualified_name: Box::new(qualified_name) })
}

impl<'a> Table<'a> {
    pub fn to_tree(self) -> (r: ParseTree<'a>)
        ensures
            r == ParseTree::Table(self),
    {
        ParseTree::Table(self)
    }

    pub fn children(&self) -> (r: Vec<&ParseTree<'a>>)
        ensures
            deref_seq(r@) == children_of(ParseTree::Table(*self)),
    {
        let mut result: Vec<&ParseTree<'a>> = Vec::new();
        result.push(&*self.table);
        result.push(&*self.qualified_name);
        assert(deref_seq(result@) =~= children_of(ParseTree::Table(*self)));
        result
    }

    pub fn unbox(self) -> (r: (ParseTree<'a>, ParseTree<'a>))
        ensures
            r == (*self.table, *self.qualified_name),
    {
        (*self.table, *self.qualified_name)
    }

    pub fn get_first_child(&self) -> (r: &ParseTree<'a>)
        ensures
            *r == *self.table,
    {
        &self.table
    }

    pub fn get_last_child(&self) -> (r: &ParseTree<'a>)
        ensures
            *r == *self.qualified_name,
    {
        &self.qualified_name
    }

    pub fn get_first_token(&self) -> (r: Option<&token::Token<'a>>)
        ensures
            deref_opt(r) == first_of(tokens_of(ParseTree::Table(*self))),
        decreases *self, 0nat,
    {
        assert(tokens_of(ParseTree::Table(*self)) == tokens_of(*self.table) + tokens_of(*self.qualified_name)) by {
            reveal_with_fuel(tokens_of, 1);
        }
        if let Some(token) = self.table.get_first_token() {
            return Some(token);
        }
        if let Some(token) = self.qualified_name.get_first_token() {
            return Some(token);
        }
        None
    }

    pub fn get_last_token(&self) -> (r: Option<&token::Token<'a>>)
        ensures
            deref_opt(r) == last_of(tokens_of(ParseTree::Table(*self))),
        decreases *self, 0nat,
    {
        assert(tokens_of(ParseTree::Table(*self)) == tokens_of(*self.table) + tokens_of(*self.qualified_name)) by {
            reveal_with_fuel(tokens_of, 1);
        }
        if let Some(token) = self.qualified_name.get_last_token() {
            return Some(token);
        }
        if let Some(token) = self.table.get_last_token() {
            return Some(token);
        }
        None
    }
}

#[derive(Debug)]
pub struct QuerySpecification<'a> {
    pub select: Box<ParseTree<'a>>,
    pub set_quantifier_opt: Box<ParseTree<'a>>,
    pub select_items: Box<ParseTree<'a>>,
    pub from: Box<ParseTree<'a>>,
    pub relations: Box<ParseTree<'a>>,
    pub where_: Box<ParseTree<'a>>,
    pub where_predicate: Box<ParseTree<'a>>,
    pub group: Box<ParseTree<'a>>,
    pub by: Box<ParseTree<'a>>,
    pub group_by: Box<ParseTree<'a>>,
    pub having: Box<ParseTree<'a>>,
    pub having_predicate: Box<ParseTree<'a>>,
}

pub fn query_specification<'a>(
    select: ParseTree<'a>,
    set_quantifier_opt: ParseTree<'a>,
    select_items: ParseTree<'a>,
    from: ParseTree<'a>,
    relations: ParseTree<'a>,
    where_: ParseTree<'a>,
    where_predicate: ParseTree<'a>,
    group: ParseTree<'a>,
    by: ParseTree<'a>,
    group_by: ParseTree<'a>,
    having: ParseTree<'a>,
    having_predicate: ParseTree<'a>,
) -> (r: ParseTree<'a>)
    ensures
        r == ParseTree::QuerySpecification(QuerySpecification { select: Box::new(select), set_quantifier_opt: Box::new(set_quantifier_opt), select_items: Box::new(select_items), from: Box::new(from), relations: Box::new(relations), where_: Box::new(where_), where_predicate: Box::new(where_predicate), group: Box::new(group), by: Box::new(by), group_by: Box::new(group_by), having: Box::new(having), having_predicate: Box::new(having_predicate) }),
        tokens_of(r) == tokens_of(select) + tokens_of(set_quantifier_opt) + tokens_of(select_items) + tokens_of(from) + tokens_of(relations) + tokens_of(where_) + tokens_of(where_predicate) + tokens_of(group) + tokens_of(by) + tokens_of(group_by) + tokens_of(having) + tokens_of(having_predicate),
        tree_wf(r) == (tree_wf(select) && tree_wf(set_quantifier_opt) && tree_wf(select_items) && tree_wf(from) && tree_wf(relations) && tree_wf(where_) && tree_wf(where_predicate) && tree_wf(group) && tree_wf(by) && tree_wf(group_by) && tree_wf(having) && tree_wf(having_predicate)),
        lossless(r) == (lossless(select) && lossless(set_quantifier_opt) && lossless(select_items) && lossless(from) && lossless(relations) && lossless(where_) && lossless(where_predicate) && lossless(group) && lossless(by) && lossless(group_by) && lossless(having) && lossless(having_predicate)),
{
    assert(tokens_of(ParseTree::QuerySpecification(QuerySpecification { select: Box::new(select), set_quantifier_opt: Box::new(set_quantifier_opt), select_items: Box::new(select_items), from: Box::new(from), relations: Box::new(relations), where_: Box::new(where_), where_predicate: Box::new(where_predicate), group: Box::new(group), by: Box::new(by), group_by: Box::new(group_by), having: Box::new(having), having_predicate: Box::new(having_predicate) })) == tokens_of(select) + tokens_of(set_quantifier_opt) + tokens_of(select_items) + tokens_of(from) + tokens_of(relations) + tokens_of(where_) + tokens_of(where_predicate) + tokens_of(group) + tokens_of(by) + tokens_of(group_by) + tokens_of(having) + tokens_of(having_predicate)) by {
        reveal_with_fuel(tokens_of, 1);
    }
    assert(tree_wf(ParseTree::QuerySpecification(QuerySpecification { select: Box::new(select), set_quantifier_opt: Box::new(set_quantifier_opt), select_items: Box::new(select_items), from: Box::new(from), relations: Box::new(relations), where_: Box::new(where_), where_predicate: Box::new(where_predicate), group: Box::new(group), by: Box::new(by), group_by: Box::new(group_by), having: Box::new(having), having_predicate: Box::new(having_predicate) })) == (tree_wf(select) && tree_wf(set_quantifier_opt) && tree_wf(select_items) && tree_wf(from) && tree_wf(relations) && tree_wf(where_) && tree_wf(where_predicate) && tree_wf(group) && tree_wf(by) && tree_wf(group_by) && tree_wf(having) && tree_wf(having_predicate))) by {
        reveal_with_fuel(tree_wf, 1);
    }
    assert(lossless(ParseTree::QuerySpecification(QuerySpecification { select: Box::new(select), set_quantifier_opt: Box::new(set_quantifier_opt), select_items: Box::new(select_items), from: Box::new(from), relations: Box::new(relations), where_: Box::new(where_), where_predicate: Box::new(where_predicate), group: Box::new(group), by: Box::new(by), group_by: Box::new(group_by), having: Box::new(having), having_predicate: Box::new(having_predicate) })) == (lossless(select) && lossless(set_quantifier_opt) && lossless(select_items) && lossless(from) && lossless(relations) && lossless(where_) && lossless(where_predicate) && lossless(group) && lossless(by) && lossless(group_by) && lossless(having) && lossless(having_predicate))) by {
        reveal_with_fuel(lossless, 1);
    }
    ParseTree::QuerySpecification(QuerySpecification { select: Box::new(select), set_quantifier_opt: Box::new(set_quantifier_opt), select_items: Box::new(select_items), from: Box::new(from), relations: Box::new(relations), where_: Box::new(where_), where_predicate: Box::new(where_predicate), group: Box::new(group), by: Box::new(by), group_by: Box::new(group_by), having: Box::new(having), having_predicate: Box::new(having_predicate) })
}

impl<'a> QuerySpecification<'a> {
    pub fn to_tree(self) -> (r: ParseTree<'a>)
        ensures
            r == ParseTree::QuerySpecification(self),
    {
        ParseTree::QuerySpecification(self)
    }

    pub fn children(&self) -> (r: Vec<&ParseTree<'a>>)
        ensures
            deref_seq(r@) == children_of(ParseTree::QuerySpecification(*self)),
    {
        let mut result: Vec<&ParseTree<'a>> = Vec::new();
        result.push(&*self.select);
        result.push(&*self.set_quantifier_opt);
        result.push(&*self.select_items);
        result.push(&*self.from);
        result.push(&*self.relations);
        result.push(&*self.where_);
        result.push(&*self.where_predicate);
        result.push(&*self.group);
        result.push(&*self.by);
        result.push(&*self.group_by);
        result.push(&*self.having);
        result.push(&*self.having_predicate);
        assert(deref_seq(result@) =~= children_of(ParseTree::QuerySpecification(*self)));
        result
    }

    pub fn unbox(self) -> (r: (ParseTree<'a>, ParseTree<'a>, ParseTree<'a>, ParseTree<'a>, ParseTree<'a>, ParseTree<'a>, ParseTree<'a>, ParseTree<'a>, ParseTree<'a>, ParseTree<'a>, ParseTree<'a>, ParseTree<'a>))
        ensures
            r == (*self.select, *self.set_quantifier_opt, *self.select_items, *self.from, *self.relations, *self.where_, *self.where_predicate, *self.group, *self.by, *self.group_by, *self.having, *self.having_predicate),
    {
        (*self.select, *self.set_quantifier_opt, *self.select_items, *self.from, *self.relations, *self.where_, *self.where_predicate, *self.group, *self.by, *self.group_by, *self.having, *self.having_predicate)
    }

    pub fn get_first_child(&self) -> (r: &ParseTree<'a>)
        ensures
            *r == *self.select,
    {
        &self.select
    }

    pub fn get_last_child(&self) -> (r: &ParseTree<'a>)
        ensures
            *r == *self.having_predicate,
    {
        &self.having_predicate
    }

    pub fn get_first_token(&self) -> (r: Option<&token::Token<'a>>)
        ensures
            deref_opt(r) == first_of(tokens_of(ParseTree::QuerySpecification(*self))),
        decreases *self, 0nat,
    {
        assert(tokens_of(ParseTree::QuerySpecification(*self)) == tokens_of(*self.select) + tokens_of(*self.set_quantifier_opt) + tokens_of(*self.select_items) + tokens_of(*self.from) + tokens_of(*self.relations) + tokens_of(*self.where_) + tokens_of(*self.where_predicate) + tokens_of(*self.group) + tokens_of(*self.by) + tokens_of(*self.group_by) + tokens_of(*self.having) + tokens_of(*self.having_predicate)) by {
            reveal_with_fuel(tokens_of, 1);
        }
        if let Some(token) = self.select.get_first_token() {
            return Some(token);
        }
        if let Some(token) = self.set_quantifier_opt.get_first_token() {
            return Some(token);
        }
        if let Some(token) = self.select_items.get_first_token() {
            return Some(token);
        }
        if let Some(token) = self.from.get_first_token() {
            return Some(token);
        }
        if let Some(token) = self.relations.get_first_token() {
            return Some(token);
        }
        if let Some(token) = self.where_.get_first_token() {
            return Some(token);
        }
        if let Some(token) = self.where_predicate.get_first_token() {
            return Some(token);
        }
        if let Some(token) = self.group.get_first_token() {
            return Some(token);
        }
        if let Some(token) = self.by.get_first_token() {
            return Some(token);
        }
        if let Some(token) = self.group_by.get_first_token() {
            return Some(token);
        }
        if let Some(token) = self.having.get_first_token() {
            return Some(token);
        }
        if let Some(token) = self.having_predicate.get_first_token() {
            return Some(token);
        }
        None
    }

    pub fn get_last_token(&self) -> (r: Option<&token::Token<'a>>)
        ensures
            deref_opt(r) == last_of(tokens_of(ParseTree::QuerySpecification(*self))),
        decreases *self, 0nat,
    {
        assert(tokens_of(ParseTree::QuerySpecification(*self)) == tokens_of(*self.select) + tokens_of(*self.set_quantifier_opt) + tokens_of(*self.select_items) + tokens_of(*self.from) + tokens_of(*self.relations) + tokens_of(*self.where_) + tokens_of(*self.where_predicate) + tokens_of(*self.group) + tokens_of(*self.by) + tokens_of(*self.group_by) + tokens_of(*self.having) + tokens_of(*self.having_predicate)) by {
            reveal_with_fuel(tokens_of, 1);
        }
        if let Some(token) = self.having_predicate.get_last_token() {
            return Some(token);
        }
        if let Some(token) = self.having.get_last_token() {
            return Some(token);
        }
        if let Some(token) = self.group_by.get_last_token() {
            return Some(token);
        }
        if let Some(token) = self.by.get_last_token() {
            return Some(token);
        }
        if let Some(token) = self.group.get_last_token() {
            return Some(token);
        }
        if let Some(token) = self.where_predicate.get_last_token() {
            return Some(token);
        }
        if let Some(token) = self.where_.get_last_token() {
            return Some(token);
        }
        if let Some(token) = self.relations.get_last_token() {
            return Some(token);
        }
        if let Some(token) = self.from.get_last_token() {
            return Some(token);
        }
        if let Some(token) = self.select_items.get_last_token() {
            return Some(token);
        }
        if let Some(token) = self.set_quantifier_opt.get_last_token() {
            return Some(token);
        }
        if let Some(token) = self.select.get_last_token() {
            return Some(token);
        }
        None
    }
}

#[derive(Debug)]
pub struct QualifiedName<'a> {
    pub names: Box<ParseTree<'a>>,
}

pub fn qualified_name<'a>(
    names: ParseTree<'a>,
) -> (r: ParseTree<'a>)
    ensures
        r == ParseTree::QualifiedName(QualifiedName { names: Box::new(names) }),
        tokens_of(r) == tokens_of(names),
        tree_wf(r) == (tree_wf(names)),
        lossless(r) == (lossless(names)),
{
    assert(tokens_of(ParseTree::QualifiedName(QualifiedName { names: Box::new(names) })) == tokens_of(names)) by {
        reveal_with_fuel(tokens_of, 1);
    }
    assert(tree_wf(ParseTree::QualifiedName(QualifiedName { names: Box::new(names) })) == (tree_wf(names))) by {
        reveal_with_fuel(tree_wf, 1);
    }
    assert(lossless(ParseTree::QualifiedName(QualifiedName { names: Box::new(names) })) == (lossless(names))) by {
        reveal_with_fuel(lossless, 1);
    }
    ParseTree::QualifiedName(QualifiedName { names: Box::new(names) })
}

impl<'a> QualifiedName<'a> {
    pub fn to_tree(self) -> (r: ParseTree<'a>)
        ensures
            r == ParseTree::QualifiedName(self),
    {
        ParseTree::QualifiedName(self)
    }

    pub fn children(&self) -> (r: Vec<&ParseTree<'a>>)
        ensures
            deref_seq(r@) == children_of(ParseTree::QualifiedName(*self)),
    {
        let mut result: Vec<&ParseTree<'a>> = Vec::new();
        result.push(&*self.names);
        assert(deref_seq(result@) =~= children_of(ParseTree::QualifiedName(*self)));
        result
    }

    pub fn unbox(self) -> (r: (ParseTree<'a>,))
        ensures
            r == (*self.names,),
    {
        (*self.names,)
    }

    pub fn get_first_child(&self) -> (r: &ParseTree<'a>)
        ensures
            *r == *self.names,
    {
        &self.names
    }

    pub fn get_last_child(&self) -> (r: &ParseTree<'a>)
        ensures
            *r == *self.names,
    {
        &self.names
    }

    pub fn get_first_token(&self) -> (r: Option<&token::Token<'a>>)
        ensures
            deref_opt(r) == first_of(tokens_of(ParseTree::QualifiedName(*self))),
        decreases *self, 0nat,
    {
        assert(tokens_of(ParseTree::QualifiedName(*self)) == tokens_of(*self.names)) by {
            reveal_with_fuel(tokens_of, 1);
        }
        if let Some(token) = self.names.get_first_token() {
            return Some(token);
        }
        None
    }

    pub fn get_last_token(&self) -> (r: Option<&token::Token<'a>>)
        ensures
            deref_opt(r) == last_of(tokens_of(ParseTree::QualifiedName(*self))),
        decreases *self, 0nat,
    {
        assert(tokens_of(ParseTree::QualifiedName(*self)) == tokens_of(*self.names)) by {
            reveal_with_fuel(tokens_of, 1);
        }
        if let Some(token) = self.names.get_last_token() {
            return Some(token);
        }
        None
    }
}

#[derive(Debug)]
pub struct SelectAll<'a> {
    pub asterisk: Box<ParseTree<'a>>,
}

pub fn select_all<'a>(
    asterisk: ParseTree<'a>,
) -> (r: ParseTree<'a>)
    ensures
        r == ParseTree::SelectAll(SelectAll { asterisk: Box::new(asterisk) }),
        tokens_of(r) == tokens_of(asterisk),
        tree_wf(r) == (tree_wf(asterisk)),
        lossless(r) == (lossless(asterisk)),
{
    assert(tokens_of(ParseTree::SelectAll(SelectAll { asterisk: Box::new(asterisk) })) == tokens_of(asterisk)) by {
        reveal_with_fuel(tokens_of, 1);
    }
    assert(tree_wf(ParseTree::SelectAll(SelectAll { asterisk: Box::new(asterisk) })) == (tree_wf(asterisk))) by {
        reveal_with_fuel(tree_wf, 1);
    }
    assert(lossless(ParseTree::SelectAll(SelectAll { asterisk: Box::new(asterisk) })) == (lossless(asterisk))) by {
        reveal_with_fuel(lossless, 1);
    }
    ParseTree::SelectAll(SelectAll { asterisk: Box::new(asterisk) })
}

impl<'a> SelectAll<'a> {
    pub fn to_tree(self) -> (r: ParseTree<'a>)
        ensures
            r == ParseTree::SelectAll(self),
    {
        ParseTree::SelectAll(self)
    }

    pub fn children(&self) -> (r: Vec<&ParseTree<'a>>)
        ensures
            deref_seq(r@) == children_of(ParseTree::SelectAll(*self)),
    {
        let mut result: Vec<&ParseTree<'a>> = Vec::new();
        result.push(&*self.asterisk);
        assert(deref_seq(result@) =~= children_of(ParseTree::SelectAll(*self)));
        result
    }

    pub fn unbox(self) -> (r: (ParseTree<'a>,))
        ensures
            r == (*self.asterisk,),
    {
        (*self.asterisk,)
    }

    pub fn get_first_child(&self) -> (r: &ParseTree<'a>)
        ensures
            *r == *self.asterisk,
    {
        &self.asterisk
    }

    pub fn get_last_child(&self) -> (r: &ParseTree<'a>)
        ensures
            *r == *self.asterisk,
    {
        &self.asterisk
    }

    pub fn get_first_token(&self) -> (r: Option<&token::Token<'a>>)
        ensures
            deref_opt(r) == first_of(tokens_of(ParseTree::SelectAll(*self))),
        decreases *self, 0nat,
    {
        assert(tokens_of(ParseTree::SelectAll(*self)) == tokens_of(*self.asterisk)) by {
            reveal_with_fuel(tokens_of, 1);
        }
        if let Some(token) = self.asterisk.get_first_token() {
            return Some(token);
        }
        None
    }

    pub fn get_last_token(&self) -> (r: Option<&token::Token<'a>>)
        ensures
            deref_opt(r) == last_of(tokens_of(ParseTree::SelectAll(*self))),
        decreases *self, 0nat,
    {
        assert(tokens_of(ParseTree::SelectAll(*self)) == tokens_of(*self.asterisk)) by {
            reveal_with_fuel(tokens_of, 1);
        }
        if let Some(token) = self.asterisk.get_last_token() {
            return Some(token);
        }
        None
    }
}

#[derive(Debug)]
pub struct QualifiedSelectAll<'a> {
    pub qualifier: Box<ParseTree<'a>>,
    pub period: Box<ParseTree<'a>>,
    pub asterisk: Box<ParseTree<'a>>,
}

pub fn qualified_select_all<'a>(
    qualifier: ParseTree<'a>,
    period: ParseTree<'a>,
    asterisk: ParseTree<'a>,
) -> (r: ParseTree<'a>)
    ensures
        r == ParseTree::QualifiedSelectAll(QualifiedSelectAll { qualifier: Box::new(qualifier), period: Box::new(period), asterisk: Box::new(asterisk) }),
        tokens_of(r) == tokens_of(qualifier) + tokens_of(period) + tokens_of(asterisk),
        tree_wf(r) == (tree_wf(qualifier) && tree_wf(period) && tree_wf(asterisk)),
        lossless(r) == (lossless(qualifier) && lossless(period) && lossless(asterisk)),
{
    assert(tokens_of(ParseTree::QualifiedSelectAll(QualifiedSelectAll { qualifier: Box::new(qualifier), period: Box::new(period), asterisk: Box::new(asterisk) })) == tokens_of(qualifier) + tokens_of(period) + tokens_of(asterisk)) by {
        reveal_with_fuel(tokens_of, 1);
    }
    assert(tree_wf(ParseTree::QualifiedSelectAll(QualifiedSelectAll { qualifier: Box::new(qualifier), period: Box::new(period), asterisk: Box::new(asterisk) })) == (tree_wf(qualifier) && tree_wf(period) && tree_wf(asterisk))) by {
        reveal_with_fuel(tree_wf, 1);
    }
    assert(lossless(ParseTree::QualifiedSelectAll(QualifiedSelectAll { qualifier: Box::new(qualifier), period: Box::new(period), asterisk: Box::new(asterisk) })) == (lossless(qualifier) && lossless(period) && lossless(asterisk))) by {
        reveal_with_fuel(lossless, 1);
    }
    ParseTree::QualifiedSelectAll(QualifiedSelectAll { qualifier: Box::new(qualifier), period: Box::new(period), asterisk: Box::new(asterisk) })
}

impl<'a> QualifiedSelectAll<'a> {
    pub fn to_tree(self) -> (r: ParseTree<'a>)
        ensures
            r == ParseTree::QualifiedSelectAll(self),
    {
        ParseTree::QualifiedSelectAll(self)
    }

    pub fn children(&self) -> (r: Vec<&ParseTree<'a>>)
        ensures
            deref_seq(r@) == children_of(ParseTree::QualifiedSelectAll(*self)),
    {
        let mut result: Vec<&ParseTree<'a>> = Vec::new();
        result.push(&*self.qualifier);
        result.push(&*self.period);
        result.push(&*self.asterisk);
        assert(deref_seq(result@) =~= children_of(ParseTree::QualifiedSelectAll(*self)));
        result
    }

    pub fn unbox(self) -> (r: (ParseTree<'a>, ParseTree<'a>, ParseTree<'a>))
        ensures
            r == (*self.qualifier, *self.period, *self.asterisk),
    {
        (*self.qualifier, *self.period, *self.asterisk)
    }

    pub fn get_first_child(&self) -> (r: &ParseTree<'a>)
        ensures
            *r == *self.qualifier,
    {
        &self.qualifier
    }

    pub fn get_last_child(&self) -> (r: &ParseTree<'a>)
        ensures
            *r == *self.asterisk,
    {
        &self.asterisk
    }

    pub fn get_first_token(&self) -> (r: Option<&token::Token<'a>>)
        ensures
            deref_opt(r) == first_of(tokens_of(ParseTree::QualifiedSelectAll(*self))),
        decreases *self, 0nat,
    {
        assert(tokens_of(ParseTree::QualifiedSelectAll(*self)) == tokens_of(*self.qualifier) + tokens_of(*self.period) + tokens_of(*self.asterisk)) by {
            reveal_with_fuel(tokens_of, 1);
        }
        if let Some(token) = self.qualifier.get_first_token() {
            return Some(token);
        }
        if let Some(token) = self.period.get_first_token() {
            return Some(token);
        }
        if let Some(token) = self.asterisk.get_first_token() {
            return Some(token);
        }
        None
    }

    pub fn get_last_token(&self) -> (r: Option<&token::Token<'a>>)
        ensures
            deref_opt(r) == last_of(tokens_of(ParseTree::QualifiedSelectAll(*self))),
        decreases *self, 0nat,
    {
        assert(tokens_of(ParseTree::QualifiedSelectAll(*self)) == tokens_of(*self.qualifier) + tokens_of(*self.period) + tokens_of(*self.asterisk)) by {
            reveal_with_fuel(tokens_of, 1);
        }
        if let Some(token) = self.asterisk.get_last_token() {
            return Some(token);
        }
        if let Some(token) = self.period.get_last_token() {
            return Some(token);
        }
        if let Some(token) = self.qualifier.get_last_token() {
            return Some(token);
        }
        None
    }
}

#[derive(Debug)]
pub struct SelectItem<'a> {
    pub expression: Box<ParseTree<'a>>,
    pub as_: Box<ParseTree<'a>>,
    pub identifier: Box<ParseTree<'a>>,
}

pub fn select_item<'a>(
    expression: ParseTree<'a>,
    as_: ParseTree<'a>,
    identifier: ParseTree<'a>,
) -> (r: ParseTree<'a>)
    ensures
        r == ParseTree::SelectItem(SelectItem { expression: Box::new(expression), as_: Box::new(as_), identifier: Box::new(identifier) }),
        tokens_of(r) == tokens_of(expression) + tokens_of(as_) + tokens_of(identifier),
        tree_wf(r) == (tree_wf(expression) && tree_wf(as_) && tree_wf(identifier)),
        lossless(r) == (lossless(expression) && lossless(as_) && lossless(identifier)),
{
    assert(tokens_of(ParseTree::SelectItem(SelectItem { expression: Box::new(expression), as_: Box::new(as_), identifier: Box::new(identifier) })) == tokens_of(expression) + tokens_of(as_) + tokens_of(identifier)) by {
        reveal_with_fuel(tokens_of, 1);
    }
    assert(tree_wf(ParseTree::SelectItem(SelectItem { expression: Box::new(expression), as_: Box::new(as_), identifier: Box::new(identifier) })) == (tree_wf(expression) && tree_wf(as_) && tree_wf(identifier))) by {
        reveal_with_fuel(tree_wf, 1);
    }
    assert(lossless(ParseTree::SelectItem(SelectItem { expression: Box::new(expression), as_: Box::new(as_), identifier: Box::new(identifier) })) == (lossless(expression) && lossless(as_) && lossless(identifier))) by {
        reveal_with_fuel(lossless, 1);
    }
    ParseTree::SelectItem(SelectItem { expression: Box::new(expression), as_: Box::new(as_), identifier: Box::new(identifier) })
}

impl<'a> SelectItem<'a> {
    pub fn to_tree(self) -> (r: ParseTree<'a>)
        ensures
            r == ParseTree::SelectItem(self),
    {
        ParseTree::SelectItem(self)
    }

    pub fn children(&self) -> (r: Vec<&ParseTree<'a>>)
        ensures
            deref_seq(r@) == children_of(ParseTree::SelectItem(*self)),
    {
        let mut result: Vec<&ParseTree<'a>> = Vec::new();
        result.push(&*self.expression);
        result.push(&*self.as_);
        result.push(&*self.identifier);
        assert(deref_seq(result@) =~= children_of(ParseTree::SelectItem(*self)));
        result
    }

    pub fn unbox(self) -> (r: (ParseTree<'a>, ParseTree<'a>, ParseTree<'a>))
        ensures
            r == (*self.expression, *self.as_, *self.identifier),
    {
        (*self.expression, *self.as_, *self.identifier)
    }

    pub fn get_first_child(&self) -> (r: &ParseTree<'a>)
        ensures
            *r == *self.expression,
    {
        &self.expression
    }

    pub fn get_last_child(&self) -> (r: &ParseTree<'a>)
        ensures
            *r == *self.identifier,
    {
        &self.identifier
    }

    pub fn get_first_token(&self) -> (r: Option<&token::Token<'a>>)
        ensures
            deref_opt(r) == first_of(tokens_of(ParseTree::SelectItem(*self))),
        decreases *self, 0nat,
    {
        assert(tokens_of(ParseTree::SelectItem(*self)) == tokens_of(*self.expression) + tokens_of(*self.as_) + tokens_of(*self.identifier)) by {
            reveal_with_fuel(tokens_of, 1);
        }
        if let Some(token) = self.expression.get_first_token() {
            return Some(token);
        }
        if let Some(token) = self.as_.get_first_token() {
            return Some(token);
        }
        if let Some(token) = self.identifier.get_first_token() {
            return Some(token);
        }
        None
    }

    pub fn get_last_token(&self) -> (r: Option<&token::Token<'a>>)
        ensures
            deref_opt(r) == last_of(tokens_of(ParseTree::SelectItem(*self))),
        decreases *self, 0nat,
    {
        assert(tokens_of(ParseTree::SelectItem(*self)) == tokens_of(*self.expression) + tokens_of(*self.as_) + tokens_of(*self.identifier)) by {
            reveal_with_fuel(tokens_of, 1);
        }
        if let Some(token) = self.identifier.get_last_token() {
            return Some(token);
        }
        if let Some(token) = self.as_.get_last_token() {
            return Some(token);
        }
        if let Some(token) = self.expression.get_last_token() {
            return Some(token);
        }
        None
    }
}

#[derive(Debug)]
pub struct SubqueryRelation<'a> {
    pub open_paren: Box<ParseTree<'a>>,
    pub query: Box<ParseTree<'a>>,
    pub close_paren: Box<ParseTree<'a>>,
}

pub fn subquery_relation<'a>(
    open_paren: ParseTree<'a>,
    query: ParseTree<'a>,
    close_paren: ParseTree<'a>,
) -> (r: ParseTree<'a>)
    ensures
        r == ParseTree::SubqueryRelation(SubqueryRelation { open_paren: Box::new(open_paren), query: Box::new(query), close_paren: Box::new(close_paren) }),
        tokens_of(r) == tokens_of(open_paren) + tokens_of(query) + tokens_of(close_paren),
        tree_wf(r) == (tree_wf(open_paren) && tree_wf(query) && tree_wf(close_paren)),
        lossless(r) == (lossless(open_paren) && lossless(query) && lossless(close_paren)),
{
    assert(tokens_of(ParseTree::SubqueryRelation(SubqueryRelation { open_paren: Box::new(open_paren), query: Box::new(query), close_paren: Box::new(close_paren) })) == tokens_of(open_paren) + tokens_of(query) + tokens_of(close_paren)) by {
        reveal_with_fuel(tokens_of, 1);
    }
    assert(tree_wf(ParseTree::SubqueryRelation(SubqueryRelation { open_paren: Box::new(open_paren), query: Box::new(query), close_paren: Box::new(close_paren) })) == (tree_wf(open_paren) && tree_wf(query) && tree_wf(close_paren))) by {
        reveal_with_fuel(tree_wf, 1);
    }
    assert(lossless(ParseTree::SubqueryRelation(SubqueryRelation { open_paren: Box::new(open_paren), query: Box::new(query), close_paren: Box::new(close_paren) })) == (lossless(open_paren) && lossless(query) && lossless(close_paren))) by {
        reveal_with_fuel(lossless, 1);
    }
    ParseTree::SubqueryRelation(SubqueryRelation { open_paren: Box::new(open_paren), query: Box::new(query), close_paren: Box::new(close_paren) })
}

impl<'a> SubqueryRelation<'a> {
    pub fn to_tree(self) -> (r: ParseTree<'a>)
        ensures
            r == ParseTree::SubqueryRelation(self),
    {
        ParseTree::SubqueryRelation(self)
    }

    pub fn children(&self) -> (r: Vec<&ParseTree<'a>>)
        ensures
            deref_seq(r@) == children_of(ParseTree::SubqueryRelation(*self)),
    {
        let mut result: Vec<&ParseTree<'a>> = Vec::new();
        result.push(&*self.open_paren);
        result.push(&*self.query);
        result.push(&*self.close_paren);
        assert(deref_seq(result@) =~= children_of(ParseTree::SubqueryRelation(*self)));
        result
    }

    pub fn unbox(self) -> (r: (ParseTree<'a>, ParseTree<'a>, ParseTree<'a>))
        ensures
            r == (*self.open_paren, *self.query, *self.close_paren),
    {
        (*self.open_paren, *self.query, *self.close_paren)
    }

    pub fn get_first_child(&self) -> (r: &ParseTree<'a>)
        ensures
            *r == *self.open_paren,
    {
        &self.open_paren
    }

    pub fn get_last_child(&self) -> (r: &ParseTree<'a>)
        ensures
            *r == *self.close_paren,
    {
        &self.close_paren
    }

    pub fn get_first_token(&self) -> (r: Option<&token::Token<'a>>)
        ensures
            deref_opt(r) == first_of(tokens_of(ParseTree::SubqueryRelation(*self))),
        decreases *self, 0nat,
    {
        assert(tokens_of(ParseTree::SubqueryRelation(*self)) == tokens_of(*self.open_paren) + tokens_of(*self.query) + tokens_of(*self.close_paren)) by {
            reveal_with_fuel(tokens_of, 1);
        }
        if let Some(token) = self.open_paren.get_first_token() {
            return Some(token);
        }
        if let Some(token) = self.query.get_first_token() {
            return Some(token);
        }
        if let Some(token) = self.close_paren.get_first_token() {
            return Some(token);
        }
        None
    }

    pub fn get_last_token(&self) -> (r: Option<&token::Token<'a>>)
        ensures
            deref_opt(r) == last_of(tokens_of(ParseTree::SubqueryRelation(*self))),
        decreases *self, 0nat,
    {
        assert(tokens_of(ParseTree::SubqueryRelation(*self)) == tokens_of(*self.open_paren) + tokens_of(*self.query) + tokens_of(*self.close_paren)) by {
            reveal_with_fuel(tokens_of, 1);
        }
        if let Some(token) = self.close_paren.get_last_token() {
            return Some(token);
        }
        if let Some(token) = self.query.get_last_token() {
            return Some(token);
        }
        if let Some(token) = self.open_paren.get_last_token() {
            return Some(token);
        }
        None
    }
}

#[derive(Debug)]
pub struct ParenthesizedRelation<'a> {
    pub open_paren: Box<ParseTree<'a>>,
    pub relation: Box<ParseTree<'a>>,
    pub close_paren: Box<ParseTree<'a>>,
}

pub fn parenthesized_relation<'a>(
    open_paren: ParseTree<'a>,
    relation: ParseTree<'a>,
    close_paren: ParseTree<'a>,
) -> (r: ParseTree<'a>)
    ensures
        r == ParseTree::ParenthesizedRelation(ParenthesizedRelation { open_paren: Box::new(open_paren), relation: Box::new(relation), close_paren: Box::new(close_paren) }),
        tokens_of(r) == tokens_of(open_paren) + tokens_of(relation) + tokens_of(close_paren),
        tree_wf(r) == (tree_wf(open_paren) && tree_wf(relation) && tree_wf(close_paren)),
        lossless(r) == (lossless(open_paren) && lossless(relation) && lossless(close_paren)),
{
    assert(tokens_of(ParseTree::ParenthesizedRelation(ParenthesizedRelation { open_paren: Box::new(open_paren), relation: Box::new(relation), close_paren: Box::new(close_paren) })) == tokens_of(open_paren) + tokens_of(relation) + tokens_of(close_paren)) by {
        reveal_with_fuel(tokens_of, 1);
    }
    assert(tree_wf(ParseTree::ParenthesizedRelation(ParenthesizedRelation { open_paren: Box::new(open_paren), relation: Box::new(relation), close_paren: Box::new(close_paren) })) == (tree_wf(open_paren) && tree_wf(relation) && tree_wf(close_paren))) by {
        reveal_with_fuel(tree_wf, 1);
    }
    assert(lossless(ParseTree::ParenthesizedRelation(ParenthesizedRelation { open_paren: Box::new(open_paren), relation: Box::new(relation), close_paren: Box::new(close_paren) })) == (lossless(open_paren) && lossless(relation) && lossless(close_paren))) by {
        reveal_with_fuel(lossless, 1);
    }
    ParseTree::ParenthesizedRelation(ParenthesizedRelation { open_paren: Box::new(open_paren), relation: Box::new(relation), close_paren: Box::new(close_paren) })
}

impl<'a> ParenthesizedRelation<'a> {
    pub fn to_tree(self) -> (r: ParseTree<'a>)
        ensures
            r == ParseTree::ParenthesizedRelation(self),
    {
        ParseTree::ParenthesizedRelation(self)
    }

    pub fn children(&self) -> (r: Vec<&ParseTree<'a>>)
        ensures
            deref_seq(r@) == children_of(ParseTree::ParenthesizedRelation(*self)),
    {
        let mut result: Vec<&ParseTree<'a>> = Vec::new();
        result.push(&*self.open_paren);
        result.push(&*self.relation);
        result.push(&*self.close_paren);
        assert(deref_seq(result@) =~= children_of(ParseTree::ParenthesizedRelation(*self)));
        result
    }

    pub fn unbox(self) -> (r: (ParseTree<'a>, ParseTree<'a>, ParseTree<'a>))
        ensures
            r == (*self.open_paren, *self.relation, *self.close_paren),
    {
        (*self.open_paren, *self.relation, *self.close_paren)
    }

    pub fn get_first_child(&self) -> (r: &ParseTree<'a>)
        ensures
            *r == *self.open_paren,
    {
        &self.open_paren
    }

    pub fn get_last_child(&self) -> (r: &ParseTree<'a>)
        ensures
            *r == *self.close_paren,
    {
        &self.close_paren
    }

    pub fn get_first_token(&self) -> (r: Option<&token::Token<'a>>)
        ensures
            deref_opt(r) == first_of(tokens_of(ParseTree::ParenthesizedRelation(*self))),
        decreases *self, 0nat,
    {
        assert(tokens_of(ParseTree::ParenthesizedRelation(*self)) == tokens_of(*self.open_paren) + tokens_of(*self.relation) + tokens_of(*self.close_paren)) by {
            reveal_with_fuel(tokens_of, 1);
        }
        if let Some(token) = self.open_paren.get_first_token() {
            return Some(token);
        }
        if let Some(token) = self.relation.get_first_token() {
            return Some(token);
        }
        if let Some(token) = self.close_paren.get_first_token() {
            return Some(token);
        }
        None
    }

    pub fn get_last_token(&self) -> (r: Option<&token::Token<'a>>)
        ensures
            deref_opt(r) == last_of(tokens_of(ParseTree::ParenthesizedRelation(*self))),
        decreases *self, 0nat,
    {
        assert(tokens_of(ParseTree::ParenthesizedRelation(*self)) == tokens_of(*self.open_paren) + tokens_of(*self.relation) + tokens_of(*self.close_paren)) by {
            reveal_with_fuel(tokens_of, 1);
        }
        if let Some(token) = self.close_paren.get_last_token() {
            return Some(token);
        }
        if let Some(token) = self.relation.get_last_token() {
            return Some(token);
        }
        if let Some(token) = self.open_paren.get_last_token() {
            return Some(token);
        }
        None
    }
}

#[derive(Debug)]
pub struct TableName<'a> {
    pub name: Box<ParseTree<'a>>,
}

pub fn table_name<'a>(
    name: ParseTree<'a>,
) -> (r: ParseTree<'a>)
    ensures
        r == ParseTree::TableName(TableName { name: Box::new(name) }),
        tokens_of(r) == tokens_of(name),
        tree_wf(r) == (tree_wf(name)),
        lossless(r) == (lossless(name)),
{
    assert(tokens_of(ParseTree::TableName(TableName { name: Box::new(name) })) == tokens_of(name)) by {
        reveal_with_fuel(tokens_of, 1);
    }
    assert(tree_wf(ParseTree::TableName(TableName { name: Box::new(name) })) == (tree_wf(name))) by {
        reveal_with_fuel(tree_wf, 1);
    }
    assert(lossless(ParseTree::TableName(TableName { name: Box::new(name) })) == (lossless(name))) by {
        reveal_with_fuel(lossless, 1);
    }
    ParseTree::TableName(TableName { name: Box::new(name) })
}

impl<'a> TableName<'a> {
    pub fn to_tree(self) -> (r: ParseTree<'a>)
        ensures
            r == ParseTree::TableName(self),
    {
        ParseTree::TableName(self)
    }

    pub fn children(&self) -> (r: Vec<&ParseTree<'a>>)
        ensures
            deref_seq(r@) == children_of(ParseTree::TableName(*self)),
    {
        let mut result: Vec<&ParseTree<'a>> = Vec::new();
        result.push(&*self.name);
        assert(deref_seq(result@) =~= children_of(ParseTree::TableName(*self)));
        result
    }

    pub fn unbox(self) -> (r: (ParseTree<'a>,))
        ensures
            r == (*self.name,),
    {
        (*self.name,)
    }

    pub fn get_first_child(&self) -> (r: &ParseTree<'a>)
        ensures
            *r == *self.name,
    {
        &self.name
    }

    pub fn get_last_child(&self) -> (r: &ParseTree<'a>)
        ensures
            *r == *self.name,
    {
        &self.name
    }

    pub fn get_first_token(&self) -> (r: Option<&token::Token<'a>>)
        ensures
            deref_opt(r) == first_of(tokens_of(ParseTree::TableName(*self))),
        decreases *self, 0nat,
    {
        assert(tokens_of(ParseTree::TableName(*self)) == tokens_of(*self.name)) by {
            reveal_with_fuel(tokens_of, 1);
        }
        if let Some(token) = self.name.get_first_token() {
            return Some(token);
        }
        None
    }

    pub fn get_last_token(&self) -> (r: Option<&token::Token<'a>>)
        ensures
            deref_opt(r) == last_of(tokens_of(ParseTree::TableName(*self))),
        decreases *self, 0nat,
    {
        assert(tokens_of(ParseTree::TableName(*self)) == tokens_of(*self.name)) by {
            reveal_with_fuel(tokens_of, 1);
        }
        if let Some(token) = self.name.get_last_token() {
            return Some(token);
        }
        None
    }
}

#[derive(Debug)]
pub struct Lateral<'a> {
    pub lateral: Box<ParseTree<'a>>,
    pub open_paren: Box<ParseTree<'a>>,
    pub query: Box<ParseTree<'a>>,
    pub close_paren: Box<ParseTree<'a>>,
}

pub fn lateral<'a>(
    lateral_tree: ParseTree<'a>,
    open_paren: ParseTree<'a>,
    query: ParseTree<'a>,
    close_paren: ParseTree<'a>,
) -> (r: ParseTree<'a>)
    ensures
        r == ParseTree::Lateral(Lateral { lateral: Box::new(lateral_tree), open_paren: Box::new(open_paren), query: Box::new(query), close_paren: Box::new(close_paren) }),
        tokens_of(r) == tokens_of(lateral_tree) + tokens_of(open_paren) + tokens_of(query) + tokens_of(close_paren),
        tree_wf(r) == (tree_wf(lateral_tree) && tree_wf(open_paren) && tree_wf(query) && tree_wf(close_paren)),
        lossless(r) == (lossless(lateral_tree) && lossless(open_paren) && lossless(query) && lossless(close_paren)),
{
    assert(tokens_of(ParseTree::Lateral(Lateral { lateral: Box::new(lateral_tree), open_paren: Box::new(open_paren), query: Box::new(query), close_paren: Box::new(close_paren) })) == tokens_of(lateral_tree) + tokens_of(open_paren) + tokens_of(query) + tokens_of(close_paren)) by {
        reveal_with_fuel(tokens_of, 1);
    }
    assert(tree_wf(ParseTree::Lateral(Lateral { lateral: Box::new(lateral_tree), open_paren: Box::new(open_paren), query: Box::new(query), close_paren: Box::new(close_paren) })) == (tree_wf(lateral_tree) && tree_wf(open_paren) && tree_wf(query) && tree_wf(close_paren))) by {
        reveal_with_fuel(tree_wf, 1);
    }
    assert(lossless(ParseTree::Lateral(Lateral { lateral: Box::new(lateral_tree), open_paren: Box::new(open_paren), query: Box::new(query), close_paren: Box::new(close_paren) })) == (lossless(lateral_tree) && lossless(open_paren) && lossless(query) && lossless(close_paren))) by {
        reveal_with_fuel(lossless, 1);
    }
    ParseTree::Lateral(Lateral { lateral: Box::new(lateral_tree), open_paren: Box::new(open_paren), query: Box::new(query), close_paren: Box::new(close_paren) })
}

impl<'a> Lateral<'a> {
    pub fn to_tree(self) -> (r: ParseTree<'a>)
        ensures
            r == ParseTree::Lateral(self),
    {
        ParseTree::Lateral(self)
    }

    pub fn children(&self) -> (r: Vec<&ParseTree<'a>>)
        ensures
            deref_seq(r@) == children_of(ParseTree::Lateral(*self)),
    {
        let mut result: Vec<&ParseTree<'a>> = Vec::new();
        result.push(&*self.lateral);
        result.push(&*self.open_paren);
        result.push(&*self.query);
        result.push(&*self.close_paren);
        assert(deref_seq(result@) =~= children_of(ParseTree::Lateral(*self)));
        result
    }

    pub fn unbox(self) -> (r: (ParseTree<'a>, ParseTree<'a>, ParseTree<'a>, ParseTree<'a>))
        ensures
            r == (*self.lateral, *self.open_paren, *self.query, *self.close_paren),
    {
        (*self.lateral, *self.open_paren, *self.query, *self.close_paren)
    }

    pub fn get_first_child(&self) -> (r: &ParseTree<'a>)
        ensures
            *r == *self.lateral,
    {
        &self.lateral
    }

    pub fn get_last_child(&self) -> (r: &ParseTree<'a>)
        ensures
            *r == *self.close_paren,
    {
        &self.close_paren
    }

    pub fn get_first_token(&self) -> (r: Option<&token::Token<'a>>)
        ensures
            deref_opt(r) == first_of(tokens_of(ParseTree::Lateral(*self))),
        decreases *self, 0nat,
    {
        assert(tokens_of(ParseTree::Lateral(*self)) == tokens_of(*self.lateral) + tokens_of(*self.open_paren) + tokens_of(*self.query) + tokens_of(*self.close_paren)) by {
            reveal_with_fuel(tokens_of, 1);
        }
        if let Some(token) = self.lateral.get_first_token() {
            return Some(token);
        }
        if let Some(token) = self.open_paren.get_first_token() {
            return Some(token);
        }
        if let Some(token) = self.query.get_first_token() {
            return Some(token);
        }
        if let Some(token) = self.close_paren.get_first_token() {
            return Some(token);
        }
        None
    }

    pub fn get_last_token(&self) -> (r: Option<&token::Token<'a>>)
        ensures
            deref_opt(r) == last_of(tokens_of(ParseTree::Lateral(*self))),
        decreases *self, 0nat,
    {
        assert(tokens_of(ParseTree::Lateral(*self)) == tokens_of(*self.lateral) + tokens_of(*self.open_paren) + tokens_of(*self.query) + tokens_of(*self.close_paren)) by {
            reveal_with_fuel(tokens_of, 1);
        }
        if let Some(token) = self.close_paren.get_last_token() {
            return Some(token);
        }
        if let Some(token) = self.query.get_last_token() {
            return Some(token);
        }
        if let Some(token) = self.open_paren.get_last_token() {
            return Some(token);
        }
        if let Some(token) = self.lateral.get_last_token() {
            return Some(token);
        }
        None
    }
}

#[derive(Debug)]
pub struct Unnest<'a> {
    pub unnest: Box<ParseTree<'a>>,
    pub expressions: Box<ParseTree<'a>>,
    pub with: Box<ParseTree<'a>>,
    pub ordinality: Box<ParseTree<'a>>,
}

pub fn unnest<'a>(
    unnest_tree: ParseTree<'a>,
    expressions: ParseTree<'a>,
    with: ParseTree<'a>,
    ordinality: ParseTree<'a>,
) -> (r: ParseTree<'a>)
    ensures
        r == ParseTree::Unnest(Unnest { unnest: Box::new(unnest_tree), expressions: Box::new(expressions), with: Box::new(with), ordinality: Box::new(ordinality) }),
        tokens_of(r) == tokens_of(unnest_tree) + tokens_of(expressions) + tokens_of(with) + tokens_of(ordinality),
        tree_wf(r) == (tree_wf(unnest_tree) && tree_wf(expressions) && tree_wf(with) && tree_wf(ordinality)),
        lossless(r) == (lossless(unnest_tree) && lossless(expressions) && lossless(with) && lossless(ordinality)),
{
    assert(tokens_of(ParseTree::Unnest(Unnest { unnest: Box::new(unnest_tree), expressions: Box::new(expressions), with: Box::new(with), ordinality: Box::new(ordinality) })) == tokens_of(unnest_tree) + tokens_of(expressions) + tokens_of(with) + tokens_of(ordinality)) by {
        reveal_with_fuel(tokens_of, 1);
    }
    assert(tree_wf(ParseTree::Unnest(Unnest { unnest: Box::new(unnest_tree), expressions: Box::new(expressions), with: Box::new(with), ordinality: Box::new(ordinality) })) == (tree_wf(unnest_tree) && tree_wf(expressions) && tree_wf(with) && tree_wf(ordinality))) by {
        reveal_with_fuel(tree_wf, 1);
    }
    assert(lossless(ParseTree::Unnest(Unnest { unnest: Box::new(unnest_tree), expressions: Box::new(expressions), with: Box::new(with), ordinality: Box::new(ordinality) })) == (lossless(unnest_tree) && lossless(expressions) && lossless(with) && lossless(ordinality))) by {
        reveal_with_fuel(lossless, 1);
    }
    ParseTree::Unnest(Unnest { unnest: Box::new(unnest_tree), expressions: Box::new(expressions), with: Box::new(with), ordinality: Box::new(ordinality) })
}

impl<'a> Unnest<'a> {
    pub fn to_tree(self) -> (r: ParseTree<'a>)
        ensures
            r == ParseTree::Unnest(self),
    {
        ParseTree::Unnest(self)
    }

    pub fn children(&self) -> (r: Vec<&ParseTree<'a>>)
        ensures
            deref_seq(r@) == children_of(ParseTree::Unnest(*self)),
    {
        let mut result: Vec<&ParseTree<'a>> = Vec::new();
        result.push(&*self.unnest);
        result.push(&*self.expressions);
        result.push(&*self.with);
        result.push(&*self.ordinality);
        assert(deref_seq(result@) =~= children_of(ParseTree::Unnest(*self)));
        result
    }

    pub fn unbox(self) -> (r: (ParseTree<'a>, ParseTree<'a>, ParseTree<'a>, ParseTree<'a>))
        ensures
            r == (*self.unnest, *self.expressions, *self.with, *self.ordinality),
    {
        (*self.unnest, *self.expressions, *self.with, *self.ordinality)
    }

    pub fn get_first_child(&self) -> (r: &ParseTree<'a>)
        ensures
            *r == *self.unnest,
    {
        &self.unnest
    }

    pub fn get_last_child(&self) -> (r: &ParseTree<'a>)
        ensures
            *r == *self.ordinality,
    {
        &self.ordinality
    }

    pub fn get_first_token(&self) -> (r: Option<&token::Token<'a>>)
        ensures
            deref_opt(r) == first_of(tokens_of(ParseTree::Unnest(*self))),
        decreases *self, 0nat,
    {
        assert(tokens_of(ParseTree::Unnest(*self)) == tokens_of(*self.unnest) + tokens_of(*self.expressions) + tokens_of(*self.with) + tokens_of(*self.ordinality)) by {
            reveal_with_fuel(tokens_of, 1);
        }
        if let Some(token) = self.unnest.get_first_token() {
            return Some(token);
        }
        if let Some(token) = self.expressions.get_first_token() {
            return Some(token);
        }
        if let Some(token) = self.with.get_first_token() {
            return Some(token);
        }
        if let Some(token) = self.ordinality.get_first_token() {
            return Some(token);
        }
        None
    }

    pub fn get_last_token(&self) -> (r: Option<&token::Token<'a>>)
        ensures
            deref_opt(r) == last_of(tokens_of(ParseTree::Unnest(*self))),
        decreases *self, 0nat,
    {
        assert(tokens_of(ParseTree::Unnest(*self)) == tokens_of(*self.unnest) + tokens_of(*self.expressions) + tokens_of(*self.with) + tokens_of(*self.ordinality)) by {
            reveal_with_fuel(tokens_of, 1);
        }
        if let Some(token) = self.ordinality.get_last_token() {
            return Some(token);
        }
        if let Some(token) = self.with.get_last_token() {
            return Some(token);
        }
        if let Some(token) = self.expressions.get_last_token() {
            return Some(token);
        }
        if let Some(token) = self.unnest.get_last_token() {
            return Some(token);
        }
        None
    }
}

#[derive(Debug)]
pub struct SampledRelation<'a> {
    pub aliased_relation: Box<ParseTree<'a>>,
    pub tablesample: Box<ParseTree<'a>>,
    pub sample_type: Box<ParseTree<'a>>,
    pub open_paren: Box<ParseTree<'a>>,
    pub expression: Box<ParseTree<'a>>,
    pub close_paren: Box<ParseTree<'a>>,
}

pub fn sampled_relation<'a>(
    aliased_relation: ParseTree<'a>,
    tablesample: ParseTree<'a>,
    sample_type: ParseTree<'a>,
    open_paren: ParseTree<'a>,
    expression: ParseTree<'a>,
    close_paren: ParseTree<'a>,
) -> (r: ParseTree<'a>)
    ensures
        r == ParseTree::SampledRelation(SampledRelation { aliased_relation: Box::new(aliased_relation), tablesample: Box::new(tablesample), sample_type: Box::new(sample_type), open_paren: Box::new(open_paren), expression: Box::new(expression), close_paren: Box::new(close_paren) }),
        tokens_of(r) == tokens_of(aliased_relation) + tokens_of(tablesample) + tokens_of(sample_type) + tokens_of(open_paren) + tokens_of(expression) + tokens_of(close_paren),
        tree_wf(r) == (tree_wf(aliased_relation) && tree_wf(tablesample) && tree_wf(sample_type) && tree_wf(open_paren) && tree_wf(expression) && tree_wf(close_paren)),
        lossless(r) == (lossless(aliased_relation) && lossless(tablesample) && lossless(sample_type) && lossless(open_paren) && lossless(expression) && lossless(close_paren)),
{
    assert(tokens_of(ParseTree::SampledRelation(SampledRelation { aliased_relation: Box::new(aliased_relation), tablesample: Box::new(tablesample), sample_type: Box::new(sample_type), open_paren: Box::new(open_paren), expression: Box::new(expression), close_paren: Box::new(close_paren) })) == tokens_of(aliased_relation) + tokens_of(tablesample) + tokens_of(sample_type) + tokens_of(open_paren) + tokens_of(expression) + tokens_of(close_paren)) by {
        reveal_with_fuel(tokens_of, 1);
    }
    assert(tree_wf(ParseTree::SampledRelation(SampledRelation { aliased_relation: Box::new(aliased_relation), tablesample: Box::new(tablesample), sample_type: Box::new(sample_type), open_paren: Box::new(open_paren), expression: Box::new(expression), close_paren: Box::new(close_paren) })) == (tree_wf(aliased_relation) && tree_wf(tablesample) && tree_wf(sample_type) && tree_wf(open_paren) && tree_wf(expression) && tree_wf(close_paren))) by {
        reveal_with_fuel(tree_wf, 1);
    }
    assert(lossless(ParseTree::SampledRelation(SampledRelation { aliased_relation: Box::new(aliased_relation), tablesample: Box::new(tablesample), sample_type: Box::new(sample_type), open_paren: Box::new(open_paren), expression: Box::new(expression), close_paren: Box::new(close_paren) })) == (lossless(aliased_relation) && lossless(tablesample) && lossless(sample_type) && lossless(open_paren) && lossless(expression) && lossless(close_paren))) by {
        reveal_with_fuel(lossless, 1);
    }
    ParseTree::SampledRelation(SampledRelation { aliased_relation: Box::new(aliased_relation), tablesample: Box::new(tablesample), sample_type: Box::new(sample_type), open_paren: Box::new(open_paren), expression: Box::new(expression), close_paren: Box::new(close_paren) })
}

impl<'a> SampledRelation<'a> {
    pub fn to_tree(self) -> (r: ParseTree<'a>)
        ensures
            r == ParseTree::SampledRelation(self),
    {
        ParseTree::SampledRelation(self)
    }

    pub fn children(&self) -> (r: Vec<&ParseTree<'a>>)
        ensures
            deref_seq(r@) == children_of(ParseTree::SampledRelation(*self)),
    {
        let mut result: Vec<&ParseTree<'a>> = Vec::new();
        result.push(&*self.aliased_relation);
        result.push(&*self.tablesample);
        result.push(&*self.sample_type);
        result.push(&*self.open_paren);
        result.push(&*self.expression);
        result.push(&*self.close_paren);
        assert(deref_seq(result@) =~= children_of(ParseTree::SampledRelation(*self)));
        result
    }

    pub fn unbox(self) -> (r: (ParseTree<'a>, ParseTree<'a>, ParseTree<'a>, ParseTree<'a>, ParseTree<'a>, ParseTree<'a>))
        ensures
            r == (*self.aliased_relation, *self.tablesample, *self.sample_type, *self.open_paren, *self.expression, *self.close_paren),
    {
        (*self.aliased_relation, *self.tablesample, *self.sample_type, *self.open_paren, *self.expression, *self.close_paren)
    }

    pub fn get_first_child(&self) -> (r: &ParseTree<'a>)
        ensures
            *r == *self.aliased_relation,
    {
        &self.aliased_relation
    }

    pub fn get_last_child(&self) -> (r: &ParseTree<'a>)
        ensures
            *r == *self.close_paren,
    {
        &self.close_paren
    }

    pub fn get_first_token(&self) -> (r: Option<&token::Token<'a>>)
        ensures
            deref_opt(r) == first_of(tokens_of(ParseTree::SampledRelation(*self))),
        decreases *self, 0nat,
    {
        assert(tokens_of(ParseTree::SampledRelation(*self)) == tokens_of(*self.aliased_relation) + tokens_of(*self.tablesample) + tokens_of(*self.sample_type) + tokens_of(*self.open_paren) + tokens_of(*self.expression) + tokens_of(*self.close_paren)) by {
            reveal_with_fuel(tokens_of, 1);
        }
        if let Some(token) = self.aliased_relation.get_first_token() {
            return Some(token);
        }
        if let Some(token) = self.tablesample.get_first_token() {
            return Some(token);
        }
        if let Some(token) = self.sample_type.get_first_token() {
            return Some(token);
        }
        if let Some(token) = self.open_paren.get_first_token() {
            return Some(token);
        }
        if let Some(token) = self.expression.get_first_token() {
            return Some(token);
        }
        if let Some(token) = self.close_paren.get_first_token() {
            return Some(token);
        }
        None
    }

    pub fn get_last_token(&self) -> (r: Option<&token::Token<'a>>)
        ensures
            deref_opt(r) == last_of(tokens_of(ParseTree::SampledRelation(*self))),
        decreases *self, 0nat,
    {
        assert(tokens_of(ParseTree::SampledRelation(*self)) == tokens_of(*self.aliased_relation) + tokens_of(*self.tablesample) + tokens_of(*self.sample_type) + tokens_of(*self.open_paren) + tokens_of(*self.expression) + tokens_of(*self.close_paren)) by {
            reveal_with_fuel(tokens_of, 1);
        }
        if let Some(token) = self.close_paren.get_last_token() {
            return Some(token);
        }
        if let Some(token) = self.expression.get_last_token() {
            return Some(token);
        }
        if let Some(token) = self.open_paren.get_last_token() {
            return Some(token);
        }
        if let Some(token) = self.sample_type.get_last_token() {
            return Some(token);
        }
        if let Some(token) = self.tablesample.get_last_token() {
            return Some(token);
        }
        if let Some(token) = self.aliased_relation.get_last_token() {
            return Some(token);
        }
        None
    }
}

#[derive(Debug)]
pub struct AliasedRelation<'a> {
    pub relation_primary: Box<ParseTree<'a>>,
    pub as_opt: Box<ParseTree<'a>>,
    pub identifier: Box<ParseTree<'a>>,
    pub column_aliases_opt: Box<ParseTree<'a>>,
}

pub fn aliased_relation<'a>(
    relation_primary: ParseTree<'a>,
    as_opt: ParseTree<'a>,
    identifier: ParseTree<'a>,
    column_aliases_opt: ParseTree<'a>,
) -> (r: ParseTree<'a>)
    ensures
        r == ParseTree::AliasedRelation(AliasedRelation { relation_primary: Box::new(relation_primary), as_opt: Box::new(as_opt), identifier: Box::new(identifier), column_aliases_opt: Box::new(column_aliases_opt) }),
        tokens_of(r) == tokens_of(relation_primary) + tokens_of(as_opt) + tokens_of(identifier) + tokens_of(column_aliases_opt),
        tree_wf(r) == (tree_wf(relation_primary) && tree_wf(as_opt) && tree_wf(identifier) && tree_wf(column_aliases_opt)),
        lossless(r) == (lossless(relation_primary) && lossless(as_opt) && lossless(identifier) && lossless(column_aliases_opt)),
{
    assert(tokens_of(ParseTree::AliasedRelation(AliasedRelation { relation_primary: Box::new(relation_primary), as_opt: Box::new(as_opt), identifier: Box::new(identifier), column_aliases_opt: Box::new(column_aliases_opt) })) == tokens_of(relation_primary) + tokens_of(as_opt) + tokens_of(identifier) + tokens_of(column_aliases_opt)) by {
        reveal_with_fuel(tokens_of, 1);
    }
    assert(tree_wf(ParseTree::AliasedRelation(AliasedRelation { relation_primary: Box::new(relation_primary), as_opt: Box::new(as_opt), identifier: Box::new(identifier), column_aliases_opt: Box::new(column_aliases_opt) })) == (tree_wf(relation_primary) && tree_wf(as_opt) && tree_wf(identifier) && tree_wf(column_aliases_opt))) by {
        reveal_with_fuel(tree_wf, 1);
    }
    assert(lossless(ParseTree::AliasedRelation(AliasedRelation { relation_primary: Box::new(relation_primary), as_opt: Box::new(as_opt), identifier: Box::new(identifier), column_aliases_opt: Box::new(column_aliases_opt) })) == (lossless(relation_primary) && lossless(as_opt) && lossless(identifier) && lossless(column_aliases_opt))) by {
        reveal_with_fuel(lossless, 1);
    }
    ParseTree::AliasedRelation(AliasedRelation { relation_primary: Box::new(relation_primary), as_opt: Box::new(as_opt), identifier: Box::new(identifier), column_aliases_opt: Box::new(column_aliases_opt) })
}

impl<'a> AliasedRelation<'a> {
    pub fn to_tree(self) -> (r: ParseTree<'a>)
        ensures
            r == ParseTree::AliasedRelation(self),
    {
        ParseTree::AliasedRelation(self)
    }

    pub fn children(&self) -> (r: Vec<&ParseTree<'a>>)
        ensures
            deref_seq(r@) == children_of(ParseTree::AliasedRelation(*self)),
    {
        let mut result: Vec<&ParseTree<'a>> = Vec::new();
        result.push(&*self.relation_primary);
        result.push(&*self.as_opt);
        result.push(&*self.identifier);
        result.push(&*self.column_aliases_opt);
        assert(deref_seq(result@) =~= children_of(ParseTree::AliasedRelation(*self)));
        result
    }

    pub fn unbox(self) -> (r: (ParseTree<'a>, ParseTree<'a>, ParseTree<'a>, ParseTree<'a>))
        ensures
            r == (*self.relation_primary, *self.as_opt, *self.identifier, *self.column_aliases_opt),
    {
        (*self.relation_primary, *self.as_opt, *self.identifier, *self.column_aliases_opt)
    }

    pub fn get_first_child(&self) -> (r: &ParseTree<'a>)
        ensures
            *r == *self.relation_primary,
    {
        &self.relation_primary
    }

    pub fn get_last_child(&self) -> (r: &ParseTree<'a>)
        ensures
            *r == *self.column_aliases_opt,
    {
        &self.column_aliases_opt
    }

    pub fn get_first_token(&self) -> (r: Option<&token::Token<'a>>)
        ensures
            deref_opt(r) == first_of(tokens_of(ParseTree::AliasedRelation(*self))),
        decreases *self, 0nat,
    {
        assert(tokens_of(ParseTree::AliasedRelation(*self)) == tokens_of(*self.relation_primary) + tokens_of(*self.as_opt) + tokens_of(*self.identifier) + tokens_of(*self.column_aliases_opt)) by {
            reveal_with_fuel(tokens_of, 1);
        }
        if let Some(token) = self.relation_primary.get_first_token() {
            return Some(token);
        }
        if let Some(token) = self.as_opt.get_first_token() {
            return Some(token);
        }
        if let Some(token) = self.identifier.get_first_token() {
            return Some(token);
        }
        if let Some(token) = self.column_aliases_opt.get_first_token() {
            return Some(token);
        }
        None
    }

    pub fn get_last_token(&self) -> (r: Option<&token::Token<'a>>)
        ensures
            deref_opt(r) == last_of(tokens_of(ParseTree::AliasedRelation(*self))),
        decreases *self, 0nat,
    {
        assert(tokens_of(ParseTree::AliasedRelation(*self)) == tokens_of(*self.relation_primary) + tokens_of(*self.as_opt) + tokens_of(*self.identifier) + tokens_of(*self.column_aliases_opt)) by {
            reveal_with_fuel(tokens_of, 1);
        }
        if let Some(token) = self.column_aliases_opt.get_last_token() {
            return Some(token);
        }
        if let Some(token) = self.identifier.get_last_token() {
            return Some(token);
        }
        if let Some(token) = self.as_opt.get_last_token() {
            return Some(token);
        }
        if let Some(token) = self.relation_primary.get_last_token() {
            return Some(token);
        }
        None
    }
}

#[derive(Debug)]
pub struct CrossJoin<'a> {
    pub left: Box<ParseTree<'a>>,
    pub cross: Box<ParseTree<'a>>,
    pub join: Box<ParseTree<'a>>,
    pub right: Box<ParseTree<'a>>,
}

pub fn cross_join<'a>(
    left: ParseTree<'a>,
    cross: ParseTree<'a>,
    join: ParseTree<'a>,
    right: ParseTree<'a>,
) -> (r: ParseTree<'a>)
    ensures
        r == ParseTree::CrossJoin(CrossJoin { left: Box::new(left), cross: Box::new(cross), join: Box::new(join), right: Box::new(right) }),
        tokens_of(r) == tokens_of(left) + tokens_of(cross) + tokens_of(join) + tokens_of(right),
        tree_wf(r) == (tree_wf(left) && tree_wf(cross) && tree_wf(join) && tree_wf(right)),
        lossless(r) == (lossless(left) && lossless(cross) && lossless(join) && lossless(right)),
{
    assert(tokens_of(ParseTree::CrossJoin(CrossJoin { left: Box::new(left), cross: Box::new(cross), join: Box::new(join), right: Box::new(right) })) == tokens_of(left) + tokens_of(cross) + tokens_of(join) + tokens_of(right)) by {
        reveal_with_fuel(tokens_of, 1);
    }
    assert(tree_wf(ParseTree::CrossJoin(CrossJoin { left: Box::new(left), cross: Box::new(cross), join: Box::new(join), right: Box::new(right) })) == (tree_wf(left) && tree_wf(cross) && tree_wf(join) && tree_wf(right))) by {
        reveal_with_fuel(tree_wf, 1);
    }
    assert(lossless(ParseTree::CrossJoin(CrossJoin { left: Box::new(left), cross: Box::new(cross), join: Box::new(join), right: Box::new(right) })) == (lossless(left) && lossless(cross) && lossless(join) && lossless(right))) by {
        reveal_with_fuel(lossless, 1);
    }
    ParseTree::CrossJoin(CrossJoin { left: Box::new(left), cross: Box::new(cross), join: Box::new(join), right: Box::new(right) })
}

impl<'a> CrossJoin<'a> {
    pub fn to_tree(self) -> (r: ParseTree<'a>)
        ensures
            r == ParseTree::CrossJoin(self),
    {
        ParseTree::CrossJoin(self)
    }

    pub fn children(&self) -> (r: Vec<&ParseTree<'a>>)
        ensures
            deref_seq(r@) == children_of(ParseTree::CrossJoin(*self)),
    {
        let mut result: Vec<&ParseTree<'a>> = Vec::new();
        result.push(&*self.left);
        result.push(&*self.cross);
        result.push(&*self.join);
        result.push(&*self.right);
        assert(deref_seq(result@) =~= children_of(ParseTree::CrossJoin(*self)));
        result
    }

    pub fn unbox(self) -> (r: (ParseTree<'a>, ParseTree<'a>, ParseTree<'a>, ParseTree<'a>))
        ensures
            r == (*self.left, *self.cross, *self.join, *self.right),
    {
        (*self.left, *self.cross, *self.join, *self.right)
    }

    pub fn get_first_child(&self) -> (r: &ParseTree<'a>)
        ensures
            *r == *self.left,
    {
        &self.left
    }

    pub fn get_last_child(&self) -> (r: &ParseTree<'a>)
        ensures
            *r == *self.right,
    {
        &self.right
    }

    pub fn get_first_token(&self) -> (r: Option<&token::Token<'a>>)
        ensures
            deref_opt(r) == first_of(tokens_of(ParseTree::CrossJoin(*self))),
        decreases *self, 0nat,
    {
        assert(tokens_of(ParseTree::CrossJoin(*self)) == tokens_of(*self.left) + tokens_of(*self.cross) + tokens_of(*self.join) + tokens_of(*self.right)) by {
            reveal_with_fuel(tokens_of, 1);
        }
        if let Some(token) = self.left.get_first_token() {
            return Some(token);
        }
        if let Some(token) = self.cross.get_first_token() {
            return Some(token);
        }
        if let Some(token) = self.join.get_first_token() {
            return Some(token);
        }
        if let Some(token) = self.right.get_first_token() {
            return Some(token);
        }
        None
    }

    pub fn get_last_token(&self) -> (r: Option<&token::Token<'a>>)
        ensures
            deref_opt(r) == last_of(tokens_of(ParseTree::CrossJoin(*self))),
        decreases *self, 0nat,
    {
        assert(tokens_of(ParseTree::CrossJoin(*self)) == tokens_of(*self.left) + tokens_of(*self.cross) + tokens_of(*self.join) + tokens_of(*self.right)) by {
            reveal_with_fuel(tokens_of, 1);
        }
        if let Some(token) = self.right.get_last_token() {
            return Some(token);
        }
        if let Some(token) = self.join.get_last_token() {
            return Some(token);
        }
        if let Some(token) = self.cross.get_last_token() {
            return Some(token);
        }
        if let Some(token) = self.left.get_last_token() {
            return Some(token);
        }
        None
    }
}

#[derive(Debug)]
pub struct Join<'a> {
    pub left: Box<ParseTree<'a>>,
    pub join_type: Box<ParseTree<'a>>,
    pub join: Box<ParseTree<'a>>,
    pub right: Box<ParseTree<'a>>,
    pub join_criteria: Box<ParseTree<'a>>,
}

pub fn join<'a>(
    left: ParseTree<'a>,
    join_type: ParseTree<'a>,
    join_tree: ParseTree<'a>,
    right: ParseTree<'a>,
    join_criteria: ParseTree<'a>,
) -> (r: ParseTree<'a>)
    ensures
        r == ParseTree::Join(Join { left: Box::new(left), join_type: Box::new(join_type), join: Box::new(join_tree), right: Box::new(right), join_criteria: Box::new(join_criteria) }),
        tokens_of(r) == tokens_of(left) + tokens_of(join_type) + tokens_of(join_tree) + tokens_of(right) + tokens_of(join_criteria),
        tree_wf(r) == (tree_wf(left) && tree_wf(join_type) && tree_wf(join_tree) && tree_wf(right) && tree_wf(join_criteria)),
        lossless(r) == (lossless(left) && lossless(join_type) && lossless(join_tree) && lossless(right) && lossless(join_criteria)),
{
    assert(tokens_of(ParseTree::Join(Join { left: Box::new(left), join_type: Box::new(join_type), join: Box::new(join_tree), right: Box::new(right), join_criteria: Box::new(join_criteria) })) == tokens_of(left) + tokens_of(join_type) + tokens_of(join_tree) + tokens_of(right) + tokens_of(join_criteria)) by {
        reveal_with_fuel(tokens_of, 1);
    }
    assert(tree_wf(ParseTree::Join(Join { left: Box::new(left), join_type: Box::new(join_type), join: Box::new(join_tree), right: Box::new(right), join_criteria: Box::new(join_criteria) })) == (tree_wf(left) && tree_wf(join_type) && tree_wf(join_tree) && tree_wf(right) && tree_wf(join_criteria))) by {
        reveal_with_fuel(tree_wf, 1);
    }
    assert(lossless(ParseTree::Join(Join { left: Box::new(left), join_type: Box::new(join_type), join: Box::new(join_tree), right: Box::new(right), join_criteria: Box::new(join_criteria) })) == (lossless(left) && lossless(join_type) && lossless(join_tree) && lossless(right) && lossless(join_criteria))) by {
        reveal_with_fuel(lossless, 1);
    }
    ParseTree::Join(Join { left: Box::new(left), join_type: Box::new(join_type), join: Box::new(join_tree), right: Box::new(right), join_criteria: Box::new(join_criteria) })
}

impl<'a> Join<'a> {
    pub fn to_tree(self) -> (r: ParseTree<'a>)
        ensures
            r == ParseTree::Join(self),
    {
        ParseTree::Join(self)
    }

    pub fn children(&self) -> (r: Vec<&ParseTree<'a>>)
        ensures
            deref_seq(r@) == children_of(ParseTree::Join(*self)),
    {
        let mut result: Vec<&ParseTree<'a>> = Vec::new();
        result.push(&*self.left);
        result.push(&*self.join_type);
        result.push(&*self.join);
        result.push(&*self.right);
        result.push(&*self.join_criteria);
        assert(deref_seq(result@) =~= children_of(ParseTree::Join(*self)));
        result
    }

    pub fn unbox(self) -> (r: (ParseTree<'a>, ParseTree<'a>, ParseTree<'a>, ParseTree<'a>, ParseTree<'a>))
        ensures
            r == (*self.left, *self.join_type, *self.join, *self.right, *self.join_criteria),
    {
        (*self.left, *self.join_type, *self.join, *self.right, *self.join_criteria)
    }

    pub fn get_first_child(&self) -> (r: &ParseTree<'a>)
        ensures
            *r == *self.left,
    {
        &self.left
    }

    pub fn get_last_child(&self) -> (r: &ParseTree<'a>)
        ensures
            *r == *self.join_criteria,
    {
        &self.join_criteria
    }

    pub fn get_first_token(&self) -> (r: Option<&token::Token<'a>>)
        ensures
            deref_opt(r) == first_of(tokens_of(ParseTree::Join(*self))),
        decreases *self, 0nat,
    {
        assert(tokens_of(ParseTree::Join(*self)) == tokens_of(*self.left) + tokens_of(*self.join_type) + tokens_of(*self.join) + tokens_of(*self.right) + tokens_of(*self.join_criteria)) by {
            reveal_with_fuel(tokens_of, 1);
        }
        if let Some(token) = self.left.get_first_token() {
            return Some(token);
        }
        if let Some(token) = self.join_type.get_first_token() {
            return Some(token);
        }
        if let Some(token) = self.join.get_first_token() {
            return Some(token);
        }
        if let Some(token) = self.right.get_first_token() {
            return Some(token);
        }
        if let Some(token) = self.join_criteria.get_first_token() {
            return Some(token);
        }
        None
    }

    pub fn get_last_token(&self) -> (r: Option<&token::Token<'a>>)
        ensures
            deref_opt(r) == last_of(tokens_of(ParseTree::Join(*self))),
        decreases *self, 0nat,
    {
        assert(tokens_of(ParseTree::Join(*self)) == tokens_of(*self.left) + tokens_of(*self.join_type) + tokens_of(*self.join) + tokens_of(*self.right) + tokens_of(*self.join_criteria)) by {
            reveal_with_fuel(tokens_of, 1);
        }
        if let Some(token) = self.join_criteria.get_last_token() {
            return Some(token);
        }
        if let Some(token) = self.right.get_last_token() {
            return Some(token);
        }
        if let Some(token) = self.join.get_last_token() {
            return Some(token);
        }
        if let Some(token) = self.join_type.get_last_token() {
            return Some(token);
        }
        if let Some(token) = self.left.get_last_token() {
            return Some(token);
        }
        None
    }
}

#[derive(Debug)]
pub struct NaturalJoin<'a> {
    pub left: Box<ParseTree<'a>>,
    pub natural: Box<ParseTree<'a>>,
    pub join_type: Box<ParseTree<'a>>,
    pub join: Box<ParseTree<'a>>,
    pub right: Box<ParseTree<'a>>,
}

pub fn natural_join<'a>(
    left: ParseTree<'a>,
    natural: ParseTree<'a>,
    join_type: ParseTree<'a>,
    join: ParseTree<'a>,
    right: ParseTree<'a>,
) -> (r: ParseTree<'a>)
    ensures
        r == ParseTree::NaturalJoin(NaturalJoin { left: Box::new(left), natural: Box::new(natural), join_type: Box::new(join_type), join: Box::new(join), right: Box::new(right) }),
        tokens_of(r) == tokens_of(left) + tokens_of(natural) + tokens_of(join_type) + tokens_of(join) + tokens_of(right),
        tree_wf(r) == (tree_wf(left) && tree_wf(natural) && tree_wf(join_type) && tree_wf(join) && tree_wf(right)),
        lossless(r) == (lossless(left) && lossless(natural) && lossless(join_type) && lossless(join) && lossless(right)),
{
    assert(tokens_of(ParseTree::NaturalJoin(NaturalJoin { left: Box::new(left), natural: Box::new(natural), join_type: Box::new(join_type), join: Box::new(join), right: Box::new(right) })) == tokens_of(left) + tokens_of(natural) + tokens_of(join_type) + tokens_of(join) + tokens_of(right)) by {
        reveal_with_fuel(tokens_of, 1);
    }
    assert(tree_wf(ParseTree::NaturalJoin(NaturalJoin { left: Box::new(left), natural: Box::new(natural), join_type: Box::new(join_type), join: Box::new(join), right: Box::new(right) })) == (tree_wf(left) && tree_wf(natural) && tree_wf(join_type) && tree_wf(join) && tree_wf(right))) by {
        reveal_with_fuel(tree_wf, 1);
    }
    assert(lossless(ParseTree::NaturalJoin(NaturalJoin { left: Box::new(left), natural: Box::new(natural), join_type: Box::new(join_type), join: Box::new(join), right: Box::new(right) })) == (lossless(left) && lossless(natural) && lossless(join_type) && lossless(join) && lossless(right))) by {
        reveal_with_fuel(lossless, 1);
    }
    ParseTree::NaturalJoin(NaturalJoin { left: Box::new(left), natural: Box::new(natural), join_type: Box::new(join_type), join: Box::new(join), right: Box::new(right) })
}

impl<'a> NaturalJoin<'a> {
    pub fn to_tree(self) -> (r: ParseTree<'a>)
        ensures
            r == ParseTree::NaturalJoin(self),
    {
        ParseTree::NaturalJoin(self)
    }

    pub fn children(&self) -> (r: Vec<&ParseTree<'a>>)
        ensures
            deref_seq(r@) == children_of(ParseTree::NaturalJoin(*self)),
    {
        let mut result: Vec<&ParseTree<'a>> = Vec::new();
        result.push(&*self.left);
        result.push(&*self.natural);
        result.push(&*self.join_type);
        result.push(&*self.join);
        result.push(&*self.right);
        assert(deref_seq(result@) =~= children_of(ParseTree::NaturalJoin(*self)));
        result
    }

    pub fn unbox(self) -> (r: (ParseTree<'a>, ParseTree<'a>, ParseTree<'a>, ParseTree<'a>, ParseTree<'a>))
        ensures
            r == (*self.left, *self.natural, *self.join_type, *self.join, *self.right),
    {
        (*self.left, *self.natural, *self.join_type, *self.join, *self.right)
    }

    pub fn get_first_child(&self) -> (r: &ParseTree<'a>)
        ensures
            *r == *self.left,
    {
        &self.left
    }

    pub fn get_last_child(&self) -> (r: &ParseTree<'a>)
        ensures
            *r == *self.right,
    {
        &self.right
    }

    pub fn get_first_token(&self) -> (r: Option<&token::Token<'a>>)
        ensures
            deref_opt(r) == first_of(tokens_of(ParseTree::NaturalJoin(*self))),
        decreases *self, 0nat,
    {
        assert(tokens_of(ParseTree::NaturalJoin(*self)) == tokens_of(*self.left) + tokens_of(*self.natural) + tokens_of(*self.join_type) + tokens_of(*self.join) + tokens_of(*self.right)) by {
            reveal_with_fuel(tokens_of, 1);
        }
        if let Some(token) = self.left.get_first_token() {
            return Some(token);
        }
        if let Some(token) = self.natural.get_first_token() {
            return Some(token);
        }
        if let Some(token) = self.join_type.get_first_token() {
            return Some(token);
        }
        if let Some(token) = self.join.get_first_token() {
            return Some(token);
        }
        if let Some(token) = self.right.get_first_token() {
            return Some(token);
        }
        None
    }

    pub fn get_last_token(&self) -> (r: Option<&token::Token<'a>>)
        ensures
            deref_opt(r) == last_of(tokens_of(ParseTree::NaturalJoin(*self))),
        decreases *self, 0nat,
    {
        assert(tokens_of(ParseTree::NaturalJoin(*self)) == tokens_of(*self.left) + tokens_of(*self.natural) + tokens_of(*self.join_type) + tokens_of(*self.join) + tokens_of(*self.right)) by {
            reveal_with_fuel(tokens_of, 1);
        }
        if let Some(token) = self.right.get_last_token() {
            return Some(token);
        }
        if let Some(token) = self.join.get_last_token() {
            return Some(token);
        }
        if let Some(token) = self.join_type.get_last_token() {
            return Some(token);
        }
        if let Some(token) = self.natural.get_last_token() {
            return Some(token);
        }
        if let Some(token) = self.left.get_last_token() {
            return Some(token);
        }
        None
    }
}

#[derive(Debug)]
pub struct OuterJoinKind<'a> {
    pub kind: Box<ParseTree<'a>>,
    pub outer_opt: Box<ParseTree<'a>>,
}

pub fn outer_join_kind<'a>(
    kind: ParseTree<'a>,
    outer_opt: ParseTree<'a>,
) -> (r: ParseTree<'a>)
    ensures
        r == ParseTree::OuterJoinKind(OuterJoinKind { kind: Box::new(kind), outer_opt: Box::new(outer_opt) }),
        tokens_of(r) == tokens_of(kind) + tokens_of(outer_opt),
        tree_wf(r) == (tree_wf(kind) && tree_wf(outer_opt)),
        lossless(r) == (lossless(kind) && lossless(outer_opt)),
{
    assert(tokens_of(ParseTree::OuterJoinKind(OuterJoinKind { kind: Box::new(kind), outer_opt: Box::new(outer_opt) })) == tokens_of(kind) + tokens_of(outer_opt)) by {
        reveal_with_fuel(tokens_of, 1);
    }
    assert(tree_wf(ParseTree::OuterJoinKind(OuterJoinKind { kind: Box::new(kind), outer_opt: Box::new(outer_opt) })) == (tree_wf(kind) && tree_wf(outer_opt))) by {
        reveal_with_fuel(tree_wf, 1);
    }
    assert(lossless(ParseTree::OuterJoinKind(OuterJoinKind { kind: Box::new(kind), outer_opt: Box::new(outer_opt) })) == (lossless(kind) && lossless(outer_opt))) by {
        reveal_with_fuel(lossless, 1);
    }
    ParseTree::OuterJoinKind(OuterJoinKind { kind: Box::new(kind), outer_opt: Box::new(outer_opt) })
}

impl<'a> OuterJoinKind<'a> {
    pub fn to_tree(self) -> (r: ParseTree<'a>)
        ensures
            r == ParseTree::OuterJoinKind(self),
    {
        ParseTree::OuterJoinKind(self)
    }

    pub fn children(&self) -> (r: Vec<&ParseTree<'a>>)
        ensures
            deref_seq(r@) == children_of(ParseTree::OuterJoinKind(*self)),
    {
        let mut result: Vec<&ParseTree<'a>> = Vec::new();
        result.push(&*self.kind);
        result.push(&*self.outer_opt);
        assert(deref_seq(result@) =~= children_of(ParseTree::OuterJoinKind(*self)));
        result
    }

    pub fn unbox(self) -> (r: (ParseTree<'a>, ParseTree<'a>))
        ensures
            r == (*self.kind, *self.outer_opt),
    {
        (*self.kind, *self.outer_opt)
    }

    pub fn get_first_child(&self) -> (r: &ParseTree<'a>)
        ensures
            *r == *self.kind,
    {
        &self.kind
    }

    pub fn get_last_child(&self) -> (r: &ParseTree<'a>)
        ensures
            *r == *self.outer_opt,
    {
        &self.outer_opt
    }

    pub fn get_first_token(&self) -> (r: Option<&token::Token<'a>>)
        ensures
            deref_opt(r) == first_of(tokens_of(ParseTree::OuterJoinKind(*self))),
        decreases *self, 0nat,
    {
        assert(tokens_of(ParseTree::OuterJoinKind(*self)) == tokens_of(*self.kind) + tokens_of(*self.outer_opt)) by {
            reveal_with_fuel(tokens_of, 1);
        }
        if let Some(token) = self.kind.get_first_token() {
            return Some(token);
        }
        if let Some(token) = self.outer_opt.get_first_token() {
            return Some(token);
        }
        None
    }

    pub fn get_last_token(&self) -> (r: Option<&token::Token<'a>>)
        ensures
            deref_opt(r) == last_of(tokens_of(ParseTree::OuterJoinKind(*self))),
        decreases *self, 0nat,
    {
        assert(tokens_of(ParseTree::OuterJoinKind(*self)) == tokens_of(*self.kind) + tokens_of(*self.outer_opt)) by {
            reveal_with_fuel(tokens_of, 1);
        }
        if let Some(token) = self.outer_opt.get_last_token() {
            return Some(token);
        }
        if let Some(token) = self.kind.get_last_token() {
            return Some(token);
        }
        None
    }
}

#[derive(Debug)]
pub struct OnJoinCriteria<'a> {
    pub on: Box<ParseTree<'a>>,
    pub predicate: Box<ParseTree<'a>>,
}

pub fn on_join_criteria<'a>(
    on: ParseTree<'a>,
    predicate: ParseTree<'a>,
) -> (r: ParseTree<'a>)
    ensures
        r == ParseTree::OnJoinCriteria(OnJoinCriteria { on: Box::new(on), predicate: Box::new(predicate) }),
        tokens_of(r) == tokens_of(on) + tokens_of(predicate),
        tree_wf(r) == (tree_wf(on) && tree_wf(predicate)),
        lossless(r) == (lossless(on) && lossless(predicate)),
{
    assert(tokens_of(ParseTree::OnJoinCriteria(OnJoinCriteria { on: Box::new(on), predicate: Box::new(predicate) })) == tokens_of(on) + tokens_of(predicate)) by {
        reveal_with_fuel(tokens_of, 1);
    }
    assert(tree_wf(ParseTree::OnJoinCriteria(OnJoinCriteria { on: Box::new(on), predicate: Box::new(predicate) })) == (tree_wf(on) && tree_wf(predicate))) by {
        reveal_with_fuel(tree_wf, 1);
    }
    assert(lossless(ParseTree::OnJoinCriteria(OnJoinCriteria { on: Box::new(on), predicate: Box::new(predicate) })) == (lossless(on) && lossless(predicate))) by {
        reveal_with_fuel(lossless, 1);
    }
    ParseTree::OnJoinCriteria(OnJoinCriteria { on: Box::new(on), predicate: Box::new(predicate) })
}

impl<'a> OnJoinCriteria<'a> {
    pub fn to_tree(self) -> (r: ParseTree<'a>)
        ensures
            r == ParseTree::OnJoinCriteria(self),
    {
        ParseTree::OnJoinCriteria(self)
    }

    pub fn children(&self) -> (r: Vec<&ParseTree<'a>>)
        ensures
            deref_seq(r@) == children_of(ParseTree::OnJoinCriteria(*self)),
    {
        let mut result: Vec<&ParseTree<'a>> = Vec::new();
        result.push(&*self.on);
        result.push(&*self.predicate);
        assert(deref_seq(result@) =~= children_of(ParseTree::OnJoinCriteria(*self)));
        result
    }

    pub fn unbox(self) -> (r: (ParseTree<'a>, ParseTree<'a>))
        ensures
            r == (*self.on, *self.predicate),
    {
        (*self.on, *self.predicate)
    }

    pub fn get_first_child(&self) -> (r: &ParseTree<'a>)
        ensures
            *r == *self.on,
    {
        &self.on
    }

    pub fn get_last_child(&self) -> (r: &ParseTree<'a>)
        ensures
            *r == *self.predicate,
    {
        &self.predicate
    }

    pub fn get_first_token(&self) -> (r: Option<&token::Token<'a>>)
        ensures
            deref_opt(r) == first_of(tokens_of(ParseTree::OnJoinCriteria(*self))),
        decreases *self, 0nat,
    {
        assert(tokens_of(ParseTree::OnJoinCriteria(*self)) == tokens_of(*self.on) + tokens_of(*self.predicate)) by {
            reveal_with_fuel(tokens_of, 1);
        }
        if let Some(token) = self.on.get_first_token() {
            return Some(token);
        }
        if let Some(token) = self.predicate.get_first_token() {
            return Some(token);
        }
        None
    }

    pub fn get_last_token(&self) -> (r: Option<&token::Token<'a>>)
        ensures
            deref_opt(r) == last_of(tokens_of(ParseTree::OnJoinCriteria(*self))),
        decreases *self, 0nat,
    {
        assert(tokens_of(ParseTree::OnJoinCriteria(*self)) == tokens_of(*self.on) + tokens_of(*self.predicate)) by {
            reveal_with_fuel(tokens_of, 1);
        }
        if let Some(token) = self.predicate.get_last_token() {
            return Some(token);
        }
        if let Some(token) = self.on.get_last_token() {
            return Some(token);
        }
        None
    }
}

#[derive(Debug)]
pub struct UsingJoinCriteria<'a> {
    pub using: Box<ParseTree<'a>>,
    pub names: Box<ParseTree<'a>>,
}

pub fn using_join_criteria<'a>(
    using: ParseTree<'a>,
    names: ParseTree<'a>,
) -> (r: ParseTree<'a>)
    ensures
        r == ParseTree::UsingJoinCriteria(UsingJoinCriteria { using: Box::new(using), names: Box::new(names) }),
        tokens_of(r) == tokens_of(using) + tokens_of(names),
        tree_wf(r) == (tree_wf(using) && tree_wf(names)),
        lossless(r) == (lossless(using) && lossless(names)),
{
    assert(tokens_of(ParseTree::UsingJoinCriteria(UsingJoinCriteria { using: Box::new(using), names: Box::new(names) })) == tokens_of(using) + tokens_of(names)) by {
        reveal_with_fuel(tokens_of, 1);
    }
    assert(tree_wf(ParseTree::UsingJoinCriteria(UsingJoinCriteria { using: Box::new(using), names: Box::new(names) })) == (tree_wf(using) && tree_wf(names))) by {
        reveal_with_fuel(tree_wf, 1);
    }
    assert(lossless(ParseTree::UsingJoinCriteria(UsingJoinCriteria { using: Box::new(using), names: Box::new(names) })) == (lossless(using) && lossless(names))) by {
        reveal_with_fuel(lossless, 1);
    }
    ParseTree::UsingJoinCriteria(UsingJoinCriteria { using: Box::new(using), names: Box::new(names) })
}

impl<'a> UsingJoinCriteria<'a> {
    pub fn to_tree(self) -> (r: ParseTree<'a>)
        ensures
            r == ParseTree::UsingJoinCriteria(self),
    {
        ParseTree::UsingJoinCriteria(self)
    }

    pub fn children(&self) -> (r: Vec<&ParseTree<'a>>)
        ensures
            deref_seq(r@) == children_of(ParseTree::UsingJoinCriteria(*self)),
    {
        let mut result: Vec<&ParseTree<'a>> = Vec::new();
        result.push(&*self.using);
        result.push(&*self.names);
        assert(deref_seq(result@) =~= children_of(ParseTree::UsingJoinCriteria(*self)));
        result
    }

    pub fn unbox(self) -> (r: (ParseTree<'a>, ParseTree<'a>))
        ensures
            r == (*self.using, *self.names),
    {
        (*self.using, *self.names)
    }

    pub fn get_first_child(&self) -> (r: &ParseTree<'a>)
        ensures
            *r == *self.using,
    {
        &self.using
    }

    pub fn get_last_child(&self) -> (r: &ParseTree<'a>)
        ensures
            *r == *self.names,
    {
        &self.names
    }

    pub fn get_first_token(&self) -> (r: Option<&token::Token<'a>>)
        ensures
            deref_opt(r) == first_of(tokens_of(ParseTree::UsingJoinCriteria(*self))),
        decreases *self, 0nat,
    {
        assert(tokens_of(ParseTree::UsingJoinCriteria(*self)) == tokens_of(*self.using) + tokens_of(*self.names)) by {
            reveal_with_fuel(tokens_of, 1);
        }
        if let Some(token) = self.using.get_first_token() {
            return Some(token);
        }
        if let Some(token) = self.names.get_first_token() {
            return Some(token);
        }
        None
    }

    pub fn get_last_token(&self) -> (r: Option<&token::Token<'a>>)
        ensures
            deref_opt(r) == last_of(tokens_of(ParseTree::UsingJoinCriteria(*self))),
        decreases *self, 0nat,
    {
        assert(tokens_of(ParseTree::UsingJoinCriteria(*self)) == tokens_of(*self.using) + tokens_of(*self.names)) by {
            reveal_with_fuel(tokens_of, 1);
        }
        if let Some(token) = self.names.get_last_token() {
            return Some(token);
        }
        if let Some(token) = self.using.get_last_token() {
            return Some(token);
        }
        None
    }
}

#[derive(Debug)]
pub struct GroupBy<'a> {
    pub set_quantifier_opt: Box<ParseTree<'a>>,
    pub grouping_elements: Box<ParseTree<'a>>,
}

pub fn group_by<'a>(
    set_quantifier_opt: ParseTree<'a>,
    grouping_elements: ParseTree<'a>,
) -> (r: ParseTree<'a>)
    ensures
        r == ParseTree::GroupBy(GroupBy { set_quantifier_opt: Box::new(set_quantifier_opt), grouping_elements: Box::new(grouping_elements) }),
        tokens_of(r) == tokens_of(set_quantifier_opt) + tokens_of(grouping_elements),
        tree_wf(r) == (tree_wf(set_quantifier_opt) && tree_wf(grouping_elements)),
        lossless(r) == (lossless(set_quantifier_opt) && lossless(grouping_elements)),
{
    assert(tokens_of(ParseTree::GroupBy(GroupBy { set_quantifier_opt: Box::new(set_quantifier_opt), grouping_elements: Box::new(grouping_elements) })) == tokens_of(set_quantifier_opt) + tokens_of(grouping_elements)) by {
        reveal_with_fuel(tokens_of, 1);
    }
    assert(tree_wf(ParseTree::GroupBy(GroupBy { set_quantifier_opt: Box::new(set_quantifier_opt), grouping_elements: Box::new(grouping_elements) })) == (tree_wf(set_quantifier_opt) && tree_wf(grouping_elements))) by {
        reveal_with_fuel(tree_wf, 1);
    }
    assert(lossless(ParseTree::GroupBy(GroupBy { set_quantifier_opt: Box::new(set_quantifier_opt), grouping_elements: Box::new(grouping_elements) })) == (lossless(set_quantifier_opt) && lossless(grouping_elements))) by {
        reveal_with_fuel(lossless, 1);
    }
    ParseTree::GroupBy(GroupBy { set_quantifier_opt: Box::new(set_quantifier_opt), grouping_elements: Box::new(grouping_elements) })
}

impl<'a> GroupBy<'a> {
    pub fn to_tree(self) -> (r: ParseTree<'a>)
        ensures
            r == ParseTree::GroupBy(self),
    {
        ParseTree::GroupBy(self)
    }

    pub fn children(&self) -> (r: Vec<&ParseTree<'a>>)
        ensures
            deref_seq(r@) == children_of(ParseTree::GroupBy(*self)),
    {
        let mut result: Vec<&ParseTree<'a>> = Vec::new();
        result.push(&*self.set_quantifier_opt);
        result.push(&*self.grouping_elements);
        assert(deref_seq(result@) =~= children_of(ParseTree::GroupBy(*self)));
        result
    }

    pub fn unbox(self) -> (r: (ParseTree<'a>, ParseTree<'a>))
        ensures
            r == (*self.set_quantifier_opt, *self.grouping_elements),
    {
        (*self.set_quantifier_opt, *self.grouping_elements)
    }

    pub fn get_first_child(&self) -> (r: &ParseTree<'a>)
        ensures
            *r == *self.set_quantifier_opt,
    {
        &self.set_quantifier_opt
    }

    pub fn get_last_child(&self) -> (r: &ParseTree<'a>)
        ensures
            *r == *self.grouping_elements,
    {
        &self.grouping_elements
    }

    pub fn get_first_token(&self) -> (r: Option<&token::Token<'a>>)
        ensures
            deref_opt(r) == first_of(tokens_of(ParseTree::GroupBy(*self))),
        decreases *self, 0nat,
    {
        assert(tokens_of(ParseTree::GroupBy(*self)) == tokens_of(*self.set_quantifier_opt) + tokens_of(*self.grouping_elements)) by {
            reveal_with_fuel(tokens_of, 1);
        }
        if let Some(token) = self.set_quantifier_opt.get_first_token() {
            return Some(token);
        }
        if let Some(token) = self.grouping_elements.get_first_token() {
            return Some(token);
        }
        None
    }

    pub fn get_last_token(&self) -> (r: Option<&token::Token<'a>>)
        ensures
            deref_opt(r) == last_of(tokens_of(ParseTree::GroupBy(*self))),
        decreases *self, 0nat,
    {
        assert(tokens_of(ParseTree::GroupBy(*self)) == tokens_of(*self.set_quantifier_opt) + tokens_of(*self.grouping_elements)) by {
            reveal_with_fuel(tokens_of, 1);
        }
        if let Some(token) = self.grouping_elements.get_last_token() {
            return Some(token);
        }
        if let Some(token) = self.set_quantifier_opt.get_last_token() {
            return Some(token);
        }
        None
    }
}

#[derive(Debug)]
pub struct Rollup<'a> {
    pub rollup: Box<ParseTree<'a>>,
    pub expressions: Box<ParseTree<'a>>,
}

pub fn rollup<'a>(
    rollup_tree: ParseTree<'a>,
    expressions: ParseTree<'a>,
) -> (r: ParseTree<'a>)
    ensures
        r == ParseTree::Rollup(Rollup { rollup: Box::new(rollup_tree), expressions: Box::new(expressions) }),
        tokens_of(r) == tokens_of(rollup_tree) + tokens_of(expressions),
        tree_wf(r) == (tree_wf(rollup_tree) && tree_wf(expressions)),
        lossless(r) == (lossless(rollup_tree) && lossless(expressions)),
{
    assert(tokens_of(ParseTree::Rollup(Rollup { rollup: Box::new(rollup_tree), expressions: Box::new(expressions) })) == tokens_of(rollup_tree) + tokens_of(expressions)) by {
        reveal_with_fuel(tokens_of, 1);
    }
    assert(tree_wf(ParseTree::Rollup(Rollup { rollup: Box::new(rollup_tree), expressions: Box::new(expressions) })) == (tree_wf(rollup_tree) && tree_wf(expressions))) by {
        reveal_with_fuel(tree_wf, 1);
    }
    assert(lossless(ParseTree::Rollup(Rollup { rollup: Box::new(rollup_tree), expressions: Box::new(expressions) })) == (lossless(rollup_tree) && lossless(expressions))) by {
        reveal_with_fuel(lossless, 1);
    }
    ParseTree::Rollup(Rollup { rollup: Box::new(rollup_tree), expressions: Box::new(expressions) })
}

impl<'a> Rollup<'a> {
    pub fn to_tree(self) -> (r: ParseTree<'a>)
        ensures
            r == ParseTree::Rollup(self),
    {
        ParseTree::Rollup(self)
    }

    pub fn children(&self) -> (r: Vec<&ParseTree<'a>>)
        ensures
            deref_seq(r@) == children_of(ParseTree::Rollup(*self)),
    {
        let mut result: Vec<&ParseTree<'a>> = Vec::new();
        result.push(&*self.rollup);
        result.push(&*self.expressions);
        assert(deref_seq(result@) =~= children_of(ParseTree::Rollup(*self)));
        result
    }

    pub fn unbox(self) -> (r: (ParseTree<'a>, ParseTree<'a>))
        ensures
            r == (*self.rollup, *self.expressions),
    {
        (*self.rollup, *self.expressions)
    }

    pub fn get_first_child(&self) -> (r: &ParseTree<'a>)
        ensures
            *r == *self.rollup,
    {
        &self.rollup
    }

    pub fn get_last_child(&self) -> (r: &ParseTree<'a>)
        ensures
            *r == *self.expressions,
    {
        &self.expressions
    }

    pub fn get_first_token(&self) -> (r: Option<&token::Token<'a>>)
        ensures
            deref_opt(r) == first_of(tokens_of(ParseTree::Rollup(*self))),
        decreases *self, 0nat,
    {
        assert(tokens_of(ParseTree::Rollup(*self)) == tokens_of(*self.rollup) + tokens_of(*self.expressions)) by {
            reveal_with_fuel(tokens_of, 1);
        }
        if let Some(token) = self.rollup.get_first_token() {
            return Some(token);
        }
        if let Some(token) = self.expressions.get_first_token() {
            return Some(token);
        }
        None
    }

    pub fn get_last_token(&self) -> (r: Option<&token::Token<'a>>)
        ensures
            deref_opt(r) == last_of(tokens_of(ParseTree::Rollup(*self))),
        decreases *self, 0nat,
    {
        assert(tokens_of(ParseTree::Rollup(*self)) == tokens_of(*self.rollup) + tokens_of(*self.expressions)) by {
            reveal_with_fuel(tokens_of, 1);
        }
        if let Some(token) = self.expressions.get_last_token() {
            return Some(token);
        }
        if let Some(token) = self.rollup.get_last_token() {
            return Some(token);
        }
        None
    }
}

#[derive(Debug)]
pub struct Cube<'a> {
    pub cube: Box<ParseTree<'a>>,
    pub expressions: Box<ParseTree<'a>>,
}

pub fn cube<'a>(
    cube_tree: ParseTree<'a>,
    expressions: ParseTree<'a>,
) -> (r: ParseTree<'a>)
    ensures
        r == ParseTree::Cube(Cube { cube: Box::new(cube_tree), expressions: Box::new(expressions) }),
        tokens_of(r) == tokens_of(cube_tree) + tokens_of(expressions),
        tree_wf(r) == (tree_wf(cube_tree) && tree_wf(expressions)),
        lossless(r) == (lossless(cube_tree) && lossless(expressions)),
{
    assert(tokens_of(ParseTree::Cube(Cube { cube: Box::new(cube_tree), expressions: Box::new(expressions) })) == tokens_of(cube_tree) + tokens_of(expressions)) by {
        reveal_with_fuel(tokens_of, 1);
    }
    assert(tree_wf(ParseTree::Cube(Cube { cube: Box::new(cube_tree), expressions: Box::new(expressions) })) == (tree_wf(cube_tree) && tree_wf(expressions))) by {
        reveal_with_fuel(tree_wf, 1);
    }
    assert(lossless(ParseTree::Cube(Cube { cube: Box::new(cube_tree), expressions: Box::new(expressions) })) == (lossless(cube_tree) && lossless(expressions))) by {
        reveal_with_fuel(lossless, 1);
    }
    ParseTree::Cube(Cube { cube: Box::new(cube_tree), expressions: Box::new(expressions) })
}

impl<'a> Cube<'a> {
    pub fn to_tree(self) -> (r: ParseTree<'a>)
        ensures
            r == ParseTree::Cube(self),
    {
        ParseTree::Cube(self)
    }

    pub fn children(&self) -> (r: Vec<&ParseTree<'a>>)
        ensures
            deref_seq(r@) == children_of(ParseTree::Cube(*self)),
    {
        let mut result: Vec<&ParseTree<'a>> = Vec::new();
        result.push(&*self.cube);
        result.push(&*self.expressions);
        assert(deref_seq(result@) =~= children_of(ParseTree::Cube(*self)));
        result
    }

    pub fn unbox(self) -> (r: (ParseTree<'a>, ParseTree<'a>))
        ensures
            r == (*self.cube, *self.expressions),
    {
        (*self.cube, *self.expressions)
    }

    pub fn get_first_child(&self) -> (r: &ParseTree<'a>)
        ensures
            *r == *self.cube,
    {
        &self.cube
    }

    pub fn get_last_child(&self) -> (r: &ParseTree<'a>)
        ensures
            *r == *self.expressions,
    {
        &self.expressions
    }

    pub fn get_first_token(&self) -> (r: Option<&token::Token<'a>>)
        ensures
            deref_opt(r) == first_of(tokens_of(ParseTree::Cube(*self))),
        decreases *self, 0nat,
    {
        assert(tokens_of(ParseTree::Cube(*self)) == tokens_of(*self.cube) + tokens_of(*self.expressions)) by {
            reveal_with_fuel(tokens_of, 1);
        }
        if let Some(token) = self.cube.get_first_token() {
            return Some(token);
        }
        if let Some(token) = self.expressions.get_first_token() {
            return Some(token);
        }
        None
    }

    pub fn get_last_token(&self) -> (r: Option<&token::Token<'a>>)
        ensures
            deref_opt(r) == last_of(tokens_of(ParseTree::Cube(*self))),
        decreases *self, 0nat,
    {
        assert(tokens_of(ParseTree::Cube(*self)) == tokens_of(*self.cube) + tokens_of(*self.expressions)) by {
            reveal_with_fuel(tokens_of, 1);
        }
        if let Some(token) = self.expressions.get_last_token() {
            return Some(token);
        }
        if let Some(token) = self.cube.get_last_token() {
            return Some(token);
        }
        None
    }
}

#[derive(Debug)]
pub struct GroupingSets<'a> {
    pub grouping: Box<ParseTree<'a>>,
    pub sets: Box<ParseTree<'a>>,
    pub grouping_sets: Box<ParseTree<'a>>,
}

pub fn grouping_sets<'a>(
    grouping: ParseTree<'a>,
    sets: ParseTree<'a>,
    grouping_sets_tree: ParseTree<'a>,
) -> (r: ParseTree<'a>)
    ensures
        r == ParseTree::GroupingSets(GroupingSets { grouping: Box::new(grouping), sets: Box::new(sets), grouping_sets: Box::new(grouping_sets_tree) }),
        tokens_of(r) == tokens_of(grouping) + tokens_of(sets) + tokens_of(grouping_sets_tree),
        tree_wf(r) == (tree_wf(grouping) && tree_wf(sets) && tree_wf(grouping_sets_tree)),
        lossless(r) == (lossless(grouping) && lossless(sets) && lossless(grouping_sets_tree)),
{
    assert(tokens_of(ParseTree::GroupingSets(GroupingSets { grouping: Box::new(grouping), sets: Box::new(sets), grouping_sets: Box::new(grouping_sets_tree) })) == tokens_of(grouping) + tokens_of(sets) + tokens_of(grouping_sets_tree)) by {
        reveal_with_fuel(tokens_of, 1);
    }
    assert(tree_wf(ParseTree::GroupingSets(GroupingSets { grouping: Box::new(grouping), sets: Box::new(sets), grouping_sets: Box::new(grouping_sets_tree) })) == (tree_wf(grouping) && tree_wf(sets) && tree_wf(grouping_sets_tree))) by {
        reveal_with_fuel(tree_wf, 1);
    }
    assert(lossless(ParseTree::GroupingSets(GroupingSets { grouping: Box::new(grouping), sets: Box::new(sets), grouping_sets: Box::new(grouping_sets_tree) })) == (lossless(grouping) && lossless(sets) && lossless(grouping_sets_tree))) by {
        reveal_with_fuel(lossless, 1);
    }
    ParseTree::GroupingSets(GroupingSets { grouping: Box::new(grouping), sets: Box::new(sets), grouping_sets: Box::new(grouping_sets_tree) })
}

impl<'a> GroupingSets<'a> {
    pub fn to_tree(self) -> (r: ParseTree<'a>)
        ensures
            r == ParseTree::GroupingSets(self),
    {
        ParseTree::GroupingSets(self)
    }

    pub fn children(&self) -> (r: Vec<&ParseTree<'a>>)
        ensures
            deref_seq(r@) == children_of(ParseTree::GroupingSets(*self)),
    {
        let mut result: Vec<&ParseTree<'a>> = Vec::new();
        result.push(&*self.grouping);
        result.push(&*self.sets);
        result.push(&*self.grouping_sets);
        assert(deref_seq(result@) =~= children_of(ParseTree::GroupingSets(*self)));
        result
    }

    pub fn unbox(self) -> (r: (ParseTree<'a>, ParseTree<'a>, ParseTree<'a>))
        ensures
            r == (*self.grouping, *self.sets, *self.grouping_sets),
    {
        (*self.grouping, *self.sets, *self.grouping_sets)
    }

    pub fn get_first_child(&self) -> (r: &ParseTree<'a>)
        ensures
            *r == *self.grouping,
    {
        &self.grouping
    }

    pub fn get_last_child(&self) -> (r: &ParseTree<'a>)
        ensures
            *r == *self.grouping_sets,
    {
        &self.grouping_sets
    }

    pub fn get_first_token(&self) -> (r: Option<&token::Token<'a>>)
        ensures
            deref_opt(r) == first_of(tokens_of(ParseTree::GroupingSets(*self))),
        decreases *self, 0nat,
    {
        assert(tokens_of(ParseTree::GroupingSets(*self)) == tokens_of(*self.grouping) + tokens_of(*self.sets) + tokens_of(*self.grouping_sets)) by {
            reveal_with_fuel(tokens_of, 1);
        }
        if let Some(token) = self.grouping.get_first_token() {
            return Some(token);
        }
        if let Some(token) = self.sets.get_first_token() {
            return Some(token);
        }
        if let Some(token) = self.grouping_sets.get_first_token() {
            return Some(token);
        }
        None
    }

    pub fn get_last_token(&self) -> (r: Option<&token::Token<'a>>)
        ensures
            deref_opt(r) == last_of(tokens_of(ParseTree::GroupingSets(*self))),
        decreases *self, 0nat,
    {
        assert(tokens_of(ParseTree::GroupingSets(*self)) == tokens_of(*self.grouping) + tokens_of(*self.sets) + tokens_of(*self.grouping_sets)) by {
            reveal_with_fuel(tokens_of, 1);
        }
        if let Some(token) = self.grouping_sets.get_last_token() {
            return Some(token);
        }
        if let Some(token) = self.sets.get_last_token() {
            return Some(token);
        }
        if let Some(token) = self.grouping.get_last_token() {
            return Some(token);
        }
        None
    }
}

} // verus!
