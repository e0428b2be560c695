//! Parse trees of statements and of ambiguous or entry constructs.
use super::parse_tree::{deref_opt, deref_seq, first_of, last_of, children_of, tokens_of, tree_wf, lossless, ParseTree};
use crate::lexing::token;
use vstd::prelude::*;

verus! {

#[derive(Debug)]
pub struct IfNotExists<'a> {
    pub if_: Box<ParseTree<'a>>,
    pub not: Box<ParseTree<'a>>,
    pub exists: Box<ParseTree<'a>>,
}

pub fn if_not_exists<'a>(
    if_: ParseTree<'a>,
    not: ParseTree<'a>,
    exists: ParseTree<'a>,
) -> (r: ParseTree<'a>)
    ensures
        r == ParseTree::IfNotExists(IfNotExists { if_: Box::new(if_), not: Box::new(not), exists: Box::new(exists) }),
        tokens_of(r) == tokens_of(if_) + tokens_of(not) + tokens_of(exists),
        tree_wf(r) == (tree_wf(if_) && tree_wf(not) && tree_wf(exists)),
        lossless(r) == (lossless(if_) && lossless(not) && lossless(exists)),
{
    assert(tokens_of(ParseTree::IfNotExists(IfNotExists { if_: Box::new(if_), not: Box::new(not), exists: Box::new(exists) })) == tokens_of(if_) + tokens_of(not) + tokens_of(exists)) by {
        reveal_with_fuel(tokens_of, 1);
    }
    assert(tree_wf(ParseTree::IfNotExists(IfNotExists { if_: Box::new(if_), not: Box::new(not), exists: Box::new(exists) })) == (tree_wf(if_) && tree_wf(not) && tree_wf(exists))) by {
        reveal_with_fuel(tree_wf, 1);
    }
    assert(lossless(ParseTree::IfNotExists(IfNotExists { if_: Box::new(if_), not: Box::new(not), exists: Box::new(exists) })) == (lossless(if_) && lossless(not) && lossless(exists))) by {
        reveal_with_fuel(lossless, 1);
    }
    ParseTree::IfNotExists(IfNotExists { if_: Box::new(if_), not: Box::new(not), exists: Box::new(exists) })
}

impl<'a> IfNotExists<'a> {
    pub fn to_tree(self) -> (r: ParseTree<'a>)
        ensures
            r == ParseTree::IfNotExists(self),
    {
        ParseTree::IfNotExists(self)
    }

    pub fn children(&self) -> (r: Vec<&ParseTree<'a>>)
        ensures
            deref_seq(r@) == children_of(ParseTree::IfNotExists(*self)),
    {
        let mut result: Vec<&ParseTree<'a>> = Vec::new();
        result.push(&*self.if_);
        result.push(&*self.not);
        result.push(&*self.exists);
        assert(deref_seq(result@) =~= children_of(ParseTree::IfNotExists(*self)));
        result
    }

    pub fn unbox(self) -> (r: (ParseTree<'a>, ParseTree<'a>, ParseTree<'a>))
        ensures
            r == (*self.if_, *self.not, *self.exists),
    {
        (*self.if_, *self.not, *self.exists)
    }

    pub fn get_first_child(&self) -> (r: &ParseTree<'a>)
        ensures
            *r == *self.if_,
    {
        &self.if_
    }

    pub fn get_last_child(&self) -> (r: &ParseTree<'a>)
        ensures
            *r == *self.exists,
    {
        &self.exists
    }

    pub fn get_first_token(&self) -> (r: Option<&token::Token<'a>>)
        ensures
            deref_opt(r) == first_of(tokens_of(ParseTree::IfNotExists(*self))),
        decreases *self, 0nat,
    {
        assert(tokens_of(ParseTree::IfNotExists(*self)) == tokens_of(*self.if_) + tokens_of(*self.not) + tokens_of(*self.exists)) by {
            reveal_with_fuel(tokens_of, 1);
        }
        if let Some(token) = self.if_.get_first_token() {
            return Some(token);
        }
        if let Some(token) = self.not.get_first_token() {
            return Some(token);
        }
        if let Some(token) = self.exists.get_first_token() {
            return Some(token);
        }
        None
    }

    pub fn get_last_token(&self) -> (r: Option<&token::Token<'a>>)
        ensures
            deref_opt(r) == last_of(tokens_of(ParseTree::IfNotExists(*self))),
        decreases *self, 0nat,
    {
        assert(tokens_of(ParseTree::IfNotExists(*self)) == tokens_of(*self.if_) + tokens_of(*self.not) + tokens_of(*self.exists)) by {
            reveal_with_fuel(tokens_of, 1);
        }
        if let Some(token) = self.exists.get_last_token() {
            return Some(token);
        }
        if let Some(token) = self.not.get_last_token() {
            return Some(token);
        }
        if let Some(token) = self.if_.get_last_token() {
            return Some(token);
        }
        None
    }
}

#[derive(Debug)]
pub struct CreateTable<'a> {
    pub create: Box<ParseTree<'a>>,
    pub table: Box<ParseTree<'a>>,
    pub if_not_exists_opt: Box<ParseTree<'a>>,
    pub table_name: Box<ParseTree<'a>>,
    pub table_elements: Box<ParseTree<'a>>,
    pub comment_opt: Box<ParseTree<'a>>,
    pub with_properties_opt: Box<ParseTree<'a>>,
}

pub fn create_table<'a>(
    create: ParseTree<'a>,
    table: ParseTree<'a>,
    if_not_exists_opt: ParseTree<'a>,
    table_name: ParseTree<'a>,
    table_elements: ParseTree<'a>,
    comment_opt: ParseTree<'a>,
    with_properties_opt: ParseTree<'a>,
) -> (r: ParseTree<'a>)
    ensures
        r == ParseTree::CreateTable(CreateTable { create: Box::new(create), table: Box::new(table), if_not_exists_opt: Box::new(if_not_exists_opt), table_name: Box::new(table_name), table_elements: Box::new(table_elements), comment_opt: Box::new(comment_opt), with_properties_opt: Box::new(with_properties_opt) }),
        tokens_of(r) == tokens_of(create) + tokens_of(table) + tokens_of(if_not_exists_opt) + tokens_of(table_name) + tokens_of(table_elements) + tokens_of(comment_opt) + tokens_of(with_properties_opt),
        tree_wf(r) == (tree_wf(create) && tree_wf(table) && tree_wf(if_not_exists_opt) && tree_wf(table_name) && tree_wf(table_elements) && tree_wf(comment_opt) && tree_wf(with_properties_opt)),
        lossless(r) == (lossless(create) && lossless(table) && lossless(if_not_exists_opt) && lossless(table_name) && lossless(table_elements) && lossless(comment_opt) && lossless(with_properties_opt)),
{
    assert(tokens_of(ParseTree::CreateTable(CreateTable { create: Box::new(create), table: Box::new(table), if_not_exists_opt: Box::new(if_not_exists_opt), table_name: Box::new(table_name), table_elements: Box::new(table_elements), comment_opt: Box::new(comment_opt), with_properties_opt: Box::new(with_properties_opt) })) == tokens_of(create) + tokens_of(table) + tokens_of(if_not_exists_opt) + tokens_of(table_name) + tokens_of(table_elements) + tokens_of(comment_opt) + tokens_of(with_properties_opt)) by {
        reveal_with_fuel(tokens_of, 1);
    }
    assert(tree_wf(ParseTree::CreateTable(CreateTable { create: Box::new(create), table: Box::new(table), if_not_exists_opt: Box::new(if_not_exists_opt), table_name: Box::new(table_name), table_elements: Box::new(table_elements), comment_opt: Box::new(comment_opt), with_properties_opt: Box::new(with_properties_opt) })) == (tree_wf(create) && tree_wf(table) && tree_wf(if_not_exists_opt) && tree_wf(table_name) && tree_wf(table_elements) && tree_wf(comment_opt) && tree_wf(with_properties_opt))) by {
        reveal_with_fuel(tree_wf, 1);
    }
    assert(lossless(ParseTree::CreateTable(CreateTable { create: Box::new(create), table: Box::new(table), if_not_exists_opt: Box::new(if_not_exists_opt), table_name: Box::new(table_name), table_elements: Box::new(table_elements), comment_opt: Box::new(comment_opt), with_properties_opt: Box::new(with_properties_opt) })) == (lossless(create) && lossless(table) && lossless(if_not_exists_opt) && lossless(table_name) && lossless(table_elements) && lossless(comment_opt) && lossless(with_properties_opt))) by {
        reveal_with_fuel(lossless, 1);
    }
    ParseTree::CreateTable(CreateTable { create: Box::new(create), table: Box::new(table), if_not_exists_opt: Box::new(if_not_exists_opt), table_name: Box::new(table_name), table_elements: Box::new(table_elements), comment_opt: Box::new(comment_opt), with_properties_opt: Box::new(with_properties_opt) })
}

impl<'a> CreateTable<'a> {
    pub fn to_tree(self) -> (r: ParseTree<'a>)
        ensures
            r == ParseTree::CreateTable(self),
    {
        ParseTree::CreateTable(self)
    }

    pub fn children(&self) -> (r: Vec<&ParseTree<'a>>)
        ensures
            deref_seq(r@) == children_of(ParseTree::CreateTable(*self)),
    {
        let mut result: Vec<&ParseTree<'a>> = Vec::new();
        result.push(&*self.create);
        result.push(&*self.table);
        result.push(&*self.if_not_exists_opt);
        result.push(&*self.table_name);
        result.push(&*self.table_elements);
        result.push(&*self.comment_opt);
        result.push(&*self.with_properties_opt);
        assert(deref_seq(result@) =~= children_of(ParseTree::CreateTable(*self)));
        result
    }

    pub fn unbox(self) -> (r: (ParseTree<'a>, ParseTree<'a>, ParseTree<'a>, ParseTree<'a>, ParseTree<'a>, ParseTree<'a>, ParseTree<'a>))
        ensures
            r == (*self.create, *self.table, *self.if_not_exists_opt, *self.table_name, *self.table_elements, *self.comment_opt, *self.with_properties_opt),
    {
        (*self.create, *self.table, *self.if_not_exists_opt, *self.table_name, *self.table_elements, *self.comment_opt, *self.with_properties_opt)
    }

    pub fn get_first_child(&self) -> (r: &ParseTree<'a>)
        ensures
            *r == *self.create,
    {
        &self.create
    }

    pub fn get_last_child(&self) -> (r: &ParseTree<'a>)
        ensures
            *r == *self.with_properties_opt,
    {
        &self.with_properties_opt
    }

    pub fn get_first_token(&self) -> (r: Option<&token::Token<'a>>)
        ensures
            deref_opt(r) == first_of(tokens_of(ParseTree::CreateTable(*self))),
        decreases *self, 0nat,
    {
        assert(tokens_of(ParseTree::CreateTable(*self)) == tokens_of(*self.create) + tokens_of(*self.table) + tokens_of(*self.if_not_exists_opt) + tokens_of(*self.table_name) + tokens_of(*self.table_elements) + tokens_of(*self.comment_opt) + tokens_of(*self.with_properties_opt)) by {
            reveal_with_fuel(tokens_of, 1);
        }
        if let Some(token) = self.create.get_first_token() {
            return Some(token);
        }
        if let Some(token) = self.table.get_first_token() {
            return Some(token);
        }
        if let Some(token) = self.if_not_exists_opt.get_first_token() {
            return Some(token);
        }
        if let Some(token) = self.table_name.get_first_token() {
            return Some(token);
        }
        if let Some(token) = self.table_elements.get_first_token() {
            return Some(token);
        }
        if let Some(token) = self.comment_opt.get_first_token() {
            return Some(token);
        }
        if let Some(token) = self.with_properties_opt.get_first_token() {
            return Some(token);
        }
        None
    }

    pub fn get_last_token(&self) -> (r: Option<&token::Token<'a>>)
        ensures
            deref_opt(r) == last_of(tokens_of(ParseTree::CreateTable(*self))),
        decreases *self, 0nat,
    {
        assert(tokens_of(ParseTree::CreateTable(*self)) == tokens_of(*self.create) + tokens_of(*self.table) + tokens_of(*self.if_not_exists_opt) + tokens_of(*self.table_name) + tokens_of(*self.table_elements) + tokens_of(*self.comment_opt) + tokens_of(*self.with_properties_opt)) by {
            reveal_with_fuel(tokens_of, 1);
        }
        if let Some(token) = self.with_properties_opt.get_last_token() {
            return Some(token);
        }
        if let Some(token) = self.comment_opt.get_last_token() {
            return Some(token);
        }
        if let Some(token) = self.table_elements.get_last_token() {
            return Some(token);
        }
        if let Some(token) = self.table_name.get_last_token() {
            return Some(token);
        }
        if let Some(token) = self.if_not_exists_opt.get_last_token() {
            return Some(token);
        }
        if let Some(token) = self.table.get_last_token() {
            return Some(token);
        }
        if let Some(token) = self.create.get_last_token() {
            return Some(token);
        }
        None
    }
}

#[derive(Debug)]
pub struct CreateView<'a> {
    pub create: Box<ParseTree<'a>>,
    pub or_opt: Box<ParseTree<'a>>,
    pub replace_opt: Box<ParseTree<'a>>,
    pub view: Box<ParseTree<'a>>,
    pub qualified_name: Box<ParseTree<'a>>,
    pub as_: Box<ParseTree<'a>>,
    pub query: Box<ParseTree<'a>>,
}

pub fn create_view<'a>(
    create: ParseTree<'a>,
    or_opt: ParseTree<'a>,
    replace_opt: ParseTree<'a>,
    view: ParseTree<'a>,
    qualified_name: ParseTree<'a>,
    as_: ParseTree<'a>,
    query: ParseTree<'a>,
) -> (r: ParseTree<'a>)
    ensures
        r == ParseTree::CreateView(CreateView { create: Box::new(create), or_opt: Box::new(or_opt), replace_opt: Box::new(replace_opt), view: Box::new(view), qualified_name: Box::new(qualified_name), as_: Box::new(as_), query: Box::new(query) }),
        tokens_of(r) == tokens_of(create) + tokens_of(or_opt) + tokens_of(replace_opt) + tokens_of(view) + tokens_of(qualified_name) + tokens_of(as_) + tokens_of(query),
        tree_wf(r) == (tree_wf(create) && tree_wf(or_opt) && tree_wf(replace_opt) && tree_wf(view) && tree_wf(qualified_name) && tree_wf(as_) && tree_wf(query)),
        lossless(r) == (lossless(create) && lossless(or_opt) && lossless(replace_opt) && lossless(view) && lossless(qualified_name) && lossless(as_) && lossless(query)),
{
    assert(tokens_of(ParseTree::CreateView(CreateView { create: Box::new(create), or_opt: Box::new(or_opt), replace_opt: Box::new(replace_opt), view: Box::new(view), qualified_name: Box::new(qualified_name), as_: Box::new(as_), query: Box::new(query) })) == tokens_of(create) + tokens_of(or_opt) + tokens_of(replace_opt) + tokens_of(view) + tokens_of(qualified_name) + tokens_of(as_) + tokens_of(query)) by {
        reveal_with_fuel(tokens_of, 1);
    }
    assert(tree_wf(ParseTree::CreateView(CreateView { create: Box::new(create), or_opt: Box::new(or_opt), replace_opt: Box::new(replace_opt), view: Box::new(view), qualified_name: Box::new(qualified_name), as_: Box::new(as_), query: Box::new(query) })) == (tree_wf(create) && tree_wf(or_opt) && tree_wf(replace_opt) && tree_wf(view) && tree_wf(qualified_name) && tree_wf(as_) && tree_wf(query))) by {
        reveal_with_fuel(tree_wf, 1);
    }
    assert(lossless(ParseTree::CreateView(CreateView { create: Box::new(create), or_opt: Box::new(or_opt), replace_opt: Box::new(replace_opt), view: Box::new(view), qualified_name: Box::new(qualified_name), as_: Box::new(as_), query: Box::new(query) })) == (lossless(create) && lossless(or_opt) && lossless(replace_opt) && lossless(view) && lossless(qualified_name) && lossless(as_) && lossless(query))) by {
        reveal_with_fuel(lossless, 1);
    }
    ParseTree::CreateView(CreateView { create: Box::new(create), or_opt: Box::new(or_opt), replace_opt: Box::new(replace_opt), view: Box::new(view), qualified_name: Box::new(qualified_name), as_: Box::new(as_), query: Box::new(query) })
}

impl<'a> CreateView<'a> {
    pub fn to_tree(self) -> (r: ParseTree<'a>)
        ensures
            r == ParseTree::CreateView(self),
    {
        ParseTree::CreateView(self)
    }

    pub fn children(&self) -> (r: Vec<&ParseTree<'a>>)
        ensures
            deref_seq(r@) == children_of(ParseTree::CreateView(*self)),
    {
        let mut result: Vec<&ParseTree<'a>> = Vec::new();
        result.push(&*self.create);
        result.push(&*self.or_opt);
        result.push(&*self.replace_opt);
        result.push(&*self.view);
        result.push(&*self.qualified_name);
        result.push(&*self.as_);
        result.push(&*self.query);
        assert(deref_seq(result@) =~= children_of(ParseTree::CreateView(*self)));
        result
    }

    pub fn unbox(self) -> (r: (ParseTree<'a>, ParseTree<'a>, ParseTree<'a>, ParseTree<'a>, ParseTree<'a>, ParseTree<'a>, ParseTree<'a>))
        ensures
            r == (*self.create, *self.or_opt, *self.replace_opt, *self.view, *self.qualified_name, *self.as_, *self.query),
    {
        (*self.create, *self.or_opt, *self.replace_opt, *self.view, *self.qualified_name, *self.as_, *self.query)
    }

    pub fn get_first_child(&self) -> (r: &ParseTree<'a>)
        ensures
            *r == *self.create,
    {
        &self.create
    }

    pub fn get_last_child(&self) -> (r: &ParseTree<'a>)
        ensures
            *r == *self.query,
    {
        &self.query
    }

    pub fn get_first_token(&self) -> (r: Option<&token::Token<'a>>)
        ensures
            deref_opt(r) == first_of(tokens_of(ParseTree::CreateView(*self))),
        decreases *self, 0nat,
    {
        assert(tokens_of(ParseTree::CreateView(*self)) == tokens_of(*self.create) + tokens_of(*self.or_opt) + tokens_of(*self.replace_opt) + tokens_of(*self.view) + tokens_of(*self.qualified_name) + tokens_of(*self.as_) + tokens_of(*self.query)) by {
            reveal_with_fuel(tokens_of, 1);
        }
        if let Some(token) = self.create.get_first_token() {
            return Some(token);
        }
        if let Some(token) = self.or_opt.get_first_token() {
            return Some(token);
        }
        if let Some(token) = self.replace_opt.get_first_token() {
            return Some(token);
        }
        if let Some(token) = self.view.get_first_token() {
            return Some(token);
        }
        if let Some(token) = self.qualified_name.get_first_token() {
            return Some(token);
        }
        if let Some(token) = self.as_.get_first_token() {
            return Some(token);
        }
        if let Some(token) = self.query.get_first_token() {
            return Some(token);
        }
        None
    }

    pub fn get_last_token(&self) -> (r: Option<&token::Token<'a>>)
        ensures
            deref_opt(r) == last_of(tokens_of(ParseTree::CreateView(*self))),
        decreases *self, 0nat,
    {
        assert(tokens_of(ParseTree::CreateView(*self)) == tokens_of(*self.create) + tokens_of(*self.or_opt) + tokens_of(*self.replace_opt) + tokens_of(*self.view) + tokens_of(*self.qualified_name) + tokens_of(*self.as_) + tokens_of(*self.query)) by {
            reveal_with_fuel(tokens_of, 1);
        }
        if let Some(token) = self.query.get_last_token() {
            return Some(token);
        }
        if let Some(token) = self.as_.get_last_token() {
            return Some(token);
        }
        if let Some(token) = self.qualified_name.get_last_token() {
            return Some(token);
        }
        if let Some(token) = self.view.get_last_token() {
            return Some(token);
        }
        if let Some(token) = self.replace_opt.get_last_token() {
            return Some(token);
        }
        if let Some(token) = self.or_opt.get_last_token() {
            return Some(token);
        }
        if let Some(token) = self.create.get_last_token() {
            return Some(token);
        }
        None
    }
}

#[derive(Debug)]
pub struct CreateRole<'a> {
    pub create: Box<ParseTree<'a>>,
    pub role: Box<ParseTree<'a>>,
    pub name: Box<ParseTree<'a>>,
    pub with_admin_grantor_opt: Box<ParseTree<'a>>,
}

pub fn create_role<'a>(
    create: ParseTree<'a>,
    role: ParseTree<'a>,
    name: ParseTree<'a>,
    with_admin_grantor_opt: ParseTree<'a>,
) -> (r: ParseTree<'a>)
    ensures
        r == ParseTree::CreateRole(CreateRole { create: Box::new(create), role: Box::new(role), name: Box::new(name), with_admin_grantor_opt: Box::new(with_admin_grantor_opt) }),
        tokens_of(r) == tokens_of(create) + tokens_of(role) + tokens_of(name) + tokens_of(with_admin_grantor_opt),
        tree_wf(r) == (tree_wf(create) && tree_wf(role) && tree_wf(name) && tree_wf(with_admin_grantor_opt)),
        lossless(r) == (lossless(create) && lossless(role) && lossless(name) && lossless(with_admin_grantor_opt)),
{
    assert(tokens_of(ParseTree::CreateRole(CreateRole { create: Box::new(create), role: Box::new(role), name: Box::new(name), with_admin_grantor_opt: Box::new(with_admin_grantor_opt) })) == tokens_of(create) + tokens_of(role) + tokens_of(name) + tokens_of(with_admin_grantor_opt)) by {
        reveal_with_fuel(tokens_of, 1);
    }
    assert(tree_wf(ParseTree::CreateRole(CreateRole { create: Box::new(create), role: Box::new(role), name: Box::new(name), with_admin_grantor_opt: Box::new(with_admin_grantor_opt) })) == (tree_wf(create) && tree_wf(role) && tree_wf(name) && tree_wf(with_admin_grantor_opt))) by {
        reveal_with_fuel(tree_wf, 1);
    }
    assert(lossless(ParseTree::CreateRole(CreateRole { create: Box::new(create), role: Box::new(role), name: Box::new(name), with_admin_grantor_opt: Box::new(with_admin_grantor_opt) })) == (lossless(create) && lossless(role) && lossless(name) && lossless(with_admin_grantor_opt))) by {
        reveal_with_fuel(lossless, 1);
    }
    ParseTree::CreateRole(CreateRole { create: Box::new(create), role: Box::new(role), name: Box::new(name), with_admin_grantor_opt: Box::new(with_admin_grantor_opt) })
}

impl<'a> CreateRole<'a> {
    pub fn to_tree(self) -> (r: ParseTree<'a>)
        ensures
            r == ParseTree::CreateRole(self),
    {
        ParseTree::CreateRole(self)
    }

    pub fn children(&self) -> (r: Vec<&ParseTree<'a>>)
        ensures
            deref_seq(r@) == children_of(ParseTree::CreateRole(*self)),
    {
        let mut result: Vec<&ParseTree<'a>> = Vec::new();
        result.push(&*self.create);
        result.push(&*self.role);
        result.push(&*self.name);
        result.push(&*self.with_admin_grantor_opt);
        assert(deref_seq(result@) =~= children_of(ParseTree::CreateRole(*self)));
        result
    }

    pub fn unbox(self) -> (r: (ParseTree<'a>, ParseTree<'a>, ParseTree<'a>, ParseTree<'a>))
        ensures
            r == (*self.create, *self.role, *self.name, *self.with_admin_grantor_opt),
    {
        (*self.create, *self.role, *self.name, *self.with_admin_grantor_opt)
    }

    pub fn get_first_child(&self) -> (r: &ParseTree<'a>)
        ensures
            *r == *self.create,
    {
        &self.create
    }

    pub fn get_last_child(&self) -> (r: &ParseTree<'a>)
        ensures
            *r == *self.with_admin_grantor_opt,
    {
        &self.with_admin_grantor_opt
    }

    pub fn get_first_token(&self) -> (r: Option<&token::Token<'a>>)
        ensures
            deref_opt(r) == first_of(tokens_of(ParseTree::CreateRole(*self))),
        decreases *self, 0nat,
    {
        assert(tokens_of(ParseTree::CreateRole(*self)) == tokens_of(*self.create) + tokens_of(*self.role) + tokens_of(*self.name) + tokens_of(*self.with_admin_grantor_opt)) by {
            reveal_with_fuel(tokens_of, 1);
        }
        if let Some(token) = self.create.get_first_token() {
            return Some(token);
        }
        if let Some(token) = self.role.get_first_token() {
            return Some(token);
        }
        if let Some(token) = self.name.get_first_token() {
            return Some(token);
        }
        if let Some(token) = self.with_admin_grantor_opt.get_first_token() {
            return Some(token);
        }
        None
    }

    pub fn get_last_token(&self) -> (r: Option<&token::Token<'a>>)
        ensures
            deref_opt(r) == last_of(tokens_of(ParseTree::CreateRole(*self))),
        decreases *self, 0nat,
    {
        assert(tokens_of(ParseTree::CreateRole(*self)) == tokens_of(*self.create) + tokens_of(*self.role) + tokens_of(*self.name) + tokens_of(*self.with_admin_grantor_opt)) by {
            reveal_with_fuel(tokens_of, 1);
        }
        if let Some(token) = self.with_admin_grantor_opt.get_last_token() {
            return Some(token);
        }
        if let Some(token) = self.name.get_last_token() {
            return Some(token);
        }
        if let Some(token) = self.role.get_last_token() {
            return Some(token);
        }
        if let Some(token) = self.create.get_last_token() {
            return Some(token);
        }
        None
    }
}

#[derive(Debug)]
pub struct WithAdminGrantor<'a> {
    pub with: Box<ParseTree<'a>>,
    pub admin: Box<ParseTree<'a>>,
    pub grantor: Box<ParseTree<'a>>,
}

pub fn with_admin_grantor<'a>(
    with: ParseTree<'a>,
    admin: ParseTree<'a>,
    grantor: ParseTree<'a>,
) -> (r: ParseTree<'a>)
    ensures
        r == ParseTree::WithAdminGrantor(WithAdminGrantor { with: Box::new(with), admin: Box::new(admin), grantor: Box::new(grantor) }),
        tokens_of(r) == tokens_of(with) + tokens_of(admin) + tokens_of(grantor),
        tree_wf(r) == (tree_wf(with) && tree_wf(admin) && tree_wf(grantor)),
        lossless(r) == (lossless(with) && lossless(admin) && lossless(grantor)),
{
    assert(tokens_of(ParseTree::WithAdminGrantor(WithAdminGrantor { with: Box::new(with), admin: Box::new(admin), grantor: Box::new(grantor) })) == tokens_of(with) + tokens_of(admin) + tokens_of(grantor)) by {
        reveal_with_fuel(tokens_of, 1);
    }
    assert(tree_wf(ParseTree::WithAdminGrantor(WithAdminGrantor { with: Box::new(with), admin: Box::new(admin), grantor: Box::new(grantor) })) == (tree_wf(with) && tree_wf(admin) && tree_wf(grantor))) by {
        reveal_with_fuel(tree_wf, 1);
    }
    assert(lossless(ParseTree::WithAdminGrantor(WithAdminGrantor { with: Box::new(with), admin: Box::new(admin), grantor: Box::new(grantor) })) == (lossless(with) && lossless(admin) && lossless(grantor))) by {
        reveal_with_fuel(lossless, 1);
    }
    ParseTree::WithAdminGrantor(WithAdminGrantor { with: Box::new(with), admin: Box::new(admin), grantor: Box::new(grantor) })
}

impl<'a> WithAdminGrantor<'a> {
    pub fn to_tree(self) -> (r: ParseTree<'a>)
        ensures
            r == ParseTree::WithAdminGrantor(self),
    {
        ParseTree::WithAdminGrantor(self)
    }

    pub fn children(&self) -> (r: Vec<&ParseTree<'a>>)
        ensures
            deref_seq(r@) == children_of(ParseTree::WithAdminGrantor(*self)),
    {
        let mut result: Vec<&ParseTree<'a>> = Vec::new();
        result.push(&*self.with);
        result.push(&*self.admin);
        result.push(&*self.grantor);
        assert(deref_seq(result@) =~= children_of(ParseTree::WithAdminGrantor(*self)));
        result
    }

    pub fn unbox(self) -> (r: (ParseTree<'a>, ParseTree<'a>, ParseTree<'a>))
        ensures
            r == (*self.with, *self.admin, *self.grantor),
    {
        (*self.with, *self.admin, *self.grantor)
    }

    pub fn get_first_child(&self) -> (r: &ParseTree<'a>)
        ensures
            *r == *self.with,
    {
        &self.with
    }

    pub fn get_last_child(&self) -> (r: &ParseTree<'a>)
        ensures
            *r == *self.grantor,
    {
        &self.grantor
    }

    pub fn get_first_token(&self) -> (r: Option<&token::Token<'a>>)
        ensures
            deref_opt(r) == first_of(tokens_of(ParseTree::WithAdminGrantor(*self))),
        decreases *self, 0nat,
    {
        assert(tokens_of(ParseTree::WithAdminGrantor(*self)) == tokens_of(*self.with) + tokens_of(*self.admin) + tokens_of(*self.grantor)) by {
            reveal_with_fuel(tokens_of, 1);
        }
        if let Some(token) = self.with.get_first_token() {
            return Some(token);
        }
        if let Some(token) = self.admin.get_first_token() {
            return Some(token);
        }
        if let Some(token) = self.grantor.get_first_token() {
            return Some(token);
        }
        None
    }

    pub fn get_last_token(&self) -> (r: Option<&token::Token<'a>>)
        ensures
            deref_opt(r) == last_of(tokens_of(ParseTree::WithAdminGrantor(*self))),
        decreases *self, 0nat,
    {
        assert(tokens_of(ParseTree::WithAdminGrantor(*self)) == tokens_of(*self.with) + tokens_of(*self.admin) + tokens_of(*self.grantor)) by {
            reveal_with_fuel(tokens_of, 1);
        }
        if let Some(token) = self.grantor.get_last_token() {
            return Some(token);
        }
        if let Some(token) = self.admin.get_last_token() {
            return Some(token);
        }
        if let Some(token) = self.with.get_last_token() {
            return Some(token);
        }
        None
    }
}

#[derive(Debug)]
pub struct UserPrincipal<'a> {
    pub user: Box<ParseTree<'a>>,
    pub identifier: Box<ParseTree<'a>>,
}

pub fn user_principal<'a>(
    user: ParseTree<'a>,
    identifier: ParseTree<'a>,
) -> (r: ParseTree<'a>)
    ensures
        r == ParseTree::UserPrincipal(UserPrincipal { user: Box::new(user), identifier: Box::new(identifier) }),
        tokens_of(r) == tokens_of(user) + tokens_of(identifier),
        tree_wf(r) == (tree_wf(user) && tree_wf(identifier)),
        lossless(r) == (lossless(user) && lossless(identifier)),
{
    assert(tokens_of(ParseTree::UserPrincipal(UserPrincipal { user: Box::new(user), identifier: Box::new(identifier) })) == tokens_of(user) + tokens_of(identifier)) by {
        reveal_with_fuel(tokens_of, 1);
    }
    assert(tree_wf(ParseTree::UserPrincipal(UserPrincipal { user: Box::new(user), identifier: Box::new(identifier) })) == (tree_wf(user) && tree_wf(identifier))) by {
        reveal_with_fuel(tree_wf, 1);
    }
    assert(lossless(ParseTree::UserPrincipal(UserPrincipal { user: Box::new(user), identifier: Box::new(identifier) })) == (lossless(user) && lossless(identifier))) by {
        reveal_with_fuel(lossless, 1);
    }
    ParseTree::UserPrincipal(UserPrincipal { user: Box::new(user), identifier: Box::new(identifier) })
}

impl<'a> UserPrincipal<'a> {
    pub fn to_tree(self) -> (r: ParseTree<'a>)
        ensures
            r == ParseTree::UserPrincipal(self),
    {
        ParseTree::UserPrincipal(self)
    }

    pub fn children(&self) -> (r: Vec<&ParseTree<'a>>)
        ensures
            deref_seq(r@) == children_of(ParseTree::UserPrincipal(*self)),
    {
        let mut result: Vec<&ParseTree<'a>> = Vec::new();
        result.push(&*self.user);
        result.push(&*self.identifier);
        assert(deref_seq(result@) =~= children_of(ParseTree::UserPrincipal(*self)));
        result
    }

    pub fn unbox(self) -> (r: (ParseTree<'a>, ParseTree<'a>))
        ensures
            r == (*self.user, *self.identifier),
    {
        (*self.user, *self.identifier)
    }

    pub fn get_first_child(&self) -> (r: &ParseTree<'a>)
        ensures
            *r == *self.user,
    {
        &self.user
    }

    pub fn get_last_child(&self) -> (r: &ParseTree<'a>)
        ensures
            *r == *self.identifier,
    {
        &self.identifier
    }

    pub fn get_first_token(&self) -> (r: Option<&token::Token<'a>>)
        ensures
            deref_opt(r) == first_of(tokens_of(ParseTree::UserPrincipal(*self))),
        decreases *self, 0nat,
    {
        assert(tokens_of(ParseTree::UserPrincipal(*self)) == tokens_of(*self.user) + tokens_of(*self.identifier)) by {
            reveal_with_fuel(tokens_of, 1);
        }
        if let Some(token) = self.user.get_first_token() {
            return Some(token);
        }
        if let Some(token) = self.identifier.get_first_token() {
            return Some(token);
        }
        None
    }

    pub fn get_last_token(&self) -> (r: Option<&token::Token<'a>>)
        ensures
            deref_opt(r) == last_of(tokens_of(ParseTree::UserPrincipal(*self))),
        decreases *self, 0nat,
    {
        assert(tokens_of(ParseTree::UserPrincipal(*self)) == tokens_of(*self.user) + tokens_of(*self.identifier)) by {
            reveal_with_fuel(tokens_of, 1);
        }
        if let Some(token) = self.identifier.get_last_token() {
            return Some(token);
        }
        if let Some(token) = self.user.get_last_token() {
            return Some(token);
        }
        None
    }
}

#[derive(Debug)]
pub struct RolePrincipal<'a> {
    pub role: Box<ParseTree<'a>>,
    pub identifier: Box<ParseTree<'a>>,
}

pub fn role_principal<'a>(
    role: ParseTree<'a>,
    identifier: ParseTree<'a>,
) -> (r: ParseTree<'a>)
    ensures
        r == ParseTree::RolePrincipal(RolePrincipal { role: Box::new(role), identifier: Box::new(identifier) }),
        tokens_of(r) == tokens_of(role) + tokens_of(identifier),
        tree_wf(r) == (tree_wf(role) && tree_wf(identifier)),
        lossless(r) == (lossless(role) && lossless(identifier)),
{
    assert(tokens_of(ParseTree::RolePrincipal(RolePrincipal { role: Box::new(role), identifier: Box::new(identifier) })) == tokens_of(role) + tokens_of(identifier)) by {
        reveal_with_fuel(tokens_of, 1);
    }
    assert(tree_wf(ParseTree::RolePrincipal(RolePrincipal { role: Box::new(role), identifier: Box::new(identifier) })) == (tree_wf(role) && tree_wf(identifier))) by {
        reveal_with_fuel(tree_wf, 1);
    }
    assert(lossless(ParseTree::RolePrincipal(RolePrincipal { role: Box::new(role), identifier: Box::new(identifier) })) == (lossless(role) && lossless(identifier))) by {
        reveal_with_fuel(lossless, 1);
    }
    ParseTree::RolePrincipal(RolePrincipal { role: Box::new(role), identifier: Box::new(identifier) })
}

impl<'a> RolePrincipal<'a> {
    pub fn to_tree(self) -> (r: ParseTree<'a>)
        ensures
            r == ParseTree::RolePrincipal(self),
    {
        ParseTree::RolePrincipal(self)
    }

    pub fn children(&self) -> (r: Vec<&ParseTree<'a>>)
        ensures
            deref_seq(r@) == children_of(ParseTree::RolePrincipal(*self)),
    {
        let mut result: Vec<&ParseTree<'a>> = Vec::new();
        result.push(&*self.role);
        result.push(&*self.identifier);
        assert(deref_seq(result@) =~= children_of(ParseTree::RolePrincipal(*self)));
        result
    }

    pub fn unbox(self) -> (r: (ParseTree<'a>, ParseTree<'a>))
        ensures
            r == (*self.role, *self.identifier),
    {
        (*self.role, *self.identifier)
    }

    pub fn get_first_child(&self) -> (r: &ParseTree<'a>)
        ensures
            *r == *self.role,
    {
        &self.role
    }

    pub fn get_last_child(&self) -> (r: &ParseTree<'a>)
        ensures
            *r == *self.identifier,
    {
        &self.identifier
    }

    pub fn get_first_token(&self) -> (r: Option<&token::Token<'a>>)
        ensures
            deref_opt(r) == first_of(tokens_of(ParseTree::RolePrincipal(*self))),
        decreases *self, 0nat,
    {
        assert(tokens_of(ParseTree::RolePrincipal(*self)) == tokens_of(*self.role) + tokens_of(*self.identifier)) by {
            reveal_with_fuel(tokens_of, 1);
        }
        if let Some(token) = self.role.get_first_token() {
            return Some(token);
        }
        if let Some(token) = self.identifier.get_first_token() {
            return Some(token);
        }
        None
    }

    pub fn get_last_token(&self) -> (r: Option<&token::Token<'a>>)
        ensures
            deref_opt(r) == last_of(tokens_of(ParseTree::RolePrincipal(*self))),
        decreases *self, 0nat,
    {
        assert(tokens_of(ParseTree::RolePrincipal(*self)) == tokens_of(*self.role) + tokens_of(*self.identifier)) by {
            reveal_with_fuel(tokens_of, 1);
        }
        if let Some(token) = self.identifier.get_last_token() {
            return Some(token);
        }
        if let Some(token) = self.role.get_last_token() {
            return Some(token);
        }
        None
    }
}

#[derive(Debug)]
pub struct UnspecifiedPrincipal<'a> {
    pub identifier: Box<ParseTree<'a>>,
}

pub fn unspecified_principal<'a>(
    identifier: ParseTree<'a>,
) -> (r: ParseTree<'a>)
    ensures
        r == ParseTree::UnspecifiedPrincipal(UnspecifiedPrincipal { identifier: Box::new(identifier) }),
        tokens_of(r) == tokens_of(identifier),
        tree_wf(r) == (tree_wf(identifier)),
        lossless(r) == (lossless(identifier)),
{
    assert(tokens_of(ParseTree::UnspecifiedPrincipal(UnspecifiedPrincipal { identifier: Box::new(identifier) })) == tokens_of(identifier)) by {
        reveal_with_fuel(tokens_of, 1);
    }
    assert(tree_wf(ParseTree::UnspecifiedPrincipal(UnspecifiedPrincipal { identifier: Box::new(identifier) })) == (tree_wf(identifier))) by {
        reveal_with_fuel(tree_wf, 1);
    }
    assert(lossless(ParseTree::UnspecifiedPrincipal(UnspecifiedPrincipal { identifier: Box::new(identifier) })) == (lossless(identifier))) by {
        reveal_with_fuel(lossless, 1);
    }
    ParseTree::UnspecifiedPrincipal(UnspecifiedPrincipal { identifier: Box::new(identifier) })
}

impl<'a> UnspecifiedPrincipal<'a> {
    pub fn to_tree(self) -> (r: ParseTree<'a>)
        ensures
            r == ParseTree::UnspecifiedPrincipal(self),
    {
        ParseTree::UnspecifiedPrincipal(self)
    }

    pub fn children(&self) -> (r: Vec<&ParseTree<'a>>)
        ensures
            deref_seq(r@) == children_of(ParseTree::UnspecifiedPrincipal(*self)),
    {
        let mut result: Vec<&ParseTree<'a>> = Vec::new();
        result.push(&*self.identifier);
        assert(deref_seq(result@) =~= children_of(ParseTree::UnspecifiedPrincipal(*self)));
        result
    }

    pub fn unbox(self) -> (r: (ParseTree<'a>,))
        ensures
            r == (*self.identifier,),
    {
        (*self.identifier,)
    }

    pub fn get_first_child(&self) -> (r: &ParseTree<'a>)
        ensures
            *r == *self.identifier,
    {
        &self.identifier
    }

    pub fn get_last_child(&self) -> (r: &ParseTree<'a>)
        ensures
            *r == *self.identifier,
    {
        &self.identifier
    }

    pub fn get_first_token(&self) -> (r: Option<&token::Token<'a>>)
        ensures
            deref_opt(r) == first_of(tokens_of(ParseTree::UnspecifiedPrincipal(*self))),
        decreases *self, 0nat,
    {
        assert(tokens_of(ParseTree::UnspecifiedPrincipal(*self)) == tokens_of(*self.identifier)) by {
            reveal_with_fuel(tokens_of, 1);
        }
        if let Some(token) = self.identifier.get_first_token() {
            return Some(token);
        }
        None
    }

    pub fn get_last_token(&self) -> (r: Option<&token::Token<'a>>)
        ensures
            deref_opt(r) == last_of(tokens_of(ParseTree::UnspecifiedPrincipal(*self))),
        decreases *self, 0nat,
    {
        assert(tokens_of(ParseTree::UnspecifiedPrincipal(*self)) == tokens_of(*self.identifier)) by {
            reveal_with_fuel(tokens_of, 1);
        }
        if let Some(token) = self.identifier.get_last_token() {
            return Some(token);
        }
        None
    }
}

#[derive(Debug)]
pub struct CreateTableAsSelect<'a> {
    pub create: Box<ParseTree<'a>>,
    pub table: Box<ParseTree<'a>>,
    pub if_not_exists_opt: Box<ParseTree<'a>>,
    pub table_name: Box<ParseTree<'a>>,
    pub column_aliases_opt: Box<ParseTree<'a>>,
    pub comment_opt: Box<ParseTree<'a>>,
    pub with_properties_opt: Box<ParseTree<'a>>,
    pub as_: Box<ParseTree<'a>>,
    pub open_paren_opt: Box<ParseTree<'a>>,
    pub query: Box<ParseTree<'a>>,
    pub close_paren_opt: Box<ParseTree<'a>>,
    pub with_data_opt: Box<ParseTree<'a>>,
}

pub fn create_table_as_select<'a>(
    create: ParseTree<'a>,
    table: ParseTree<'a>,
    if_not_exists_opt: ParseTree<'a>,
    table_name: ParseTree<'a>,
    column_aliases_opt: ParseTree<'a>,
    comment_opt: ParseTree<'a>,
    with_properties_opt: ParseTree<'a>,
    as_: ParseTree<'a>,
    open_paren_opt: ParseTree<'a>,
    query: ParseTree<'a>,
    close_paren_opt: ParseTree<'a>,
    with_data_opt: ParseTree<'a>,
) -> (r: ParseTree<'a>)
    ensures
        r == ParseTree::CreateTableAsSelect(CreateTableAsSelect { create: Box::new(create), table: Box::new(table), if_not_exists_opt: Box::new(if_not_exists_opt), table_name: Box::new(table_name), column_aliases_opt: Box::new(column_aliases_opt), comment_opt: Box::new(comment_opt), with_properties_opt: Box::new(with_properties_opt), as_: Box::new(as_), open_paren_opt: Box::new(open_paren_opt), query: Box::new(query), close_paren_opt: Box::new(close_paren_opt), with_data_opt: Box::new(with_data_opt) }),
        tokens_of(r) == tokens_of(create) + tokens_of(table) + tokens_of(if_not_exists_opt) + tokens_of(table_name) + tokens_of(column_aliases_opt) + tokens_of(comment_opt) + tokens_of(with_properties_opt) + tokens_of(as_) + tokens_of(open_paren_opt) + tokens_of(query) + tokens_of(close_paren_opt) + tokens_of(with_data_opt),
        tree_wf(r) == (tree_wf(create) && tree_wf(table) && tree_wf(if_not_exists_opt) && tree_wf(table_name) && tree_wf(column_aliases_opt) && tree_wf(comment_opt) && tree_wf(with_properties_opt) && tree_wf(as_) && tree_wf(open_paren_opt) && tree_wf(query) && tree_wf(close_paren_opt) && tree_wf(with_data_opt)),
        lossless(r) == (lossless(create) && lossless(table) && lossless(if_not_exists_opt) && lossless(table_name) && lossless(column_aliases_opt) && lossless(comment_opt) && lossless(with_properties_opt) && lossless(as_) && lossless(open_paren_opt) && lossless(query) && lossless(close_paren_opt) && lossless(with_data_opt)),
{
    assert(tokens_of(ParseTree::CreateTableAsSelect(CreateTableAsSelect { create: Box::new(create), table: Box::new(table), if_not_exists_opt: Box::new(if_not_exists_opt), table_name: Box::new(table_name), column_aliases_opt: Box::new(column_aliases_opt), comment_opt: Box::new(comment_opt), with_properties_opt: Box::new(with_properties_opt), as_: Box::new(as_), open_paren_opt: Box::new(open_paren_opt), query: Box::new(query), close_paren_opt: Box::new(close_paren_opt), with_data_opt: Box::new(with_data_opt) })) == tokens_of(create) + tokens_of(table) + tokens_of(if_not_exists_opt) + tokens_of(table_name) + tokens_of(column_aliases_opt) + tokens_of(comment_opt) + tokens_of(with_properties_opt) + tokens_of(as_) + tokens_of(open_paren_opt) + tokens_of(query) + tokens_of(close_paren_opt) + tokens_of(with_data_opt)) by {
        reveal_with_fuel(tokens_of, 1);
    }
    assert(tree_wf(ParseTree::CreateTableAsSelect(CreateTableAsSelect { create: Box::new(create), table: Box::new(table), if_not_exists_opt: Box::new(if_not_exists_opt), table_name: Box::new(table_name), column_aliases_opt: Box::new(column_aliases_opt), comment_opt: Box::new(comment_opt), with_properties_opt: Box::new(with_properties_opt), as_: Box::new(as_), open_paren_opt: Box::new(open_paren_opt), query: Box::new(query), close_paren_opt: Box::new(close_paren_opt), with_data_opt: Box::new(with_data_opt) })) == (tree_wf(create) && tree_wf(table) && tree_wf(if_not_exists_opt) && tree_wf(table_name) && tree_wf(column_aliases_opt) && tree_wf(comment_opt) && tree_wf(with_properties_opt) && tree_wf(as_) && tree_wf(open_paren_opt) && tree_wf(query) && tree_wf(close_paren_opt) && tree_wf(with_data_opt))) by {
        reveal_with_fuel(tree_wf, 1);
    }
    assert(lossless(ParseTree::CreateTableAsSelect(CreateTableAsSelect { create: Box::new(create), table: Box::new(table), if_not_exists_opt: Box::new(if_not_exists_opt), table_name: Box::new(table_name), column_aliases_opt: Box::new(column_aliases_opt), comment_opt: Box::new(comment_opt), with_properties_opt: Box::new(with_properties_opt), as_: Box::new(as_), open_paren_opt: Box::new(open_paren_opt), query: Box::new(query), close_paren_opt: Box::new(close_paren_opt), with_data_opt: Box::new(with_data_opt) })) == (lossless(create) && lossless(table) && lossless(if_not_exists_opt) && lossless(table_name) && lossless(column_aliases_opt) && lossless(comment_opt) && lossless(with_properties_opt) && lossless(as_) && lossless(open_paren_opt) && lossless(query) && lossless(close_paren_opt) && lossless(with_data_opt))) by {
        reveal_with_fuel(lossless, 1);
    }
    ParseTree::CreateTableAsSelect(CreateTableAsSelect { create: Box::new(create), table: Box::new(table), if_not_exists_opt: Box::new(if_not_exists_opt), table_name: Box::new(table_name), column_aliases_opt: Box::new(column_aliases_opt), comment_opt: Box::new(comment_opt), with_properties_opt: Box::new(with_properties_opt), as_: Box::new(as_), open_paren_opt: Box::new(open_paren_opt), query: Box::new(query), close_paren_opt: Box::new(close_paren_opt), with_data_opt: Box::new(with_data_opt) })
}

impl<'a> CreateTableAsSelect<'a> {
    pub fn to_tree(self) -> (r: ParseTree<'a>)
        ensures
            r == ParseTree::CreateTableAsSelect(self),
    {
        ParseTree::CreateTableAsSelect(self)
    }

    pub fn children(&self) -> (r: Vec<&ParseTree<'a>>)
        ensures
            deref_seq(r@) == children_of(ParseTree::CreateTableAsSelect(*self)),
    {
        let mut result: Vec<&ParseTree<'a>> = Vec::new();
        result.push(&*self.create);
        result.push(&*self.table);
        result.push(&*self.if_not_exists_opt);
        result.push(&*self.table_name);
        result.push(&*self.column_aliases_opt);
        result.push(&*self.comment_opt);
        result.push(&*self.with_properties_opt);
        result.push(&*self.as_);
        result.push(&*self.open_paren_opt);
        result.push(&*self.query);
        result.push(&*self.close_paren_opt);
        result.push(&*self.with_data_opt);
        assert(deref_seq(result@) =~= children_of(ParseTree::CreateTableAsSelect(*self)));
        result
    }

    pub fn unbox(self) -> (r: (ParseTree<'a>, ParseTree<'a>, ParseTree<'a>, ParseTree<'a>, ParseTree<'a>, ParseTree<'a>, ParseTree<'a>, ParseTree<'a>, ParseTree<'a>, ParseTree<'a>, ParseTree<'a>, ParseTree<'a>))
        ensures
            r == (*self.create, *self.table, *self.if_not_exists_opt, *self.table_name, *self.column_aliases_opt, *self.comment_opt, *self.with_properties_opt, *self.as_, *self.open_paren_opt, *self.query, *self.close_paren_opt, *self.with_data_opt),
    {
        (*self.create, *self.table, *self.if_not_exists_opt, *self.table_name, *self.column_aliases_opt, *self.comment_opt, *self.with_properties_opt, *self.as_, *self.open_paren_opt, *self.query, *self.close_paren_opt, *self.with_data_opt)
    }

    pub fn get_first_child(&self) -> (r: &ParseTree<'a>)
        ensures
            *r == *self.create,
    {
        &self.create
    }

    pub fn get_last_child(&self) -> (r: &ParseTree<'a>)
        ensures
            *r == *self.with_data_opt,
    {
        &self.with_data_opt
    }

    pub fn get_first_token(&self) -> (r: Option<&token::Token<'a>>)
        ensures
            deref_opt(r) == first_of(tokens_of(ParseTree::CreateTableAsSelect(*self))),
        decreases *self, 0nat,
    {
        assert(tokens_of(ParseTree::CreateTableAsSelect(*self)) == tokens_of(*self.create) + tokens_of(*self.table) + tokens_of(*self.if_not_exists_opt) + tokens_of(*self.table_name) + tokens_of(*self.column_aliases_opt) + tokens_of(*self.comment_opt) + tokens_of(*self.with_properties_opt) + tokens_of(*self.as_) + tokens_of(*self.open_paren_opt) + tokens_of(*self.query) + tokens_of(*self.close_paren_opt) + tokens_of(*self.with_data_opt)) by {
            reveal_with_fuel(tokens_of, 1);
        }
        if let Some(token) = self.create.get_first_token() {
            return Some(token);
        }
        if let Some(token) = self.table.get_first_token() {
            return Some(token);
        }
        if let Some(token) = self.if_not_exists_opt.get_first_token() {
            return Some(token);
        }
        if let Some(token) = self.table_name.get_first_token() {
            return Some(token);
        }
        if let Some(token) = self.column_aliases_opt.get_first_token() {
            return Some(token);
        }
        if let Some(token) = self.comment_opt.get_first_token() {
            return Some(token);
        }
        if let Some(token) = self.with_properties_opt.get_first_token() {
            return Some(token);
        }
        if let Some(token) = self.as_.get_first_token() {
            return Some(token);
        }
        if let Some(token) = self.open_paren_opt.get_first_token() {
            return Some(token);
        }
        if let Some(token) = self.query.get_first_token() {
            return Some(token);
        }
        if let Some(token) = self.close_paren_opt.get_first_token() {
            return Some(token);
        }
        if let Some(token) = self.with_data_opt.get_first_token() {
            return Some(token);
        }
        None
    }

    pub fn get_last_token(&self) -> (r: Option<&token::Token<'a>>)
        ensures
            deref_opt(r) == last_of(tokens_of(ParseTree::CreateTableAsSelect(*self))),
        decreases *self, 0nat,
    {
        assert(tokens_of(ParseTree::CreateTableAsSelect(*self)) == tokens_of(*self.create) + tokens_of(*self.table) + tokens_of(*self.if_not_exists_opt) + tokens_of(*self.table_name) + tokens_of(*self.column_aliases_opt) + tokens_of(*self.comment_opt) + tokens_of(*self.with_properties_opt) + tokens_of(*self.as_) + tokens_of(*self.open_paren_opt) + tokens_of(*self.query) + tokens_of(*self.close_paren_opt) + tokens_of(*self.with_data_opt)) by {
            reveal_with_fuel(tokens_of, 1);
        }
        if let Some(token) = self.with_data_opt.get_last_token() {
            return Some(token);
        }
        if let Some(token) = self.close_paren_opt.get_last_token() {
            return Some(token);
        }
        if let Some(token) = self.query.get_last_token() {
            return Some(token);
        }
        if let Some(token) = self.open_paren_opt.get_last_token() {
            return Some(token);
        }
        if let Some(token) = self.as_.get_last_token() {
            return Some(token);
        }
        if let Some(token) = self.with_properties_opt.get_last_token() {
            return Some(token);
        }
        if let Some(token) = self.comment_opt.get_last_token() {
            return Some(token);
        }
        if let Some(token) = self.column_aliases_opt.get_last_token() {
            return Some(token);
        }
        if let Some(token) = self.table_name.get_last_token() {
            return Some(token);
        }
        if let Some(token) = self.if_not_exists_opt.get_last_token() {
            return Some(token);
        }
        if let Some(token) = self.table.get_last_token() {
            return Some(token);
        }
        if let Some(token) = self.create.get_last_token() {
            return Some(token);
        }
        None
    }
}

#[derive(Debug)]
pub struct WithProperties<'a> {
    pub with: Box<ParseTree<'a>>,
    pub properties: Box<ParseTree<'a>>,
}

pub fn with_properties<'a>(
    with: ParseTree<'a>,
    properties: ParseTree<'a>,
) -> (r: ParseTree<'a>)
    ensures
        r == ParseTree::WithProperties(WithProperties { with: Box::new(with), properties: Box::new(properties) }),
        tokens_of(r) == tokens_of(with) + tokens_of(properties),
        tree_wf(r) == (tree_wf(with) && tree_wf(properties)),
        lossless(r) == (lossless(with) && lossless(properties)),
{
    assert(tokens_of(ParseTree::WithProperties(WithProperties { with: Box::new(with), properties: Box::new(properties) })) == tokens_of(with) + tokens_of(properties)) by {
        reveal_with_fuel(tokens_of, 1);
    }
    assert(tree_wf(ParseTree::WithProperties(WithProperties { with: Box::new(with), properties: Box::new(properties) })) == (tree_wf(with) && tree_wf(properties))) by {
        reveal_with_fuel(tree_wf, 1);
    }
    assert(lossless(ParseTree::WithProperties(WithProperties { with: Box::new(with), properties: Box::new(properties) })) == (lossless(with) && lossless(properties))) by {
        reveal_with_fuel(lossless, 1);
    }
    ParseTree::WithProperties(WithProperties { with: Box::new(with), properties: Box::new(properties) })
}

impl<'a> WithProperties<'a> {
    pub fn to_tree(self) -> (r: ParseTree<'a>)
        ensures
            r == ParseTree::WithProperties(self),
    {
        ParseTree::WithProperties(self)
    }

    pub fn children(&self) -> (r: Vec<&ParseTree<'a>>)
        ensures
            deref_seq(r@) == children_of(ParseTree::WithProperties(*self)),
    {
        let mut result: Vec<&ParseTree<'a>> = Vec::new();
        result.push(&*self.with);
        result.push(&*self.properties);
        assert(deref_seq(result@) =~= children_of(ParseTree::WithProperties(*self)));
        result
    }

    pub fn unbox(self) -> (r: (ParseTree<'a>, ParseTree<'a>))
        ensures
            r == (*self.with, *self.properties),
    {
        (*self.with, *self.properties)
    }

    pub fn get_first_child(&self) -> (r: &ParseTree<'a>)
        ensures
            *r == *self.with,
    {
        &self.with
    }

    pub fn get_last_child(&self) -> (r: &ParseTree<'a>)
        ensures
            *r == *self.properties,
    {
        &self.properties
    }

    pub fn get_first_token(&self) -> (r: Option<&token::Token<'a>>)
        ensures
            deref_opt(r) == first_of(tokens_of(ParseTree::WithProperties(*self))),
        decreases *self, 0nat,
    {
        assert(tokens_of(ParseTree::WithProperties(*self)) == tokens_of(*self.with) + tokens_of(*self.properties)) by {
            reveal_with_fuel(tokens_of, 1);
        }
        if let Some(token) = self.with.get_first_token() {
            return Some(token);
        }
        if let Some(token) = self.properties.get_first_token() {
            return Some(token);
        }
        None
    }

    pub fn get_last_token(&self) -> (r: Option<&token::Token<'a>>)
        ensures
            deref_opt(r) == last_of(tokens_of(ParseTree::WithProperties(*self))),
        decreases *self, 0nat,
    {
        assert(tokens_of(ParseTree::WithProperties(*self)) == tokens_of(*self.with) + tokens_of(*self.properties)) by {
            reveal_with_fuel(tokens_of, 1);
        }
        if let Some(token) = self.properties.get_last_token() {
            return Some(token);
        }
        if let Some(token) = self.with.get_last_token() {
            return Some(token);
        }
        None
    }
}

#[derive(Debug)]
pub struct Property<'a> {
    pub identifier: Box<ParseTree<'a>>,
    pub eq: Box<ParseTree<'a>>,
    pub value: Box<ParseTree<'a>>,
}

pub fn property<'a>(
    identifier: ParseTree<'a>,
    eq: ParseTree<'a>,
    value: ParseTree<'a>,
) -> (r: ParseTree<'a>)
    ensures
        r == ParseTree::Property(Property { identifier: Box::new(identifier), eq: Box::new(eq), value: Box::new(value) }),
        tokens_of(r) == tokens_of(identifier) + tokens_of(eq) + tokens_of(value),
        tree_wf(r) == (tree_wf(identifier) && tree_wf(eq) && tree_wf(value)),
        lossless(r) == (lossless(identifier) && lossless(eq) && lossless(value)),
{
    assert(tokens_of(ParseTree::Property(Property { identifier: Box::new(identifier), eq: Box::new(eq), value: Box::new(value) })) == tokens_of(identifier) + tokens_of(eq) + tokens_of(value)) by {
        reveal_with_fuel(tokens_of, 1);
    }
    assert(tree_wf(ParseTree::Property(Property { identifier: Box::new(identifier), eq: Box::new(eq), value: Box::new(value) })) == (tree_wf(identifier) && tree_wf(eq) && tree_wf(value))) by {
        reveal_with_fuel(tree_wf, 1);
    }
    assert(lossless(ParseTree::Property(Property { identifier: Box::new(identifier), eq: Box::new(eq), value: Box::new(value) })) == (lossless(identifier) && lossless(eq) && lossless(value))) by {
        reveal_with_fuel(lossless, 1);
    }
    ParseTree::Property(Property { identifier: Box::new(identifier), eq: Box::new(eq), value: Box::new(value) })
}

impl<'a> Property<'a> {
    pub fn to_tree(self) -> (r: ParseTree<'a>)
        ensures
            r == ParseTree::Property(self),
    {
        ParseTree::Property(self)
    }

    pub fn children(&self) -> (r: Vec<&ParseTree<'a>>)
        ensures
            deref_seq(r@) == children_of(ParseTree::Property(*self)),
    {
        let mut result: Vec<&ParseTree<'a>> = Vec::new();
        result.push(&*self.identifier);
        result.push(&*self.eq);
        result.push(&*self.value);
        assert(deref_seq(result@) =~= children_of(ParseTree::Property(*self)));
        result
    }

    pub fn unbox(self) -> (r: (ParseTree<'a>, ParseTree<'a>, ParseTree<'a>))
        ensures
            r == (*self.identifier, *self.eq, *self.value),
    {
        (*self.identifier, *self.eq, *self.value)
    }

    pub fn get_first_child(&self) -> (r: &ParseTree<'a>)
        ensures
            *r == *self.identifier,
    {
        &self.identifier
    }

    pub fn get_last_child(&self) -> (r: &ParseTree<'a>)
        ensures
            *r == *self.value,
    {
        &self.value
    }

    pub fn get_first_token(&self) -> (r: Option<&token::Token<'a>>)
        ensures
            deref_opt(r) == first_of(tokens_of(ParseTree::Property(*self))),
        decreases *self, 0nat,
    {
        assert(tokens_of(ParseTree::Property(*self)) == tokens_of(*self.identifier) + tokens_of(*self.eq) + tokens_of(*self.value)) by {
            reveal_with_fuel(tokens_of, 1);
        }
        if let Some(token) = self.identifier.get_first_token() {
            return Some(token);
        }
        if let Some(token) = self.eq.get_first_token() {
            return Some(token);
        }
        if let Some(token) = self.value.get_first_token() {
            return Some(token);
        }
        None
    }

    pub fn get_last_token(&self) -> (r: Option<&token::Token<'a>>)
        ensures
            deref_opt(r) == last_of(tokens_of(ParseTree::Property(*self))),
        decreases *self, 0nat,
    {
        assert(tokens_of(ParseTree::Property(*self)) == tokens_of(*self.identifier) + tokens_of(*self.eq) + tokens_of(*self.value)) by {
            reveal_with_fuel(tokens_of, 1);
        }
        if let Some(token) = self.value.get_last_token() {
            return Some(token);
        }
        if let Some(token) = self.eq.get_last_token() {
            return Some(token);
        }
        if let Some(token) = self.identifier.get_last_token() {
            return Some(token);
        }
        None
    }
}

#[derive(Debug)]
pub struct WithData<'a> {
    pub with: Box<ParseTree<'a>>,
    pub no_opt: Box<ParseTree<'a>>,
    pub data: Box<ParseTree<'a>>,
}

pub fn with_data<'a>(
    with: ParseTree<'a>,
    no_opt: ParseTree<'a>,
    data: ParseTree<'a>,
) -> (r: ParseTree<'a>)
    ensures
        r == ParseTree::WithData(WithData { with: Box::new(with), no_opt: Box::new(no_opt), data: Box::new(data) }),
        tokens_of(r) == tokens_of(with) + tokens_of(no_opt) + tokens_of(data),
        tree_wf(r) == (tree_wf(with) && tree_wf(no_opt) && tree_wf(data)),
        lossless(r) == (lossless(with) && lossless(no_opt) && lossless(data)),
{
    assert(tokens_of(ParseTree::WithData(WithData { with: Box::new(with), no_opt: Box::new(no_opt), data: Box::new(data) })) == tokens_of(with) + tokens_of(no_opt) + tokens_of(data)) by {
        reveal_with_fuel(tokens_of, 1);
    }
    assert(tree_wf(ParseTree::WithData(WithData { with: Box::new(with), no_opt: Box::new(no_opt), data: Box::new(data) })) == (tree_wf(with) && tree_wf(no_opt) && tree_wf(data))) by {
        reveal_with_fuel(tree_wf, 1);
    }
    assert(lossless(ParseTree::WithData(WithData { with: Box::new(with), no_opt: Box::new(no_opt), data: Box::new(data) })) == (lossless(with) && lossless(no_opt) && lossless(data))) by {
        reveal_with_fuel(lossless, 1);
    }
    ParseTree::WithData(WithData { with: Box::new(with), no_opt: Box::new(no_opt), data: Box::new(data) })
}

impl<'a> WithData<'a> {
    pub fn to_tree(self) -> (r: ParseTree<'a>)
        ensures
            r == ParseTree::WithData(self),
    {
        ParseTree::WithData(self)
    }

    pub fn children(&self) -> (r: Vec<&ParseTree<'a>>)
        ensures
            deref_seq(r@) == children_of(ParseTree::WithData(*self)),
    {
        let mut result: Vec<&ParseTree<'a>> = Vec::new();
        result.push(&*self.with);
        result.push(&*self.no_opt);
        result.push(&*self.data);
        assert(deref_seq(result@) =~= children_of(ParseTree::WithData(*self)));
        result
    }

    pub fn unbox(self) -> (r: (ParseTree<'a>, ParseTree<'a>, ParseTree<'a>))
        ensures
            r == (*self.with, *self.no_opt, *self.data),
    {
        (*self.with, *self.no_opt, *self.data)
    }

    pub fn get_first_child(&self) -> (r: &ParseTree<'a>)
        ensures
            *r == *self.with,
    {
        &self.with
    }

    pub fn get_last_child(&self) -> (r: &ParseTree<'a>)
        ensures
            *r == *self.data,
    {
        &self.data
    }

    pub fn get_first_token(&self) -> (r: Option<&token::Token<'a>>)
        ensures
            deref_opt(r) == first_of(tokens_of(ParseTree::WithData(*self))),
        decreases *self, 0nat,
    {
        assert(tokens_of(ParseTree::WithData(*self)) == tokens_of(*self.with) + tokens_of(*self.no_opt) + tokens_of(*self.data)) by {
            reveal_with_fuel(tokens_of, 1);
        }
        if let Some(token) = self.with.get_first_token() {
            return Some(token);
        }
        if let Some(token) = self.no_opt.get_first_token() {
            return Some(token);
        }
        if let Some(token) = self.data.get_first_token() {
            return Some(token);
        }
        None
    }

    pub fn get_last_token(&self) -> (r: Option<&token::Token<'a>>)
        ensures
            deref_opt(r) == last_of(tokens_of(ParseTree::WithData(*self))),
        decreases *self, 0nat,
    {
        assert(tokens_of(ParseTree::WithData(*self)) == tokens_of(*self.with) + tokens_of(*self.no_opt) + tokens_of(*self.data)) by {
            reveal_with_fuel(tokens_of, 1);
        }
        if let Some(token) = self.data.get_last_token() {
            return Some(token);
        }
        if let Some(token) = self.no_opt.get_last_token() {
            return Some(token);
        }
        if let Some(token) = self.with.get_last_token() {
            return Some(token);
        }
        None
    }
}

#[derive(Debug)]
pub struct Comment<'a> {
    pub comment: Box<ParseTree<'a>>,
    pub value: Box<ParseTree<'a>>,
}

pub fn comment<'a>(
    comment_tree: ParseTree<'a>,
    value: ParseTree<'a>,
) -> (r: ParseTree<'a>)
    ensures
        r == ParseTree::Comment(Comment { comment: Box::new(comment_tree), value: Box::new(value) }),
        tokens_of(r) == tokens_of(comment_tree) + tokens_of(value),
        tree_wf(r) == (tree_wf(comment_tree) && tree_wf(value)),
        lossless(r) == (lossless(comment_tree) && lossless(value)),
{
    assert(tokens_of(ParseTree::Comment(Comment { comment: Box::new(comment_tree), value: Box::new(value) })) == tokens_of(comment_tree) + tokens_of(value)) by {
        reveal_with_fuel(tokens_of, 1);
    }
    assert(tree_wf(ParseTree::Comment(Comment { comment: Box::new(comment_tree), value: Box::new(value) })) == (tree_wf(comment_tree) && tree_wf(value))) by {
        reveal_with_fuel(tree_wf, 1);
    }
    assert(lossless(ParseTree::Comment(Comment { comment: Box::new(comment_tree), value: Box::new(value) })) == (lossless(comment_tree) && lossless(value))) by {
        reveal_with_fuel(lossless, 1);
    }
    ParseTree::Comment(Comment { comment: Box::new(comment_tree), value: Box::new(value) })
}

impl<'a> Comment<'a> {
    pub fn to_tree(self) -> (r: ParseTree<'a>)
        ensures
            r == ParseTree::Comment(self),
    {
        ParseTree::Comment(self)
    }

    pub fn children(&self) -> (r: Vec<&ParseTree<'a>>)
        ensures
            deref_seq(r@) == children_of(ParseTree::Comment(*self)),
    {
        let mut result: Vec<&ParseTree<'a>> = Vec::new();
        result.push(&*self.comment);
        result.push(&*self.value);
        assert(deref_seq(result@) =~= children_of(ParseTree::Comment(*self)));
        result
    }

    pub fn unbox(self) -> (r: (ParseTree<'a>, ParseTree<'a>))
        ensures
            r == (*self.comment, *self.value),
    {
        (*self.comment, *self.value)
    }

    pub fn get_first_child(&self) -> (r: &ParseTree<'a>)
        ensures
            *r == *self.comment,
    {
        &self.comment
    }

    pub fn get_last_child(&self) -> (r: &ParseTree<'a>)
        ensures
            *r == *self.value,
    {
        &self.value
    }

    pub fn get_first_token(&self) -> (r: Option<&token::Token<'a>>)
        ensures
            deref_opt(r) == first_of(tokens_of(ParseTree::Comment(*self))),
        decreases *self, 0nat,
    {
        assert(tokens_of(ParseTree::Comment(*self)) == tokens_of(*self.comment) + tokens_of(*self.value)) by {
            reveal_with_fuel(tokens_of, 1);
        }
        if let Some(token) = self.comment.get_first_token() {
            return Some(token);
        }
        if let Some(token) = self.value.get_first_token() {
            return Some(token);
        }
        None
    }

    pub fn get_last_token(&self) -> (r: Option<&token::Token<'a>>)
        ensures
            deref_opt(r) == last_of(tokens_of(ParseTree::Comment(*self))),
        decreases *self, 0nat,
    {
        assert(tokens_of(ParseTree::Comment(*self)) == tokens_of(*self.comment) + tokens_of(*self.value)) by {
            reveal_with_fuel(tokens_of, 1);
        }
        if let Some(token) = self.value.get_last_token() {
            return Some(token);
        }
        if let Some(token) = self.comment.get_last_token() {
            return Some(token);
        }
        None
    }
}

#[derive(Debug)]
pub struct ColumnDefinition<'a> {
    pub identifier: Box<ParseTree<'a>>,
    pub type_: Box<ParseTree<'a>>,
    pub not_null_opt: Box<ParseTree<'a>>,
    pub comment_opt: Box<ParseTree<'a>>,
    pub with_properties_opt: Box<ParseTree<'a>>,
}

pub fn column_definition<'a>(
    identifier: ParseTree<'a>,
    type_: ParseTree<'a>,
    not_null_opt: ParseTree<'a>,
    comment_opt: ParseTree<'a>,
    with_properties_opt: ParseTree<'a>,
) -> (r: ParseTree<'a>)
    ensures
        r == ParseTree::ColumnDefinition(ColumnDefinition { identifier: Box::new(identifier), type_: Box::new(type_), not_null_opt: Box::new(not_null_opt), comment_opt: Box::new(comment_opt), with_properties_opt: Box::new(with_properties_opt) }),
        tokens_of(r) == tokens_of(identifier) + tokens_of(type_) + tokens_of(not_null_opt) + tokens_of(comment_opt) + tokens_of(with_properties_opt),
        tree_wf(r) == (tree_wf(identifier) && tree_wf(type_) && tree_wf(not_null_opt) && tree_wf(comment_opt) && tree_wf(with_properties_opt)),
        lossless(r) == (lossless(identifier) && lossless(type_) && lossless(not_null_opt) && lossless(comment_opt) && lossless(with_properties_opt)),
{
    assert(tokens_of(ParseTree::ColumnDefinition(ColumnDefinition { identifier: Box::new(identifier), type_: Box::new(type_), not_null_opt: Box::new(not_null_opt), comment_opt: Box::new(comment_opt), with_properties_opt: Box::new(with_properties_opt) })) == tokens_of(identifier) + tokens_of(type_) + tokens_of(not_null_opt) + tokens_of(comment_opt) + tokens_of(with_properties_opt)) by {
        reveal_with_fuel(tokens_of, 1);
    }
    assert(tree_wf(ParseTree::ColumnDefinition(ColumnDefinition { identifier: Box::new(identifier), type_: Box::new(type_), not_null_opt: Box::new(not_null_opt), comment_opt: Box::new(comment_opt), with_properties_opt: Box::new(with_properties_opt) })) == (tree_wf(identifier) && tree_wf(type_) && tree_wf(not_null_opt) && tree_wf(comment_opt) && tree_wf(with_properties_opt))) by {
        reveal_with_fuel(tree_wf, 1);
    }
    assert(lossless(ParseTree::ColumnDefinition(ColumnDefinition { identifier: Box::new(identifier), type_: Box::new(type_), not_null_opt: Box::new(not_null_opt), comment_opt: Box::new(comment_opt), with_properties_opt: Box::new(with_properties_opt) })) == (lossless(identifier) && lossless(type_) && lossless(not_null_opt) && lossless(comment_opt) && lossless(with_properties_opt))) by {
        reveal_with_fuel(lossless, 1);
    }
    ParseTree::ColumnDefinition(ColumnDefinition { identifier: Box::new(identifier), type_: Box::new(type_), not_null_opt: Box::new(not_null_opt), comment_opt: Box::new(comment_opt), with_properties_opt: Box::new(with_properties_opt) })
}

impl<'a> ColumnDefinition<'a> {
    pub fn to_tree(self) -> (r: ParseTree<'a>)
        ensures
            r == ParseTree::ColumnDefinition(self),
    {
        ParseTree::ColumnDefinition(self)
    }

    pub fn children(&self) -> (r: Vec<&ParseTree<'a>>)
        ensures
            deref_seq(r@) == children_of(ParseTree::ColumnDefinition(*self)),
    {
        let mut result: Vec<&ParseTree<'a>> = Vec::new();
        result.push(&*self.identifier);
        result.push(&*self.type_);
        result.push(&*self.not_null_opt);
        result.push(&*self.comment_opt);
        result.push(&*self.with_properties_opt);
        assert(deref_seq(result@) =~= children_of(ParseTree::ColumnDefinition(*self)));
        result
    }

    pub fn unbox(self) -> (r: (ParseTree<'a>, ParseTree<'a>, ParseTree<'a>, ParseTree<'a>, ParseTree<'a>))
        ensures
            r == (*self.identifier, *self.type_, *self.not_null_opt, *self.comment_opt, *self.with_properties_opt),
    {
        (*self.identifier, *self.type_, *self.not_null_opt, *self.comment_opt, *self.with_properties_opt)
    }

    pub fn get_first_child(&self) -> (r: &ParseTree<'a>)
        ensures
            *r == *self.identifier,
    {
        &self.identifier
    }

    pub fn get_last_child(&self) -> (r: &ParseTree<'a>)
        ensures
            *r == *self.with_properties_opt,
    {
        &self.with_properties_opt
    }

    pub fn get_first_token(&self) -> (r: Option<&token::Token<'a>>)
        ensures
            deref_opt(r) == first_of(tokens_of(ParseTree::ColumnDefinition(*self))),
        decreases *self, 0nat,
    {
        assert(tokens_of(ParseTree::ColumnDefinition(*self)) == tokens_of(*self.identifier) + tokens_of(*self.type_) + tokens_of(*self.not_null_opt) + tokens_of(*self.comment_opt) + tokens_of(*self.with_properties_opt)) by {
            reveal_with_fuel(tokens_of, 1);
        }
        if let Some(token) = self.identifier.get_first_token() {
            return Some(token);
        }
        if let Some(token) = self.type_.get_first_token() {
            return Some(token);
        }
        if let Some(token) = self.not_null_opt.get_first_token() {
            return Some(token);
        }
        if let Some(token) = self.comment_opt.get_first_token() {
            return Some(token);
        }
        if let Some(token) = self.with_properties_opt.get_first_token() {
            return Some(token);
        }
        None
    }

    pub fn get_last_token(&self) -> (r: Option<&token::Token<'a>>)
        ensures
            deref_opt(r) == last_of(tokens_of(ParseTree::ColumnDefinition(*self))),
        decreases *self, 0nat,
    {
        assert(tokens_of(ParseTree::ColumnDefinition(*self)) == tokens_of(*self.identifier) + tokens_of(*self.type_) + tokens_of(*self.not_null_opt) + tokens_of(*self.comment_opt) + tokens_of(*self.with_properties_opt)) by {
            reveal_with_fuel(tokens_of, 1);
        }
        if let Some(token) = self.with_properties_opt.get_last_token() {
            return Some(token);
        }
        if let Some(token) = self.comment_opt.get_last_token() {
            return Some(token);
        }
        if let Some(token) = self.not_null_opt.get_last_token() {
            return Some(token);
        }
        if let Some(token) = self.type_.get_last_token() {
            return Some(token);
        }
        if let Some(token) = self.identifier.get_last_token() {
            return Some(token);
        }
        None
    }
}

#[derive(Debug)]
pub struct NotNull<'a> {
    pub not: Box<ParseTree<'a>>,
    pub null: Box<ParseTree<'a>>,
}

pub fn not_null<'a>(
    not: ParseTree<'a>,
    null: ParseTree<'a>,
) -> (r: ParseTree<'a>)
    ensures
        r == ParseTree::NotNull(NotNull { not: Box::new(not), null: Box::new(null) }),
        tokens_of(r) == tokens_of(not) + tokens_of(null),
        tree_wf(r) == (tree_wf(not) && tree_wf(null)),
        lossless(r) == (lossless(not) && lossless(null)),
{
    assert(tokens_of(ParseTree::NotNull(NotNull { not: Box::new(not), null: Box::new(null) })) == tokens_of(not) + tokens_of(null)) by {
        reveal_with_fuel(tokens_of, 1);
    }
    assert(tree_wf(ParseTree::NotNull(NotNull { not: Box::new(not), null: Box::new(null) })) == (tree_wf(not) && tree_wf(null))) by {
        reveal_with_fuel(tree_wf, 1);
    }
    assert(lossless(ParseTree::NotNull(NotNull { not: Box::new(not), null: Box::new(null) })) == (lossless(not) && lossless(null))) by {
        reveal_with_fuel(lossless, 1);
    }
    ParseTree::NotNull(NotNull { not: Box::new(not), null: Box::new(null) })
}

impl<'a> NotNull<'a> {
    pub fn to_tree(self) -> (r: ParseTree<'a>)
        ensures
            r == ParseTree::NotNull(self),
    {
        ParseTree::NotNull(self)
    }

    pub fn children(&self) -> (r: Vec<&ParseTree<'a>>)
        ensures
            deref_seq(r@) == children_of(ParseTree::NotNull(*self)),
    {
        let mut result: Vec<&ParseTree<'a>> = Vec::new();
        result.push(&*self.not);
        result.push(&*self.null);
        assert(deref_seq(result@) =~= children_of(ParseTree::NotNull(*self)));
        result
    }

    pub fn unbox(self) -> (r: (ParseTree<'a>, ParseTree<'a>))
        ensures
            r == (*self.not, *self.null),
    {
        (*self.not, *self.null)
    }

    pub fn get_first_child(&self) -> (r: &ParseTree<'a>)
        ensures
            *r == *self.not,
    {
        &self.not
    }

    pub fn get_last_child(&self) -> (r: &ParseTree<'a>)
        ensures
            *r == *self.null,
    {
        &self.null
    }

    pub fn get_first_token(&self) -> (r: Option<&token::Token<'a>>)
        ensures
            deref_opt(r) == first_of(tokens_of(ParseTree::NotNull(*self))),
        decreases *self, 0nat,
    {
        assert(tokens_of(ParseTree::NotNull(*self)) == tokens_of(*self.not) + tokens_of(*self.null)) by {
            reveal_with_fuel(tokens_of, 1);
        }
        if let Some(token) = self.not.get_first_token() {
            return Some(token);
        }
        if let Some(token) = self.null.get_first_token() {
            return Some(token);
        }
        None
    }

    pub fn get_last_token(&self) -> (r: Option<&token::Token<'a>>)
        ensures
            deref_opt(r) == last_of(tokens_of(ParseTree::NotNull(*self))),
        decreases *self, 0nat,
    {
        assert(tokens_of(ParseTree::NotNull(*self)) == tokens_of(*self.not) + tokens_of(*self.null)) by {
            reveal_with_fuel(tokens_of, 1);
        }
        if let Some(token) = self.null.get_last_token() {
            return Some(token);
        }
        if let Some(token) = self.not.get_last_token() {
            return Some(token);
        }
        None
    }
}

#[derive(Debug)]
pub struct LikeClause<'a> {
    pub like: Box<ParseTree<'a>>,
    pub name: Box<ParseTree<'a>>,
    pub option_type_opt: Box<ParseTree<'a>>,
    pub properties: Box<ParseTree<'a>>,
}

pub fn like_clause<'a>(
    like: ParseTree<'a>,
    name: ParseTree<'a>,
    option_type_opt: ParseTree<'a>,
    properties: ParseTree<'a>,
) -> (r: ParseTree<'a>)
    ensures
        r == ParseTree::LikeClause(LikeClause { like: Box::new(like), name: Box::new(name), option_type_opt: Box::new(option_type_opt), properties: Box::new(properties) }),
        tokens_of(r) == tokens_of(like) + tokens_of(name) + tokens_of(option_type_opt) + tokens_of(properties),
        tree_wf(r) == (tree_wf(like) && tree_wf(name) && tree_wf(option_type_opt) && tree_wf(properties)),
        lossless(r) == (lossless(like) && lossless(name) && lossless(option_type_opt) && lossless(properties)),
{
    assert(tokens_of(ParseTree::LikeClause(LikeClause { like: Box::new(like), name: Box::new(name), option_type_opt: Box::new(option_type_opt), properties: Box::new(properties) })) == tokens_of(like) + tokens_of(name) + tokens_of(option_type_opt) + tokens_of(properties)) by {
        reveal_with_fuel(tokens_of, 1);
    }
    assert(tree_wf(ParseTree::LikeClause(LikeClause { like: Box::new(like), name: Box::new(name), option_type_opt: Box::new(option_type_opt), properties: Box::new(properties) })) == (tree_wf(like) && tree_wf(name) && tree_wf(option_type_opt) && tree_wf(properties))) by {
        reveal_with_fuel(tree_wf, 1);
    }
    assert(lossless(ParseTree::LikeClause(LikeClause { like: Box::new(like), name: Box::new(name), option_type_opt: Box::new(option_type_opt), properties: Box::new(properties) })) == (lossless(like) && lossless(name) && lossless(option_type_opt) && lossless(properties))) by {
        reveal_with_fuel(lossless, 1);
    }
    ParseTree::LikeClause(LikeClause { like: Box::new(like), name: Box::new(name), option_type_opt: Box::new(option_type_opt), properties: Box::new(properties) })
}

impl<'a> LikeClause<'a> {
    pub fn to_tree(self) -> (r: ParseTree<'a>)
        ensures
            r == ParseTree::LikeClause(self),
    {
        ParseTree::LikeClause(self)
    }

    pub fn children(&self) -> (r: Vec<&ParseTree<'a>>)
        ensures
            deref_seq(r@) == children_of(ParseTree::LikeClause(*self)),
    {
        let mut result: Vec<&ParseTree<'a>> = Vec::new();
        result.push(&*self.like);
        result.push(&*self.name);
        result.push(&*self.option_type_opt);
        result.push(&*self.properties);
        assert(deref_seq(result@) =~= children_of(ParseTree::LikeClause(*self)));
        result
    }

    pub fn unbox(self) -> (r: (ParseTree<'a>, ParseTree<'a>, ParseTree<'a>, ParseTree<'a>))
        ensures
            r == (*self.like, *self.name, *self.option_type_opt, *self.properties),
    {
        (*self.like, *self.name, *self.option_type_opt, *self.properties)
    }

    pub fn get_first_child(&self) -> (r: &ParseTree<'a>)
        ensures
            *r == *self.like,
    {
        &self.like
    }

    pub fn get_last_child(&self) -> (r: &ParseTree<'a>)
        ensures
            *r == *self.properties,
    {
        &self.properties
    }

    pub fn get_first_token(&self) -> (r: Option<&token::Token<'a>>)
        ensures
            deref_opt(r) == first_of(tokens_of(ParseTree::LikeClause(*self))),
        decreases *self, 0nat,
    {
        assert(tokens_of(ParseTree::LikeClause(*self)) == tokens_of(*self.like) + tokens_of(*self.name) + tokens_of(*self.option_type_opt) + tokens_of(*self.properties)) by {
            reveal_with_fuel(tokens_of, 1);
        }
        if let Some(token) = self.like.get_first_token() {
            return Some(token);
        }
        if let Some(token) = self.name.get_first_token() {
            return Some(token);
        }
        if let Some(token) = self.option_type_opt.get_first_token() {
            return Some(token);
        }
        if let Some(token) = self.properties.get_first_token() {
            return Some(token);
        }
        None
    }

    pub fn get_last_token(&self) -> (r: Option<&token::Token<'a>>)
        ensures
            deref_opt(r) == last_of(tokens_of(ParseTree::LikeClause(*self))),
        decreases *self, 0nat,
    {
        assert(tokens_of(ParseTree::LikeClause(*self)) == tokens_of(*self.like) + tokens_of(*self.name) + tokens_of(*self.option_type_opt) + tokens_of(*self.properties)) by {
            reveal_with_fuel(tokens_of, 1);
        }
        if let Some(token) = self.properties.get_last_token() {
            return Some(token);
        }
        if let Some(token) = self.option_type_opt.get_last_token() {
            return Some(token);
        }
        if let Some(token) = self.name.get_last_token() {
            return Some(token);
        }
        if let Some(token) = self.like.get_last_token() {
            return Some(token);
        }
        None
    }
}

#[derive(Debug)]
pub struct InsertInto<'a> {
    pub insert: Box<ParseTree<'a>>,
    pub into: Box<ParseTree<'a>>,
    pub table_name: Box<ParseTree<'a>>,
    pub column_aliases_opt: Box<ParseTree<'a>>,
    pub query: Box<ParseTree<'a>>,
}

pub fn insert_into<'a>(
    insert: ParseTree<'a>,
    into: ParseTree<'a>,
    table_name: ParseTree<'a>,
    column_aliases_opt: ParseTree<'a>,
    query: ParseTree<'a>,
) -> (r: ParseTree<'a>)
    ensures
        r == ParseTree::InsertInto(InsertInto { insert: Box::new(insert), into: Box::new(into), table_name: Box::new(table_name), column_aliases_opt: Box::new(column_aliases_opt), query: Box::new(query) }),
        tokens_of(r) == tokens_of(insert) + tokens_of(into) + tokens_of(table_name) + tokens_of(column_aliases_opt) + tokens_of(query),
        tree_wf(r) == (tree_wf(insert) && tree_wf(into) && tree_wf(table_name) && tree_wf(column_aliases_opt) && tree_wf(query)),
        lossless(r) == (lossless(insert) && lossless(into) && lossless(table_name) && lossless(column_aliases_opt) && lossless(query)),
{
    assert(tokens_of(ParseTree::InsertInto(InsertInto { insert: Box::new(insert), into: Box::new(into), table_name: Box::new(table_name), column_aliases_opt: Box::new(column_aliases_opt), query: Box::new(query) })) == tokens_of(insert) + tokens_of(into) + tokens_of(table_name) + tokens_of(column_aliases_opt) + tokens_of(query)) by {
        reveal_with_fuel(tokens_of, 1);
    }
    assert(tree_wf(ParseTree::InsertInto(InsertInto { insert: Box::new(insert), into: Box::new(into), table_name: Box::new(table_name), column_aliases_opt: Box::new(column_aliases_opt), query: Box::new(query) })) == (tree_wf(insert) && tree_wf(into) && tree_wf(table_name) && tree_wf(column_aliases_opt) && tree_wf(query))) by {
        reveal_with_fuel(tree_wf, 1);
    }
    assert(lossless(ParseTree::InsertInto(InsertInto { insert: Box::new(insert), into: Box::new(into), table_name: Box::new(table_name), column_aliases_opt: Box::new(column_aliases_opt), query: Box::new(query) })) == (lossless(insert) && lossless(into) && lossless(table_name) && lossless(column_aliases_opt) && lossless(query))) by {
        reveal_with_fuel(lossless, 1);
    }
    ParseTree::InsertInto(InsertInto { insert: Box::new(insert), into: Box::new(into), table_name: Box::new(table_name), column_aliases_opt: Box::new(column_aliases_opt), query: Box::new(query) })
}

impl<'a> InsertInto<'a> {
    pub fn to_tree(self) -> (r: ParseTree<'a>)
        ensures
            r == ParseTree::InsertInto(self),
    {
        ParseTree::InsertInto(self)
    }

    pub fn children(&self) -> (r: Vec<&ParseTree<'a>>)
        ensures
            deref_seq(r@) == children_of(ParseTree::InsertInto(*self)),
    {
        let mut result: Vec<&ParseTree<'a>> = Vec::new();
        result.push(&*self.insert);
        result.push(&*self.into);
        result.push(&*self.table_name);
        result.push(&*self.column_aliases_opt);
        result.push(&*self.query);
        assert(deref_seq(result@) =~= children_of(ParseTree::InsertInto(*self)));
        result
    }

    pub fn unbox(self) -> (r: (ParseTree<'a>, ParseTree<'a>, ParseTree<'a>, ParseTree<'a>, ParseTree<'a>))
        ensures
            r == (*self.insert, *self.into, *self.table_name, *self.column_aliases_opt, *self.query),
    {
        (*self.insert, *self.into, *self.table_name, *self.column_aliases_opt, *self.query)
    }

    pub fn get_first_child(&self) -> (r: &ParseTree<'a>)
        ensures
            *r == *self.insert,
    {
        &self.insert
    }

    pub fn get_last_child(&self) -> (r: &ParseTree<'a>)
        ensures
            *r == *self.query,
    {
        &self.query
    }

    pub fn get_first_token(&self) -> (r: Option<&token::Token<'a>>)
        ensures
            deref_opt(r) == first_of(tokens_of(ParseTree::InsertInto(*self))),
        decreases *self, 0nat,
    {
        assert(tokens_of(ParseTree::InsertInto(*self)) == tokens_of(*self.insert) + tokens_of(*self.into) + tokens_of(*self.table_name) + tokens_of(*self.column_aliases_opt) + tokens_of(*self.query)) by {
            reveal_with_fuel(tokens_of, 1);
        }
        if let Some(token) = self.insert.get_first_token() {
            return Some(token);
        }
        if let Some(token) = self.into.get_first_token() {
            return Some(token);
        }
        if let Some(token) = self.table_name.get_first_token() {
            return Some(token);
        }
        if let Some(token) = self.column_aliases_opt.get_first_token() {
            return Some(token);
        }
        if let Some(token) = self.query.get_first_token() {
            return Some(token);
        }
        None
    }

    pub fn get_last_token(&self) -> (r: Option<&token::Token<'a>>)
        ensures
            deref_opt(r) == last_of(tokens_of(ParseTree::InsertInto(*self))),
        decreases *self, 0nat,
    {
        assert(tokens_of(ParseTree::InsertInto(*self)) == tokens_of(*self.insert) + tokens_of(*self.into) + tokens_of(*self.table_name) + tokens_of(*self.column_aliases_opt) + tokens_of(*self.query)) by {
            reveal_with_fuel(tokens_of, 1);
        }
        if let Some(token) = self.query.get_last_token() {
            return Some(token);
        }
        if let Some(token) = self.column_aliases_opt.get_last_token() {
            return Some(token);
        }
        if let Some(token) = self.table_name.get_last_token() {
            return Some(token);
        }
        if let Some(token) = self.into.get_last_token() {
            return Some(token);
        }
        if let Some(token) = self.insert.get_last_token() {
            return Some(token);
        }
        None
    }
}

#[derive(Debug)]
pub struct Delete<'a> {
    pub delete: Box<ParseTree<'a>>,
    pub from: Box<ParseTree<'a>>,
    pub table_name: Box<ParseTree<'a>>,
    pub where_opt: Box<ParseTree<'a>>,
    pub predicate: Box<ParseTree<'a>>,
}

pub fn delete<'a>(
    delete_tree: ParseTree<'a>,
    from: ParseTree<'a>,
    table_name: ParseTree<'a>,
    where_opt: ParseTree<'a>,
    predicate: ParseTree<'a>,
) -> (r: ParseTree<'a>)
    ensures
        r == ParseTree::Delete(Delete { delete: Box::new(delete_tree), from: Box::new(from), table_name: Box::new(table_name), where_opt: Box::new(where_opt), predicate: Box::new(predicate) }),
        tokens_of(r) == tokens_of(delete_tree) + tokens_of(from) + tokens_of(table_name) + tokens_of(where_opt) + tokens_of(predicate),
        tree_wf(r) == (tree_wf(delete_tree) && tree_wf(from) && tree_wf(table_name) && tree_wf(where_opt) && tree_wf(predicate)),
        lossless(r) == (lossless(delete_tree) && lossless(from) && lossless(table_name) && lossless(where_opt) && lossless(predicate)),
{
    assert(tokens_of(ParseTree::Delete(Delete { delete: Box::new(delete_tree), from: Box::new(from), table_name: Box::new(table_name), where_opt: Box::new(where_opt), predicate: Box::new(predicate) })) == tokens_of(delete_tree) + tokens_of(from) + tokens_of(table_name) + tokens_of(where_opt) + tokens_of(predicate)) by {
        reveal_with_fuel(tokens_of, 1);
    }
    assert(tree_wf(ParseTree::Delete(Delete { delete: Box::new(delete_tree), from: Box::new(from), table_name: Box::new(table_name), where_opt: Box::new(where_opt), predicate: Box::new(predicate) })) == (tree_wf(delete_tree) && tree_wf(from) && tree_wf(table_name) && tree_wf(where_opt) && tree_wf(predicate))) by {
        reveal_with_fuel(tree_wf, 1);
    }
    assert(lossless(ParseTree::Delete(Delete { delete: Box::new(delete_tree), from: Box::new(from), table_name: Box::new(table_name), where_opt: Box::new(where_opt), predicate: Box::new(predicate) })) == (lossless(delete_tree) && lossless(from) && lossless(table_name) && lossless(where_opt) && lossless(predicate))) by {
        reveal_with_fuel(lossless, 1);
    }
    ParseTree::Delete(Delete { delete: Box::new(delete_tree), from: Box::new(from), table_name: Box::new(table_name), where_opt: Box::new(where_opt), predicate: Box::new(predicate) })
}

impl<'a> Delete<'a> {
    pub fn to_tree(self) -> (r: ParseTree<'a>)
        ensures
            r == ParseTree::Delete(self),
    {
        ParseTree::Delete(self)
    }

    pub fn children(&self) -> (r: Vec<&ParseTree<'a>>)
        ensures
            deref_seq(r@) == children_of(ParseTree::Delete(*self)),
    {
        let mut result: Vec<&ParseTree<'a>> = Vec::new();
        result.push(&*self.delete);
        result.push(&*self.from);
        result.push(&*self.table_name);
        result.push(&*self.where_opt);
        result.push(&*self.predicate);
        assert(deref_seq(result@) =~= children_of(ParseTree::Delete(*self)));
        result
    }

    pub fn unbox(self) -> (r: (ParseTree<'a>, ParseTree<'a>, ParseTree<'a>, ParseTree<'a>, ParseTree<'a>))
        ensures
            r == (*self.delete, *self.from, *self.table_name, *self.where_opt, *self.predicate),
    {
        (*self.delete, *self.from, *self.table_name, *self.where_opt, *self.predicate)
    }

    pub fn get_first_child(&self) -> (r: &ParseTree<'a>)
        ensures
            *r == *self.delete,
    {
        &self.delete
    }

    pub fn get_last_child(&self) -> (r: &ParseTree<'a>)
        ensures
            *r == *self.predicate,
    {
        &self.predicate
    }

    pub fn get_first_token(&self) -> (r: Option<&token::Token<'a>>)
        ensures
            deref_opt(r) == first_of(tokens_of(ParseTree::Delete(*self))),
        decreases *self, 0nat,
    {
        assert(tokens_of(ParseTree::Delete(*self)) == tokens_of(*self.delete) + tokens_of(*self.from) + tokens_of(*self.table_name) + tokens_of(*self.where_opt) + tokens_of(*self.predicate)) by {
            reveal_with_fuel(tokens_of, 1);
        }
        if let Some(token) = self.delete.get_first_token() {
            return Some(token);
        }
        if let Some(token) = self.from.get_first_token() {
            return Some(token);
        }
        if let Some(token) = self.table_name.get_first_token() {
            return Some(token);
        }
        if let Some(token) = self.where_opt.get_first_token() {
            return Some(token);
        }
        if let Some(token) = self.predicate.get_first_token() {
            return Some(token);
        }
        None
    }

    pub fn get_last_token(&self) -> (r: Option<&token::Token<'a>>)
        ensures
            deref_opt(r) == last_of(tokens_of(ParseTree::Delete(*self))),
        decreases *self, 0nat,
    {
        assert(tokens_of(ParseTree::Delete(*self)) == tokens_of(*self.delete) + tokens_of(*self.from) + tokens_of(*self.table_name) + tokens_of(*self.where_opt) + tokens_of(*self.predicate)) by {
            reveal_with_fuel(tokens_of, 1);
        }
        if let Some(token) = self.predicate.get_last_token() {
            return Some(token);
        }
        if let Some(token) = self.where_opt.get_last_token() {
            return Some(token);
        }
        if let Some(token) = self.table_name.get_last_token() {
            return Some(token);
        }
        if let Some(token) = self.from.get_last_token() {
            return Some(token);
        }
        if let Some(token) = self.delete.get_last_token() {
            return Some(token);
        }
        None
    }
}

#[derive(Debug)]
pub struct GroupingSet<'a> {
    pub elements: Box<ParseTree<'a>>,
}

pub fn grouping_set<'a>(
    elements: ParseTree<'a>,
) -> (r: ParseTree<'a>)
    ensures
        r == ParseTree::GroupingSet(GroupingSet { elements: Box::new(elements) }),
        tokens_of(r) == tokens_of(elements),
        tree_wf(r) == (tree_wf(elements)),
        lossless(r) == (lossless(elements)),
{
    assert(tokens_of(ParseTree::GroupingSet(GroupingSet { elements: Box::new(elements) })) == tokens_of(elements)) by {
        reveal_with_fuel(tokens_of, 1);
    }
    assert(tree_wf(ParseTree::GroupingSet(GroupingSet { elements: Box::new(elements) })) == (tree_wf(elements))) by {
        reveal_with_fuel(tree_wf, 1);
    }
    assert(lossless(ParseTree::GroupingSet(GroupingSet { elements: Box::new(elements) })) == (lossless(elements))) by {
        reveal_with_fuel(lossless, 1);
    }
    ParseTree::GroupingSet(GroupingSet { elements: Box::new(elements) })
}

impl<'a> GroupingSet<'a> {
    pub fn to_tree(self) -> (r: ParseTree<'a>)
        ensures
            r == ParseTree::GroupingSet(self),
    {
        ParseTree::GroupingSet(self)
    }

    pub fn children(&self) -> (r: Vec<&ParseTree<'a>>)
        ensures
            deref_seq(r@) == children_of(ParseTree::GroupingSet(*self)),
    {
        let mut result: Vec<&ParseTree<'a>> = Vec::new();
        result.push(&*self.elements);
        assert(deref_seq(result@) =~= children_of(ParseTree::GroupingSet(*self)));
        result
    }

    pub fn unbox(self) -> (r: (ParseTree<'a>,))
        ensures
            r == (*self.elements,),
    {
        (*self.elements,)
    }

    pub fn get_first_child(&self) -> (r: &ParseTree<'a>)
        ensures
            *r == *self.elements,
    {
        &self.elements
    }

    pub fn get_last_child(&self) -> (r: &ParseTree<'a>)
        ensures
            *r == *self.elements,
    {
        &self.elements
    }

    pub fn get_first_token(&self) -> (r: Option<&token::Token<'a>>)
        ensures
            deref_opt(r) == first_of(tokens_of(ParseTree::GroupingSet(*self))),
        decreases *self, 0nat,
    {
        assert(tokens_of(ParseTree::GroupingSet(*self)) == tokens_of(*self.elements)) by {
            reveal_with_fuel(tokens_of, 1);
        }
        if let Some(token) = self.elements.get_first_token() {
            return Some(token);
        }
        None
    }

    pub fn get_last_token(&self) -> (r: Option<&token::Token<'a>>)
        ensures
            deref_opt(r) == last_of(tokens_of(ParseTree::GroupingSet(*self))),
        decreases *self, 0nat,
    {
        assert(tokens_of(ParseTree::GroupingSet(*self)) == tokens_of(*self.elements)) by {
            reveal_with_fuel(tokens_of, 1);
        }
        if let Some(token) = self.elements.get_last_token() {
            return Some(token);
        }
        None
    }
}

#[derive(Debug)]
pub struct RelationOrQuery<'a> {
    pub open_paren: Box<ParseTree<'a>>,
    pub query_or_relation: Box<ParseTree<'a>>,
    pub close_paren: Box<ParseTree<'a>>,
}

pub fn relation_or_query<'a>(
    open_paren: ParseTree<'a>,
    query_or_relation: ParseTree<'a>,
    close_paren: ParseTree<'a>,
) -> (r: ParseTree<'a>)
    ensures
        r == ParseTree::RelationOrQuery(RelationOrQuery { open_paren: Box::new(open_paren), query_or_relation: Box::new(query_or_relation), close_paren: Box::new(close_paren) }),
        tokens_of(r) == tokens_of(open_paren) + tokens_of(query_or_relation) + tokens_of(close_paren),
        tree_wf(r) == (tree_wf(open_paren) && tree_wf(query_or_relation) && tree_wf(close_paren)),
        lossless(r) == (lossless(open_paren) && lossless(query_or_relation) && lossless(close_paren)),
{
    assert(tokens_of(ParseTree::RelationOrQuery(RelationOrQuery { open_paren: Box::new(open_paren), query_or_relation: Box::new(query_or_relation), close_paren: Box::new(close_paren) })) == tokens_of(open_paren) + tokens_of(query_or_relation) + tokens_of(close_paren)) by {
        reveal_with_fuel(tokens_of, 1);
    }
    assert(tree_wf(ParseTree::RelationOrQuery(RelationOrQuery { open_paren: Box::new(open_paren), query_or_relation: Box::new(query_or_relation), close_paren: Box::new(close_paren) })) == (tree_wf(open_paren) && tree_wf(query_or_relation) && tree_wf(close_paren))) by {
        reveal_with_fuel(tree_wf, 1);
    }
    assert(lossless(ParseTree::RelationOrQuery(RelationOrQuery { open_paren: Box::new(open_paren), query_or_relation: Box::new(query_or_relation), close_paren: Box::new(close_paren) })) == (lossless(open_paren) && lossless(query_or_relation) && lossless(close_paren))) by {
        reveal_with_fuel(lossless, 1);
    }
    ParseTree::RelationOrQuery(RelationOrQuery { open_paren: Box::new(open_paren), query_or_relation: Box::new(query_or_relation), close_paren: Box::new(close_paren) })
}

impl<'a> RelationOrQuery<'a> {
    pub fn to_tree(self) -> (r: ParseTree<'a>)
        ensures
            r == ParseTree::RelationOrQuery(self),
    {
        ParseTree::RelationOrQuery(self)
    }

    pub fn children(&self) -> (r: Vec<&ParseTree<'a>>)
        ensures
            deref_seq(r@) == children_of(ParseTree::RelationOrQuery(*self)),
    {
        let mut result: Vec<&ParseTree<'a>> = Vec::new();
        result.push(&*self.open_paren);
        result.push(&*self.query_or_relation);
        result.push(&*self.close_paren);
        assert(deref_seq(result@) =~= children_of(ParseTree::RelationOrQuery(*self)));
        result
    }

    pub fn unbox(self) -> (r: (ParseTree<'a>, ParseTree<'a>, ParseTree<'a>))
        ensures
            r == (*self.open_paren, *self.query_or_relation, *self.close_paren),
    {
        (*self.open_paren, *self.query_or_relation, *self.close_paren)
    }

    pub fn get_first_child(&self) -> (r: &ParseTree<'a>)
        ensures
            *r == *self.open_paren,
    {
        &self.open_paren
    }

    pub fn get_last_child(&self) -> (r: &ParseTree<'a>)
        ensures
            *r == *self.close_paren,
    {
        &self.close_paren
    }

    pub fn get_first_token(&self) -> (r: Option<&token::Token<'a>>)
        ensures
            deref_opt(r) == first_of(tokens_of(ParseTree::RelationOrQuery(*self))),
        decreases *self, 0nat,
    {
        assert(tokens_of(ParseTree::RelationOrQuery(*self)) == tokens_of(*self.open_paren) + tokens_of(*self.query_or_relation) + tokens_of(*self.close_paren)) by {
            reveal_with_fuel(tokens_of, 1);
        }
        if let Some(token) = self.open_paren.get_first_token() {
            return Some(token);
        }
        if let Some(token) = self.query_or_relation.get_first_token() {
            return Some(token);
        }
        if let Some(token) = self.close_paren.get_first_token() {
            return Some(token);
        }
        None
    }

    pub fn get_last_token(&self) -> (r: Option<&token::Token<'a>>)
        ensures
            deref_opt(r) == last_of(tokens_of(ParseTree::RelationOrQuery(*self))),
        decreases *self, 0nat,
    {
        assert(tokens_of(ParseTree::RelationOrQuery(*self)) == tokens_of(*self.open_paren) + tokens_of(*self.query_or_relation) + tokens_of(*self.close_paren)) by {
            reveal_with_fuel(tokens_of, 1);
        }
        if let Some(token) = self.close_paren.get_last_token() {
            return Some(token);
        }
        if let Some(token) = self.query_or_relation.get_last_token() {
            return Some(token);
        }
        if let Some(token) = self.open_paren.get_last_token() {
            return Some(token);
        }
        None
    }
}

#[derive(Debug)]
pub struct EmptyGroupingSet<'a> {
    pub open_paren: Box<ParseTree<'a>>,
    pub close_paren: Box<ParseTree<'a>>,
}

pub fn empty_grouping_set<'a>(
    open_paren: ParseTree<'a>,
    close_paren: ParseTree<'a>,
) -> (r: ParseTree<'a>)
    ensures
        r == ParseTree::EmptyGroupingSet(EmptyGroupingSet { open_paren: Box::new(open_paren), close_paren: Box::new(close_paren) }),
        tokens_of(r) == tokens_of(open_paren) + tokens_of(close_paren),
        tree_wf(r) == (tree_wf(open_paren) && tree_wf(close_paren)),
        lossless(r) == (lossless(open_paren) && lossless(close_paren)),
{
    assert(tokens_of(ParseTree::EmptyGroupingSet(EmptyGroupingSet { open_paren: Box::new(open_paren), close_paren: Box::new(close_paren) })) == tokens_of(open_paren) + tokens_of(close_paren)) by {
        reveal_with_fuel(tokens_of, 1);
    }
    assert(tree_wf(ParseTree::EmptyGroupingSet(EmptyGroupingSet { open_paren: Box::new(open_paren), close_paren: Box::new(close_paren) })) == (tree_wf(open_paren) && tree_wf(close_paren))) by {
        reveal_with_fuel(tree_wf, 1);
    }
    assert(lossless(ParseTree::EmptyGroupingSet(EmptyGroupingSet { open_paren: Box::new(open_paren), close_paren: Box::new(close_paren) })) == (lossless(open_paren) && lossless(close_paren))) by {
        reveal_with_fuel(lossless, 1);
    }
    ParseTree::EmptyGroupingSet(EmptyGroupingSet { open_paren: Box::new(open_paren), close_paren: Box::new(close_paren) })
}

impl<'a> EmptyGroupingSet<'a> {
    pub fn to_tree(self) -> (r: ParseTree<'a>)
        ensures
            r == ParseTree::EmptyGroupingSet(self),
    {
        ParseTree::EmptyGroupingSet(self)
    }

    pub fn children(&self) -> (r: Vec<&ParseTree<'a>>)
        ensures
            deref_seq(r@) == children_of(ParseTree::EmptyGroupingSet(*self)),
    {
        let mut result: Vec<&ParseTree<'a>> = Vec::new();
        result.push(&*self.open_paren);
        result.push(&*self.close_paren);
        assert(deref_seq(result@) =~= children_of(ParseTree::EmptyGroupingSet(*self)));
        result
    }

    pub fn unbox(self) -> (r: (ParseTree<'a>, ParseTree<'a>))
        ensures
            r == (*self.open_paren, *self.close_paren),
    {
        (*self.open_paren, *self.close_paren)
    }

    pub fn get_first_child(&self) -> (r: &ParseTree<'a>)
        ensures
            *r == *self.open_paren,
    {
        &self.open_paren
    }

    pub fn get_last_child(&self) -> (r: &ParseTree<'a>)
        ensures
            *r == *self.close_paren,
    {
        &self.close_paren
    }

    pub fn get_first_token(&self) -> (r: Option<&token::Token<'a>>)
        ensures
            deref_opt(r) == first_of(tokens_of(ParseTree::EmptyGroupingSet(*self))),
        decreases *self, 0nat,
    {
        assert(tokens_of(ParseTree::EmptyGroupingSet(*self)) == tokens_of(*self.open_paren) + tokens_of(*self.close_paren)) by {
            reveal_with_fuel(tokens_of, 1);
        }
        if let Some(token) = self.open_paren.get_first_token() {
            return Some(token);
        }
        if let Some(token) = self.close_paren.get_first_token() {
            return Some(token);
        }
        None
    }

    pub fn get_last_token(&self) -> (r: Option<&token::Token<'a>>)
        ensures
            deref_opt(r) == last_of(tokens_of(ParseTree::EmptyGroupingSet(*self))),
        decreases *self, 0nat,
    {
        assert(tokens_of(ParseTree::EmptyGroupingSet(*self)) == tokens_of(*self.open_paren) + tokens_of(*self.close_paren)) by {
            reveal_with_fuel(tokens_of, 1);
        }
        if let Some(token) = self.close_paren.get_last_token() {
            return Some(token);
        }
        if let Some(token) = self.open_paren.get_last_token() {
            return Some(token);
        }
        None
    }
}

#[derive(Debug)]
pub struct ExpressionOrQuery<'a> {
    pub open_paren: Box<ParseTree<'a>>,
    pub expression_or_query: Box<ParseTree<'a>>,
    pub close_paren: Box<ParseTree<'a>>,
}

pub fn expression_or_query<'a>(
    open_paren: ParseTree<'a>,
    expression_or_query_tree: ParseTree<'a>,
    close_paren: ParseTree<'a>,
) -> (r: ParseTree<'a>)
    ensures
        r == ParseTree::ExpressionOrQuery(ExpressionOrQuery { open_paren: Box::new(open_paren), expression_or_query: Box::new(expression_or_query_tree), close_paren: Box::new(close_paren) }),
        tokens_of(r) == tokens_of(open_paren) + tokens_of(expression_or_query_tree) + tokens_of(close_paren),
        tree_wf(r) == (tree_wf(open_paren) && tree_wf(expression_or_query_tree) && tree_wf(close_paren)),
        lossless(r) == (lossless(open_paren) && lossless(expression_or_query_tree) && lossless(close_paren)),
{
    assert(tokens_of(ParseTree::ExpressionOrQuery(ExpressionOrQuery { open_paren: Box::new(open_paren), expression_or_query: Box::new(expression_or_query_tree), close_paren: Box::new(close_paren) })) == tokens_of(open_paren) + tokens_of(expression_or_query_tree) + tokens_of(close_paren)) by {
        reveal_with_fuel(tokens_of, 1);
    }
    assert(tree_wf(ParseTree::ExpressionOrQuery(ExpressionOrQuery { open_paren: Box::new(open_paren), expression_or_query: Box::new(expression_or_query_tree), close_paren: Box::new(close_paren) })) == (tree_wf(open_paren) && tree_wf(expression_or_query_tree) && tree_wf(close_paren))) by {
        reveal_with_fuel(tree_wf, 1);
    }
    assert(lossless(ParseTree::ExpressionOrQuery(ExpressionOrQuery { open_paren: Box::new(open_paren), expression_or_query: Box::new(expression_or_query_tree), close_paren: Box::new(close_paren) })) == (lossless(open_paren) && lossless(expression_or_query_tree) && lossless(close_paren))) by {
        reveal_with_fuel(lossless, 1);
    }
    ParseTree::ExpressionOrQuery(ExpressionOrQuery { open_paren: Box::new(open_paren), expression_or_query: Box::new(expression_or_query_tree), close_paren: Box::new(close_paren) })
}

impl<'a> ExpressionOrQuery<'a> {
    pub fn to_tree(self) -> (r: ParseTree<'a>)
        ensures
            r == ParseTree::ExpressionOrQuery(self),
    {
        ParseTree::ExpressionOrQuery(self)
    }

    pub fn children(&self) -> (r: Vec<&ParseTree<'a>>)
        ensures
            deref_seq(r@) == children_of(ParseTree::ExpressionOrQuery(*self)),
    {
        let mut result: Vec<&ParseTree<'a>> = Vec::new();
        result.push(&*self.open_paren);
        result.push(&*self.expression_or_query);
        result.push(&*self.close_paren);
        assert(deref_seq(result@) =~= children_of(ParseTree::ExpressionOrQuery(*self)));
        result
    }

    pub fn unbox(self) -> (r: (ParseTree<'a>, ParseTree<'a>, ParseTree<'a>))
        ensures
            r == (*self.open_paren, *self.expression_or_query, *self.close_paren),
    {
        (*self.open_paren, *self.expression_or_query, *self.close_paren)
    }

    pub fn get_first_child(&self) -> (r: &ParseTree<'a>)
        ensures
            *r == *self.open_paren,
    {
        &self.open_paren
    }

    pub fn get_last_child(&self) -> (r: &ParseTree<'a>)
        ensures
            *r == *self.close_paren,
    {
        &self.close_paren
    }

    pub fn get_first_token(&self) -> (r: Option<&token::Token<'a>>)
        ensures
            deref_opt(r) == first_of(tokens_of(ParseTree::ExpressionOrQuery(*self))),
        decreases *self, 0nat,
    {
        assert(tokens_of(ParseTree::ExpressionOrQuery(*self)) == tokens_of(*self.open_paren) + tokens_of(*self.expression_or_query) + tokens_of(*self.close_paren)) by {
            reveal_with_fuel(tokens_of, 1);
        }
        if let Some(token) = self.open_paren.get_first_token() {
            return Some(token);
        }
        if let Some(token) = self.expression_or_query.get_first_token() {
            return Some(token);
        }
        if let Some(token) = self.close_paren.get_first_token() {
            return Some(token);
        }
        None
    }

    pub fn get_last_token(&self) -> (r: Option<&token::Token<'a>>)
        ensures
            deref_opt(r) == last_of(tokens_of(ParseTree::ExpressionOrQuery(*self))),
        decreases *self, 0nat,
    {
        assert(tokens_of(ParseTree::ExpressionOrQuery(*self)) == tokens_of(*self.open_paren) + tokens_of(*self.expression_or_query) + tokens_of(*self.close_paren)) by {
            reveal_with_fuel(tokens_of, 1);
        }
        if let Some(token) = self.close_paren.get_last_token() {
            return Some(token);
        }
        if let Some(token) = self.expression_or_query.get_last_token() {
            return Some(token);
        }
        if let Some(token) = self.open_paren.get_last_token() {
            return Some(token);
        }
        None
    }
}

#[derive(Debug)]
pub struct Entrypoint<'a> {
    pub beginning_of_file: Box<ParseTree<'a>>,
    pub tree: Box<ParseTree<'a>>,
    pub end_of_file: Box<ParseTree<'a>>,
}

pub fn entrypoint<'a>(
    beginning_of_file: ParseTree<'a>,
    tree: ParseTree<'a>,
    end_of_file: ParseTree<'a>,
) -> (r: ParseTree<'a>)
    ensures
        r == ParseTree::Entrypoint(Entrypoint { beginning_of_file: Box::new(beginning_of_file), tree: Box::new(tree), end_of_file: Box::new(end_of_file) }),
        tokens_of(r) == tokens_of(beginning_of_file) + tokens_of(tree) + tokens_of(end_of_file),
        tree_wf(r) == (tree_wf(beginning_of_file) && tree_wf(tree) && tree_wf(end_of_file)),
        lossless(r) == (lossless(beginning_of_file) && lossless(tree) && lossless(end_of_file)),
{
    assert(tokens_of(ParseTree::Entrypoint(Entrypoint { beginning_of_file: Box::new(beginning_of_file), tree: Box::new(tree), end_of_file: Box::new(end_of_file) })) == tokens_of(beginning_of_file) + tokens_of(tree) + tokens_of(end_of_file)) by {
        reveal_with_fuel(tokens_of, 1);
    }
    assert(tree_wf(ParseTree::Entrypoint(Entrypoint { beginning_of_file: Box::new(beginning_of_file), tree: Box::new(tree), end_of_file: Box::new(end_of_file) })) == (tree_wf(beginning_of_file) && tree_wf(tree) && tree_wf(end_of_file))) by {
        reveal_with_fuel(tree_wf, 1);
    }
    assert(lossless(ParseTree::Entrypoint(Entrypoint { beginning_of_file: Box::new(beginning_of_file), tree: Box::new(tree), end_of_file: Box::new(end_of_file) })) == (lossless(beginning_of_file) && lossless(tree) && lossless(end_of_file))) by {
        reveal_with_fuel(lossless, 1);
    }
    ParseTree::Entrypoint(Entrypoint { beginning_of_file: Box::new(beginning_of_file), tree: Box::new(tree), end_of_file: Box::new(end_of_file) })
}

impl<'a> Entrypoint<'a> {
    pub fn to_tree(self) -> (r: ParseTree<'a>)
        ensures
            r == ParseTree::Entrypoint(self),
    {
        ParseTree::Entrypoint(self)
    }

    pub fn children(&self) -> (r: Vec<&ParseTree<'a>>)
        ensures
            deref_seq(r@) == children_of(ParseTree::Entrypoint(*self)),
    {
        proof {
            reveal_with_fuel(tokens_of, 1);
        }
        let mut result: Vec<&ParseTree<'a>> = Vec::new();
        result.push(&*self.beginning_of_file);
        result.push(&*self.tree);
        result.push(&*self.end_of_file);
        assert(deref_seq(result@) =~= children_of(ParseTree::Entrypoint(*self)));
        result
    }

    pub fn unbox(self) -> (r: (ParseTree<'a>, ParseTree<'a>, ParseTree<'a>))
        ensures
            r == (*self.beginning_of_file, *self.tree, *self.end_of_file),
    {
        proof {
            reveal_with_fuel(tokens_of, 1);
        }
        (*self.beginning_of_file, *self.tree, *self.end_of_file)
    }

    pub fn get_first_child(&self) -> (r: &ParseTree<'a>)
        ensures
            *r == *self.beginning_of_file,
    {
        &self.beginning_of_file
    }

    pub fn get_last_child(&self) -> (r: &ParseTree<'a>)
        ensures
            *r == *self.end_of_file,
    {
        proof {
            reveal_with_fuel(tokens_of, 1);
        }
        &self.end_of_file
    }

    pub fn get_first_token(&self) -> (r: Option<&token::Token<'a>>)
        ensures
            deref_opt(r) == first_of(tokens_of(ParseTree::Entrypoint(*self))),
        decreases *self, 0nat,
    {
        assert(tokens_of(ParseTree::Entrypoint(*self)) == tokens_of(*self.beginning_of_file) + tokens_of(*self.tree) + tokens_of(*self.end_of_file)) by {
            reveal_with_fuel(tokens_of, 1);
        }
        if let Some(token) = self.beginning_of_file.get_first_token() {
            return Some(token);
        }
        if let Some(token) = self.tree.get_first_token() {
            return Some(token);
        }
        if let Some(token) = self.end_of_file.get_first_token() {
            return Some(token);
        }
        None
    }

    pub fn get_last_token(&self) -> (r: Option<&token::Token<'a>>)
        ensures
            deref_opt(r) == last_of(tokens_of(ParseTree::Entrypoint(*self))),
        decreases *self, 0nat,
    {
        assert(tokens_of(ParseTree::Entrypoint(*self)) == tokens_of(*self.beginning_of_file) + tokens_of(*self.tree) + tokens_of(*self.end_of_file)) by {
            reveal_with_fuel(tokens_of, 1);
        }
        if let Some(token) = self.end_of_file.get_last_token() {
            return Some(token);
        }
        if let Some(token) = self.tree.get_last_token() {
            return Some(token);
        }
        if let Some(token) = self.beginning_of_file.get_last_token() {
            return Some(token);
        }
        None
    }
}

#[derive(Debug)]
pub struct NullTreatment<'a> {
    pub treatment: Box<ParseTree<'a>>,
    pub nulls: Box<ParseTree<'a>>,
}

pub fn null_treatment<'a>(
    treatment: ParseTree<'a>,
    nulls: ParseTree<'a>,
) -> (r: ParseTree<'a>)
    ensures
        r == ParseTree::NullTreatment(NullTreatment { treatment: Box::new(treatment), nulls: Box::new(nulls) }),
        tokens_of(r) == tokens_of(treatment) + tokens_of(nulls),
        tree_wf(r) == (tree_wf(treatment) && tree_wf(nulls)),
        lossless(r) == (lossless(treatment) && lossless(nulls)),
{
    assert(tokens_of(ParseTree::NullTreatment(NullTreatment { treatment: Box::new(treatment), nulls: Box::new(nulls) })) == tokens_of(treatment) + tokens_of(nulls)) by {
        reveal_with_fuel(tokens_of, 1);
    }
    assert(tree_wf(ParseTree::NullTreatment(NullTreatment { treatment: Box::new(treatment), nulls: Box::new(nulls) })) == (tree_wf(treatment) && tree_wf(nulls))) by {
        reveal_with_fuel(tree_wf, 1);
    }
    assert(lossless(ParseTree::NullTreatment(NullTreatment { treatment: Box::new(treatment), nulls: Box::new(nulls) })) == (lossless(treatment) && lossless(nulls))) by {
        reveal_with_fuel(lossless, 1);
    }
    ParseTree::NullTreatment(NullTreatment { treatment: Box::new(treatment), nulls: Box::new(nulls) })
}

impl<'a> NullTreatment<'a> {
    pub fn to_tree(self) -> (r: ParseTree<'a>)
        ensures
            r == ParseTree::NullTreatment(self),
    {
        ParseTree::NullTreatment(self)
    }

    pub fn children(&self) -> (r: Vec<&ParseTree<'a>>)
        ensures
            deref_seq(r@) == children_of(ParseTree::NullTreatment(*self)),
    {
        let mut result: Vec<&ParseTree<'a>> = Vec::new();
        result.push(&*self.treatment);
        result.push(&*self.nulls);
        assert(deref_seq(result@) =~= children_of(ParseTree::NullTreatment(*self)));
        result
    }

    pub fn unbox(self) -> (r: (ParseTree<'a>, ParseTree<'a>))
        ensures
            r == (*self.treatment, *self.nulls),
    {
        (*self.treatment, *self.nulls)
    }

    pub fn get_first_child(&self) -> (r: &ParseTree<'a>)
        ensures
            *r == *self.treatment,
    {
        &self.treatment
    }

    pub fn get_last_child(&self) -> (r: &ParseTree<'a>)
        ensures
            *r == *self.nulls,
    {
        &self.nulls
    }

    pub fn get_first_token(&self) -> (r: Option<&token::Token<'a>>)
        ensures
            deref_opt(r) == first_of(tokens_of(ParseTree::NullTreatment(*self))),
        decreases *self, 0nat,
    {
        assert(tokens_of(ParseTree::NullTreatment(*self)) == tokens_of(*self.treatment) + tokens_of(*self.nulls)) by {
            reveal_with_fuel(tokens_of, 1);
        }
        if let Some(token) = self.treatment.get_first_token() {
            return Some(token);
        }
        if let Some(token) = self.nulls.get_first_token() {
            return Some(token);
        }
        None
    }

    pub fn get_last_token(&self) -> (r: Option<&token::Token<'a>>)
        ensures
            deref_opt(r) == last_of(tokens_of(ParseTree::NullTreatment(*self))),
        decreases *self, 0nat,
    {
        assert(tokens_of(ParseTree::NullTreatment(*self)) == tokens_of(*self.treatment) + tokens_of(*self.nulls)) by {
            reveal_with_fuel(tokens_of, 1);
        }
        if let Some(token) = self.nulls.get_last_token() {
            return Some(token);
        }
        if let Some(token) = self.treatment.get_last_token() {
            return Some(token);
        }
        None
    }
}

} // verus!
