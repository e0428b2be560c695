//! Copies of parse trees.
use super::parse_tree::{Empty, Error, List, ParseTree, Token};
use super::parser::error_view;
use crate::lexing::comment;
use crate::lexing::token;
use crate::lexing::TokenKind;
use crate::utils::syntax_error::{Message, SyntaxError};
use crate::utils::TextRange;
use super::expression_trees::{
    Array, ArrayType, ArrayTypeSuffix, AtTimeZone, Between, BinaryExpression, BoundedFrame, Case, Cast, ConfigureExpression, CurrentRowBound, CurrentTime, CurrentTimestamp, Dereference, DistinctFrom, Exists, Extract, Filter, FunctionCall, Grouping, Identifier, InList, InSubquery, Interval, IntervalType, Lambda, Like, Literal, Localtime, Localtimestamp, MapType, NamedType, Normalize, NullPredicate, Over, ParenthesizedExpression, Position, QuantifiedComparison, Row, RowConstructor, RowType, RowTypeElement, SubqueryExpression, Subscript, Substring, TryCast, TypeConstructor, UnaryExpression, UnboundedFrame, UnicodeString, WhenClause, WindowFrame,
};
use super::query_trees::{
    AliasedRelation, CrossJoin, Cube, GroupBy, GroupingSets, InlineTable, Join, Lateral, Limit, NamedQuery, NaturalJoin, OnJoinCriteria, OrderBy, OuterJoinKind, ParenthesizedRelation, QualifiedName, QualifiedSelectAll, Query, QueryNoWith, QuerySetOperation, QuerySpecification, Rollup, SampledRelation, SelectAll, SelectItem, SortItem, Subquery, SubqueryRelation, Table, TableName, Unnest, UsingJoinCriteria, With,
};
use super::statement_trees::{
    ColumnDefinition, Comment, CreateRole, CreateTable, CreateTableAsSelect, CreateView, Delete, EmptyGroupingSet, Entrypoint, ExpressionOrQuery, GroupingSet, IfNotExists, InsertInto, LikeClause, NotNull, NullTreatment, Property, RelationOrQuery, RolePrincipal, UnspecifiedPrincipal, UserPrincipal, WithAdminGrantor, WithData, WithProperties,
};
use vstd::prelude::*;

verus! {

/// What a token holds, its vectors taken by their contents and its errors by their
/// codes and messages.
pub open spec fn token_view<'a>(t: token::Token<'a>) -> (
    TokenKind,
    TextRange,
    Seq<char>,
    Seq<comment::Comment<'a>>,
    Seq<comment::Comment<'a>>,
    Seq<(i32, Seq<Message>)>,
) {
    (
        t.kind,
        t.range,
        t.value@,
        t.leading_comments@,
        t.trailing_comments@,
        t.errors@.map_values(|e: SyntaxError| error_view(e)),
    )
}

/// `a` and `b` are the same tree: the same kind of tree at every node, the same
/// tokens, empty ranges and errors, and the same number of list elements.
#[verifier::opaque]
pub open spec fn same_tree<'a>(a: ParseTree<'a>, b: ParseTree<'a>) -> bool
    decreases a, 1int,
{
    match a {
        ParseTree::Empty(x) => b is Empty && x.range == b->Empty_0.range,
        ParseTree::Token(x) => b is Token && token_view(x.token) == token_view(b->Token_0.token),
        ParseTree::List(x) => b is List && same_tree(*x.start_delimiter, *b->List_0.start_delimiter)
            && same_pairs(x.elements_and_separators@, b->List_0.elements_and_separators@)
            && same_tree(*x.end_delimiter, *b->List_0.end_delimiter),
        ParseTree::Error(x) => b is Error && error_view(x.error) == error_view(b->Error_0.error),
        ParseTree::Query(_) | ParseTree::With(_) | ParseTree::NamedQuery(_) | ParseTree::QueryNoWith(_) | ParseTree::OrderBy(_) | ParseTree::Limit(_) | ParseTree::QuerySetOperation(_) | ParseTree::SortItem(_) | ParseTree::Subquery(_) | ParseTree::InlineTable(_) | ParseTree::Table(_) | ParseTree::QuerySpecification(_) | ParseTree::QualifiedName(_) | ParseTree::SelectAll(_) | ParseTree::QualifiedSelectAll(_) | ParseTree::SelectItem(_) => same_query_tree(a, b),
        ParseTree::SubqueryRelation(_) | ParseTree::ParenthesizedRelation(_) | ParseTree::TableName(_) | ParseTree::Lateral(_) | ParseTree::Unnest(_) | ParseTree::SampledRelation(_) | ParseTree::AliasedRelation(_) | ParseTree::CrossJoin(_) | ParseTree::Join(_) | ParseTree::NaturalJoin(_) | ParseTree::OuterJoinKind(_) | ParseTree::OnJoinCriteria(_) | ParseTree::UsingJoinCriteria(_) | ParseTree::GroupBy(_) | ParseTree::Rollup(_) | ParseTree::Cube(_) | ParseTree::GroupingSets(_) => same_relation_tree(a, b),
        ParseTree::BinaryExpression(_) | ParseTree::UnaryExpression(_) | ParseTree::QuantifiedComparison(_) | ParseTree::NullPredicate(_) | ParseTree::DistinctFrom(_) | ParseTree::Between(_) | ParseTree::Like(_) | ParseTree::InSubquery(_) | ParseTree::InList(_) | ParseTree::AtTimeZone(_) | ParseTree::Dereference(_) | ParseTree::Subscript(_) => same_operator_tree(a, b),
        ParseTree::Lambda(_) | ParseTree::Literal(_) | ParseTree::RowConstructor(_) | ParseTree::ParenthesizedExpression(_) | ParseTree::Identifier(_) | ParseTree::FunctionCall(_) | ParseTree::Filter(_) | ParseTree::Over(_) | ParseTree::WindowFrame(_) | ParseTree::UnboundedFrame(_) | ParseTree::CurrentRowBound(_) | ParseTree::BoundedFrame(_) | ParseTree::UnicodeString(_) | ParseTree::ConfigureExpression(_) | ParseTree::SubqueryExpression(_) | ParseTree::Grouping(_) | ParseTree::Extract(_) => same_primary_tree(a, b),
        ParseTree::CurrentTime(_) | ParseTree::CurrentTimestamp(_) | ParseTree::Normalize(_) | ParseTree::Localtime(_) | ParseTree::Localtimestamp(_) | ParseTree::Cast(_) | ParseTree::WhenClause(_) | ParseTree::Case(_) | ParseTree::Exists(_) | ParseTree::TypeConstructor(_) | ParseTree::Array(_) | ParseTree::Interval(_) | ParseTree::Row(_) | ParseTree::TryCast(_) | ParseTree::Substring(_) | ParseTree::Position(_) => same_special_tree(a, b),
        ParseTree::ArrayTypeSuffix(_) | ParseTree::NamedType(_) | ParseTree::ArrayType(_) | ParseTree::MapType(_) | ParseTree::RowType(_) | ParseTree::RowTypeElement(_) | ParseTree::IntervalType(_) => same_type_tree(a, b),
        ParseTree::IfNotExists(_) | ParseTree::CreateTable(_) | ParseTree::CreateView(_) | ParseTree::CreateRole(_) | ParseTree::WithAdminGrantor(_) | ParseTree::UserPrincipal(_) | ParseTree::RolePrincipal(_) | ParseTree::UnspecifiedPrincipal(_) | ParseTree::CreateTableAsSelect(_) | ParseTree::WithProperties(_) | ParseTree::Property(_) | ParseTree::WithData(_) | ParseTree::Comment(_) | ParseTree::ColumnDefinition(_) | ParseTree::NotNull(_) | ParseTree::LikeClause(_) | ParseTree::InsertInto(_) | ParseTree::Delete(_) | ParseTree::GroupingSet(_) | ParseTree::RelationOrQuery(_) | ParseTree::EmptyGroupingSet(_) | ParseTree::ExpressionOrQuery(_) | ParseTree::Entrypoint(_) | ParseTree::NullTreatment(_) => same_statement_tree(a, b),
    }
}

/// `a` and `b` are the same tree, for queries.
#[verifier::opaque]
pub open spec fn same_query_tree<'a>(a: ParseTree<'a>, b: ParseTree<'a>) -> bool
    decreases a, 0int,
{
    match a {
        ParseTree::Query(x) => b is Query && same_tree(*x.with, *b->Query_0.with) && same_tree(*x.query_no_with, *b->Query_0.query_no_with),
        ParseTree::With(x) => b is With && same_tree(*x.with, *b->With_0.with) && same_tree(*x.recursive, *b->With_0.recursive) && same_tree(*x.named_queries, *b->With_0.named_queries),
        ParseTree::NamedQuery(x) => b is NamedQuery && same_tree(*x.name, *b->NamedQuery_0.name) && same_tree(*x.column_aliases_opt, *b->NamedQuery_0.column_aliases_opt) && same_tree(*x.as_, *b->NamedQuery_0.as_) && same_tree(*x.open_paren, *b->NamedQuery_0.open_paren) && same_tree(*x.query, *b->NamedQuery_0.query) && same_tree(*x.close_paren, *b->NamedQuery_0.close_paren),
        ParseTree::QueryNoWith(x) => b is QueryNoWith && same_tree(*x.query_term, *b->QueryNoWith_0.query_term) && same_tree(*x.order_by_opt, *b->QueryNoWith_0.order_by_opt) && same_tree(*x.limit_opt, *b->QueryNoWith_0.limit_opt),
        ParseTree::OrderBy(x) => b is OrderBy && same_tree(*x.order, *b->OrderBy_0.order) && same_tree(*x.by, *b->OrderBy_0.by) && same_tree(*x.sort_items, *b->OrderBy_0.sort_items),
        ParseTree::Limit(x) => b is Limit && same_tree(*x.limit, *b->Limit_0.limit) && same_tree(*x.value, *b->Limit_0.value),
        ParseTree::QuerySetOperation(x) => b is QuerySetOperation && same_tree(*x.left, *b->QuerySetOperation_0.left) && same_tree(*x.operator, *b->QuerySetOperation_0.operator) && same_tree(*x.set_quantifier_opt, *b->QuerySetOperation_0.set_quantifier_opt) && same_tree(*x.right, *b->QuerySetOperation_0.right),
        ParseTree::SortItem(x) => b is SortItem && same_tree(*x.expression, *b->SortItem_0.expression) && same_tree(*x.ordering_opt, *b->SortItem_0.ordering_opt) && same_tree(*x.nulls, *b->SortItem_0.nulls) && same_tree(*x.null_ordering_opt, *b->SortItem_0.null_ordering_opt),
        ParseTree::Subquery(x) => b is Subquery && same_tree(*x.open_paren, *b->Subquery_0.open_paren) && same_tree(*x.query_no_with, *b->Subquery_0.query_no_with) && same_tree(*x.close_paren, *b->Subquery_0.close_paren),
        ParseTree::InlineTable(x) => b is InlineTable && same_tree(*x.values, *b->InlineTable_0.values) && same_tree(*x.expressions, *b->InlineTable_0.expressions),
        ParseTree::Table(x) => b is Table && same_tree(*x.table, *b->Table_0.table) && same_tree(*x.qualified_name, *b->Table_0.qualified_name),
        ParseTree::QuerySpecification(x) => b is QuerySpecification && same_tree(*x.select, *b->QuerySpecification_0.select) && same_tree(*x.set_quantifier_opt, *b->QuerySpecification_0.set_quantifier_opt) && same_tree(*x.select_items, *b->QuerySpecification_0.select_items) && same_tree(*x.from, *b->QuerySpecification_0.from) && same_tree(*x.relations, *b->QuerySpecification_0.relations) && same_tree(*x.where_, *b->QuerySpecification_0.where_) && same_tree(*x.where_predicate, *b->QuerySpecification_0.where_predicate) && same_tree(*x.group, *b->QuerySpecification_0.group) && same_tree(*x.by, *b->QuerySpecification_0.by) && same_tree(*x.group_by, *b->QuerySpecification_0.group_by) && same_tree(*x.having, *b->QuerySpecification_0.having) && same_tree(*x.having_predicate, *b->QuerySpecification_0.having_predicate),
        ParseTree::QualifiedName(x) => b is QualifiedName && same_tree(*x.names, *b->QualifiedName_0.names),
        ParseTree::SelectAll(x) => b is SelectAll && same_tree(*x.asterisk, *b->SelectAll_0.asterisk),
        ParseTree::QualifiedSelectAll(x) => b is QualifiedSelectAll && same_tree(*x.qualifier, *b->QualifiedSelectAll_0.qualifier) && same_tree(*x.period, *b->QualifiedSelectAll_0.period) && same_tree(*x.asterisk, *b->QualifiedSelectAll_0.asterisk),
        ParseTree::SelectItem(x) => b is SelectItem && same_tree(*x.expression, *b->SelectItem_0.expression) && same_tree(*x.as_, *b->SelectItem_0.as_) && same_tree(*x.identifier, *b->SelectItem_0.identifier),
        _ => false,
    }
}

/// `a` and `b` are the same tree, for relations, joins and grouping.
#[verifier::opaque]
pub open spec fn same_relation_tree<'a>(a: ParseTree<'a>, b: ParseTree<'a>) -> bool
    decreases a, 0int,
{
    match a {
        ParseTree::SubqueryRelation(x) => b is SubqueryRelation && same_tree(*x.open_paren, *b->SubqueryRelation_0.open_paren) && same_tree(*x.query, *b->SubqueryRelation_0.query) && same_tree(*x.close_paren, *b->SubqueryRelation_0.close_paren),
        ParseTree::ParenthesizedRelation(x) => b is ParenthesizedRelation && same_tree(*x.open_paren, *b->ParenthesizedRelation_0.open_paren) && same_tree(*x.relation, *b->ParenthesizedRelation_0.relation) && same_tree(*x.close_paren, *b->ParenthesizedRelation_0.close_paren),
        ParseTree::TableName(x) => b is TableName && same_tree(*x.name, *b->TableName_0.name),
        ParseTree::Lateral(x) => b is Lateral && same_tree(*x.lateral, *b->Lateral_0.lateral) && same_tree(*x.open_paren, *b->Lateral_0.open_paren) && same_tree(*x.query, *b->Lateral_0.query) && same_tree(*x.close_paren, *b->Lateral_0.close_paren),
        ParseTree::Unnest(x) => b is Unnest && same_tree(*x.unnest, *b->Unnest_0.unnest) && same_tree(*x.expressions, *b->Unnest_0.expressions) && same_tree(*x.with, *b->Unnest_0.with) && same_tree(*x.ordinality, *b->Unnest_0.ordinality),
        ParseTree::SampledRelation(x) => b is SampledRelation && same_tree(*x.aliased_relation, *b->SampledRelation_0.aliased_relation) && same_tree(*x.tablesample, *b->SampledRelation_0.tablesample) && same_tree(*x.sample_type, *b->SampledRelation_0.sample_type) && same_tree(*x.open_paren, *b->SampledRelation_0.open_paren) && same_tree(*x.expression, *b->SampledRelation_0.expression) && same_tree(*x.close_paren, *b->SampledRelation_0.close_paren),
        ParseTree::AliasedRelation(x) => b is AliasedRelation && same_tree(*x.relation_primary, *b->AliasedRelation_0.relation_primary) && same_tree(*x.as_opt, *b->AliasedRelation_0.as_opt) && same_tree(*x.identifier, *b->AliasedRelation_0.identifier) && same_tree(*x.column_aliases_opt, *b->AliasedRelation_0.column_aliases_opt),
        ParseTree::CrossJoin(x) => b is CrossJoin && same_tree(*x.left, *b->CrossJoin_0.left) && same_tree(*x.cross, *b->CrossJoin_0.cross) && same_tree(*x.join, *b->CrossJoin_0.join) && same_tree(*x.right, *b->CrossJoin_0.right),
        ParseTree::Join(x) => b is Join && same_tree(*x.left, *b->Join_0.left) && same_tree(*x.join_type, *b->Join_0.join_type) && same_tree(*x.join, *b->Join_0.join) && same_tree(*x.right, *b->Join_0.right) && same_tree(*x.join_criteria, *b->Join_0.join_criteria),
        ParseTree::NaturalJoin(x) => b is NaturalJoin && same_tree(*x.left, *b->NaturalJoin_0.left) && same_tree(*x.natural, *b->NaturalJoin_0.natural) && same_tree(*x.join_type, *b->NaturalJoin_0.join_type) && same_tree(*x.join, *b->NaturalJoin_0.join) && same_tree(*x.right, *b->NaturalJoin_0.right),
        ParseTree::OuterJoinKind(x) => b is OuterJoinKind && same_tree(*x.kind, *b->OuterJoinKind_0.kind) && same_tree(*x.outer_opt, *b->OuterJoinKind_0.outer_opt),
        ParseTree::OnJoinCriteria(x) => b is OnJoinCriteria && same_tree(*x.on, *b->OnJoinCriteria_0.on) && same_tree(*x.predicate, *b->OnJoinCriteria_0.predicate),
        ParseTree::UsingJoinCriteria(x) => b is UsingJoinCriteria && same_tree(*x.using, *b->UsingJoinCriteria_0.using) && same_tree(*x.names, *b->UsingJoinCriteria_0.names),
        ParseTree::GroupBy(x) => b is GroupBy && same_tree(*x.set_quantifier_opt, *b->GroupBy_0.set_quantifier_opt) && same_tree(*x.grouping_elements, *b->GroupBy_0.grouping_elements),
        ParseTree::Rollup(x) => b is Rollup && same_tree(*x.rollup, *b->Rollup_0.rollup) && same_tree(*x.expressions, *b->Rollup_0.expressions),
        ParseTree::Cube(x) => b is Cube && same_tree(*x.cube, *b->Cube_0.cube) && same_tree(*x.expressions, *b->Cube_0.expressions),
        ParseTree::GroupingSets(x) => b is GroupingSets && same_tree(*x.grouping, *b->GroupingSets_0.grouping) && same_tree(*x.sets, *b->GroupingSets_0.sets) && same_tree(*x.grouping_sets, *b->GroupingSets_0.grouping_sets),
        _ => false,
    }
}

/// `a` and `b` are the same tree, for operator expressions.
#[verifier::opaque]
pub open spec fn same_operator_tree<'a>(a: ParseTree<'a>, b: ParseTree<'a>) -> bool
    decreases a, 0int,
{
    match a {
        ParseTree::BinaryExpression(x) => b is BinaryExpression && same_tree(*x.left, *b->BinaryExpression_0.left) && same_tree(*x.operator, *b->BinaryExpression_0.operator) && same_tree(*x.right, *b->BinaryExpression_0.right),
        ParseTree::UnaryExpression(x) => b is UnaryExpression && same_tree(*x.operator, *b->UnaryExpression_0.operator) && same_tree(*x.operand, *b->UnaryExpression_0.operand),
        ParseTree::QuantifiedComparison(x) => b is QuantifiedComparison && same_tree(*x.operand, *b->QuantifiedComparison_0.operand) && same_tree(*x.operator, *b->QuantifiedComparison_0.operator) && same_tree(*x.comparison_quantifier, *b->QuantifiedComparison_0.comparison_quantifier) && same_tree(*x.open_paren, *b->QuantifiedComparison_0.open_paren) && same_tree(*x.query, *b->QuantifiedComparison_0.query) && same_tree(*x.close_paren, *b->QuantifiedComparison_0.close_paren),
        ParseTree::NullPredicate(x) => b is NullPredicate && same_tree(*x.value, *b->NullPredicate_0.value) && same_tree(*x.is, *b->NullPredicate_0.is) && same_tree(*x.not_opt, *b->NullPredicate_0.not_opt) && same_tree(*x.null, *b->NullPredicate_0.null),
        ParseTree::DistinctFrom(x) => b is DistinctFrom && same_tree(*x.left, *b->DistinctFrom_0.left) && same_tree(*x.is, *b->DistinctFrom_0.is) && same_tree(*x.not_opt, *b->DistinctFrom_0.not_opt) && same_tree(*x.distinct, *b->DistinctFrom_0.distinct) && same_tree(*x.from, *b->DistinctFrom_0.from) && same_tree(*x.right, *b->DistinctFrom_0.right),
        ParseTree::Between(x) => b is Between && same_tree(*x.value, *b->Between_0.value) && same_tree(*x.not_opt, *b->Between_0.not_opt) && same_tree(*x.between, *b->Between_0.between) && same_tree(*x.lower, *b->Between_0.lower) && same_tree(*x.and, *b->Between_0.and) && same_tree(*x.upper, *b->Between_0.upper),
        ParseTree::Like(x) => b is Like && same_tree(*x.value, *b->Like_0.value) && same_tree(*x.not_opt, *b->Like_0.not_opt) && same_tree(*x.like, *b->Like_0.like) && same_tree(*x.patrern, *b->Like_0.patrern) && same_tree(*x.escape_opt, *b->Like_0.escape_opt) && same_tree(*x.escape_value_opt, *b->Like_0.escape_value_opt),
        ParseTree::InSubquery(x) => b is InSubquery && same_tree(*x.value, *b->InSubquery_0.value) && same_tree(*x.not_opt, *b->InSubquery_0.not_opt) && same_tree(*x.in_, *b->InSubquery_0.in_) && same_tree(*x.open_paren, *b->InSubquery_0.open_paren) && same_tree(*x.query, *b->InSubquery_0.query) && same_tree(*x.close_paren, *b->InSubquery_0.close_paren),
        ParseTree::InList(x) => b is InList && same_tree(*x.value, *b->InList_0.value) && same_tree(*x.not_opt, *b->InList_0.not_opt) && same_tree(*x.in_, *b->InList_0.in_) && same_tree(*x.expressions, *b->InList_0.expressions),
        ParseTree::AtTimeZone(x) => b is AtTimeZone && same_tree(*x.value, *b->AtTimeZone_0.value) && same_tree(*x.at, *b->AtTimeZone_0.at) && same_tree(*x.time, *b->AtTimeZone_0.time) && same_tree(*x.zone, *b->AtTimeZone_0.zone) && same_tree(*x.specifier, *b->AtTimeZone_0.specifier),
        ParseTree::Dereference(x) => b is Dereference && same_tree(*x.object, *b->Dereference_0.object) && same_tree(*x.period, *b->Dereference_0.period) && same_tree(*x.field_name, *b->Dereference_0.field_name),
        ParseTree::Subscript(x) => b is Subscript && same_tree(*x.operand, *b->Subscript_0.operand) && same_tree(*x.open_square, *b->Subscript_0.open_square) && same_tree(*x.index, *b->Subscript_0.index) && same_tree(*x.close_square, *b->Subscript_0.close_square),
        _ => false,
    }
}

/// `a` and `b` are the same tree, for primary expressions.
#[verifier::opaque]
pub open spec fn same_primary_tree<'a>(a: ParseTree<'a>, b: ParseTree<'a>) -> bool
    decreases a, 0int,
{
    match a {
        ParseTree::Lambda(x) => b is Lambda && same_tree(*x.parameters, *b->Lambda_0.parameters) && same_tree(*x.array, *b->Lambda_0.array) && same_tree(*x.body, *b->Lambda_0.body),
        ParseTree::Literal(x) => b is Literal && same_tree(*x.value, *b->Literal_0.value),
        ParseTree::RowConstructor(x) => b is RowConstructor && same_tree(*x.elements, *b->RowConstructor_0.elements),
        ParseTree::ParenthesizedExpression(x) => b is ParenthesizedExpression && same_tree(*x.open_paren, *b->ParenthesizedExpression_0.open_paren) && same_tree(*x.value, *b->ParenthesizedExpression_0.value) && same_tree(*x.close_paren, *b->ParenthesizedExpression_0.close_paren),
        ParseTree::Identifier(x) => b is Identifier && same_tree(*x.value, *b->Identifier_0.value),
        ParseTree::FunctionCall(x) => b is FunctionCall && same_tree(*x.name, *b->FunctionCall_0.name) && same_tree(*x.open_paren, *b->FunctionCall_0.open_paren) && same_tree(*x.set_quantifier_opt, *b->FunctionCall_0.set_quantifier_opt) && same_tree(*x.arguments, *b->FunctionCall_0.arguments) && same_tree(*x.order_by_opt, *b->FunctionCall_0.order_by_opt) && same_tree(*x.close_paren, *b->FunctionCall_0.close_paren) && same_tree(*x.filter_opt, *b->FunctionCall_0.filter_opt) && same_tree(*x.null_treatment_opt, *b->FunctionCall_0.null_treatment_opt) && same_tree(*x.over_opt, *b->FunctionCall_0.over_opt),
        ParseTree::Filter(x) => b is Filter && same_tree(*x.filter, *b->Filter_0.filter) && same_tree(*x.open_paren, *b->Filter_0.open_paren) && same_tree(*x.where_, *b->Filter_0.where_) && same_tree(*x.predicate, *b->Filter_0.predicate) && same_tree(*x.close_paren, *b->Filter_0.close_paren),
        ParseTree::Over(x) => b is Over && same_tree(*x.over, *b->Over_0.over) && same_tree(*x.open_paren, *b->Over_0.open_paren) && same_tree(*x.partition_opt, *b->Over_0.partition_opt) && same_tree(*x.by, *b->Over_0.by) && same_tree(*x.partitions, *b->Over_0.partitions) && same_tree(*x.order_by_opt, *b->Over_0.order_by_opt) && same_tree(*x.window_frame, *b->Over_0.window_frame) && same_tree(*x.close_paren, *b->Over_0.close_paren),
        ParseTree::WindowFrame(x) => b is WindowFrame && same_tree(*x.frame_type, *b->WindowFrame_0.frame_type) && same_tree(*x.between_opt, *b->WindowFrame_0.between_opt) && same_tree(*x.start, *b->WindowFrame_0.start) && same_tree(*x.and, *b->WindowFrame_0.and) && same_tree(*x.end, *b->WindowFrame_0.end),
        ParseTree::UnboundedFrame(x) => b is UnboundedFrame && same_tree(*x.unbounded, *b->UnboundedFrame_0.unbounded) && same_tree(*x.bound_type, *b->UnboundedFrame_0.bound_type),
        ParseTree::CurrentRowBound(x) => b is CurrentRowBound && same_tree(*x.current, *b->CurrentRowBound_0.current) && same_tree(*x.row, *b->CurrentRowBound_0.row),
        ParseTree::BoundedFrame(x) => b is BoundedFrame && same_tree(*x.bound, *b->BoundedFrame_0.bound) && same_tree(*x.bound_type, *b->BoundedFrame_0.bound_type),
        ParseTree::UnicodeString(x) => b is UnicodeString && same_tree(*x.string, *b->UnicodeString_0.string) && same_tree(*x.uescape_opt, *b->UnicodeString_0.uescape_opt) && same_tree(*x.escape, *b->UnicodeString_0.escape),
        ParseTree::ConfigureExpression(x) => b is ConfigureExpression && same_tree(*x.configure, *b->ConfigureExpression_0.configure) && same_tree(*x.open_paren, *b->ConfigureExpression_0.open_paren) && same_tree(*x.identifier, *b->ConfigureExpression_0.identifier) && same_tree(*x.comma, *b->ConfigureExpression_0.comma) && same_tree(*x.value, *b->ConfigureExpression_0.value) && same_tree(*x.close_paren, *b->ConfigureExpression_0.close_paren),
        ParseTree::SubqueryExpression(x) => b is SubqueryExpression && same_tree(*x.open_paren, *b->SubqueryExpression_0.open_paren) && same_tree(*x.query, *b->SubqueryExpression_0.query) && same_tree(*x.close_paren, *b->SubqueryExpression_0.close_paren),
        ParseTree::Grouping(x) => b is Grouping && same_tree(*x.grouping, *b->Grouping_0.grouping) && same_tree(*x.groups, *b->Grouping_0.groups),
        ParseTree::Extract(x) => b is Extract && same_tree(*x.extract, *b->Extract_0.extract) && same_tree(*x.open_paren, *b->Extract_0.open_paren) && same_tree(*x.identifier, *b->Extract_0.identifier) && same_tree(*x.from, *b->Extract_0.from) && same_tree(*x.value, *b->Extract_0.value) && same_tree(*x.close_paren, *b->Extract_0.close_paren),
        _ => false,
    }
}

/// `a` and `b` are the same tree, for special forms.
#[verifier::opaque]
pub open spec fn same_special_tree<'a>(a: ParseTree<'a>, b: ParseTree<'a>) -> bool
    decreases a, 0int,
{
    match a {
        ParseTree::CurrentTime(x) => b is CurrentTime && same_tree(*x.current_time, *b->CurrentTime_0.current_time) && same_tree(*x.open_paren, *b->CurrentTime_0.open_paren) && same_tree(*x.precision, *b->CurrentTime_0.precision) && same_tree(*x.close_paren, *b->CurrentTime_0.close_paren),
        ParseTree::CurrentTimestamp(x) => b is CurrentTimestamp && same_tree(*x.current_timestamp, *b->CurrentTimestamp_0.current_timestamp) && same_tree(*x.open_paren, *b->CurrentTimestamp_0.open_paren) && same_tree(*x.precision, *b->CurrentTimestamp_0.precision) && same_tree(*x.close_paren, *b->CurrentTimestamp_0.close_paren),
        ParseTree::Normalize(x) => b is Normalize && same_tree(*x.normalize, *b->Normalize_0.normalize) && same_tree(*x.open_paren, *b->Normalize_0.open_paren) && same_tree(*x.value, *b->Normalize_0.value) && same_tree(*x.comma_opt, *b->Normalize_0.comma_opt) && same_tree(*x.normal_form, *b->Normalize_0.normal_form) && same_tree(*x.close_paren, *b->Normalize_0.close_paren),
        ParseTree::Localtime(x) => b is Localtime && same_tree(*x.localtime, *b->Localtime_0.localtime) && same_tree(*x.open_paren, *b->Localtime_0.open_paren) && same_tree(*x.precision, *b->Localtime_0.precision) && same_tree(*x.close_paren, *b->Localtime_0.close_paren),
        ParseTree::Localtimestamp(x) => b is Localtimestamp && same_tree(*x.localtimestamp, *b->Localtimestamp_0.localtimestamp) && same_tree(*x.open_paren, *b->Localtimestamp_0.open_paren) && same_tree(*x.precision, *b->Localtimestamp_0.precision) && same_tree(*x.close_paren, *b->Localtimestamp_0.close_paren),
        ParseTree::Cast(x) => b is Cast && same_tree(*x.cast, *b->Cast_0.cast) && same_tree(*x.open_paren, *b->Cast_0.open_paren) && same_tree(*x.value, *b->Cast_0.value) && same_tree(*x.as_, *b->Cast_0.as_) && same_tree(*x.type_, *b->Cast_0.type_) && same_tree(*x.close_paren, *b->Cast_0.close_paren),
        ParseTree::WhenClause(x) => b is WhenClause && same_tree(*x.when, *b->WhenClause_0.when) && same_tree(*x.condition, *b->WhenClause_0.condition) && same_tree(*x.then_, *b->WhenClause_0.then_) && same_tree(*x.result, *b->WhenClause_0.result),
        ParseTree::Case(x) => b is Case && same_tree(*x.case, *b->Case_0.case) && same_tree(*x.value_opt, *b->Case_0.value_opt) && same_tree(*x.when_clauses, *b->Case_0.when_clauses) && same_tree(*x.else_opt, *b->Case_0.else_opt) && same_tree(*x.default, *b->Case_0.default) && same_tree(*x.end, *b->Case_0.end),
        ParseTree::Exists(x) => b is Exists && same_tree(*x.exists, *b->Exists_0.exists) && same_tree(*x.open_paren, *b->Exists_0.open_paren) && same_tree(*x.query, *b->Exists_0.query) && same_tree(*x.close_paren, *b->Exists_0.close_paren),
        ParseTree::TypeConstructor(x) => b is TypeConstructor && same_tree(*x.type_, *b->TypeConstructor_0.type_) && same_tree(*x.value, *b->TypeConstructor_0.value),
        ParseTree::Array(x) => b is Array && same_tree(*x.array, *b->Array_0.array) && same_tree(*x.elements, *b->Array_0.elements),
        ParseTree::Interval(x) => b is Interval && same_tree(*x.interval, *b->Interval_0.interval) && same_tree(*x.sign_opt, *b->Interval_0.sign_opt) && same_tree(*x.value, *b->Interval_0.value) && same_tree(*x.from, *b->Interval_0.from) && same_tree(*x.to_kw_opt, *b->Interval_0.to_kw_opt) && same_tree(*x.to, *b->Interval_0.to),
        ParseTree::Row(x) => b is Row && same_tree(*x.row, *b->Row_0.row) && same_tree(*x.elements, *b->Row_0.elements),
        ParseTree::TryCast(x) => b is TryCast && same_tree(*x.try_cast, *b->TryCast_0.try_cast) && same_tree(*x.open_paren, *b->TryCast_0.open_paren) && same_tree(*x.value, *b->TryCast_0.value) && same_tree(*x.as_, *b->TryCast_0.as_) && same_tree(*x.type_, *b->TryCast_0.type_) && same_tree(*x.close_paren, *b->TryCast_0.close_paren),
        ParseTree::Substring(x) => b is Substring && same_tree(*x.substring, *b->Substring_0.substring) && same_tree(*x.open_paren, *b->Substring_0.open_paren) && same_tree(*x.value, *b->Substring_0.value) && same_tree(*x.from, *b->Substring_0.from) && same_tree(*x.from_value, *b->Substring_0.from_value) && same_tree(*x.for_opt, *b->Substring_0.for_opt) && same_tree(*x.for_value, *b->Substring_0.for_value) && same_tree(*x.close_paren, *b->Substring_0.close_paren),
        ParseTree::Position(x) => b is Position && same_tree(*x.position, *b->Position_0.position) && same_tree(*x.open_paren, *b->Position_0.open_paren) && same_tree(*x.value, *b->Position_0.value) && same_tree(*x.in_, *b->Position_0.in_) && same_tree(*x.target, *b->Position_0.target) && same_tree(*x.close_paren, *b->Position_0.close_paren),
        _ => false,
    }
}

/// `a` and `b` are the same tree, for types.
#[verifier::opaque]
pub open spec fn same_type_tree<'a>(a: ParseTree<'a>, b: ParseTree<'a>) -> bool
    decreases a, 0int,
{
    match a {
        ParseTree::ArrayTypeSuffix(x) => b is ArrayTypeSuffix && same_tree(*x.base_type, *b->ArrayTypeSuffix_0.base_type) && same_tree(*x.array, *b->ArrayTypeSuffix_0.array),
        ParseTree::NamedType(x) => b is NamedType && same_tree(*x.name, *b->NamedType_0.name) && same_tree(*x.type_parameters, *b->NamedType_0.type_parameters),
        ParseTree::ArrayType(x) => b is ArrayType && same_tree(*x.array, *b->ArrayType_0.array) && same_tree(*x.open_angle, *b->ArrayType_0.open_angle) && same_tree(*x.element_type, *b->ArrayType_0.element_type) && same_tree(*x.close_angle, *b->ArrayType_0.close_angle),
        ParseTree::MapType(x) => b is MapType && same_tree(*x.map, *b->MapType_0.map) && same_tree(*x.open_angle, *b->MapType_0.open_angle) && same_tree(*x.key_type, *b->MapType_0.key_type) && same_tree(*x.comma, *b->MapType_0.comma) && same_tree(*x.value_type, *b->MapType_0.value_type) && same_tree(*x.close_angle, *b->MapType_0.close_angle),
        ParseTree::RowType(x) => b is RowType && same_tree(*x.row, *b->RowType_0.row) && same_tree(*x.element_types, *b->RowType_0.element_types),
        ParseTree::RowTypeElement(x) => b is RowTypeElement && same_tree(*x.identifier, *b->RowTypeElement_0.identifier) && same_tree(*x.type_, *b->RowTypeElement_0.type_),
        ParseTree::IntervalType(x) => b is IntervalType && same_tree(*x.interval, *b->IntervalType_0.interval) && same_tree(*x.from, *b->IntervalType_0.from) && same_tree(*x.to_kw, *b->IntervalType_0.to_kw) && same_tree(*x.to, *b->IntervalType_0.to),
        _ => false,
    }
}

/// `a` and `b` are the same tree, for statements.
#[verifier::opaque]
pub open spec fn same_statement_tree<'a>(a: ParseTree<'a>, b: ParseTree<'a>) -> bool
    decreases a, 0int,
{
    match a {
        ParseTree::IfNotExists(x) => b is IfNotExists && same_tree(*x.if_, *b->IfNotExists_0.if_) && same_tree(*x.not, *b->IfNotExists_0.not) && same_tree(*x.exists, *b->IfNotExists_0.exists),
        ParseTree::CreateTable(x) => b is CreateTable && same_tree(*x.create, *b->CreateTable_0.create) && same_tree(*x.table, *b->CreateTable_0.table) && same_tree(*x.if_not_exists_opt, *b->CreateTable_0.if_not_exists_opt) && same_tree(*x.table_name, *b->CreateTable_0.table_name) && same_tree(*x.table_elements, *b->CreateTable_0.table_elements) && same_tree(*x.comment_opt, *b->CreateTable_0.comment_opt) && same_tree(*x.with_properties_opt, *b->CreateTable_0.with_properties_opt),
        ParseTree::CreateView(x) => b is CreateView && same_tree(*x.create, *b->CreateView_0.create) && same_tree(*x.or_opt, *b->CreateView_0.or_opt) && same_tree(*x.replace_opt, *b->CreateView_0.replace_opt) && same_tree(*x.view, *b->CreateView_0.view) && same_tree(*x.qualified_name, *b->CreateView_0.qualified_name) && same_tree(*x.as_, *b->CreateView_0.as_) && same_tree(*x.query, *b->CreateView_0.query),
        ParseTree::CreateRole(x) => b is CreateRole && same_tree(*x.create, *b->CreateRole_0.create) && same_tree(*x.role, *b->CreateRole_0.role) && same_tree(*x.name, *b->CreateRole_0.name) && same_tree(*x.with_admin_grantor_opt, *b->CreateRole_0.with_admin_grantor_opt),
        ParseTree::WithAdminGrantor(x) => b is WithAdminGrantor && same_tree(*x.with, *b->WithAdminGrantor_0.with) && same_tree(*x.admin, *b->WithAdminGrantor_0.admin) && same_tree(*x.grantor, *b->WithAdminGrantor_0.grantor),
        ParseTree::UserPrincipal(x) => b is UserPrincipal && same_tree(*x.user, *b->UserPrincipal_0.user) && same_tree(*x.identifier, *b->UserPrincipal_0.identifier),
        ParseTree::RolePrincipal(x) => b is RolePrincipal && same_tree(*x.role, *b->RolePrincipal_0.role) && same_tree(*x.identifier, *b->RolePrincipal_0.identifier),
        ParseTree::UnspecifiedPrincipal(x) => b is UnspecifiedPrincipal && same_tree(*x.identifier, *b->UnspecifiedPrincipal_0.identifier),
        ParseTree::CreateTableAsSelect(x) => b is CreateTableAsSelect && same_tree(*x.create, *b->CreateTableAsSelect_0.create) && same_tree(*x.table, *b->CreateTableAsSelect_0.table) && same_tree(*x.if_not_exists_opt, *b->CreateTableAsSelect_0.if_not_exists_opt) && same_tree(*x.table_name, *b->CreateTableAsSelect_0.table_name) && same_tree(*x.column_aliases_opt, *b->CreateTableAsSelect_0.column_aliases_opt) && same_tree(*x.comment_opt, *b->CreateTableAsSelect_0.comment_opt) && same_tree(*x.with_properties_opt, *b->CreateTableAsSelect_0.with_properties_opt) && same_tree(*x.as_, *b->CreateTableAsSelect_0.as_) && same_tree(*x.open_paren_opt, *b->CreateTableAsSelect_0.open_paren_opt) && same_tree(*x.query, *b->CreateTableAsSelect_0.query) && same_tree(*x.close_paren_opt, *b->CreateTableAsSelect_0.close_paren_opt) && same_tree(*x.with_data_opt, *b->CreateTableAsSelect_0.with_data_opt),
        ParseTree::WithProperties(x) => b is WithProperties && same_tree(*x.with, *b->WithProperties_0.with) && same_tree(*x.properties, *b->WithProperties_0.properties),
        ParseTree::Property(x) => b is Property && same_tree(*x.identifier, *b->Property_0.identifier) && same_tree(*x.eq, *b->Property_0.eq) && same_tree(*x.value, *b->Property_0.value),
        ParseTree::WithData(x) => b is WithData && same_tree(*x.with, *b->WithData_0.with) && same_tree(*x.no_opt, *b->WithData_0.no_opt) && same_tree(*x.data, *b->WithData_0.data),
        ParseTree::Comment(x) => b is Comment && same_tree(*x.comment, *b->Comment_0.comment) && same_tree(*x.value, *b->Comment_0.value),
        ParseTree::ColumnDefinition(x) => b is ColumnDefinition && same_tree(*x.identifier, *b->ColumnDefinition_0.identifier) && same_tree(*x.type_, *b->ColumnDefinition_0.type_) && same_tree(*x.not_null_opt, *b->ColumnDefinition_0.not_null_opt) && same_tree(*x.comment_opt, *b->ColumnDefinition_0.comment_opt) && same_tree(*x.with_properties_opt, *b->ColumnDefinition_0.with_properties_opt),
        ParseTree::NotNull(x) => b is NotNull && same_tree(*x.not, *b->NotNull_0.not) && same_tree(*x.null, *b->NotNull_0.null),
        ParseTree::LikeClause(x) => b is LikeClause && same_tree(*x.like, *b->LikeClause_0.like) && same_tree(*x.name, *b->LikeClause_0.name) && same_tree(*x.option_type_opt, *b->LikeClause_0.option_type_opt) && same_tree(*x.properties, *b->LikeClause_0.properties),
        ParseTree::InsertInto(x) => b is InsertInto && same_tree(*x.insert, *b->InsertInto_0.insert) && same_tree(*x.into, *b->InsertInto_0.into) && same_tree(*x.table_name, *b->InsertInto_0.table_name) && same_tree(*x.column_aliases_opt, *b->InsertInto_0.column_aliases_opt) && same_tree(*x.query, *b->InsertInto_0.query),
        ParseTree::Delete(x) => b is Delete && same_tree(*x.delete, *b->Delete_0.delete) && same_tree(*x.from, *b->Delete_0.from) && same_tree(*x.table_name, *b->Delete_0.table_name) && same_tree(*x.where_opt, *b->Delete_0.where_opt) && same_tree(*x.predicate, *b->Delete_0.predicate),
        ParseTree::GroupingSet(x) => b is GroupingSet && same_tree(*x.elements, *b->GroupingSet_0.elements),
        ParseTree::RelationOrQuery(x) => b is RelationOrQuery && same_tree(*x.open_paren, *b->RelationOrQuery_0.open_paren) && same_tree(*x.query_or_relation, *b->RelationOrQuery_0.query_or_relation) && same_tree(*x.close_paren, *b->RelationOrQuery_0.close_paren),
        ParseTree::EmptyGroupingSet(x) => b is EmptyGroupingSet && same_tree(*x.open_paren, *b->EmptyGroupingSet_0.open_paren) && same_tree(*x.close_paren, *b->EmptyGroupingSet_0.close_paren),
        ParseTree::ExpressionOrQuery(x) => b is ExpressionOrQuery && same_tree(*x.open_paren, *b->ExpressionOrQuery_0.open_paren) && same_tree(*x.expression_or_query, *b->ExpressionOrQuery_0.expression_or_query) && same_tree(*x.close_paren, *b->ExpressionOrQuery_0.close_paren),
        ParseTree::Entrypoint(x) => b is Entrypoint && same_tree(*x.beginning_of_file, *b->Entrypoint_0.beginning_of_file) && same_tree(*x.tree, *b->Entrypoint_0.tree) && same_tree(*x.end_of_file, *b->Entrypoint_0.end_of_file),
        ParseTree::NullTreatment(x) => b is NullTreatment && same_tree(*x.treatment, *b->NullTreatment_0.treatment) && same_tree(*x.nulls, *b->NullTreatment_0.nulls),
        _ => false,
    }
}

/// The elements and separators of two lists are, one for one, the same trees.
pub open spec fn same_pairs<'a>(
    ps: Seq<(ParseTree<'a>, ParseTree<'a>)>,
    qs: Seq<(ParseTree<'a>, ParseTree<'a>)>,
) -> bool
    decreases ps, 0int,
{
    if ps.len() == 0 {
        qs.len() == 0
    } else {
        qs.len() == ps.len() && same_pairs(ps.drop_last(), qs.drop_last()) && same_tree(
            ps.last().0,
            qs.last().0,
        ) && same_tree(ps.last().1, qs.last().1)
    }
}

/// One more pair of the same trees.
proof fn lemma_same_pairs_push<'a>(
    ps: Seq<(ParseTree<'a>, ParseTree<'a>)>,
    qs: Seq<(ParseTree<'a>, ParseTree<'a>)>,
    p: (ParseTree<'a>, ParseTree<'a>),
    q: (ParseTree<'a>, ParseTree<'a>),
)
    requires
        same_pairs(ps, qs),
        same_tree(p.0, q.0),
        same_tree(p.1, q.1),
    ensures
        same_pairs(ps.push(p), qs.push(q)),
{
    reveal_with_fuel(same_tree, 2);
    assert(ps.push(p).drop_last() =~= ps);
    assert(qs.push(q).drop_last() =~= qs);
}

/// A copy of the comments `cs`.
fn copy_comments<'a>(cs: &Vec<comment::Comment<'a>>) -> (r: Vec<comment::Comment<'a>>)
    ensures
        r@ == cs@,
{
    let mut r: Vec<comment::Comment<'a>> = Vec::new();
    let mut i: usize = 0;
    while i < cs.len()
        invariant
            i <= cs@.len(),
            r@ == cs@.take(i as int),
        decreases cs@.len() - i,
    {
        r.push(cs[i]);
        assert(cs@.take(i + 1) =~= cs@.take(i as int).push(cs@[i as int]));
        i += 1;
    }
    assert(cs@.take(i as int) =~= cs@);
    r
}

/// A copy of the errors `es`: the same codes and messages, in order.
fn copy_errors(es: &Vec<SyntaxError>) -> (r: Vec<SyntaxError>)
    ensures
        r@.map_values(|e: SyntaxError| error_view(e)) == es@.map_values(
            |e: SyntaxError| error_view(e),
        ),
{
    let mut r: Vec<SyntaxError> = Vec::new();
    let mut i: usize = 0;
    while i < es.len()
        invariant
            i <= es@.len(),
            r@.map_values(|e: SyntaxError| error_view(e)) == es@.take(i as int).map_values(
                |e: SyntaxError| error_view(e),
            ),
        decreases es@.len() - i,
    {
        let ghost before = r@;
        r.push(es[i].duplicate());
        assert(r@.map_values(|e: SyntaxError| error_view(e)) =~= before.map_values(
            |e: SyntaxError| error_view(e),
        ).push(error_view(es@[i as int])));
        assert(es@.take(i + 1).map_values(|e: SyntaxError| error_view(e)) =~= es@.take(
            i as int,
        ).map_values(|e: SyntaxError| error_view(e)).push(error_view(es@[i as int])));
        i += 1;
    }
    assert(es@.take(i as int) =~= es@);
    r
}

/// A copy of the token `t`: the same kind, range, text, comments and errors.
pub fn copy_token<'a>(t: &token::Token<'a>) -> (r: token::Token<'a>)
    ensures
        token_view(r) == token_view(*t),
{
    token::Token {
        kind: t.kind,
        range: t.range,
        value: t.value,
        leading_comments: copy_comments(&t.leading_comments),
        trailing_comments: copy_comments(&t.trailing_comments),
        errors: copy_errors(&t.errors),
    }
}

/// A copy of the list `x`: its delimiters, elements and separators copied.
pub fn clone_list<'a>(x: &List<'a>) -> (r: List<'a>)
    ensures
        same_tree(*r.start_delimiter, *x.start_delimiter),
        same_pairs(r.elements_and_separators@, x.elements_and_separators@),
        same_tree(*r.end_delimiter, *x.end_delimiter),
    decreases *x, 0int,
{
    let mut pairs: Vec<(ParseTree<'a>, ParseTree<'a>)> = Vec::new();
    let mut i: usize = 0;
    proof {
        reveal_with_fuel(same_tree, 2);
    }
    while i < x.elements_and_separators.len()
        invariant
            i <= x.elements_and_separators@.len(),
            same_pairs(pairs@, x.elements_and_separators@.take(i as int)),
        decreases x.elements_and_separators@.len() - i,
    {
        proof {
            let pair = x.elements_and_separators@[i as int];
            assert(decreases_to!(*x => x.elements_and_separators));
            assert(decreases_to!(x.elements_and_separators => x.elements_and_separators@));
            assert(decreases_to!(x.elements_and_separators@ => pair));
            assert(decreases_to!(pair => pair.0));
            assert(decreases_to!(pair => pair.1));
        }
        let element = clone_tree(&x.elements_and_separators[i].0);
        let separator = clone_tree(&x.elements_and_separators[i].1);
        proof {
            lemma_same_pairs_push(
                pairs@,
                x.elements_and_separators@.take(i as int),
                (element, separator),
                x.elements_and_separators@[i as int],
            );
            assert(x.elements_and_separators@.take(i + 1) =~= x.elements_and_separators@.take(
                i as int,
            ).push(x.elements_and_separators@[i as int]));
        }
        pairs.push((element, separator));
        i += 1;
    }
    assert(x.elements_and_separators@.take(i as int) =~= x.elements_and_separators@);
    List {
        start_delimiter: Box::new(clone_tree(&x.start_delimiter)),
        elements_and_separators: pairs,
        end_delimiter: Box::new(clone_tree(&x.end_delimiter)),
    }
}

/// A copy of the tree `t`: the same tree, every subtree copied and every token
/// copied.
pub fn clone_tree<'a>(t: &ParseTree<'a>) -> (r: ParseTree<'a>)
    ensures
        same_tree(r, *t),
    decreases *t, 1int,
{
    proof {
        reveal_with_fuel(same_tree, 2);
    }
    match t {
        ParseTree::Empty(x) => ParseTree::Empty(Empty { range: x.range }),
        ParseTree::Token(x) => ParseTree::Token(Token { token: copy_token(&x.token) }),
        ParseTree::Error(x) => ParseTree::Error(Error { error: x.error.duplicate() }),
        ParseTree::List(x) => ParseTree::List(clone_list(x)),
        ParseTree::Query(_) | ParseTree::With(_) | ParseTree::NamedQuery(_) | ParseTree::QueryNoWith(_) | ParseTree::OrderBy(_) | ParseTree::Limit(_) | ParseTree::QuerySetOperation(_) | ParseTree::SortItem(_) | ParseTree::Subquery(_) | ParseTree::InlineTable(_) | ParseTree::Table(_) | ParseTree::QuerySpecification(_) | ParseTree::QualifiedName(_) | ParseTree::SelectAll(_) | ParseTree::QualifiedSelectAll(_) | ParseTree::SelectItem(_) => clone_query_tree(t),
        ParseTree::SubqueryRelation(_) | ParseTree::ParenthesizedRelation(_) | ParseTree::TableName(_) | ParseTree::Lateral(_) | ParseTree::Unnest(_) | ParseTree::SampledRelation(_) | ParseTree::AliasedRelation(_) | ParseTree::CrossJoin(_) | ParseTree::Join(_) | ParseTree::NaturalJoin(_) | ParseTree::OuterJoinKind(_) | ParseTree::OnJoinCriteria(_) | ParseTree::UsingJoinCriteria(_) | ParseTree::GroupBy(_) | ParseTree::Rollup(_) | ParseTree::Cube(_) | ParseTree::GroupingSets(_) => clone_relation_tree(t),
        ParseTree::BinaryExpression(_) | ParseTree::UnaryExpression(_) | ParseTree::QuantifiedComparison(_) | ParseTree::NullPredicate(_) | ParseTree::DistinctFrom(_) | ParseTree::Between(_) | ParseTree::Like(_) | ParseTree::InSubquery(_) | ParseTree::InList(_) | ParseTree::AtTimeZone(_) | ParseTree::Dereference(_) | ParseTree::Subscript(_) => clone_operator_tree(t),
        ParseTree::Lambda(_) | ParseTree::Literal(_) | ParseTree::RowConstructor(_) | ParseTree::ParenthesizedExpression(_) | ParseTree::Identifier(_) | ParseTree::FunctionCall(_) | ParseTree::Filter(_) | ParseTree::Over(_) | ParseTree::WindowFrame(_) | ParseTree::UnboundedFrame(_) | ParseTree::CurrentRowBound(_) | ParseTree::BoundedFrame(_) | ParseTree::UnicodeString(_) | ParseTree::ConfigureExpression(_) | ParseTree::SubqueryExpression(_) | ParseTree::Grouping(_) | ParseTree::Extract(_) => clone_primary_tree(t),
        ParseTree::CurrentTime(_) | ParseTree::CurrentTimestamp(_) | ParseTree::Normalize(_) | ParseTree::Localtime(_) | ParseTree::Localtimestamp(_) | ParseTree::Cast(_) | ParseTree::WhenClause(_) | ParseTree::Case(_) | ParseTree::Exists(_) | ParseTree::TypeConstructor(_) | ParseTree::Array(_) | ParseTree::Interval(_) | ParseTree::Row(_) | ParseTree::TryCast(_) | ParseTree::Substring(_) | ParseTree::Position(_) => clone_special_tree(t),
        ParseTree::ArrayTypeSuffix(_) | ParseTree::NamedType(_) | ParseTree::ArrayType(_) | ParseTree::MapType(_) | ParseTree::RowType(_) | ParseTree::RowTypeElement(_) | ParseTree::IntervalType(_) => clone_type_tree(t),
        ParseTree::IfNotExists(_) | ParseTree::CreateTable(_) | ParseTree::CreateView(_) | ParseTree::CreateRole(_) | ParseTree::WithAdminGrantor(_) | ParseTree::UserPrincipal(_) | ParseTree::RolePrincipal(_) | ParseTree::UnspecifiedPrincipal(_) | ParseTree::CreateTableAsSelect(_) | ParseTree::WithProperties(_) | ParseTree::Property(_) | ParseTree::WithData(_) | ParseTree::Comment(_) | ParseTree::ColumnDefinition(_) | ParseTree::NotNull(_) | ParseTree::LikeClause(_) | ParseTree::InsertInto(_) | ParseTree::Delete(_) | ParseTree::GroupingSet(_) | ParseTree::RelationOrQuery(_) | ParseTree::EmptyGroupingSet(_) | ParseTree::ExpressionOrQuery(_) | ParseTree::Entrypoint(_) | ParseTree::NullTreatment(_) => clone_statement_tree(t),
    }
}

/// A copy of the tree `t`, for queries.
#[verifier::spinoff_prover]
fn clone_query_tree<'a>(t: &ParseTree<'a>) -> (r: ParseTree<'a>)
    requires
        *t is Query || *t is With || *t is NamedQuery || *t is QueryNoWith || *t is OrderBy || *t is Limit || *t is QuerySetOperation || *t is SortItem || *t is Subquery || *t is InlineTable || *t is Table || *t is QuerySpecification || *t is QualifiedName || *t is SelectAll || *t is QualifiedSelectAll || *t is SelectItem,
    ensures
        same_tree(r, *t),
    decreases *t, 0int,
{
    proof {
        reveal_with_fuel(same_tree, 2);
        reveal_with_fuel(same_query_tree, 2);
    }
    match t {
        ParseTree::Query(x) => ParseTree::Query(Query { with: Box::new(clone_tree(&x.with)), query_no_with: Box::new(clone_tree(&x.query_no_with)) }),
        ParseTree::With(x) => ParseTree::With(With { with: Box::new(clone_tree(&x.with)), recursive: Box::new(clone_tree(&x.recursive)), named_queries: Box::new(clone_tree(&x.named_queries)) }),
        ParseTree::NamedQuery(x) => ParseTree::NamedQuery(NamedQuery { name: Box::new(clone_tree(&x.name)), column_aliases_opt: Box::new(clone_tree(&x.column_aliases_opt)), as_: Box::new(clone_tree(&x.as_)), open_paren: Box::new(clone_tree(&x.open_paren)), query: Box::new(clone_tree(&x.query)), close_paren: Box::new(clone_tree(&x.close_paren)) }),
        ParseTree::QueryNoWith(x) => ParseTree::QueryNoWith(QueryNoWith { query_term: Box::new(clone_tree(&x.query_term)), order_by_opt: Box::new(clone_tree(&x.order_by_opt)), limit_opt: Box::new(clone_tree(&x.limit_opt)) }),
        ParseTree::OrderBy(x) => ParseTree::OrderBy(OrderBy { order: Box::new(clone_tree(&x.order)), by: Box::new(clone_tree(&x.by)), sort_items: Box::new(clone_tree(&x.sort_items)) }),
        ParseTree::Limit(x) => ParseTree::Limit(Limit { limit: Box::new(clone_tree(&x.limit)), value: Box::new(clone_tree(&x.value)) }),
        ParseTree::QuerySetOperation(x) => ParseTree::QuerySetOperation(QuerySetOperation { left: Box::new(clone_tree(&x.left)), operator: Box::new(clone_tree(&x.operator)), set_quantifier_opt: Box::new(clone_tree(&x.set_quantifier_opt)), right: Box::new(clone_tree(&x.right)) }),
        ParseTree::SortItem(x) => ParseTree::SortItem(SortItem { expression: Box::new(clone_tree(&x.expression)), ordering_opt: Box::new(clone_tree(&x.ordering_opt)), nulls: Box::new(clone_tree(&x.nulls)), null_ordering_opt: Box::new(clone_tree(&x.null_ordering_opt)) }),
        ParseTree::Subquery(x) => ParseTree::Subquery(Subquery { open_paren: Box::new(clone_tree(&x.open_paren)), query_no_with: Box::new(clone_tree(&x.query_no_with)), close_paren: Box::new(clone_tree(&x.close_paren)) }),
        ParseTree::InlineTable(x) => ParseTree::InlineTable(InlineTable { values: Box::new(clone_tree(&x.values)), expressions: Box::new(clone_tree(&x.expressions)) }),
        ParseTree::Table(x) => ParseTree::Table(Table { table: Box::new(clone_tree(&x.table)), qualified_name: Box::new(clone_tree(&x.qualified_name)) }),
        ParseTree::QuerySpecification(x) => ParseTree::QuerySpecification(QuerySpecification { select: Box::new(clone_tree(&x.select)), set_quantifier_opt: Box::new(clone_tree(&x.set_quantifier_opt)), select_items: Box::new(clone_tree(&x.select_items)), from: Box::new(clone_tree(&x.from)), relations: Box::new(clone_tree(&x.relations)), where_: Box::new(clone_tree(&x.where_)), where_predicate: Box::new(clone_tree(&x.where_predicate)), group: Box::new(clone_tree(&x.group)), by: Box::new(clone_tree(&x.by)), group_by: Box::new(clone_tree(&x.group_by)), having: Box::new(clone_tree(&x.having)), having_predicate: Box::new(clone_tree(&x.having_predicate)) }),
        ParseTree::QualifiedName(x) => ParseTree::QualifiedName(QualifiedName { names: Box::new(clone_tree(&x.names)) }),
        ParseTree::SelectAll(x) => ParseTree::SelectAll(SelectAll { asterisk: Box::new(clone_tree(&x.asterisk)) }),
        ParseTree::QualifiedSelectAll(x) => ParseTree::QualifiedSelectAll(QualifiedSelectAll { qualifier: Box::new(clone_tree(&x.qualifier)), period: Box::new(clone_tree(&x.period)), asterisk: Box::new(clone_tree(&x.asterisk)) }),
        ParseTree::SelectItem(x) => ParseTree::SelectItem(SelectItem { expression: Box::new(clone_tree(&x.expression)), as_: Box::new(clone_tree(&x.as_)), identifier: Box::new(clone_tree(&x.identifier)) }),
        _ => vstd::pervasive::unreached(),
    }
}

/// A copy of the tree `t`, for relations, joins and grouping.
#[verifier::spinoff_prover]
fn clone_relation_tree<'a>(t: &ParseTree<'a>) -> (r: ParseTree<'a>)
    requires
        *t is SubqueryRelation || *t is ParenthesizedRelation || *t is TableName || *t is Lateral || *t is Unnest || *t is SampledRelation || *t is AliasedRelation || *t is CrossJoin || *t is Join || *t is NaturalJoin || *t is OuterJoinKind || *t is OnJoinCriteria || *t is UsingJoinCriteria || *t is GroupBy || *t is Rollup || *t is Cube || *t is GroupingSets,
    ensures
        same_tree(r, *t),
    decreases *t, 0int,
{
    proof {
        reveal_with_fuel(same_tree, 2);
        reveal_with_fuel(same_relation_tree, 2);
    }
    match t {
        ParseTree::SubqueryRelation(x) => ParseTree::SubqueryRelation(SubqueryRelation { open_paren: Box::new(clone_tree(&x.open_paren)), query: Box::new(clone_tree(&x.query)), close_paren: Box::new(clone_tree(&x.close_paren)) }),
        ParseTree::ParenthesizedRelation(x) => ParseTree::ParenthesizedRelation(ParenthesizedRelation { open_paren: Box::new(clone_tree(&x.open_paren)), relation: Box::new(clone_tree(&x.relation)), close_paren: Box::new(clone_tree(&x.close_paren)) }),
        ParseTree::TableName(x) => ParseTree::TableName(TableName { name: Box::new(clone_tree(&x.name)) }),
        ParseTree::Lateral(x) => ParseTree::Lateral(Lateral { lateral: Box::new(clone_tree(&x.lateral)), open_paren: Box::new(clone_tree(&x.open_paren)), query: Box::new(clone_tree(&x.query)), close_paren: Box::new(clone_tree(&x.close_paren)) }),
        ParseTree::Unnest(x) => ParseTree::Unnest(Unnest { unnest: Box::new(clone_tree(&x.unnest)), expressions: Box::new(clone_tree(&x.expressions)), with: Box::new(clone_tree(&x.with)), ordinality: Box::new(clone_tree(&x.ordinality)) }),
        ParseTree::SampledRelation(x) => ParseTree::SampledRelation(SampledRelation { aliased_relation: Box::new(clone_tree(&x.aliased_relation)), tablesample: Box::new(clone_tree(&x.tablesample)), sample_type: Box::new(clone_tree(&x.sample_type)), open_paren: Box::new(clone_tree(&x.open_paren)), expression: Box::new(clone_tree(&x.expression)), close_paren: Box::new(clone_tree(&x.close_paren)) }),
        ParseTree::AliasedRelation(x) => ParseTree::AliasedRelation(AliasedRelation { relation_primary: Box::new(clone_tree(&x.relation_primary)), as_opt: Box::new(clone_tree(&x.as_opt)), identifier: Box::new(clone_tree(&x.identifier)), column_aliases_opt: Box::new(clone_tree(&x.column_aliases_opt)) }),
        ParseTree::CrossJoin(x) => ParseTree::CrossJoin(CrossJoin { left: Box::new(clone_tree(&x.left)), cross: Box::new(clone_tree(&x.cross)), join: Box::new(clone_tree(&x.join)), right: Box::new(clone_tree(&x.right)) }),
        ParseTree::Join(x) => ParseTree::Join(Join { left: Box::new(clone_tree(&x.left)), join_type: Box::new(clone_tree(&x.join_type)), join: Box::new(clone_tree(&x.join)), right: Box::new(clone_tree(&x.right)), join_criteria: Box::new(clone_tree(&x.join_criteria)) }),
        ParseTree::NaturalJoin(x) => ParseTree::NaturalJoin(NaturalJoin { left: Box::new(clone_tree(&x.left)), natural: Box::new(clone_tree(&x.natural)), join_type: Box::new(clone_tree(&x.join_type)), join: Box::new(clone_tree(&x.join)), right: Box::new(clone_tree(&x.right)) }),
        ParseTree::OuterJoinKind(x) => ParseTree::OuterJoinKind(OuterJoinKind { kind: Box::new(clone_tree(&x.kind)), outer_opt: Box::new(clone_tree(&x.outer_opt)) }),
        ParseTree::OnJoinCriteria(x) => ParseTree::OnJoinCriteria(OnJoinCriteria { on: Box::new(clone_tree(&x.on)), predicate: Box::new(clone_tree(&x.predicate)) }),
        ParseTree::UsingJoinCriteria(x) => ParseTree::UsingJoinCriteria(UsingJoinCriteria { using: Box::new(clone_tree(&x.using)), names: Box::new(clone_tree(&x.names)) }),
        ParseTree::GroupBy(x) => ParseTree::GroupBy(GroupBy { set_quantifier_opt: Box::new(clone_tree(&x.set_quantifier_opt)), grouping_elements: Box::new(clone_tree(&x.grouping_elements)) }),
        ParseTree::Rollup(x) => ParseTree::Rollup(Rollup { rollup: Box::new(clone_tree(&x.rollup)), expressions: Box::new(clone_tree(&x.expressions)) }),
        ParseTree::Cube(x) => ParseTree::Cube(Cube { cube: Box::new(clone_tree(&x.cube)), expressions: Box::new(clone_tree(&x.expressions)) }),
        ParseTree::GroupingSets(x) => ParseTree::GroupingSets(GroupingSets { grouping: Box::new(clone_tree(&x.grouping)), sets: Box::new(clone_tree(&x.sets)), grouping_sets: Box::new(clone_tree(&x.grouping_sets)) }),
        _ => vstd::pervasive::unreached(),
    }
}

/// A copy of the tree `t`, for operator expressions.
#[verifier::spinoff_prover]
fn clone_operator_tree<'a>(t: &ParseTree<'a>) -> (r: ParseTree<'a>)
    requires
        *t is BinaryExpression || *t is UnaryExpression || *t is QuantifiedComparison || *t is NullPredicate || *t is DistinctFrom || *t is Between || *t is Like || *t is InSubquery || *t is InList || *t is AtTimeZone || *t is Dereference || *t is Subscript,
    ensures
        same_tree(r, *t),
    decreases *t, 0int,
{
    proof {
        reveal_with_fuel(same_tree, 2);
        reveal_with_fuel(same_operator_tree, 2);
    }
    match t {
        ParseTree::BinaryExpression(x) => ParseTree::BinaryExpression(BinaryExpression { left: Box::new(clone_tree(&x.left)), operator: Box::new(clone_tree(&x.operator)), right: Box::new(clone_tree(&x.right)) }),
        ParseTree::UnaryExpression(x) => ParseTree::UnaryExpression(UnaryExpression { operator: Box::new(clone_tree(&x.operator)), operand: Box::new(clone_tree(&x.operand)) }),
        ParseTree::QuantifiedComparison(x) => ParseTree::QuantifiedComparison(QuantifiedComparison { operand: Box::new(clone_tree(&x.operand)), operator: Box::new(clone_tree(&x.operator)), comparison_quantifier: Box::new(clone_tree(&x.comparison_quantifier)), open_paren: Box::new(clone_tree(&x.open_paren)), query: Box::new(clone_tree(&x.query)), close_paren: Box::new(clone_tree(&x.close_paren)) }),
        ParseTree::NullPredicate(x) => ParseTree::NullPredicate(NullPredicate { value: Box::new(clone_tree(&x.value)), is: Box::new(clone_tree(&x.is)), not_opt: Box::new(clone_tree(&x.not_opt)), null: Box::new(clone_tree(&x.null)) }),
        ParseTree::DistinctFrom(x) => ParseTree::DistinctFrom(DistinctFrom { left: Box::new(clone_tree(&x.left)), is: Box::new(clone_tree(&x.is)), not_opt: Box::new(clone_tree(&x.not_opt)), distinct: Box::new(clone_tree(&x.distinct)), from: Box::new(clone_tree(&x.from)), right: Box::new(clone_tree(&x.right)) }),
        ParseTree::Between(x) => ParseTree::Between(Between { value: Box::new(clone_tree(&x.value)), not_opt: Box::new(clone_tree(&x.not_opt)), between: Box::new(clone_tree(&x.between)), lower: Box::new(clone_tree(&x.lower)), and: Box::new(clone_tree(&x.and)), upper: Box::new(clone_tree(&x.upper)) }),
        ParseTree::Like(x) => ParseTree::Like(Like { value: Box::new(clone_tree(&x.value)), not_opt: Box::new(clone_tree(&x.not_opt)), like: Box::new(clone_tree(&x.like)), patrern: Box::new(clone_tree(&x.patrern)), escape_opt: Box::new(clone_tree(&x.escape_opt)), escape_value_opt: Box::new(clone_tree(&x.escape_value_opt)) }),
        ParseTree::InSubquery(x) => ParseTree::InSubquery(InSubquery { value: Box::new(clone_tree(&x.value)), not_opt: Box::new(clone_tree(&x.not_opt)), in_: Box::new(clone_tree(&x.in_)), open_paren: Box::new(clone_tree(&x.open_paren)), query: Box::new(clone_tree(&x.query)), close_paren: Box::new(clone_tree(&x.close_paren)) }),
        ParseTree::InList(x) => ParseTree::InList(InList { value: Box::new(clone_tree(&x.value)), not_opt: Box::new(clone_tree(&x.not_opt)), in_: Box::new(clone_tree(&x.in_)), expressions: Box::new(clone_tree(&x.expressions)) }),
        ParseTree::AtTimeZone(x) => ParseTree::AtTimeZone(AtTimeZone { value: Box::new(clone_tree(&x.value)), at: Box::new(clone_tree(&x.at)), time: Box::new(clone_tree(&x.time)), zone: Box::new(clone_tree(&x.zone)), specifier: Box::new(clone_tree(&x.specifier)) }),
        ParseTree::Dereference(x) => ParseTree::Dereference(Dereference { object: Box::new(clone_tree(&x.object)), period: Box::new(clone_tree(&x.period)), field_name: Box::new(clone_tree(&x.field_name)) }),
        ParseTree::Subscript(x) => ParseTree::Subscript(Subscript { operand: Box::new(clone_tree(&x.operand)), open_square: Box::new(clone_tree(&x.open_square)), index: Box::new(clone_tree(&x.index)), close_square: Box::new(clone_tree(&x.close_square)) }),
        _ => vstd::pervasive::unreached(),
    }
}

/// A copy of the tree `t`, for primary expressions.
#[verifier::spinoff_prover]
fn clone_primary_tree<'a>(t: &ParseTree<'a>) -> (r: ParseTree<'a>)
    requires
        *t is Lambda || *t is Literal || *t is RowConstructor || *t is ParenthesizedExpression || *t is Identifier || *t is FunctionCall || *t is Filter || *t is Over || *t is WindowFrame || *t is UnboundedFrame || *t is CurrentRowBound || *t is BoundedFrame || *t is UnicodeString || *t is ConfigureExpression || *t is SubqueryExpression || *t is Grouping || *t is Extract,
    ensures
        same_tree(r, *t),
    decreases *t, 0int,
{
    proof {
        reveal_with_fuel(same_tree, 2);
        reveal_with_fuel(same_primary_tree, 2);
    }
    match t {
        ParseTree::Lambda(x) => ParseTree::Lambda(Lambda { parameters: Box::new(clone_tree(&x.parameters)), array: Box::new(clone_tree(&x.array)), body: Box::new(clone_tree(&x.body)) }),
        ParseTree::Literal(x) => ParseTree::Literal(Literal { value: Box::new(clone_tree(&x.value)) }),
        ParseTree::RowConstructor(x) => ParseTree::RowConstructor(RowConstructor { elements: Box::new(clone_tree(&x.elements)) }),
        ParseTree::ParenthesizedExpression(x) => ParseTree::ParenthesizedExpression(ParenthesizedExpression { open_paren: Box::new(clone_tree(&x.open_paren)), value: Box::new(clone_tree(&x.value)), close_paren: Box::new(clone_tree(&x.close_paren)) }),
        ParseTree::Identifier(x) => ParseTree::Identifier(Identifier { value: Box::new(clone_tree(&x.value)) }),
        ParseTree::FunctionCall(x) => ParseTree::FunctionCall(FunctionCall { name: Box::new(clone_tree(&x.name)), open_paren: Box::new(clone_tree(&x.open_paren)), set_quantifier_opt: Box::new(clone_tree(&x.set_quantifier_opt)), arguments: Box::new(clone_tree(&x.arguments)), order_by_opt: Box::new(clone_tree(&x.order_by_opt)), close_paren: Box::new(clone_tree(&x.close_paren)), filter_opt: Box::new(clone_tree(&x.filter_opt)), null_treatment_opt: Box::new(clone_tree(&x.null_treatment_opt)), over_opt: Box::new(clone_tree(&x.over_opt)) }),
        ParseTree::Filter(x) => ParseTree::Filter(Filter { filter: Box::new(clone_tree(&x.filter)), open_paren: Box::new(clone_tree(&x.open_paren)), where_: Box::new(clone_tree(&x.where_)), predicate: Box::new(clone_tree(&x.predicate)), close_paren: Box::new(clone_tree(&x.close_paren)) }),
        ParseTree::Over(x) => ParseTree::Over(Over { over: Box::new(clone_tree(&x.over)), open_paren: Box::new(clone_tree(&x.open_paren)), partition_opt: Box::new(clone_tree(&x.partition_opt)), by: Box::new(clone_tree(&x.by)), partitions: Box::new(clone_tree(&x.partitions)), order_by_opt: Box::new(clone_tree(&x.order_by_opt)), window_frame: Box::new(clone_tree(&x.window_frame)), close_paren: Box::new(clone_tree(&x.close_paren)) }),
        ParseTree::WindowFrame(x) => ParseTree::WindowFrame(WindowFrame { frame_type: Box::new(clone_tree(&x.frame_type)), between_opt: Box::new(clone_tree(&x.between_opt)), start: Box::new(clone_tree(&x.start)), and: Box::new(clone_tree(&x.and)), end: Box::new(clone_tree(&x.end)) }),
        ParseTree::UnboundedFrame(x) => ParseTree::UnboundedFrame(UnboundedFrame { unbounded: Box::new(clone_tree(&x.unbounded)), bound_type: Box::new(clone_tree(&x.bound_type)) }),
        ParseTree::CurrentRowBound(x) => ParseTree::CurrentRowBound(CurrentRowBound { current: Box::new(clone_tree(&x.current)), row: Box::new(clone_tree(&x.row)) }),
        ParseTree::BoundedFrame(x) => ParseTree::BoundedFrame(BoundedFrame { bound: Box::new(clone_tree(&x.bound)), bound_type: Box::new(clone_tree(&x.bound_type)) }),
        ParseTree::UnicodeString(x) => ParseTree::UnicodeString(UnicodeString { string: Box::new(clone_tree(&x.string)), uescape_opt: Box::new(clone_tree(&x.uescape_opt)), escape: Box::new(clone_tree(&x.escape)) }),
        ParseTree::ConfigureExpression(x) => ParseTree::ConfigureExpression(ConfigureExpression { configure: Box::new(clone_tree(&x.configure)), open_paren: Box::new(clone_tree(&x.open_paren)), identifier: Box::new(clone_tree(&x.identifier)), comma: Box::new(clone_tree(&x.comma)), value: Box::new(clone_tree(&x.value)), close_paren: Box::new(clone_tree(&x.close_paren)) }),
        ParseTree::SubqueryExpression(x) => ParseTree::SubqueryExpression(SubqueryExpression { open_paren: Box::new(clone_tree(&x.open_paren)), query: Box::new(clone_tree(&x.query)), close_paren: Box::new(clone_tree(&x.close_paren)) }),
        ParseTree::Grouping(x) => ParseTree::Grouping(Grouping { grouping: Box::new(clone_tree(&x.grouping)), groups: Box::new(clone_tree(&x.groups)) }),
        ParseTree::Extract(x) => ParseTree::Extract(Extract { extract: Box::new(clone_tree(&x.extract)), open_paren: Box::new(clone_tree(&x.open_paren)), identifier: Box::new(clone_tree(&x.identifier)), from: Box::new(clone_tree(&x.from)), value: Box::new(clone_tree(&x.value)), close_paren: Box::new(clone_tree(&x.close_paren)) }),
        _ => vstd::pervasive::unreached(),
    }
}

/// A copy of the tree `t`, for special forms.
#[verifier::spinoff_prover]
fn clone_special_tree<'a>(t: &ParseTree<'a>) -> (r: ParseTree<'a>)
    requires
        *t is CurrentTime || *t is CurrentTimestamp || *t is Normalize || *t is Localtime || *t is Localtimestamp || *t is Cast || *t is WhenClause || *t is Case || *t is Exists || *t is TypeConstructor || *t is Array || *t is Interval || *t is Row || *t is TryCast || *t is Substring || *t is Position,
    ensures
        same_tree(r, *t),
    decreases *t, 0int,
{
    proof {
        reveal_with_fuel(same_tree, 2);
        reveal_with_fuel(same_special_tree, 2);
    }
    match t {
        ParseTree::CurrentTime(x) => ParseTree::CurrentTime(CurrentTime { current_time: Box::new(clone_tree(&x.current_time)), open_paren: Box::new(clone_tree(&x.open_paren)), precision: Box::new(clone_tree(&x.precision)), close_paren: Box::new(clone_tree(&x.close_paren)) }),
        ParseTree::CurrentTimestamp(x) => ParseTree::CurrentTimestamp(CurrentTimestamp { current_timestamp: Box::new(clone_tree(&x.current_timestamp)), open_paren: Box::new(clone_tree(&x.open_paren)), precision: Box::new(clone_tree(&x.precision)), close_paren: Box::new(clone_tree(&x.close_paren)) }),
        ParseTree::Normalize(x) => ParseTree::Normalize(Normalize { normalize: Box::new(clone_tree(&x.normalize)), open_paren: Box::new(clone_tree(&x.open_paren)), value: Box::new(clone_tree(&x.value)), comma_opt: Box::new(clone_tree(&x.comma_opt)), normal_form: Box::new(clone_tree(&x.normal_form)), close_paren: Box::new(clone_tree(&x.close_paren)) }),
        ParseTree::Localtime(x) => ParseTree::Localtime(Localtime { localtime: Box::new(clone_tree(&x.localtime)), open_paren: Box::new(clone_tree(&x.open_paren)), precision: Box::new(clone_tree(&x.precision)), close_paren: Box::new(clone_tree(&x.close_paren)) }),
        ParseTree::Localtimestamp(x) => ParseTree::Localtimestamp(Localtimestamp { localtimestamp: Box::new(clone_tree(&x.localtimestamp)), open_paren: Box::new(clone_tree(&x.open_paren)), precision: Box::new(clone_tree(&x.precision)), close_paren: Box::new(clone_tree(&x.close_paren)) }),
        ParseTree::Cast(x) => ParseTree::Cast(Cast { cast: Box::new(clone_tree(&x.cast)), open_paren: Box::new(clone_tree(&x.open_paren)), value: Box::new(clone_tree(&x.value)), as_: Box::new(clone_tree(&x.as_)), type_: Box::new(clone_tree(&x.type_)), close_paren: Box::new(clone_tree(&x.close_paren)) }),
        ParseTree::WhenClause(x) => ParseTree::WhenClause(WhenClause { when: Box::new(clone_tree(&x.when)), condition: Box::new(clone_tree(&x.condition)), then_: Box::new(clone_tree(&x.then_)), result: Box::new(clone_tree(&x.result)) }),
        ParseTree::Case(x) => ParseTree::Case(Case { case: Box::new(clone_tree(&x.case)), value_opt: Box::new(clone_tree(&x.value_opt)), when_clauses: Box::new(clone_tree(&x.when_clauses)), else_opt: Box::new(clone_tree(&x.else_opt)), default: Box::new(clone_tree(&x.default)), end: Box::new(clone_tree(&x.end)) }),
        ParseTree::Exists(x) => ParseTree::Exists(Exists { exists: Box::new(clone_tree(&x.exists)), open_paren: Box::new(clone_tree(&x.open_paren)), query: Box::new(clone_tree(&x.query)), close_paren: Box::new(clone_tree(&x.close_paren)) }),
        ParseTree::TypeConstructor(x) => ParseTree::TypeConstructor(TypeConstructor { type_: Box::new(clone_tree(&x.type_)), value: Box::new(clone_tree(&x.value)) }),
        ParseTree::Array(x) => ParseTree::Array(Array { array: Box::new(clone_tree(&x.array)), elements: Box::new(clone_tree(&x.elements)) }),
        ParseTree::Interval(x) => ParseTree::Interval(Interval { interval: Box::new(clone_tree(&x.interval)), sign_opt: Box::new(clone_tree(&x.sign_opt)), value: Box::new(clone_tree(&x.value)), from: Box::new(clone_tree(&x.from)), to_kw_opt: Box::new(clone_tree(&x.to_kw_opt)), to: Box::new(clone_tree(&x.to)) }),
        ParseTree::Row(x) => ParseTree::Row(Row { row: Box::new(clone_tree(&x.row)), elements: Box::new(clone_tree(&x.elements)) }),
        ParseTree::TryCast(x) => ParseTree::TryCast(TryCast { try_cast: Box::new(clone_tree(&x.try_cast)), open_paren: Box::new(clone_tree(&x.open_paren)), value: Box::new(clone_tree(&x.value)), as_: Box::new(clone_tree(&x.as_)), type_: Box::new(clone_tree(&x.type_)), close_paren: Box::new(clone_tree(&x.close_paren)) }),
        ParseTree::Substring(x) => ParseTree::Substring(Substring { substring: Box::new(clone_tree(&x.substring)), open_paren: Box::new(clone_tree(&x.open_paren)), value: Box::new(clone_tree(&x.value)), from: Box::new(clone_tree(&x.from)), from_value: Box::new(clone_tree(&x.from_value)), for_opt: Box::new(clone_tree(&x.for_opt)), for_value: Box::new(clone_tree(&x.for_value)), close_paren: Box::new(clone_tree(&x.close_paren)) }),
        ParseTree::Position(x) => ParseTree::Position(Position { position: Box::new(clone_tree(&x.position)), open_paren: Box::new(clone_tree(&x.open_paren)), value: Box::new(clone_tree(&x.value)), in_: Box::new(clone_tree(&x.in_)), target: Box::new(clone_tree(&x.target)), close_paren: Box::new(clone_tree(&x.close_paren)) }),
        _ => vstd::pervasive::unreached(),
    }
}

/// A copy of the tree `t`, for types.
#[verifier::spinoff_prover]
fn clone_type_tree<'a>(t: &ParseTree<'a>) -> (r: ParseTree<'a>)
    requires
        *t is ArrayTypeSuffix || *t is NamedType || *t is ArrayType || *t is MapType || *t is RowType || *t is RowTypeElement || *t is IntervalType,
    ensures
        same_tree(r, *t),
    decreases *t, 0int,
{
    proof {
        reveal_with_fuel(same_tree, 2);
        reveal_with_fuel(same_type_tree, 2);
    }
    match t {
        ParseTree::ArrayTypeSuffix(x) => ParseTree::ArrayTypeSuffix(ArrayTypeSuffix { base_type: Box::new(clone_tree(&x.base_type)), array: Box::new(clone_tree(&x.array)) }),
        ParseTree::NamedType(x) => ParseTree::NamedType(NamedType { name: Box::new(clone_tree(&x.name)), type_parameters: Box::new(clone_tree(&x.type_parameters)) }),
        ParseTree::ArrayType(x) => ParseTree::ArrayType(ArrayType { array: Box::new(clone_tree(&x.array)), open_angle: Box::new(clone_tree(&x.open_angle)), element_type: Box::new(clone_tree(&x.element_type)), close_angle: Box::new(clone_tree(&x.close_angle)) }),
        ParseTree::MapType(x) => ParseTree::MapType(MapType { map: Box::new(clone_tree(&x.map)), open_angle: Box::new(clone_tree(&x.open_angle)), key_type: Box::new(clone_tree(&x.key_type)), comma: Box::new(clone_tree(&x.comma)), value_type: Box::new(clone_tree(&x.value_type)), close_angle: Box::new(clone_tree(&x.close_angle)) }),
        ParseTree::RowType(x) => ParseTree::RowType(RowType { row: Box::new(clone_tree(&x.row)), element_types: Box::new(clone_tree(&x.element_types)) }),
        ParseTree::RowTypeElement(x) => ParseTree::RowTypeElement(RowTypeElement { identifier: Box::new(clone_tree(&x.identifier)), type_: Box::new(clone_tree(&x.type_)) }),
        ParseTree::IntervalType(x) => ParseTree::IntervalType(IntervalType { interval: Box::new(clone_tree(&x.interval)), from: Box::new(clone_tree(&x.from)), to_kw: Box::new(clone_tree(&x.to_kw)), to: Box::new(clone_tree(&x.to)) }),
        _ => vstd::pervasive::unreached(),
    }
}

/// A copy of the tree `t`, for statements.
#[verifier::spinoff_prover]
#[verifier::rlimit(50)]
fn clone_statement_tree<'a>(t: &ParseTree<'a>) -> (r: ParseTree<'a>)
    requires
        *t is IfNotExists || *t is CreateTable || *t is CreateView || *t is CreateRole || *t is WithAdminGrantor || *t is UserPrincipal || *t is RolePrincipal || *t is UnspecifiedPrincipal || *t is CreateTableAsSelect || *t is WithProperties || *t is Property || *t is WithData || *t is Comment || *t is ColumnDefinition || *t is NotNull || *t is LikeClause || *t is InsertInto || *t is Delete || *t is GroupingSet || *t is RelationOrQuery || *t is EmptyGroupingSet || *t is ExpressionOrQuery || *t is Entrypoint || *t is NullTreatment,
    ensures
        same_tree(r, *t),
    decreases *t, 0int,
{
    proof {
        reveal_with_fuel(same_tree, 2);
        reveal_with_fuel(same_statement_tree, 2);
    }
    match t {
        ParseTree::IfNotExists(x) => ParseTree::IfNotExists(IfNotExists { if_: Box::new(clone_tree(&x.if_)), not: Box::new(clone_tree(&x.not)), exists: Box::new(clone_tree(&x.exists)) }),
        ParseTree::CreateTable(x) => ParseTree::CreateTable(CreateTable { create: Box::new(clone_tree(&x.create)), table: Box::new(clone_tree(&x.table)), if_not_exists_opt: Box::new(clone_tree(&x.if_not_exists_opt)), table_name: Box::new(clone_tree(&x.table_name)), table_elements: Box::new(clone_tree(&x.table_elements)), comment_opt: Box::new(clone_tree(&x.comment_opt)), with_properties_opt: Box::new(clone_tree(&x.with_properties_opt)) }),
        ParseTree::CreateView(x) => ParseTree::CreateView(CreateView { create: Box::new(clone_tree(&x.create)), or_opt: Box::new(clone_tree(&x.or_opt)), replace_opt: Box::new(clone_tree(&x.replace_opt)), view: Box::new(clone_tree(&x.view)), qualified_name: Box::new(clone_tree(&x.qualified_name)), as_: Box::new(clone_tree(&x.as_)), query: Box::new(clone_tree(&x.query)) }),
        ParseTree::CreateRole(x) => ParseTree::CreateRole(CreateRole { create: Box::new(clone_tree(&x.create)), role: Box::new(clone_tree(&x.role)), name: Box::new(clone_tree(&x.name)), with_admin_grantor_opt: Box::new(clone_tree(&x.with_admin_grantor_opt)) }),
        ParseTree::WithAdminGrantor(x) => ParseTree::WithAdminGrantor(WithAdminGrantor { with: Box::new(clone_tree(&x.with)), admin: Box::new(clone_tree(&x.admin)), grantor: Box::new(clone_tree(&x.grantor)) }),
        ParseTree::UserPrincipal(x) => ParseTree::UserPrincipal(UserPrincipal { user: Box::new(clone_tree(&x.user)), identifier: Box::new(clone_tree(&x.identifier)) }),
        ParseTree::RolePrincipal(x) => ParseTree::RolePrincipal(RolePrincipal { role: Box::new(clone_tree(&x.role)), identifier: Box::new(clone_tree(&x.identifier)) }),
        ParseTree::UnspecifiedPrincipal(x) => ParseTree::UnspecifiedPrincipal(UnspecifiedPrincipal { identifier: Box::new(clone_tree(&x.identifier)) }),
        ParseTree::CreateTableAsSelect(x) => ParseTree::CreateTableAsSelect(CreateTableAsSelect { create: Box::new(clone_tree(&x.create)), table: Box::new(clone_tree(&x.table)), if_not_exists_opt: Box::new(clone_tree(&x.if_not_exists_opt)), table_name: Box::new(clone_tree(&x.table_name)), column_aliases_opt: Box::new(clone_tree(&x.column_aliases_opt)), comment_opt: Box::new(clone_tree(&x.comment_opt)), with_properties_opt: Box::new(clone_tree(&x.with_properties_opt)), as_: Box::new(clone_tree(&x.as_)), open_paren_opt: Box::new(clone_tree(&x.open_paren_opt)), query: Box::new(clone_tree(&x.query)), close_paren_opt: Box::new(clone_tree(&x.close_paren_opt)), with_data_opt: Box::new(clone_tree(&x.with_data_opt)) }),
        ParseTree::WithProperties(x) => ParseTree::WithProperties(WithProperties { with: Box::new(clone_tree(&x.with)), properties: Box::new(clone_tree(&x.properties)) }),
        ParseTree::Property(x) => ParseTree::Property(Property { identifier: Box::new(clone_tree(&x.identifier)), eq: Box::new(clone_tree(&x.eq)), value: Box::new(clone_tree(&x.value)) }),
        ParseTree::WithData(x) => ParseTree::WithData(WithData { with: Box::new(clone_tree(&x.with)), no_opt: Box::new(clone_tree(&x.no_opt)), data: Box::new(clone_tree(&x.data)) }),
        ParseTree::Comment(x) => ParseTree::Comment(Comment { comment: Box::new(clone_tree(&x.comment)), value: Box::new(clone_tree(&x.value)) }),
        ParseTree::ColumnDefinition(x) => ParseTree::ColumnDefinition(ColumnDefinition { identifier: Box::new(clone_tree(&x.identifier)), type_: Box::new(clone_tree(&x.type_)), not_null_opt: Box::new(clone_tree(&x.not_null_opt)), comment_opt: Box::new(clone_tree(&x.comment_opt)), with_properties_opt: Box::new(clone_tree(&x.with_properties_opt)) }),
        ParseTree::NotNull(x) => ParseTree::NotNull(NotNull { not: Box::new(clone_tree(&x.not)), null: Box::new(clone_tree(&x.null)) }),
        ParseTree::LikeClause(x) => ParseTree::LikeClause(LikeClause { like: Box::new(clone_tree(&x.like)), name: Box::new(clone_tree(&x.name)), option_type_opt: Box::new(clone_tree(&x.option_type_opt)), properties: Box::new(clone_tree(&x.properties)) }),
        ParseTree::InsertInto(x) => ParseTree::InsertInto(InsertInto { insert: Box::new(clone_tree(&x.insert)), into: Box::new(clone_tree(&x.into)), table_name: Box::new(clone_tree(&x.table_name)), column_aliases_opt: Box::new(clone_tree(&x.column_aliases_opt)), query: Box::new(clone_tree(&x.query)) }),
        ParseTree::Delete(x) => ParseTree::Delete(Delete { delete: Box::new(clone_tree(&x.delete)), from: Box::new(clone_tree(&x.from)), table_name: Box::new(clone_tree(&x.table_name)), where_opt: Box::new(clone_tree(&x.where_opt)), predicate: Box::new(clone_tree(&x.predicate)) }),
        ParseTree::GroupingSet(x) => ParseTree::GroupingSet(GroupingSet { elements: Box::new(clone_tree(&x.elements)) }),
        ParseTree::RelationOrQuery(x) => ParseTree::RelationOrQuery(RelationOrQuery { open_paren: Box::new(clone_tree(&x.open_paren)), query_or_relation: Box::new(clone_tree(&x.query_or_relation)), close_paren: Box::new(clone_tree(&x.close_paren)) }),
        ParseTree::EmptyGroupingSet(x) => ParseTree::EmptyGroupingSet(EmptyGroupingSet { open_paren: Box::new(clone_tree(&x.open_paren)), close_paren: Box::new(clone_tree(&x.close_paren)) }),
        ParseTree::ExpressionOrQuery(x) => ParseTree::ExpressionOrQuery(ExpressionOrQuery { open_paren: Box::new(clone_tree(&x.open_paren)), expression_or_query: Box::new(clone_tree(&x.expression_or_query)), close_paren: Box::new(clone_tree(&x.close_paren)) }),
        ParseTree::Entrypoint(x) => ParseTree::Entrypoint(Entrypoint { beginning_of_file: Box::new(clone_tree(&x.beginning_of_file)), tree: Box::new(clone_tree(&x.tree)), end_of_file: Box::new(clone_tree(&x.end_of_file)) }),
        ParseTree::NullTreatment(x) => ParseTree::NullTreatment(NullTreatment { treatment: Box::new(clone_tree(&x.treatment)), nulls: Box::new(clone_tree(&x.nulls)) }),
        _ => vstd::pervasive::unreached(),
    }
}

impl<'a> Clone for ParseTree<'a> {
    fn clone(&self) -> (r: Self)
        ensures
            same_tree(r, *self),
    {
        clone_tree(self)
    }
}

impl Clone for Empty {
    fn clone(&self) -> Self {
        Empty { range: self.range }
    }
}

impl<'a> Clone for Token<'a> {
    fn clone(&self) -> Self {
        Token { token: copy_token(&self.token) }
    }
}

impl Clone for Error {
    fn clone(&self) -> Self {
        Error { error: self.error.duplicate() }
    }
}

impl<'a> Clone for List<'a> {
    fn clone(&self) -> Self {
        clone_list(self)
    }
}

impl<'a> Clone for Query<'a> {
    fn clone(&self) -> Self {
        Query { with: Box::new(clone_tree(&self.with)), query_no_with: Box::new(clone_tree(&self.query_no_with)) }
    }
}

impl<'a> Clone for With<'a> {
    fn clone(&self) -> Self {
        With { with: Box::new(clone_tree(&self.with)), recursive: Box::new(clone_tree(&self.recursive)), named_queries: Box::new(clone_tree(&self.named_queries)) }
    }
}

impl<'a> Clone for NamedQuery<'a> {
    fn clone(&self) -> Self {
        NamedQuery { name: Box::new(clone_tree(&self.name)), column_aliases_opt: Box::new(clone_tree(&self.column_aliases_opt)), as_: Box::new(clone_tree(&self.as_)), open_paren: Box::new(clone_tree(&self.open_paren)), query: Box::new(clone_tree(&self.query)), close_paren: Box::new(clone_tree(&self.close_paren)) }
    }
}

impl<'a> Clone for QueryNoWith<'a> {
    fn clone(&self) -> Self {
        QueryNoWith { query_term: Box::new(clone_tree(&self.query_term)), order_by_opt: Box::new(clone_tree(&self.order_by_opt)), limit_opt: Box::new(clone_tree(&self.limit_opt)) }
    }
}

impl<'a> Clone for OrderBy<'a> {
    fn clone(&self) -> Self {
        OrderBy { order: Box::new(clone_tree(&self.order)), by: Box::new(clone_tree(&self.by)), sort_items: Box::new(clone_tree(&self.sort_items)) }
    }
}

impl<'a> Clone for Limit<'a> {
    fn clone(&self) -> Self {
        Limit { limit: Box::new(clone_tree(&self.limit)), value: Box::new(clone_tree(&self.value)) }
    }
}

impl<'a> Clone for QuerySetOperation<'a> {
    fn clone(&self) -> Self {
        QuerySetOperation { left: Box::new(clone_tree(&self.left)), operator: Box::new(clone_tree(&self.operator)), set_quantifier_opt: Box::new(clone_tree(&self.set_quantifier_opt)), right: Box::new(clone_tree(&self.right)) }
    }
}

impl<'a> Clone for SortItem<'a> {
    fn clone(&self) -> Self {
        SortItem { expression: Box::new(clone_tree(&self.expression)), ordering_opt: Box::new(clone_tree(&self.ordering_opt)), nulls: Box::new(clone_tree(&self.nulls)), null_ordering_opt: Box::new(clone_tree(&self.null_ordering_opt)) }
    }
}

impl<'a> Clone for Subquery<'a> {
    fn clone(&self) -> Self {
        Subquery { open_paren: Box::new(clone_tree(&self.open_paren)), query_no_with: Box::new(clone_tree(&self.query_no_with)), close_paren: Box::new(clone_tree(&self.close_paren)) }
    }
}

impl<'a> Clone for InlineTable<'a> {
    fn clone(&self) -> Self {
        InlineTable { values: Box::new(clone_tree(&self.values)), expressions: Box::new(clone_tree(&self.expressions)) }
    }
}

impl<'a> Clone for Table<'a> {
    fn clone(&self) -> Self {
        Table { table: Box::new(clone_tree(&self.table)), qualified_name: Box::new(clone_tree(&self.qualified_name)) }
    }
}

impl<'a> Clone for QuerySpecification<'a> {
    fn clone(&self) -> Self {
        QuerySpecification { select: Box::new(clone_tree(&self.select)), set_quantifier_opt: Box::new(clone_tree(&self.set_quantifier_opt)), select_items: Box::new(clone_tree(&self.select_items)), from: Box::new(clone_tree(&self.from)), relations: Box::new(clone_tree(&self.relations)), where_: Box::new(clone_tree(&self.where_)), where_predicate: Box::new(clone_tree(&self.where_predicate)), group: Box::new(clone_tree(&self.group)), by: Box::new(clone_tree(&self.by)), group_by: Box::new(clone_tree(&self.group_by)), having: Box::new(clone_tree(&self.having)), having_predicate: Box::new(clone_tree(&self.having_predicate)) }
    }
}

impl<'a> Clone for QualifiedName<'a> {
    fn clone(&self) -> Self {
        QualifiedName { names: Box::new(clone_tree(&self.names)) }
    }
}

impl<'a> Clone for SelectAll<'a> {
    fn clone(&self) -> Self {
        SelectAll { asterisk: Box::new(clone_tree(&self.asterisk)) }
    }
}

impl<'a> Clone for QualifiedSelectAll<'a> {
    fn clone(&self) -> Self {
        QualifiedSelectAll { qualifier: Box::new(clone_tree(&self.qualifier)), period: Box::new(clone_tree(&self.period)), asterisk: Box::new(clone_tree(&self.asterisk)) }
    }
}

impl<'a> Clone for SelectItem<'a> {
    fn clone(&self) -> Self {
        SelectItem { expression: Box::new(clone_tree(&self.expression)), as_: Box::new(clone_tree(&self.as_)), identifier: Box::new(clone_tree(&self.identifier)) }
    }
}

impl<'a> Clone for SubqueryRelation<'a> {
    fn clone(&self) -> Self {
        SubqueryRelation { open_paren: Box::new(clone_tree(&self.open_paren)), query: Box::new(clone_tree(&self.query)), close_paren: Box::new(clone_tree(&self.close_paren)) }
    }
}

impl<'a> Clone for ParenthesizedRelation<'a> {
    fn clone(&self) -> Self {
        ParenthesizedRelation { open_paren: Box::new(clone_tree(&self.open_paren)), relation: Box::new(clone_tree(&self.relation)), close_paren: Box::new(clone_tree(&self.close_paren)) }
    }
}

impl<'a> Clone for TableName<'a> {
    fn clone(&self) -> Self {
        TableName { name: Box::new(clone_tree(&self.name)) }
    }
}

impl<'a> Clone for Lateral<'a> {
    fn clone(&self) -> Self {
        Lateral { lateral: Box::new(clone_tree(&self.lateral)), open_paren: Box::new(clone_tree(&self.open_paren)), query: Box::new(clone_tree(&self.query)), close_paren: Box::new(clone_tree(&self.close_paren)) }
    }
}

impl<'a> Clone for Unnest<'a> {
    fn clone(&self) -> Self {
        Unnest { unnest: Box::new(clone_tree(&self.unnest)), expressions: Box::new(clone_tree(&self.expressions)), with: Box::new(clone_tree(&self.with)), ordinality: Box::new(clone_tree(&self.ordinality)) }
    }
}

impl<'a> Clone for SampledRelation<'a> {
    fn clone(&self) -> Self {
        SampledRelation { aliased_relation: Box::new(clone_tree(&self.aliased_relation)), tablesample: Box::new(clone_tree(&self.tablesample)), sample_type: Box::new(clone_tree(&self.sample_type)), open_paren: Box::new(clone_tree(&self.open_paren)), expression: Box::new(clone_tree(&self.expression)), close_paren: Box::new(clone_tree(&self.close_paren)) }
    }
}

impl<'a> Clone for AliasedRelation<'a> {
    fn clone(&self) -> Self {
        AliasedRelation { relation_primary: Box::new(clone_tree(&self.relation_primary)), as_opt: Box::new(clone_tree(&self.as_opt)), identifier: Box::new(clone_tree(&self.identifier)), column_aliases_opt: Box::new(clone_tree(&self.column_aliases_opt)) }
    }
}

impl<'a> Clone for CrossJoin<'a> {
    fn clone(&self) -> Self {
        CrossJoin { left: Box::new(clone_tree(&self.left)), cross: Box::new(clone_tree(&self.cross)), join: Box::new(clone_tree(&self.join)), right: Box::new(clone_tree(&self.right)) }
    }
}

impl<'a> Clone for Join<'a> {
    fn clone(&self) -> Self {
        Join { left: Box::new(clone_tree(&self.left)), join_type: Box::new(clone_tree(&self.join_type)), join: Box::new(clone_tree(&self.join)), right: Box::new(clone_tree(&self.right)), join_criteria: Box::new(clone_tree(&self.join_criteria)) }
    }
}

impl<'a> Clone for NaturalJoin<'a> {
    fn clone(&self) -> Self {
        NaturalJoin { left: Box::new(clone_tree(&self.left)), natural: Box::new(clone_tree(&self.natural)), join_type: Box::new(clone_tree(&self.join_type)), join: Box::new(clone_tree(&self.join)), right: Box::new(clone_tree(&self.right)) }
    }
}

impl<'a> Clone for OuterJoinKind<'a> {
    fn clone(&self) -> Self {
        OuterJoinKind { kind: Box::new(clone_tree(&self.kind)), outer_opt: Box::new(clone_tree(&self.outer_opt)) }
    }
}

impl<'a> Clone for OnJoinCriteria<'a> {
    fn clone(&self) -> Self {
        OnJoinCriteria { on: Box::new(clone_tree(&self.on)), predicate: Box::new(clone_tree(&self.predicate)) }
    }
}

impl<'a> Clone for UsingJoinCriteria<'a> {
    fn clone(&self) -> Self {
        UsingJoinCriteria { using: Box::new(clone_tree(&self.using)), names: Box::new(clone_tree(&self.names)) }
    }
}

impl<'a> Clone for GroupBy<'a> {
    fn clone(&self) -> Self {
        GroupBy { set_quantifier_opt: Box::new(clone_tree(&self.set_quantifier_opt)), grouping_elements: Box::new(clone_tree(&self.grouping_elements)) }
    }
}

impl<'a> Clone for Rollup<'a> {
    fn clone(&self) -> Self {
        Rollup { rollup: Box::new(clone_tree(&self.rollup)), expressions: Box::new(clone_tree(&self.expressions)) }
    }
}

impl<'a> Clone for Cube<'a> {
    fn clone(&self) -> Self {
        Cube { cube: Box::new(clone_tree(&self.cube)), expressions: Box::new(clone_tree(&self.expressions)) }
    }
}

impl<'a> Clone for GroupingSets<'a> {
    fn clone(&self) -> Self {
        GroupingSets { grouping: Box::new(clone_tree(&self.grouping)), sets: Box::new(clone_tree(&self.sets)), grouping_sets: Box::new(clone_tree(&self.grouping_sets)) }
    }
}

impl<'a> Clone for BinaryExpression<'a> {
    fn clone(&self) -> Self {
        BinaryExpression { left: Box::new(clone_tree(&self.left)), operator: Box::new(clone_tree(&self.operator)), right: Box::new(clone_tree(&self.right)) }
    }
}

impl<'a> Clone for UnaryExpression<'a> {
    fn clone(&self) -> Self {
        UnaryExpression { operator: Box::new(clone_tree(&self.operator)), operand: Box::new(clone_tree(&self.operand)) }
    }
}

impl<'a> Clone for QuantifiedComparison<'a> {
    fn clone(&self) -> Self {
        QuantifiedComparison { operand: Box::new(clone_tree(&self.operand)), operator: Box::new(clone_tree(&self.operator)), comparison_quantifier: Box::new(clone_tree(&self.comparison_quantifier)), open_paren: Box::new(clone_tree(&self.open_paren)), query: Box::new(clone_tree(&self.query)), close_paren: Box::new(clone_tree(&self.close_paren)) }
    }
}

impl<'a> Clone for NullPredicate<'a> {
    fn clone(&self) -> Self {
        NullPredicate { value: Box::new(clone_tree(&self.value)), is: Box::new(clone_tree(&self.is)), not_opt: Box::new(clone_tree(&self.not_opt)), null: Box::new(clone_tree(&self.null)) }
    }
}

impl<'a> Clone for DistinctFrom<'a> {
    fn clone(&self) -> Self {
        DistinctFrom { left: Box::new(clone_tree(&self.left)), is: Box::new(clone_tree(&self.is)), not_opt: Box::new(clone_tree(&self.not_opt)), distinct: Box::new(clone_tree(&self.distinct)), from: Box::new(clone_tree(&self.from)), right: Box::new(clone_tree(&self.right)) }
    }
}

impl<'a> Clone for Between<'a> {
    fn clone(&self) -> Self {
        Between { value: Box::new(clone_tree(&self.value)), not_opt: Box::new(clone_tree(&self.not_opt)), between: Box::new(clone_tree(&self.between)), lower: Box::new(clone_tree(&self.lower)), and: Box::new(clone_tree(&self.and)), upper: Box::new(clone_tree(&self.upper)) }
    }
}

impl<'a> Clone for Like<'a> {
    fn clone(&self) -> Self {
        Like { value: Box::new(clone_tree(&self.value)), not_opt: Box::new(clone_tree(&self.not_opt)), like: Box::new(clone_tree(&self.like)), patrern: Box::new(clone_tree(&self.patrern)), escape_opt: Box::new(clone_tree(&self.escape_opt)), escape_value_opt: Box::new(clone_tree(&self.escape_value_opt)) }
    }
}

impl<'a> Clone for InSubquery<'a> {
    fn clone(&self) -> Self {
        InSubquery { value: Box::new(clone_tree(&self.value)), not_opt: Box::new(clone_tree(&self.not_opt)), in_: Box::new(clone_tree(&self.in_)), open_paren: Box::new(clone_tree(&self.open_paren)), query: Box::new(clone_tree(&self.query)), close_paren: Box::new(clone_tree(&self.close_paren)) }
    }
}

impl<'a> Clone for InList<'a> {
    fn clone(&self) -> Self {
        InList { value: Box::new(clone_tree(&self.value)), not_opt: Box::new(clone_tree(&self.not_opt)), in_: Box::new(clone_tree(&self.in_)), expressions: Box::new(clone_tree(&self.expressions)) }
    }
}

impl<'a> Clone for AtTimeZone<'a> {
    fn clone(&self) -> Self {
        AtTimeZone { value: Box::new(clone_tree(&self.value)), at: Box::new(clone_tree(&self.at)), time: Box::new(clone_tree(&self.time)), zone: Box::new(clone_tree(&self.zone)), specifier: Box::new(clone_tree(&self.specifier)) }
    }
}

impl<'a> Clone for Dereference<'a> {
    fn clone(&self) -> Self {
        Dereference { object: Box::new(clone_tree(&self.object)), period: Box::new(clone_tree(&self.period)), field_name: Box::new(clone_tree(&self.field_name)) }
    }
}

impl<'a> Clone for Subscript<'a> {
    fn clone(&self) -> Self {
        Subscript { operand: Box::new(clone_tree(&self.operand)), open_square: Box::new(clone_tree(&self.open_square)), index: Box::new(clone_tree(&self.index)), close_square: Box::new(clone_tree(&self.close_square)) }
    }
}

impl<'a> Clone for Lambda<'a> {
    fn clone(&self) -> Self {
        Lambda { parameters: Box::new(clone_tree(&self.parameters)), array: Box::new(clone_tree(&self.array)), body: Box::new(clone_tree(&self.body)) }
    }
}

impl<'a> Clone for Literal<'a> {
    fn clone(&self) -> Self {
        Literal { value: Box::new(clone_tree(&self.value)) }
    }
}

impl<'a> Clone for RowConstructor<'a> {
    fn clone(&self) -> Self {
        RowConstructor { elements: Box::new(clone_tree(&self.elements)) }
    }
}

impl<'a> Clone for ParenthesizedExpression<'a> {
    fn clone(&self) -> Self {
        ParenthesizedExpression { open_paren: Box::new(clone_tree(&self.open_paren)), value: Box::new(clone_tree(&self.value)), close_paren: Box::new(clone_tree(&self.close_paren)) }
    }
}

impl<'a> Clone for Identifier<'a> {
    fn clone(&self) -> Self {
        Identifier { value: Box::new(clone_tree(&self.value)) }
    }
}

impl<'a> Clone for FunctionCall<'a> {
    fn clone(&self) -> Self {
        FunctionCall { name: Box::new(clone_tree(&self.name)), open_paren: Box::new(clone_tree(&self.open_paren)), set_quantifier_opt: Box::new(clone_tree(&self.set_quantifier_opt)), arguments: Box::new(clone_tree(&self.arguments)), order_by_opt: Box::new(clone_tree(&self.order_by_opt)), close_paren: Box::new(clone_tree(&self.close_paren)), filter_opt: Box::new(clone_tree(&self.filter_opt)), null_treatment_opt: Box::new(clone_tree(&self.null_treatment_opt)), over_opt: Box::new(clone_tree(&self.over_opt)) }
    }
}

impl<'a> Clone for Filter<'a> {
    fn clone(&self) -> Self {
        Filter { filter: Box::new(clone_tree(&self.filter)), open_paren: Box::new(clone_tree(&self.open_paren)), where_: Box::new(clone_tree(&self.where_)), predicate: Box::new(clone_tree(&self.predicate)), close_paren: Box::new(clone_tree(&self.close_paren)) }
    }
}

impl<'a> Clone for Over<'a> {
    fn clone(&self) -> Self {
        Over { over: Box::new(clone_tree(&self.over)), open_paren: Box::new(clone_tree(&self.open_paren)), partition_opt: Box::new(clone_tree(&self.partition_opt)), by: Box::new(clone_tree(&self.by)), partitions: Box::new(clone_tree(&self.partitions)), order_by_opt: Box::new(clone_tree(&self.order_by_opt)), window_frame: Box::new(clone_tree(&self.window_frame)), close_paren: Box::new(clone_tree(&self.close_paren)) }
    }
}

impl<'a> Clone for WindowFrame<'a> {
    fn clone(&self) -> Self {
        WindowFrame { frame_type: Box::new(clone_tree(&self.frame_type)), between_opt: Box::new(clone_tree(&self.between_opt)), start: Box::new(clone_tree(&self.start)), and: Box::new(clone_tree(&self.and)), end: Box::new(clone_tree(&self.end)) }
    }
}

impl<'a> Clone for UnboundedFrame<'a> {
    fn clone(&self) -> Self {
        UnboundedFrame { unbounded: Box::new(clone_tree(&self.unbounded)), bound_type: Box::new(clone_tree(&self.bound_type)) }
    }
}

impl<'a> Clone for CurrentRowBound<'a> {
    fn clone(&self) -> Self {
        CurrentRowBound { current: Box::new(clone_tree(&self.current)), row: Box::new(clone_tree(&self.row)) }
    }
}

impl<'a> Clone for BoundedFrame<'a> {
    fn clone(&self) -> Self {
        BoundedFrame { bound: Box::new(clone_tree(&self.bound)), bound_type: Box::new(clone_tree(&self.bound_type)) }
    }
}

impl<'a> Clone for UnicodeString<'a> {
    fn clone(&self) -> Self {
        UnicodeString { string: Box::new(clone_tree(&self.string)), uescape_opt: Box::new(clone_tree(&self.uescape_opt)), escape: Box::new(clone_tree(&self.escape)) }
    }
}

impl<'a> Clone for ConfigureExpression<'a> {
    fn clone(&self) -> Self {
        ConfigureExpression { configure: Box::new(clone_tree(&self.configure)), open_paren: Box::new(clone_tree(&self.open_paren)), identifier: Box::new(clone_tree(&self.identifier)), comma: Box::new(clone_tree(&self.comma)), value: Box::new(clone_tree(&self.value)), close_paren: Box::new(clone_tree(&self.close_paren)) }
    }
}

impl<'a> Clone for SubqueryExpression<'a> {
    fn clone(&self) -> Self {
        SubqueryExpression { open_paren: Box::new(clone_tree(&self.open_paren)), query: Box::new(clone_tree(&self.query)), close_paren: Box::new(clone_tree(&self.close_paren)) }
    }
}

impl<'a> Clone for Grouping<'a> {
    fn clone(&self) -> Self {
        Grouping { grouping: Box::new(clone_tree(&self.grouping)), groups: Box::new(clone_tree(&self.groups)) }
    }
}

impl<'a> Clone for Extract<'a> {
    fn clone(&self) -> Self {
        Extract { extract: Box::new(clone_tree(&self.extract)), open_paren: Box::new(clone_tree(&self.open_paren)), identifier: Box::new(clone_tree(&self.identifier)), from: Box::new(clone_tree(&self.from)), value: Box::new(clone_tree(&self.value)), close_paren: Box::new(clone_tree(&self.close_paren)) }
    }
}

impl<'a> Clone for CurrentTime<'a> {
    fn clone(&self) -> Self {
        CurrentTime { current_time: Box::new(clone_tree(&self.current_time)), open_paren: Box::new(clone_tree(&self.open_paren)), precision: Box::new(clone_tree(&self.precision)), close_paren: Box::new(clone_tree(&self.close_paren)) }
    }
}

impl<'a> Clone for CurrentTimestamp<'a> {
    fn clone(&self) -> Self {
        CurrentTimestamp { current_timestamp: Box::new(clone_tree(&self.current_timestamp)), open_paren: Box::new(clone_tree(&self.open_paren)), precision: Box::new(clone_tree(&self.precision)), close_paren: Box::new(clone_tree(&self.close_paren)) }
    }
}

impl<'a> Clone for Normalize<'a> {
    fn clone(&self) -> Self {
        Normalize { normalize: Box::new(clone_tree(&self.normalize)), open_paren: Box::new(clone_tree(&self.open_paren)), value: Box::new(clone_tree(&self.value)), comma_opt: Box::new(clone_tree(&self.comma_opt)), normal_form: Box::new(clone_tree(&self.normal_form)), close_paren: Box::new(clone_tree(&self.close_paren)) }
    }
}

impl<'a> Clone for Localtime<'a> {
    fn clone(&self) -> Self {
        Localtime { localtime: Box::new(clone_tree(&self.localtime)), open_paren: Box::new(clone_tree(&self.open_paren)), precision: Box::new(clone_tree(&self.precision)), close_paren: Box::new(clone_tree(&self.close_paren)) }
    }
}

impl<'a> Clone for Localtimestamp<'a> {
    fn clone(&self) -> Self {
        Localtimestamp { localtimestamp: Box::new(clone_tree(&self.localtimestamp)), open_paren: Box::new(clone_tree(&self.open_paren)), precision: Box::new(clone_tree(&self.precision)), close_paren: Box::new(clone_tree(&self.close_paren)) }
    }
}

impl<'a> Clone for Cast<'a> {
    fn clone(&self) -> Self {
        Cast { cast: Box::new(clone_tree(&self.cast)), open_paren: Box::new(clone_tree(&self.open_paren)), value: Box::new(clone_tree(&self.value)), as_: Box::new(clone_tree(&self.as_)), type_: Box::new(clone_tree(&self.type_)), close_paren: Box::new(clone_tree(&self.close_paren)) }
    }
}

impl<'a> Clone for WhenClause<'a> {
    fn clone(&self) -> Self {
        WhenClause { when: Box::new(clone_tree(&self.when)), condition: Box::new(clone_tree(&self.condition)), then_: Box::new(clone_tree(&self.then_)), result: Box::new(clone_tree(&self.result)) }
    }
}

impl<'a> Clone for Case<'a> {
    fn clone(&self) -> Self {
        Case { case: Box::new(clone_tree(&self.case)), value_opt: Box::new(clone_tree(&self.value_opt)), when_clauses: Box::new(clone_tree(&self.when_clauses)), else_opt: Box::new(clone_tree(&self.else_opt)), default: Box::new(clone_tree(&self.default)), end: Box::new(clone_tree(&self.end)) }
    }
}

impl<'a> Clone for Exists<'a> {
    fn clone(&self) -> Self {
        Exists { exists: Box::new(clone_tree(&self.exists)), open_paren: Box::new(clone_tree(&self.open_paren)), query: Box::new(clone_tree(&self.query)), close_paren: Box::new(clone_tree(&self.close_paren)) }
    }
}

impl<'a> Clone for TypeConstructor<'a> {
    fn clone(&self) -> Self {
        TypeConstructor { type_: Box::new(clone_tree(&self.type_)), value: Box::new(clone_tree(&self.value)) }
    }
}

impl<'a> Clone for Array<'a> {
    fn clone(&self) -> Self {
        Array { array: Box::new(clone_tree(&self.array)), elements: Box::new(clone_tree(&self.elements)) }
    }
}

impl<'a> Clone for Interval<'a> {
    fn clone(&self) -> Self {
        Interval { interval: Box::new(clone_tree(&self.interval)), sign_opt: Box::new(clone_tree(&self.sign_opt)), value: Box::new(clone_tree(&self.value)), from: Box::new(clone_tree(&self.from)), to_kw_opt: Box::new(clone_tree(&self.to_kw_opt)), to: Box::new(clone_tree(&self.to)) }
    }
}

impl<'a> Clone for Row<'a> {
    fn clone(&self) -> Self {
        Row { row: Box::new(clone_tree(&self.row)), elements: Box::new(clone_tree(&self.elements)) }
    }
}

impl<'a> Clone for TryCast<'a> {
    fn clone(&self) -> Self {
        TryCast { try_cast: Box::new(clone_tree(&self.try_cast)), open_paren: Box::new(clone_tree(&self.open_paren)), value: Box::new(clone_tree(&self.value)), as_: Box::new(clone_tree(&self.as_)), type_: Box::new(clone_tree(&self.type_)), close_paren: Box::new(clone_tree(&self.close_paren)) }
    }
}

impl<'a> Clone for Substring<'a> {
    fn clone(&self) -> Self {
        Substring { substring: Box::new(clone_tree(&self.substring)), open_paren: Box::new(clone_tree(&self.open_paren)), value: Box::new(clone_tree(&self.value)), from: Box::new(clone_tree(&self.from)), from_value: Box::new(clone_tree(&self.from_value)), for_opt: Box::new(clone_tree(&self.for_opt)), for_value: Box::new(clone_tree(&self.for_value)), close_paren: Box::new(clone_tree(&self.close_paren)) }
    }
}

impl<'a> Clone for Position<'a> {
    fn clone(&self) -> Self {
        Position { position: Box::new(clone_tree(&self.position)), open_paren: Box::new(clone_tree(&self.open_paren)), value: Box::new(clone_tree(&self.value)), in_: Box::new(clone_tree(&self.in_)), target: Box::new(clone_tree(&self.target)), close_paren: Box::new(clone_tree(&self.close_paren)) }
    }
}

impl<'a> Clone for ArrayTypeSuffix<'a> {
    fn clone(&self) -> Self {
        ArrayTypeSuffix { base_type: Box::new(clone_tree(&self.base_type)), array: Box::new(clone_tree(&self.array)) }
    }
}

impl<'a> Clone for NamedType<'a> {
    fn clone(&self) -> Self {
        NamedType { name: Box::new(clone_tree(&self.name)), type_parameters: Box::new(clone_tree(&self.type_parameters)) }
    }
}

impl<'a> Clone for ArrayType<'a> {
    fn clone(&self) -> Self {
        ArrayType { array: Box::new(clone_tree(&self.array)), open_angle: Box::new(clone_tree(&self.open_angle)), element_type: Box::new(clone_tree(&self.element_type)), close_angle: Box::new(clone_tree(&self.close_angle)) }
    }
}

impl<'a> Clone for MapType<'a> {
    fn clone(&self) -> Self {
        MapType { map: Box::new(clone_tree(&self.map)), open_angle: Box::new(clone_tree(&self.open_angle)), key_type: Box::new(clone_tree(&self.key_type)), comma: Box::new(clone_tree(&self.comma)), value_type: Box::new(clone_tree(&self.value_type)), close_angle: Box::new(clone_tree(&self.close_angle)) }
    }
}

impl<'a> Clone for RowType<'a> {
    fn clone(&self) -> Self {
        RowType { row: Box::new(clone_tree(&self.row)), element_types: Box::new(clone_tree(&self.element_types)) }
    }
}

impl<'a> Clone for RowTypeElement<'a> {
    fn clone(&self) -> Self {
        RowTypeElement { identifier: Box::new(clone_tree(&self.identifier)), type_: Box::new(clone_tree(&self.type_)) }
    }
}

impl<'a> Clone for IntervalType<'a> {
    fn clone(&self) -> Self {
        IntervalType { interval: Box::new(clone_tree(&self.interval)), from: Box::new(clone_tree(&self.from)), to_kw: Box::new(clone_tree(&self.to_kw)), to: Box::new(clone_tree(&self.to)) }
    }
}

impl<'a> Clone for IfNotExists<'a> {
    fn clone(&self) -> Self {
        IfNotExists { if_: Box::new(clone_tree(&self.if_)), not: Box::new(clone_tree(&self.not)), exists: Box::new(clone_tree(&self.exists)) }
    }
}

impl<'a> Clone for CreateTable<'a> {
    fn clone(&self) -> Self {
        CreateTable { create: Box::new(clone_tree(&self.create)), table: Box::new(clone_tree(&self.table)), if_not_exists_opt: Box::new(clone_tree(&self.if_not_exists_opt)), table_name: Box::new(clone_tree(&self.table_name)), table_elements: Box::new(clone_tree(&self.table_elements)), comment_opt: Box::new(clone_tree(&self.comment_opt)), with_properties_opt: Box::new(clone_tree(&self.with_properties_opt)) }
    }
}

impl<'a> Clone for CreateView<'a> {
    fn clone(&self) -> Self {
        CreateView { create: Box::new(clone_tree(&self.create)), or_opt: Box::new(clone_tree(&self.or_opt)), replace_opt: Box::new(clone_tree(&self.replace_opt)), view: Box::new(clone_tree(&self.view)), qualified_name: Box::new(clone_tree(&self.qualified_name)), as_: Box::new(clone_tree(&self.as_)), query: Box::new(clone_tree(&self.query)) }
    }
}

impl<'a> Clone for CreateRole<'a> {
    fn clone(&self) -> Self {
        CreateRole { create: Box::new(clone_tree(&self.create)), role: Box::new(clone_tree(&self.role)), name: Box::new(clone_tree(&self.name)), with_admin_grantor_opt: Box::new(clone_tree(&self.with_admin_grantor_opt)) }
    }
}

impl<'a> Clone for WithAdminGrantor<'a> {
    fn clone(&self) -> Self {
        WithAdminGrantor { with: Box::new(clone_tree(&self.with)), admin: Box::new(clone_tree(&self.admin)), grantor: Box::new(clone_tree(&self.grantor)) }
    }
}

impl<'a> Clone for UserPrincipal<'a> {
    fn clone(&self) -> Self {
        UserPrincipal { user: Box::new(clone_tree(&self.user)), identifier: Box::new(clone_tree(&self.identifier)) }
    }
}

impl<'a> Clone for RolePrincipal<'a> {
    fn clone(&self) -> Self {
        RolePrincipal { role: Box::new(clone_tree(&self.role)), identifier: Box::new(clone_tree(&self.identifier)) }
    }
}

impl<'a> Clone for UnspecifiedPrincipal<'a> {
    fn clone(&self) -> Self {
        UnspecifiedPrincipal { identifier: Box::new(clone_tree(&self.identifier)) }
    }
}

impl<'a> Clone for CreateTableAsSelect<'a> {
    fn clone(&self) -> Self {
        CreateTableAsSelect { create: Box::new(clone_tree(&self.create)), table: Box::new(clone_tree(&self.table)), if_not_exists_opt: Box::new(clone_tree(&self.if_not_exists_opt)), table_name: Box::new(clone_tree(&self.table_name)), column_aliases_opt: Box::new(clone_tree(&self.column_aliases_opt)), comment_opt: Box::new(clone_tree(&self.comment_opt)), with_properties_opt: Box::new(clone_tree(&self.with_properties_opt)), as_: Box::new(clone_tree(&self.as_)), open_paren_opt: Box::new(clone_tree(&self.open_paren_opt)), query: Box::new(clone_tree(&self.query)), close_paren_opt: Box::new(clone_tree(&self.close_paren_opt)), with_data_opt: Box::new(clone_tree(&self.with_data_opt)) }
    }
}

impl<'a> Clone for WithProperties<'a> {
    fn clone(&self) -> Self {
        WithProperties { with: Box::new(clone_tree(&self.with)), properties: Box::new(clone_tree(&self.properties)) }
    }
}

impl<'a> Clone for Property<'a> {
    fn clone(&self) -> Self {
        Property { identifier: Box::new(clone_tree(&self.identifier)), eq: Box::new(clone_tree(&self.eq)), value: Box::new(clone_tree(&self.value)) }
    }
}

impl<'a> Clone for WithData<'a> {
    fn clone(&self) -> Self {
        WithData { with: Box::new(clone_tree(&self.with)), no_opt: Box::new(clone_tree(&self.no_opt)), data: Box::new(clone_tree(&self.data)) }
    }
}

impl<'a> Clone for Comment<'a> {
    fn clone(&self) -> Self {
        Comment { comment: Box::new(clone_tree(&self.comment)), value: Box::new(clone_tree(&self.value)) }
    }
}

impl<'a> Clone for ColumnDefinition<'a> {
    fn clone(&self) -> Self {
        ColumnDefinition { identifier: Box::new(clone_tree(&self.identifier)), type_: Box::new(clone_tree(&self.type_)), not_null_opt: Box::new(clone_tree(&self.not_null_opt)), comment_opt: Box::new(clone_tree(&self.comment_opt)), with_properties_opt: Box::new(clone_tree(&self.with_properties_opt)) }
    }
}

impl<'a> Clone for NotNull<'a> {
    fn clone(&self) -> Self {
        NotNull { not: Box::new(clone_tree(&self.not)), null: Box::new(clone_tree(&self.null)) }
    }
}

impl<'a> Clone for LikeClause<'a> {
    fn clone(&self) -> Self {
        LikeClause { like: Box::new(clone_tree(&self.like)), name: Box::new(clone_tree(&self.name)), option_type_opt: Box::new(clone_tree(&self.option_type_opt)), properties: Box::new(clone_tree(&self.properties)) }
    }
}

impl<'a> Clone for InsertInto<'a> {
    fn clone(&self) -> Self {
        InsertInto { insert: Box::new(clone_tree(&self.insert)), into: Box::new(clone_tree(&self.into)), table_name: Box::new(clone_tree(&self.table_name)), column_aliases_opt: Box::new(clone_tree(&self.column_aliases_opt)), query: Box::new(clone_tree(&self.query)) }
    }
}

impl<'a> Clone for Delete<'a> {
    fn clone(&self) -> Self {
        Delete { delete: Box::new(clone_tree(&self.delete)), from: Box::new(clone_tree(&self.from)), table_name: Box::new(clone_tree(&self.table_name)), where_opt: Box::new(clone_tree(&self.where_opt)), predicate: Box::new(clone_tree(&self.predicate)) }
    }
}

impl<'a> Clone for GroupingSet<'a> {
    fn clone(&self) -> Self {
        GroupingSet { elements: Box::new(clone_tree(&self.elements)) }
    }
}

impl<'a> Clone for RelationOrQuery<'a> {
    fn clone(&self) -> Self {
        RelationOrQuery { open_paren: Box::new(clone_tree(&self.open_paren)), query_or_relation: Box::new(clone_tree(&self.query_or_relation)), close_paren: Box::new(clone_tree(&self.close_paren)) }
    }
}

impl<'a> Clone for EmptyGroupingSet<'a> {
    fn clone(&self) -> Self {
        EmptyGroupingSet { open_paren: Box::new(clone_tree(&self.open_paren)), close_paren: Box::new(clone_tree(&self.close_paren)) }
    }
}

impl<'a> Clone for ExpressionOrQuery<'a> {
    fn clone(&self) -> Self {
        ExpressionOrQuery { open_paren: Box::new(clone_tree(&self.open_paren)), expression_or_query: Box::new(clone_tree(&self.expression_or_query)), close_paren: Box::new(clone_tree(&self.close_paren)) }
    }
}

impl<'a> Clone for Entrypoint<'a> {
    fn clone(&self) -> Self {
        Entrypoint { beginning_of_file: Box::new(clone_tree(&self.beginning_of_file)), tree: Box::new(clone_tree(&self.tree)), end_of_file: Box::new(clone_tree(&self.end_of_file)) }
    }
}

impl<'a> Clone for NullTreatment<'a> {
    fn clone(&self) -> Self {
        NullTreatment { treatment: Box::new(clone_tree(&self.treatment)), nulls: Box::new(clone_tree(&self.nulls)) }
    }
}

} // verus!
