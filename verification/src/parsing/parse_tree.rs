//! Syntax trees for the Presto SQL language.
pub use super::query_trees::{Query, query, With, with, NamedQuery, named_query, QueryNoWith, query_no_with, OrderBy, order_by, Limit, limit, QuerySetOperation, query_set_operation, SortItem, sort_item, Subquery, subquery, InlineTable, inline_table, Table, table, QuerySpecification, query_specification, QualifiedName, qualified_name, SelectAll, select_all, QualifiedSelectAll, qualified_select_all, SelectItem, select_item, SubqueryRelation, subquery_relation, ParenthesizedRelation, parenthesized_relation, TableName, table_name, Lateral, lateral, Unnest, unnest, SampledRelation, sampled_relation, AliasedRelation, aliased_relation, CrossJoin, cross_join, Join, join, NaturalJoin, natural_join, OuterJoinKind, outer_join_kind, OnJoinCriteria, on_join_criteria, UsingJoinCriteria, using_join_criteria, GroupBy, group_by, Rollup, rollup, Cube, cube, GroupingSets, grouping_sets};
pub use super::expression_trees::{BinaryExpression, binary_expression, UnaryExpression, unary_expression, QuantifiedComparison, quantified_comparison, NullPredicate, null_predicate, DistinctFrom, distinct_from, Between, between, Like, like, InSubquery, in_subquery, InList, in_list, AtTimeZone, at_time_zone, Dereference, dereference, Subscript, subscript, Lambda, lambda, Literal, literal, RowConstructor, row_constructor, ParenthesizedExpression, parenthesized_expression, Identifier, identifier, FunctionCall, function_call, Filter, filter, Over, over, WindowFrame, window_frame, UnboundedFrame, unbounded_frame, CurrentRowBound, current_row_bound, BoundedFrame, bounded_frame, UnicodeString, unicode_string, ConfigureExpression, configure_expression, SubqueryExpression, subquery_expression, Grouping, grouping, Extract, extract, CurrentTime, current_time, CurrentTimestamp, current_timestamp, Normalize, normalize, Localtime, localtime, Localtimestamp, localtimestamp, Cast, cast, WhenClause, when_clause, Case, case, Exists, exists_, TypeConstructor, type_constructor, Array, array, Interval, interval, Row, row, TryCast, try_cast, Substring, substring, Position, position, ArrayTypeSuffix, array_type_suffix, NamedType, named_type, ArrayType, array_type, MapType, map_type, RowType, row_type, RowTypeElement, row_type_element, IntervalType, interval_type};
pub use super::statement_trees::{IfNotExists, if_not_exists, CreateTable, create_table, CreateView, create_view, CreateRole, create_role, WithAdminGrantor, with_admin_grantor, UserPrincipal, user_principal, RolePrincipal, role_principal, UnspecifiedPrincipal, unspecified_principal, CreateTableAsSelect, create_table_as_select, WithProperties, with_properties, Property, property, WithData, with_data, Comment, comment, ColumnDefinition, column_definition, NotNull, not_null, LikeClause, like_clause, InsertInto, insert_into, Delete, delete, GroupingSet, grouping_set, RelationOrQuery, relation_or_query, EmptyGroupingSet, empty_grouping_set, ExpressionOrQuery, expression_or_query, Entrypoint, entrypoint, NullTreatment, null_treatment};
use crate::lexing::lexer::errors_wf;
use crate::lexing::token;
use crate::utils::position::{self, position_le};
use crate::utils::syntax_error::SyntaxError;
use crate::utils::text_range::TextRange;
use vstd::prelude::*;

verus! {

/// A syntax tree for the Presto SQL language.
///
/// The syntax tree is mostly concrete: only non-significant whitespace
/// is discarded, and that can be reconstituted using the TextRanges
/// of the contained lexemes.
///
/// Every token consumed from the input will be present in the resulting
/// tree.
///
/// There are four kinds of parse trees that are structural: Token, List, Empty,
/// and Error.
///
/// Token parse trees consume a single token in the input. Every token consumed
/// from the input will be present in the output parse tree as a Token tree.
///
/// Empty parse trees consume no input, and are a placeholder to indicate that
/// an optional piece of syntax is not present.
///
/// List parse trees represent a possibly delimited, possibly separated list.
/// If the delimiters are not present in the source, then the start_delimiter and
/// end delimiter fields will be Empty parse trees. Similarly, if seperators
/// are not present then they will also be Empty parse trees.
///
/// Error parse trees represent errors during parsing - that a given construct
/// is malformed. Note that errors found during lexing are often attached to
/// (non-error) tokens, so to accumulate all syntax errors both Token and
/// Error trees must be consulted.
///
/// Each syntax production in the grammar is represented by a separate tree
/// kind. Syntax production trees have a set of named children, each child
/// is also a ParseTree. The children of a parse tree must be in the order
/// that they appear. Iterating over the children of a parse tree iterates
/// in source order.
///
/// Rust's enums are somewhat clumsy when representing class hierarchies.
/// ParseTrees include the methods to ease ParseTree usage:
///
///  is_*() - returns true if the tree's kind matches *.
///  as_*() - returns a ref to the typed tree. Must only be called it is_*() is true.
///  unbox_*() -> consumes a parse tree, destructuring it into its unboxed components.
///  children() -> returns a Vec containing refs to all immediate children of the tree.
///
/// This mod also contains a top level factory function for each kind of ParseTree.
///
/// Parse trees are allocated on the heap(in Boxes or Vecs); however the contained
/// tokens have lifetime scoped to the input string which was parsed.
/// Typically consumers will parse, then process parse trees into another format,
/// then release both the parse tree and the input text.
#[derive(Debug)]
pub enum ParseTree<'a> {
    // The core trees
    Empty(Empty),
    Token(Token<'a>),
    List(List<'a>),
    Error(Error),

    // The language specific trees
    Query(Query<'a>),
    With(With<'a>),
    NamedQuery(NamedQuery<'a>),
    QueryNoWith(QueryNoWith<'a>),
    OrderBy(OrderBy<'a>),
    Limit(Limit<'a>),
    QuerySetOperation(QuerySetOperation<'a>),
    SortItem(SortItem<'a>),
    Subquery(Subquery<'a>),
    InlineTable(InlineTable<'a>),
    Table(Table<'a>),
    QuerySpecification(QuerySpecification<'a>),
    QualifiedName(QualifiedName<'a>),
    SelectAll(SelectAll<'a>),
    QualifiedSelectAll(QualifiedSelectAll<'a>),
    SelectItem(SelectItem<'a>),
    SubqueryRelation(SubqueryRelation<'a>),
    ParenthesizedRelation(ParenthesizedRelation<'a>),
    TableName(TableName<'a>),
    Lateral(Lateral<'a>),
    Unnest(Unnest<'a>),
    SampledRelation(SampledRelation<'a>),
    AliasedRelation(AliasedRelation<'a>),
    CrossJoin(CrossJoin<'a>),
    Join(Join<'a>),
    NaturalJoin(NaturalJoin<'a>),
    OuterJoinKind(OuterJoinKind<'a>),
    OnJoinCriteria(OnJoinCriteria<'a>),
    UsingJoinCriteria(UsingJoinCriteria<'a>),
    GroupBy(GroupBy<'a>),
    Rollup(Rollup<'a>),
    Cube(Cube<'a>),
    GroupingSets(GroupingSets<'a>),
    BinaryExpression(BinaryExpression<'a>),
    UnaryExpression(UnaryExpression<'a>),
    QuantifiedComparison(QuantifiedComparison<'a>),
    NullPredicate(NullPredicate<'a>),
    DistinctFrom(DistinctFrom<'a>),
    Between(Between<'a>),
    Like(Like<'a>),
    InSubquery(InSubquery<'a>),
    InList(InList<'a>),
    AtTimeZone(AtTimeZone<'a>),
    Dereference(Dereference<'a>),
    Subscript(Subscript<'a>),
    Lambda(Lambda<'a>),
    Literal(Literal<'a>),
    RowConstructor(RowConstructor<'a>),
    ParenthesizedExpression(ParenthesizedExpression<'a>),
    Identifier(Identifier<'a>),
    FunctionCall(FunctionCall<'a>),
    Filter(Filter<'a>),
    Over(Over<'a>),
    WindowFrame(WindowFrame<'a>),
    UnboundedFrame(UnboundedFrame<'a>),
    CurrentRowBound(CurrentRowBound<'a>),
    BoundedFrame(BoundedFrame<'a>),
    UnicodeString(UnicodeString<'a>),
    ConfigureExpression(ConfigureExpression<'a>),
    SubqueryExpression(SubqueryExpression<'a>),
    Grouping(Grouping<'a>),
    Extract(Extract<'a>),
    CurrentTime(CurrentTime<'a>),
    CurrentTimestamp(CurrentTimestamp<'a>),
    Normalize(Normalize<'a>),
    Localtime(Localtime<'a>),
    Localtimestamp(Localtimestamp<'a>),
    Cast(Cast<'a>),
    WhenClause(WhenClause<'a>),
    Case(Case<'a>),
    Exists(Exists<'a>),
    TypeConstructor(TypeConstructor<'a>),
    Array(Array<'a>),
    Interval(Interval<'a>),
    Row(Row<'a>),
    TryCast(TryCast<'a>),
    Substring(Substring<'a>),
    Position(Position<'a>),
    ArrayTypeSuffix(ArrayTypeSuffix<'a>),
    NamedType(NamedType<'a>),
    ArrayType(ArrayType<'a>),
    MapType(MapType<'a>),
    RowType(RowType<'a>),
    RowTypeElement(RowTypeElement<'a>),
    IntervalType(IntervalType<'a>),
    IfNotExists(IfNotExists<'a>),
    CreateTable(CreateTable<'a>),
    CreateView(CreateView<'a>),
    CreateRole(CreateRole<'a>),
    WithAdminGrantor(WithAdminGrantor<'a>),
    UserPrincipal(UserPrincipal<'a>),
    RolePrincipal(RolePrincipal<'a>),
    UnspecifiedPrincipal(UnspecifiedPrincipal<'a>),
    CreateTableAsSelect(CreateTableAsSelect<'a>),
    WithProperties(WithProperties<'a>),
    Property(Property<'a>),
    WithData(WithData<'a>),
    Comment(Comment<'a>),
    ColumnDefinition(ColumnDefinition<'a>),
    NotNull(NotNull<'a>),
    LikeClause(LikeClause<'a>),
    InsertInto(InsertInto<'a>),
    Delete(Delete<'a>),
    GroupingSet(GroupingSet<'a>),
    RelationOrQuery(RelationOrQuery<'a>),
    EmptyGroupingSet(EmptyGroupingSet<'a>),
    ExpressionOrQuery(ExpressionOrQuery<'a>),
    Entrypoint(Entrypoint<'a>),
    NullTreatment(NullTreatment<'a>),
}

/// The values referenced by a sequence of references.
pub open spec fn deref_seq<A>(s: Seq<&A>) -> Seq<A> {
    s.map_values(|x: &A| *x)
}

/// The value referenced by an optional reference.
pub open spec fn deref_opt<A>(o: Option<&A>) -> Option<A> {
    match o {
        Some(x) => Some(*x),
        None => None,
    }
}

/// The first element of a sequence, if any.
pub open spec fn first_of<A>(s: Seq<A>) -> Option<A> {
    if s.len() > 0 {
        Some(s[0])
    } else {
        None
    }
}

/// The last element of a sequence, if any.
pub open spec fn last_of<A>(s: Seq<A>) -> Option<A> {
    if s.len() > 0 {
        Some(s.last())
    } else {
        None
    }
}

/// The tokens of a tree, in source order.
#[verifier::opaque]
#[verifier::spinoff_prover]
#[verifier::rlimit(100)]
pub open spec fn tokens_of<'a>(t: ParseTree<'a>) -> Seq<token::Token<'a>>
    decreases t,
{
    match t {
        ParseTree::Empty(_) => Seq::empty(),
        ParseTree::Token(x) => seq![x.token],
        ParseTree::List(x) => tokens_of(*x.start_delimiter) + pairs_tokens(
            x.elements_and_separators@,
        ) + tokens_of(*x.end_delimiter),
        ParseTree::Error(_) => Seq::empty(),
        ParseTree::Query(x) => tokens_of(*x.with) + tokens_of(*x.query_no_with),
        ParseTree::With(x) => tokens_of(*x.with) + tokens_of(*x.recursive) + tokens_of(*x.named_queries),
        ParseTree::NamedQuery(x) => tokens_of(*x.name) + tokens_of(*x.column_aliases_opt) + tokens_of(*x.as_) + tokens_of(*x.open_paren) + tokens_of(*x.query) + tokens_of(*x.close_paren),
        ParseTree::QueryNoWith(x) => tokens_of(*x.query_term) + tokens_of(*x.order_by_opt) + tokens_of(*x.limit_opt),
        ParseTree::OrderBy(x) => tokens_of(*x.order) + tokens_of(*x.by) + tokens_of(*x.sort_items),
        ParseTree::Limit(x) => tokens_of(*x.limit) + tokens_of(*x.value),
        ParseTree::QuerySetOperation(x) => tokens_of(*x.left) + tokens_of(*x.operator) + tokens_of(*x.set_quantifier_opt) + tokens_of(*x.right),
        ParseTree::SortItem(x) => tokens_of(*x.expression) + tokens_of(*x.ordering_opt) + tokens_of(*x.nulls) + tokens_of(*x.null_ordering_opt),
        ParseTree::Subquery(x) => tokens_of(*x.open_paren) + tokens_of(*x.query_no_with) + tokens_of(*x.close_paren),
        ParseTree::InlineTable(x) => tokens_of(*x.values) + tokens_of(*x.expressions),
        ParseTree::Table(x) => tokens_of(*x.table) + tokens_of(*x.qualified_name),
        ParseTree::QuerySpecification(x) => tokens_of(*x.select) + tokens_of(*x.set_quantifier_opt) + tokens_of(*x.select_items) + tokens_of(*x.from) + tokens_of(*x.relations) + tokens_of(*x.where_) + tokens_of(*x.where_predicate) + tokens_of(*x.group) + tokens_of(*x.by) + tokens_of(*x.group_by) + tokens_of(*x.having) + tokens_of(*x.having_predicate),
        ParseTree::QualifiedName(x) => tokens_of(*x.names),
        ParseTree::SelectAll(x) => tokens_of(*x.asterisk),
        ParseTree::QualifiedSelectAll(x) => tokens_of(*x.qualifier) + tokens_of(*x.period) + tokens_of(*x.asterisk),
        ParseTree::SelectItem(x) => tokens_of(*x.expression) + tokens_of(*x.as_) + tokens_of(*x.identifier),
        ParseTree::SubqueryRelation(x) => tokens_of(*x.open_paren) + tokens_of(*x.query) + tokens_of(*x.close_paren),
        ParseTree::ParenthesizedRelation(x) => tokens_of(*x.open_paren) + tokens_of(*x.relation) + tokens_of(*x.close_paren),
        ParseTree::TableName(x) => tokens_of(*x.name),
        ParseTree::Lateral(x) => tokens_of(*x.lateral) + tokens_of(*x.open_paren) + tokens_of(*x.query) + tokens_of(*x.close_paren),
        ParseTree::Unnest(x) => tokens_of(*x.unnest) + tokens_of(*x.expressions) + tokens_of(*x.with) + tokens_of(*x.ordinality),
        ParseTree::SampledRelation(x) => tokens_of(*x.aliased_relation) + tokens_of(*x.tablesample) + tokens_of(*x.sample_type) + tokens_of(*x.open_paren) + tokens_of(*x.expression) + tokens_of(*x.close_paren),
        ParseTree::AliasedRelation(x) => tokens_of(*x.relation_primary) + tokens_of(*x.as_opt) + tokens_of(*x.identifier) + tokens_of(*x.column_aliases_opt),
        ParseTree::CrossJoin(x) => tokens_of(*x.left) + tokens_of(*x.cross) + tokens_of(*x.join) + tokens_of(*x.right),
        ParseTree::Join(x) => tokens_of(*x.left) + tokens_of(*x.join_type) + tokens_of(*x.join) + tokens_of(*x.right) + tokens_of(*x.join_criteria),
        ParseTree::NaturalJoin(x) => tokens_of(*x.left) + tokens_of(*x.natural) + tokens_of(*x.join_type) + tokens_of(*x.join) + tokens_of(*x.right),
        ParseTree::OuterJoinKind(x) => tokens_of(*x.kind) + tokens_of(*x.outer_opt),
        ParseTree::OnJoinCriteria(x) => tokens_of(*x.on) + tokens_of(*x.predicate),
        ParseTree::UsingJoinCriteria(x) => tokens_of(*x.using) + tokens_of(*x.names),
        ParseTree::GroupBy(x) => tokens_of(*x.set_quantifier_opt) + tokens_of(*x.grouping_elements),
        ParseTree::Rollup(x) => tokens_of(*x.rollup) + tokens_of(*x.expressions),
        ParseTree::Cube(x) => tokens_of(*x.cube) + tokens_of(*x.expressions),
        ParseTree::GroupingSets(x) => tokens_of(*x.grouping) + tokens_of(*x.sets) + tokens_of(*x.grouping_sets),
        ParseTree::BinaryExpression(x) => tokens_of(*x.left) + tokens_of(*x.operator) + tokens_of(*x.right),
        ParseTree::UnaryExpression(x) => tokens_of(*x.operator) + tokens_of(*x.operand),
        ParseTree::QuantifiedComparison(x) => tokens_of(*x.operand) + tokens_of(*x.operator) + tokens_of(*x.comparison_quantifier) + tokens_of(*x.open_paren) + tokens_of(*x.query) + tokens_of(*x.close_paren),
        ParseTree::NullPredicate(x) => tokens_of(*x.value) + tokens_of(*x.is) + tokens_of(*x.not_opt) + tokens_of(*x.null),
        ParseTree::DistinctFrom(x) => tokens_of(*x.left) + tokens_of(*x.is) + tokens_of(*x.not_opt) + tokens_of(*x.distinct) + tokens_of(*x.from) + tokens_of(*x.right),
        ParseTree::Between(x) => tokens_of(*x.value) + tokens_of(*x.not_opt) + tokens_of(*x.between) + tokens_of(*x.lower) + tokens_of(*x.and) + tokens_of(*x.upper),
        ParseTree::Like(x) => tokens_of(*x.value) + tokens_of(*x.not_opt) + tokens_of(*x.like) + tokens_of(*x.patrern) + tokens_of(*x.escape_opt) + tokens_of(*x.escape_value_opt),
        ParseTree::InSubquery(x) => tokens_of(*x.value) + tokens_of(*x.not_opt) + tokens_of(*x.in_) + tokens_of(*x.open_paren) + tokens_of(*x.query) + tokens_of(*x.close_paren),
        ParseTree::InList(x) => tokens_of(*x.value) + tokens_of(*x.not_opt) + tokens_of(*x.in_) + tokens_of(*x.expressions),
        ParseTree::AtTimeZone(x) => tokens_of(*x.value) + tokens_of(*x.at) + tokens_of(*x.time) + tokens_of(*x.zone) + tokens_of(*x.specifier),
        ParseTree::Dereference(x) => tokens_of(*x.object) + tokens_of(*x.period) + tokens_of(*x.field_name),
        ParseTree::Subscript(x) => tokens_of(*x.operand) + tokens_of(*x.open_square) + tokens_of(*x.index) + tokens_of(*x.close_square),
        ParseTree::Lambda(x) => tokens_of(*x.parameters) + tokens_of(*x.array) + tokens_of(*x.body),
        ParseTree::Literal(x) => tokens_of(*x.value),
        ParseTree::RowConstructor(x) => tokens_of(*x.elements),
        ParseTree::ParenthesizedExpression(x) => tokens_of(*x.open_paren) + tokens_of(*x.value) + tokens_of(*x.close_paren),
        ParseTree::Identifier(x) => tokens_of(*x.value),
        ParseTree::FunctionCall(x) => tokens_of(*x.name) + tokens_of(*x.open_paren) + tokens_of(*x.set_quantifier_opt) + tokens_of(*x.arguments) + tokens_of(*x.order_by_opt) + tokens_of(*x.close_paren) + tokens_of(*x.filter_opt) + tokens_of(*x.null_treatment_opt) + tokens_of(*x.over_opt),
        ParseTree::Filter(x) => tokens_of(*x.filter) + tokens_of(*x.open_paren) + tokens_of(*x.where_) + tokens_of(*x.predicate) + tokens_of(*x.close_paren),
        ParseTree::Over(x) => tokens_of(*x.over) + tokens_of(*x.open_paren) + tokens_of(*x.partition_opt) + tokens_of(*x.by) + tokens_of(*x.partitions) + tokens_of(*x.order_by_opt) + tokens_of(*x.window_frame) + tokens_of(*x.close_paren),
        ParseTree::WindowFrame(x) => tokens_of(*x.frame_type) + tokens_of(*x.between_opt) + tokens_of(*x.start) + tokens_of(*x.and) + tokens_of(*x.end),
        ParseTree::UnboundedFrame(x) => tokens_of(*x.unbounded) + tokens_of(*x.bound_type),
        ParseTree::CurrentRowBound(x) => tokens_of(*x.current) + tokens_of(*x.row),
        ParseTree::BoundedFrame(x) => tokens_of(*x.bound) + tokens_of(*x.bound_type),
        ParseTree::UnicodeString(x) => tokens_of(*x.string) + tokens_of(*x.uescape_opt) + tokens_of(*x.escape),
        ParseTree::ConfigureExpression(x) => tokens_of(*x.configure) + tokens_of(*x.open_paren) + tokens_of(*x.identifier) + tokens_of(*x.comma) + tokens_of(*x.value) + tokens_of(*x.close_paren),
        ParseTree::SubqueryExpression(x) => tokens_of(*x.open_paren) + tokens_of(*x.query) + tokens_of(*x.close_paren),
        ParseTree::Grouping(x) => tokens_of(*x.grouping) + tokens_of(*x.groups),
        ParseTree::Extract(x) => tokens_of(*x.extract) + tokens_of(*x.open_paren) + tokens_of(*x.identifier) + tokens_of(*x.from) + tokens_of(*x.value) + tokens_of(*x.close_paren),
        ParseTree::CurrentTime(x) => tokens_of(*x.current_time) + tokens_of(*x.open_paren) + tokens_of(*x.precision) + tokens_of(*x.close_paren),
        ParseTree::CurrentTimestamp(x) => tokens_of(*x.current_timestamp) + tokens_of(*x.open_paren) + tokens_of(*x.precision) + tokens_of(*x.close_paren),
        ParseTree::Normalize(x) => tokens_of(*x.normalize) + tokens_of(*x.open_paren) + tokens_of(*x.value) + tokens_of(*x.comma_opt) + tokens_of(*x.normal_form) + tokens_of(*x.close_paren),
        ParseTree::Localtime(x) => tokens_of(*x.localtime) + tokens_of(*x.open_paren) + tokens_of(*x.precision) + tokens_of(*x.close_paren),
        ParseTree::Localtimestamp(x) => tokens_of(*x.localtimestamp) + tokens_of(*x.open_paren) + tokens_of(*x.precision) + tokens_of(*x.close_paren),
        ParseTree::Cast(x) => tokens_of(*x.cast) + tokens_of(*x.open_paren) + tokens_of(*x.value) + tokens_of(*x.as_) + tokens_of(*x.type_) + tokens_of(*x.close_paren),
        ParseTree::WhenClause(x) => tokens_of(*x.when) + tokens_of(*x.condition) + tokens_of(*x.then_) + tokens_of(*x.result),
        ParseTree::Case(x) => tokens_of(*x.case) + tokens_of(*x.value_opt) + tokens_of(*x.when_clauses) + tokens_of(*x.else_opt) + tokens_of(*x.default) + tokens_of(*x.end),
        ParseTree::Exists(x) => tokens_of(*x.exists) + tokens_of(*x.open_paren) + tokens_of(*x.query) + tokens_of(*x.close_paren),
        ParseTree::TypeConstructor(x) => tokens_of(*x.type_) + tokens_of(*x.value),
        ParseTree::Array(x) => tokens_of(*x.array) + tokens_of(*x.elements),
        ParseTree::Interval(x) => tokens_of(*x.interval) + tokens_of(*x.sign_opt) + tokens_of(*x.value) + tokens_of(*x.from) + tokens_of(*x.to_kw_opt) + tokens_of(*x.to),
        ParseTree::Row(x) => tokens_of(*x.row) + tokens_of(*x.elements),
        ParseTree::TryCast(x) => tokens_of(*x.try_cast) + tokens_of(*x.open_paren) + tokens_of(*x.value) + tokens_of(*x.as_) + tokens_of(*x.type_) + tokens_of(*x.close_paren),
        ParseTree::Substring(x) => tokens_of(*x.substring) + tokens_of(*x.open_paren) + tokens_of(*x.value) + tokens_of(*x.from) + tokens_of(*x.from_value) + tokens_of(*x.for_opt) + tokens_of(*x.for_value) + tokens_of(*x.close_paren),
        ParseTree::Position(x) => tokens_of(*x.position) + tokens_of(*x.open_paren) + tokens_of(*x.value) + tokens_of(*x.in_) + tokens_of(*x.target) + tokens_of(*x.close_paren),
        ParseTree::ArrayTypeSuffix(x) => tokens_of(*x.base_type) + tokens_of(*x.array),
        ParseTree::NamedType(x) => tokens_of(*x.name) + tokens_of(*x.type_parameters),
        ParseTree::ArrayType(x) => tokens_of(*x.array) + tokens_of(*x.open_angle) + tokens_of(*x.element_type) + tokens_of(*x.close_angle),
        ParseTree::MapType(x) => tokens_of(*x.map) + tokens_of(*x.open_angle) + tokens_of(*x.key_type) + tokens_of(*x.comma) + tokens_of(*x.value_type) + tokens_of(*x.close_angle),
        ParseTree::RowType(x) => tokens_of(*x.row) + tokens_of(*x.element_types),
        ParseTree::RowTypeElement(x) => tokens_of(*x.identifier) + tokens_of(*x.type_),
        ParseTree::IntervalType(x) => tokens_of(*x.interval) + tokens_of(*x.from) + tokens_of(*x.to_kw) + tokens_of(*x.to),
        ParseTree::IfNotExists(x) => tokens_of(*x.if_) + tokens_of(*x.not) + tokens_of(*x.exists),
        ParseTree::CreateTable(x) => tokens_of(*x.create) + tokens_of(*x.table) + tokens_of(*x.if_not_exists_opt) + tokens_of(*x.table_name) + tokens_of(*x.table_elements) + tokens_of(*x.comment_opt) + tokens_of(*x.with_properties_opt),
        ParseTree::CreateView(x) => tokens_of(*x.create) + tokens_of(*x.or_opt) + tokens_of(*x.replace_opt) + tokens_of(*x.view) + tokens_of(*x.qualified_name) + tokens_of(*x.as_) + tokens_of(*x.query),
        ParseTree::CreateRole(x) => tokens_of(*x.create) + tokens_of(*x.role) + tokens_of(*x.name) + tokens_of(*x.with_admin_grantor_opt),
        ParseTree::WithAdminGrantor(x) => tokens_of(*x.with) + tokens_of(*x.admin) + tokens_of(*x.grantor),
        ParseTree::UserPrincipal(x) => tokens_of(*x.user) + tokens_of(*x.identifier),
        ParseTree::RolePrincipal(x) => tokens_of(*x.role) + tokens_of(*x.identifier),
        ParseTree::UnspecifiedPrincipal(x) => tokens_of(*x.identifier),
        ParseTree::CreateTableAsSelect(x) => tokens_of(*x.create) + tokens_of(*x.table) + tokens_of(*x.if_not_exists_opt) + tokens_of(*x.table_name) + tokens_of(*x.column_aliases_opt) + tokens_of(*x.comment_opt) + tokens_of(*x.with_properties_opt) + tokens_of(*x.as_) + tokens_of(*x.open_paren_opt) + tokens_of(*x.query) + tokens_of(*x.close_paren_opt) + tokens_of(*x.with_data_opt),
        ParseTree::WithProperties(x) => tokens_of(*x.with) + tokens_of(*x.properties),
        ParseTree::Property(x) => tokens_of(*x.identifier) + tokens_of(*x.eq) + tokens_of(*x.value),
        ParseTree::WithData(x) => tokens_of(*x.with) + tokens_of(*x.no_opt) + tokens_of(*x.data),
        ParseTree::Comment(x) => tokens_of(*x.comment) + tokens_of(*x.value),
        ParseTree::ColumnDefinition(x) => tokens_of(*x.identifier) + tokens_of(*x.type_) + tokens_of(*x.not_null_opt) + tokens_of(*x.comment_opt) + tokens_of(*x.with_properties_opt),
        ParseTree::NotNull(x) => tokens_of(*x.not) + tokens_of(*x.null),
        ParseTree::LikeClause(x) => tokens_of(*x.like) + tokens_of(*x.name) + tokens_of(*x.option_type_opt) + tokens_of(*x.properties),
        ParseTree::InsertInto(x) => tokens_of(*x.insert) + tokens_of(*x.into) + tokens_of(*x.table_name) + tokens_of(*x.column_aliases_opt) + tokens_of(*x.query),
        ParseTree::Delete(x) => tokens_of(*x.delete) + tokens_of(*x.from) + tokens_of(*x.table_name) + tokens_of(*x.where_opt) + tokens_of(*x.predicate),
        ParseTree::GroupingSet(x) => tokens_of(*x.elements),
        ParseTree::RelationOrQuery(x) => tokens_of(*x.open_paren) + tokens_of(*x.query_or_relation) + tokens_of(*x.close_paren),
        ParseTree::EmptyGroupingSet(x) => tokens_of(*x.open_paren) + tokens_of(*x.close_paren),
        ParseTree::ExpressionOrQuery(x) => tokens_of(*x.open_paren) + tokens_of(*x.expression_or_query) + tokens_of(*x.close_paren),
        ParseTree::Entrypoint(x) => tokens_of(*x.beginning_of_file) + tokens_of(*x.tree) + tokens_of(*x.end_of_file),
        ParseTree::NullTreatment(x) => tokens_of(*x.treatment) + tokens_of(*x.nulls),
    }
}

/// The tokens of the elements and separators of a list, in source order.
pub open spec fn pairs_tokens<'a>(ps: Seq<(ParseTree<'a>, ParseTree<'a>)>) -> Seq<token::Token<'a>>
    decreases ps,
{
    if ps.len() == 0 {
        Seq::empty()
    } else {
        pairs_tokens(ps.drop_last()) + tokens_of(ps.last().0) + tokens_of(ps.last().1)
    }
}

/// The tokens of a sequence of trees, in order.
pub open spec fn tokens_of_all<'a>(ts: Seq<ParseTree<'a>>) -> Seq<token::Token<'a>>
    decreases ts.len(),
{
    if ts.len() == 0 {
        Seq::empty()
    } else {
        tokens_of_all(ts.drop_last()) + tokens_of(ts.last())
    }
}

/// The elements and separators of a list, alternating, in source order.
pub open spec fn pair_children<'a>(ps: Seq<(ParseTree<'a>, ParseTree<'a>)>) -> Seq<ParseTree<'a>>
    decreases ps.len(),
{
    if ps.len() == 0 {
        Seq::empty()
    } else {
        pair_children(ps.drop_last()) + seq![ps.last().0, ps.last().1]
    }
}

/// The immediate children of a tree, in source order.
pub open spec fn children_of<'a>(t: ParseTree<'a>) -> Seq<ParseTree<'a>> {
    match t {
        ParseTree::Empty(_) => Seq::empty(),
        ParseTree::Token(_) => Seq::empty(),
        ParseTree::List(x) => seq![*x.start_delimiter] + pair_children(x.elements_and_separators@)
            + seq![*x.end_delimiter],
        ParseTree::Error(_) => Seq::empty(),
        ParseTree::Query(x) => seq![*x.with, *x.query_no_with],
        ParseTree::With(x) => seq![*x.with, *x.recursive, *x.named_queries],
        ParseTree::NamedQuery(x) => seq![*x.name, *x.column_aliases_opt, *x.as_, *x.open_paren, *x.query, *x.close_paren],
        ParseTree::QueryNoWith(x) => seq![*x.query_term, *x.order_by_opt, *x.limit_opt],
        ParseTree::OrderBy(x) => seq![*x.order, *x.by, *x.sort_items],
        ParseTree::Limit(x) => seq![*x.limit, *x.value],
        ParseTree::QuerySetOperation(x) => seq![*x.left, *x.operator, *x.set_quantifier_opt, *x.right],
        ParseTree::SortItem(x) => seq![*x.expression, *x.ordering_opt, *x.nulls, *x.null_ordering_opt],
        ParseTree::Subquery(x) => seq![*x.open_paren, *x.query_no_with, *x.close_paren],
        ParseTree::InlineTable(x) => seq![*x.values, *x.expressions],
        ParseTree::Table(x) => seq![*x.table, *x.qualified_name],
        ParseTree::QuerySpecification(x) => seq![*x.select, *x.set_quantifier_opt, *x.select_items, *x.from, *x.relations, *x.where_, *x.where_predicate, *x.group, *x.by, *x.group_by, *x.having, *x.having_predicate],
        ParseTree::QualifiedName(x) => seq![*x.names],
        ParseTree::SelectAll(x) => seq![*x.asterisk],
        ParseTree::QualifiedSelectAll(x) => seq![*x.qualifier, *x.period, *x.asterisk],
        ParseTree::SelectItem(x) => seq![*x.expression, *x.as_, *x.identifier],
        ParseTree::SubqueryRelation(x) => seq![*x.open_paren, *x.query, *x.close_paren],
        ParseTree::ParenthesizedRelation(x) => seq![*x.open_paren, *x.relation, *x.close_paren],
        ParseTree::TableName(x) => seq![*x.name],
        ParseTree::Lateral(x) => seq![*x.lateral, *x.open_paren, *x.query, *x.close_paren],
        ParseTree::Unnest(x) => seq![*x.unnest, *x.expressions, *x.with, *x.ordinality],
        ParseTree::SampledRelation(x) => seq![*x.aliased_relation, *x.tablesample, *x.sample_type, *x.open_paren, *x.expression, *x.close_paren],
        ParseTree::AliasedRelation(x) => seq![*x.relation_primary, *x.as_opt, *x.identifier, *x.column_aliases_opt],
        ParseTree::CrossJoin(x) => seq![*x.left, *x.cross, *x.join, *x.right],
        ParseTree::Join(x) => seq![*x.left, *x.join_type, *x.join, *x.right, *x.join_criteria],
        ParseTree::NaturalJoin(x) => seq![*x.left, *x.natural, *x.join_type, *x.join, *x.right],
        ParseTree::OuterJoinKind(x) => seq![*x.kind, *x.outer_opt],
        ParseTree::OnJoinCriteria(x) => seq![*x.on, *x.predicate],
        ParseTree::UsingJoinCriteria(x) => seq![*x.using, *x.names],
        ParseTree::GroupBy(x) => seq![*x.set_quantifier_opt, *x.grouping_elements],
        ParseTree::Rollup(x) => seq![*x.rollup, *x.expressions],
        ParseTree::Cube(x) => seq![*x.cube, *x.expressions],
        ParseTree::GroupingSets(x) => seq![*x.grouping, *x.sets, *x.grouping_sets],
        ParseTree::BinaryExpression(x) => seq![*x.left, *x.operator, *x.right],
        ParseTree::UnaryExpression(x) => seq![*x.operator, *x.operand],
        ParseTree::QuantifiedComparison(x) => seq![*x.operand, *x.operator, *x.comparison_quantifier, *x.open_paren, *x.query, *x.close_paren],
        ParseTree::NullPredicate(x) => seq![*x.value, *x.is, *x.not_opt, *x.null],
        ParseTree::DistinctFrom(x) => seq![*x.left, *x.is, *x.not_opt, *x.distinct, *x.from, *x.right],
        ParseTree::Between(x) => seq![*x.value, *x.not_opt, *x.between, *x.lower, *x.and, *x.upper],
        ParseTree::Like(x) => seq![*x.value, *x.not_opt, *x.like, *x.patrern, *x.escape_opt, *x.escape_value_opt],
        ParseTree::InSubquery(x) => seq![*x.value, *x.not_opt, *x.in_, *x.open_paren, *x.query, *x.close_paren],
        ParseTree::InList(x) => seq![*x.value, *x.not_opt, *x.in_, *x.expressions],
        ParseTree::AtTimeZone(x) => seq![*x.value, *x.at, *x.time, *x.zone, *x.specifier],
        ParseTree::Dereference(x) => seq![*x.object, *x.period, *x.field_name],
        ParseTree::Subscript(x) => seq![*x.operand, *x.open_square, *x.index, *x.close_square],
        ParseTree::Lambda(x) => seq![*x.parameters, *x.array, *x.body],
        ParseTree::Literal(x) => seq![*x.value],
        ParseTree::RowConstructor(x) => seq![*x.elements],
        ParseTree::ParenthesizedExpression(x) => seq![*x.open_paren, *x.value, *x.close_paren],
        ParseTree::Identifier(x) => seq![*x.value],
        ParseTree::FunctionCall(x) => seq![*x.name, *x.open_paren, *x.set_quantifier_opt, *x.arguments, *x.order_by_opt, *x.close_paren, *x.filter_opt, *x.null_treatment_opt, *x.over_opt],
        ParseTree::Filter(x) => seq![*x.filter, *x.open_paren, *x.where_, *x.predicate, *x.close_paren],
        ParseTree::Over(x) => seq![*x.over, *x.open_paren, *x.partition_opt, *x.by, *x.partitions, *x.order_by_opt, *x.window_frame, *x.close_paren],
        ParseTree::WindowFrame(x) => seq![*x.frame_type, *x.between_opt, *x.start, *x.and, *x.end],
        ParseTree::UnboundedFrame(x) => seq![*x.unbounded, *x.bound_type],
        ParseTree::CurrentRowBound(x) => seq![*x.current, *x.row],
        ParseTree::BoundedFrame(x) => seq![*x.bound, *x.bound_type],
        ParseTree::UnicodeString(x) => seq![*x.string, *x.uescape_opt, *x.escape],
        ParseTree::ConfigureExpression(x) => seq![*x.configure, *x.open_paren, *x.identifier, *x.comma, *x.value, *x.close_paren],
        ParseTree::SubqueryExpression(x) => seq![*x.open_paren, *x.query, *x.close_paren],
        ParseTree::Grouping(x) => seq![*x.grouping, *x.groups],
        ParseTree::Extract(x) => seq![*x.extract, *x.open_paren, *x.identifier, *x.from, *x.value, *x.close_paren],
        ParseTree::CurrentTime(x) => seq![*x.current_time, *x.open_paren, *x.precision, *x.close_paren],
        ParseTree::CurrentTimestamp(x) => seq![*x.current_timestamp, *x.open_paren, *x.precision, *x.close_paren],
        ParseTree::Normalize(x) => seq![*x.normalize, *x.open_paren, *x.value, *x.comma_opt, *x.normal_form, *x.close_paren],
        ParseTree::Localtime(x) => seq![*x.localtime, *x.open_paren, *x.precision, *x.close_paren],
        ParseTree::Localtimestamp(x) => seq![*x.localtimestamp, *x.open_paren, *x.precision, *x.close_paren],
        ParseTree::Cast(x) => seq![*x.cast, *x.open_paren, *x.value, *x.as_, *x.type_, *x.close_paren],
        ParseTree::WhenClause(x) => seq![*x.when, *x.condition, *x.then_, *x.result],
        ParseTree::Case(x) => seq![*x.case, *x.value_opt, *x.when_clauses, *x.else_opt, *x.default, *x.end],
        ParseTree::Exists(x) => seq![*x.exists, *x.open_paren, *x.query, *x.close_paren],
        ParseTree::TypeConstructor(x) => seq![*x.type_, *x.value],
        ParseTree::Array(x) => seq![*x.array, *x.elements],
        ParseTree::Interval(x) => seq![*x.interval, *x.sign_opt, *x.value, *x.from, *x.to_kw_opt, *x.to],
        ParseTree::Row(x) => seq![*x.row, *x.elements],
        ParseTree::TryCast(x) => seq![*x.try_cast, *x.open_paren, *x.value, *x.as_, *x.type_, *x.close_paren],
        ParseTree::Substring(x) => seq![*x.substring, *x.open_paren, *x.value, *x.from, *x.from_value, *x.for_opt, *x.for_value, *x.close_paren],
        ParseTree::Position(x) => seq![*x.position, *x.open_paren, *x.value, *x.in_, *x.target, *x.close_paren],
        ParseTree::ArrayTypeSuffix(x) => seq![*x.base_type, *x.array],
        ParseTree::NamedType(x) => seq![*x.name, *x.type_parameters],
        ParseTree::ArrayType(x) => seq![*x.array, *x.open_angle, *x.element_type, *x.close_angle],
        ParseTree::MapType(x) => seq![*x.map, *x.open_angle, *x.key_type, *x.comma, *x.value_type, *x.close_angle],
        ParseTree::RowType(x) => seq![*x.row, *x.element_types],
        ParseTree::RowTypeElement(x) => seq![*x.identifier, *x.type_],
        ParseTree::IntervalType(x) => seq![*x.interval, *x.from, *x.to_kw, *x.to],
        ParseTree::IfNotExists(x) => seq![*x.if_, *x.not, *x.exists],
        ParseTree::CreateTable(x) => seq![*x.create, *x.table, *x.if_not_exists_opt, *x.table_name, *x.table_elements, *x.comment_opt, *x.with_properties_opt],
        ParseTree::CreateView(x) => seq![*x.create, *x.or_opt, *x.replace_opt, *x.view, *x.qualified_name, *x.as_, *x.query],
        ParseTree::CreateRole(x) => seq![*x.create, *x.role, *x.name, *x.with_admin_grantor_opt],
        ParseTree::WithAdminGrantor(x) => seq![*x.with, *x.admin, *x.grantor],
        ParseTree::UserPrincipal(x) => seq![*x.user, *x.identifier],
        ParseTree::RolePrincipal(x) => seq![*x.role, *x.identifier],
        ParseTree::UnspecifiedPrincipal(x) => seq![*x.identifier],
        ParseTree::CreateTableAsSelect(x) => seq![*x.create, *x.table, *x.if_not_exists_opt, *x.table_name, *x.column_aliases_opt, *x.comment_opt, *x.with_properties_opt, *x.as_, *x.open_paren_opt, *x.query, *x.close_paren_opt, *x.with_data_opt],
        ParseTree::WithProperties(x) => seq![*x.with, *x.properties],
        ParseTree::Property(x) => seq![*x.identifier, *x.eq, *x.value],
        ParseTree::WithData(x) => seq![*x.with, *x.no_opt, *x.data],
        ParseTree::Comment(x) => seq![*x.comment, *x.value],
        ParseTree::ColumnDefinition(x) => seq![*x.identifier, *x.type_, *x.not_null_opt, *x.comment_opt, *x.with_properties_opt],
        ParseTree::NotNull(x) => seq![*x.not, *x.null],
        ParseTree::LikeClause(x) => seq![*x.like, *x.name, *x.option_type_opt, *x.properties],
        ParseTree::InsertInto(x) => seq![*x.insert, *x.into, *x.table_name, *x.column_aliases_opt, *x.query],
        ParseTree::Delete(x) => seq![*x.delete, *x.from, *x.table_name, *x.where_opt, *x.predicate],
        ParseTree::GroupingSet(x) => seq![*x.elements],
        ParseTree::RelationOrQuery(x) => seq![*x.open_paren, *x.query_or_relation, *x.close_paren],
        ParseTree::EmptyGroupingSet(x) => seq![*x.open_paren, *x.close_paren],
        ParseTree::ExpressionOrQuery(x) => seq![*x.open_paren, *x.expression_or_query, *x.close_paren],
        ParseTree::Entrypoint(x) => seq![*x.beginning_of_file, *x.tree, *x.end_of_file],
        ParseTree::NullTreatment(x) => seq![*x.treatment, *x.nulls],
    }
}

/// The first child of a tree; a tree without children is its own first child.
pub open spec fn first_child_of<'a>(t: ParseTree<'a>) -> ParseTree<'a> {
    match t {
        ParseTree::Empty(_) => t,
        ParseTree::Token(_) => t,
        ParseTree::List(x) => *x.start_delimiter,
        ParseTree::Error(_) => t,
        ParseTree::Query(x) => *x.with,
        ParseTree::With(x) => *x.with,
        ParseTree::NamedQuery(x) => *x.name,
        ParseTree::QueryNoWith(x) => *x.query_term,
        ParseTree::OrderBy(x) => *x.order,
        ParseTree::Limit(x) => *x.limit,
        ParseTree::QuerySetOperation(x) => *x.left,
        ParseTree::SortItem(x) => *x.expression,
        ParseTree::Subquery(x) => *x.open_paren,
        ParseTree::InlineTable(x) => *x.values,
        ParseTree::Table(x) => *x.table,
        ParseTree::QuerySpecification(x) => *x.select,
        ParseTree::QualifiedName(x) => *x.names,
        ParseTree::SelectAll(x) => *x.asterisk,
        ParseTree::QualifiedSelectAll(x) => *x.qualifier,
        ParseTree::SelectItem(x) => *x.expression,
        ParseTree::SubqueryRelation(x) => *x.open_paren,
        ParseTree::ParenthesizedRelation(x) => *x.open_paren,
        ParseTree::TableName(x) => *x.name,
        ParseTree::Lateral(x) => *x.lateral,
        ParseTree::Unnest(x) => *x.unnest,
        ParseTree::SampledRelation(x) => *x.aliased_relation,
        ParseTree::AliasedRelation(x) => *x.relation_primary,
        ParseTree::CrossJoin(x) => *x.left,
        ParseTree::Join(x) => *x.left,
        ParseTree::NaturalJoin(x) => *x.left,
        ParseTree::OuterJoinKind(x) => *x.kind,
        ParseTree::OnJoinCriteria(x) => *x.on,
        ParseTree::UsingJoinCriteria(x) => *x.using,
        ParseTree::GroupBy(x) => *x.set_quantifier_opt,
        ParseTree::Rollup(x) => *x.rollup,
        ParseTree::Cube(x) => *x.cube,
        ParseTree::GroupingSets(x) => *x.grouping,
        ParseTree::BinaryExpression(x) => *x.left,
        ParseTree::UnaryExpression(x) => *x.operator,
        ParseTree::QuantifiedComparison(x) => *x.operand,
        ParseTree::NullPredicate(x) => *x.value,
        ParseTree::DistinctFrom(x) => *x.left,
        ParseTree::Between(x) => *x.value,
        ParseTree::Like(x) => *x.value,
        ParseTree::InSubquery(x) => *x.value,
        ParseTree::InList(x) => *x.value,
        ParseTree::AtTimeZone(x) => *x.value,
        ParseTree::Dereference(x) => *x.object,
        ParseTree::Subscript(x) => *x.operand,
        ParseTree::Lambda(x) => *x.parameters,
        ParseTree::Literal(x) => *x.value,
        ParseTree::RowConstructor(x) => *x.elements,
        ParseTree::ParenthesizedExpression(x) => *x.open_paren,
        ParseTree::Identifier(x) => *x.value,
        ParseTree::FunctionCall(x) => *x.name,
        ParseTree::Filter(x) => *x.filter,
        ParseTree::Over(x) => *x.over,
        ParseTree::WindowFrame(x) => *x.frame_type,
        ParseTree::UnboundedFrame(x) => *x.unbounded,
        ParseTree::CurrentRowBound(x) => *x.current,
        ParseTree::BoundedFrame(x) => *x.bound,
        ParseTree::UnicodeString(x) => *x.string,
        ParseTree::ConfigureExpression(x) => *x.configure,
        ParseTree::SubqueryExpression(x) => *x.open_paren,
        ParseTree::Grouping(x) => *x.grouping,
        ParseTree::Extract(x) => *x.extract,
        ParseTree::CurrentTime(x) => *x.current_time,
        ParseTree::CurrentTimestamp(x) => *x.current_timestamp,
        ParseTree::Normalize(x) => *x.normalize,
        ParseTree::Localtime(x) => *x.localtime,
        ParseTree::Localtimestamp(x) => *x.localtimestamp,
        ParseTree::Cast(x) => *x.cast,
        ParseTree::WhenClause(x) => *x.when,
        ParseTree::Case(x) => *x.case,
        ParseTree::Exists(x) => *x.exists,
        ParseTree::TypeConstructor(x) => *x.type_,
        ParseTree::Array(x) => *x.array,
        ParseTree::Interval(x) => *x.interval,
        ParseTree::Row(x) => *x.row,
        ParseTree::TryCast(x) => *x.try_cast,
        ParseTree::Substring(x) => *x.substring,
        ParseTree::Position(x) => *x.position,
        ParseTree::ArrayTypeSuffix(x) => *x.base_type,
        ParseTree::NamedType(x) => *x.name,
        ParseTree::ArrayType(x) => *x.array,
        ParseTree::MapType(x) => *x.map,
        ParseTree::RowType(x) => *x.row,
        ParseTree::RowTypeElement(x) => *x.identifier,
        ParseTree::IntervalType(x) => *x.interval,
        ParseTree::IfNotExists(x) => *x.if_,
        ParseTree::CreateTable(x) => *x.create,
        ParseTree::CreateView(x) => *x.create,
        ParseTree::CreateRole(x) => *x.create,
        ParseTree::WithAdminGrantor(x) => *x.with,
        ParseTree::UserPrincipal(x) => *x.user,
        ParseTree::RolePrincipal(x) => *x.role,
        ParseTree::UnspecifiedPrincipal(x) => *x.identifier,
        ParseTree::CreateTableAsSelect(x) => *x.create,
        ParseTree::WithProperties(x) => *x.with,
        ParseTree::Property(x) => *x.identifier,
        ParseTree::WithData(x) => *x.with,
        ParseTree::Comment(x) => *x.comment,
        ParseTree::ColumnDefinition(x) => *x.identifier,
        ParseTree::NotNull(x) => *x.not,
        ParseTree::LikeClause(x) => *x.like,
        ParseTree::InsertInto(x) => *x.insert,
        ParseTree::Delete(x) => *x.delete,
        ParseTree::GroupingSet(x) => *x.elements,
        ParseTree::RelationOrQuery(x) => *x.open_paren,
        ParseTree::EmptyGroupingSet(x) => *x.open_paren,
        ParseTree::ExpressionOrQuery(x) => *x.open_paren,
        ParseTree::Entrypoint(x) => *x.beginning_of_file,
        ParseTree::NullTreatment(x) => *x.treatment,
    }
}

/// The last child of a tree; a tree without children is its own last child.
pub open spec fn last_child_of<'a>(t: ParseTree<'a>) -> ParseTree<'a> {
    match t {
        ParseTree::Empty(_) => t,
        ParseTree::Token(_) => t,
        ParseTree::List(x) => *x.end_delimiter,
        ParseTree::Error(_) => t,
        ParseTree::Query(x) => *x.query_no_with,
        ParseTree::With(x) => *x.named_queries,
        ParseTree::NamedQuery(x) => *x.close_paren,
        ParseTree::QueryNoWith(x) => *x.limit_opt,
        ParseTree::OrderBy(x) => *x.sort_items,
        ParseTree::Limit(x) => *x.value,
        ParseTree::QuerySetOperation(x) => *x.right,
        ParseTree::SortItem(x) => *x.null_ordering_opt,
        ParseTree::Subquery(x) => *x.close_paren,
        ParseTree::InlineTable(x) => *x.expressions,
        ParseTree::Table(x) => *x.qualified_name,
        ParseTree::QuerySpecification(x) => *x.having_predicate,
        ParseTree::QualifiedName(x) => *x.names,
        ParseTree::SelectAll(x) => *x.asterisk,
        ParseTree::QualifiedSelectAll(x) => *x.asterisk,
        ParseTree::SelectItem(x) => *x.identifier,
        ParseTree::SubqueryRelation(x) => *x.close_paren,
        ParseTree::ParenthesizedRelation(x) => *x.close_paren,
        ParseTree::TableName(x) => *x.name,
        ParseTree::Lateral(x) => *x.close_paren,
        ParseTree::Unnest(x) => *x.ordinality,
        ParseTree::SampledRelation(x) => *x.close_paren,
        ParseTree::AliasedRelation(x) => *x.column_aliases_opt,
        ParseTree::CrossJoin(x) => *x.right,
        ParseTree::Join(x) => *x.join_criteria,
        ParseTree::NaturalJoin(x) => *x.right,
        ParseTree::OuterJoinKind(x) => *x.outer_opt,
        ParseTree::OnJoinCriteria(x) => *x.predicate,
        ParseTree::UsingJoinCriteria(x) => *x.names,
        ParseTree::GroupBy(x) => *x.grouping_elements,
        ParseTree::Rollup(x) => *x.expressions,
        ParseTree::Cube(x) => *x.expressions,
        ParseTree::GroupingSets(x) => *x.grouping_sets,
        ParseTree::BinaryExpression(x) => *x.right,
        ParseTree::UnaryExpression(x) => *x.operand,
        ParseTree::QuantifiedComparison(x) => *x.close_paren,
        ParseTree::NullPredicate(x) => *x.null,
        ParseTree::DistinctFrom(x) => *x.right,
        ParseTree::Between(x) => *x.upper,
        ParseTree::Like(x) => *x.escape_value_opt,
        ParseTree::InSubquery(x) => *x.close_paren,
        ParseTree::InList(x) => *x.expressions,
        ParseTree::AtTimeZone(x) => *x.specifier,
        ParseTree::Dereference(x) => *x.field_name,
        ParseTree::Subscript(x) => *x.close_square,
        ParseTree::Lambda(x) => *x.body,
        ParseTree::Literal(x) => *x.value,
        ParseTree::RowConstructor(x) => *x.elements,
        ParseTree::ParenthesizedExpression(x) => *x.close_paren,
        ParseTree::Identifier(x) => *x.value,
        ParseTree::FunctionCall(x) => *x.over_opt,
        ParseTree::Filter(x) => *x.close_paren,
        ParseTree::Over(x) => *x.close_paren,
        ParseTree::WindowFrame(x) => *x.end,
        ParseTree::UnboundedFrame(x) => *x.bound_type,
        ParseTree::CurrentRowBound(x) => *x.row,
        ParseTree::BoundedFrame(x) => *x.bound_type,
        ParseTree::UnicodeString(x) => *x.escape,
        ParseTree::ConfigureExpression(x) => *x.close_paren,
        ParseTree::SubqueryExpression(x) => *x.close_paren,
        ParseTree::Grouping(x) => *x.groups,
        ParseTree::Extract(x) => *x.close_paren,
        ParseTree::CurrentTime(x) => *x.close_paren,
        ParseTree::CurrentTimestamp(x) => *x.close_paren,
        ParseTree::Normalize(x) => *x.close_paren,
        ParseTree::Localtime(x) => *x.close_paren,
        ParseTree::Localtimestamp(x) => *x.close_paren,
        ParseTree::Cast(x) => *x.close_paren,
        ParseTree::WhenClause(x) => *x.result,
        ParseTree::Case(x) => *x.end,
        ParseTree::Exists(x) => *x.close_paren,
        ParseTree::TypeConstructor(x) => *x.value,
        ParseTree::Array(x) => *x.elements,
        ParseTree::Interval(x) => *x.to,
        ParseTree::Row(x) => *x.elements,
        ParseTree::TryCast(x) => *x.close_paren,
        ParseTree::Substring(x) => *x.close_paren,
        ParseTree::Position(x) => *x.close_paren,
        ParseTree::ArrayTypeSuffix(x) => *x.array,
        ParseTree::NamedType(x) => *x.type_parameters,
        ParseTree::ArrayType(x) => *x.close_angle,
        ParseTree::MapType(x) => *x.close_angle,
        ParseTree::RowType(x) => *x.element_types,
        ParseTree::RowTypeElement(x) => *x.type_,
        ParseTree::IntervalType(x) => *x.to,
        ParseTree::IfNotExists(x) => *x.exists,
        ParseTree::CreateTable(x) => *x.with_properties_opt,
        ParseTree::CreateView(x) => *x.query,
        ParseTree::CreateRole(x) => *x.with_admin_grantor_opt,
        ParseTree::WithAdminGrantor(x) => *x.grantor,
        ParseTree::UserPrincipal(x) => *x.identifier,
        ParseTree::RolePrincipal(x) => *x.identifier,
        ParseTree::UnspecifiedPrincipal(x) => *x.identifier,
        ParseTree::CreateTableAsSelect(x) => *x.with_data_opt,
        ParseTree::WithProperties(x) => *x.properties,
        ParseTree::Property(x) => *x.value,
        ParseTree::WithData(x) => *x.data,
        ParseTree::Comment(x) => *x.value,
        ParseTree::ColumnDefinition(x) => *x.with_properties_opt,
        ParseTree::NotNull(x) => *x.null,
        ParseTree::LikeClause(x) => *x.properties,
        ParseTree::InsertInto(x) => *x.query,
        ParseTree::Delete(x) => *x.predicate,
        ParseTree::GroupingSet(x) => *x.elements,
        ParseTree::RelationOrQuery(x) => *x.close_paren,
        ParseTree::EmptyGroupingSet(x) => *x.close_paren,
        ParseTree::ExpressionOrQuery(x) => *x.close_paren,
        ParseTree::Entrypoint(x) => *x.end_of_file,
        ParseTree::NullTreatment(x) => *x.nulls,
    }
}

/// Is the tree a leaf: empty, a token or an error?
pub open spec fn is_leaf<'a>(t: ParseTree<'a>) -> bool {
    t is Empty || t is Token || t is Error
}

/// Every error tree within the tree has a message.
#[verifier::opaque]
#[verifier::spinoff_prover]
#[verifier::rlimit(100)]
pub open spec fn tree_wf<'a>(t: ParseTree<'a>) -> bool
    decreases t,
{
    match t {
        ParseTree::Empty(_) => true,
        ParseTree::Token(x) => errors_wf(x.token.errors@),
        ParseTree::List(x) => tree_wf(*x.start_delimiter) && pairs_wf(x.elements_and_separators@)
            && tree_wf(*x.end_delimiter),
        ParseTree::Error(x) => x.error.messages@.len() > 0,
        ParseTree::Query(x) => tree_wf(*x.with) && tree_wf(*x.query_no_with),
        ParseTree::With(x) => tree_wf(*x.with) && tree_wf(*x.recursive) && tree_wf(*x.named_queries),
        ParseTree::NamedQuery(x) => tree_wf(*x.name) && tree_wf(*x.column_aliases_opt) && tree_wf(*x.as_) && tree_wf(*x.open_paren) && tree_wf(*x.query) && tree_wf(*x.close_paren),
        ParseTree::QueryNoWith(x) => tree_wf(*x.query_term) && tree_wf(*x.order_by_opt) && tree_wf(*x.limit_opt),
        ParseTree::OrderBy(x) => tree_wf(*x.order) && tree_wf(*x.by) && tree_wf(*x.sort_items),
        ParseTree::Limit(x) => tree_wf(*x.limit) && tree_wf(*x.value),
        ParseTree::QuerySetOperation(x) => tree_wf(*x.left) && tree_wf(*x.operator) && tree_wf(*x.set_quantifier_opt) && tree_wf(*x.right),
        ParseTree::SortItem(x) => tree_wf(*x.expression) && tree_wf(*x.ordering_opt) && tree_wf(*x.nulls) && tree_wf(*x.null_ordering_opt),
        ParseTree::Subquery(x) => tree_wf(*x.open_paren) && tree_wf(*x.query_no_with) && tree_wf(*x.close_paren),
        ParseTree::InlineTable(x) => tree_wf(*x.values) && tree_wf(*x.expressions),
        ParseTree::Table(x) => tree_wf(*x.table) && tree_wf(*x.qualified_name),
        ParseTree::QuerySpecification(x) => tree_wf(*x.select) && tree_wf(*x.set_quantifier_opt) && tree_wf(*x.select_items) && tree_wf(*x.from) && tree_wf(*x.relations) && tree_wf(*x.where_) && tree_wf(*x.where_predicate) && tree_wf(*x.group) && tree_wf(*x.by) && tree_wf(*x.group_by) && tree_wf(*x.having) && tree_wf(*x.having_predicate),
        ParseTree::QualifiedName(x) => tree_wf(*x.names),
        ParseTree::SelectAll(x) => tree_wf(*x.asterisk),
        ParseTree::QualifiedSelectAll(x) => tree_wf(*x.qualifier) && tree_wf(*x.period) && tree_wf(*x.asterisk),
        ParseTree::SelectItem(x) => tree_wf(*x.expression) && tree_wf(*x.as_) && tree_wf(*x.identifier),
        ParseTree::SubqueryRelation(x) => tree_wf(*x.open_paren) && tree_wf(*x.query) && tree_wf(*x.close_paren),
        ParseTree::ParenthesizedRelation(x) => tree_wf(*x.open_paren) && tree_wf(*x.relation) && tree_wf(*x.close_paren),
        ParseTree::TableName(x) => tree_wf(*x.name),
        ParseTree::Lateral(x) => tree_wf(*x.lateral) && tree_wf(*x.open_paren) && tree_wf(*x.query) && tree_wf(*x.close_paren),
        ParseTree::Unnest(x) => tree_wf(*x.unnest) && tree_wf(*x.expressions) && tree_wf(*x.with) && tree_wf(*x.ordinality),
        ParseTree::SampledRelation(x) => tree_wf(*x.aliased_relation) && tree_wf(*x.tablesample) && tree_wf(*x.sample_type) && tree_wf(*x.open_paren) && tree_wf(*x.expression) && tree_wf(*x.close_paren),
        ParseTree::AliasedRelation(x) => tree_wf(*x.relation_primary) && tree_wf(*x.as_opt) && tree_wf(*x.identifier) && tree_wf(*x.column_aliases_opt),
        ParseTree::CrossJoin(x) => tree_wf(*x.left) && tree_wf(*x.cross) && tree_wf(*x.join) && tree_wf(*x.right),
        ParseTree::Join(x) => tree_wf(*x.left) && tree_wf(*x.join_type) && tree_wf(*x.join) && tree_wf(*x.right) && tree_wf(*x.join_criteria),
        ParseTree::NaturalJoin(x) => tree_wf(*x.left) && tree_wf(*x.natural) && tree_wf(*x.join_type) && tree_wf(*x.join) && tree_wf(*x.right),
        ParseTree::OuterJoinKind(x) => tree_wf(*x.kind) && tree_wf(*x.outer_opt),
        ParseTree::OnJoinCriteria(x) => tree_wf(*x.on) && tree_wf(*x.predicate),
        ParseTree::UsingJoinCriteria(x) => tree_wf(*x.using) && tree_wf(*x.names),
        ParseTree::GroupBy(x) => tree_wf(*x.set_quantifier_opt) && tree_wf(*x.grouping_elements),
        ParseTree::Rollup(x) => tree_wf(*x.rollup) && tree_wf(*x.expressions),
        ParseTree::Cube(x) => tree_wf(*x.cube) && tree_wf(*x.expressions),
        ParseTree::GroupingSets(x) => tree_wf(*x.grouping) && tree_wf(*x.sets) && tree_wf(*x.grouping_sets),
        ParseTree::BinaryExpression(x) => tree_wf(*x.left) && tree_wf(*x.operator) && tree_wf(*x.right),
        ParseTree::UnaryExpression(x) => tree_wf(*x.operator) && tree_wf(*x.operand),
        ParseTree::QuantifiedComparison(x) => tree_wf(*x.operand) && tree_wf(*x.operator) && tree_wf(*x.comparison_quantifier) && tree_wf(*x.open_paren) && tree_wf(*x.query) && tree_wf(*x.close_paren),
        ParseTree::NullPredicate(x) => tree_wf(*x.value) && tree_wf(*x.is) && tree_wf(*x.not_opt) && tree_wf(*x.null),
        ParseTree::DistinctFrom(x) => tree_wf(*x.left) && tree_wf(*x.is) && tree_wf(*x.not_opt) && tree_wf(*x.distinct) && tree_wf(*x.from) && tree_wf(*x.right),
        ParseTree::Between(x) => tree_wf(*x.value) && tree_wf(*x.not_opt) && tree_wf(*x.between) && tree_wf(*x.lower) && tree_wf(*x.and) && tree_wf(*x.upper),
        ParseTree::Like(x) => tree_wf(*x.value) && tree_wf(*x.not_opt) && tree_wf(*x.like) && tree_wf(*x.patrern) && tree_wf(*x.escape_opt) && tree_wf(*x.escape_value_opt),
        ParseTree::InSubquery(x) => tree_wf(*x.value) && tree_wf(*x.not_opt) && tree_wf(*x.in_) && tree_wf(*x.open_paren) && tree_wf(*x.query) && tree_wf(*x.close_paren),
        ParseTree::InList(x) => tree_wf(*x.value) && tree_wf(*x.not_opt) && tree_wf(*x.in_) && tree_wf(*x.expressions),
        ParseTree::AtTimeZone(x) => tree_wf(*x.value) && tree_wf(*x.at) && tree_wf(*x.time) && tree_wf(*x.zone) && tree_wf(*x.specifier),
        ParseTree::Dereference(x) => tree_wf(*x.object) && tree_wf(*x.period) && tree_wf(*x.field_name),
        ParseTree::Subscript(x) => tree_wf(*x.operand) && tree_wf(*x.open_square) && tree_wf(*x.index) && tree_wf(*x.close_square),
        ParseTree::Lambda(x) => tree_wf(*x.parameters) && tree_wf(*x.array) && tree_wf(*x.body),
        ParseTree::Literal(x) => tree_wf(*x.value),
        ParseTree::RowConstructor(x) => tree_wf(*x.elements),
        ParseTree::ParenthesizedExpression(x) => tree_wf(*x.open_paren) && tree_wf(*x.value) && tree_wf(*x.close_paren),
        ParseTree::Identifier(x) => tree_wf(*x.value),
        ParseTree::FunctionCall(x) => tree_wf(*x.name) && tree_wf(*x.open_paren) && tree_wf(*x.set_quantifier_opt) && tree_wf(*x.arguments) && tree_wf(*x.order_by_opt) && tree_wf(*x.close_paren) && tree_wf(*x.filter_opt) && tree_wf(*x.null_treatment_opt) && tree_wf(*x.over_opt),
        ParseTree::Filter(x) => tree_wf(*x.filter) && tree_wf(*x.open_paren) && tree_wf(*x.where_) && tree_wf(*x.predicate) && tree_wf(*x.close_paren),
        ParseTree::Over(x) => tree_wf(*x.over) && tree_wf(*x.open_paren) && tree_wf(*x.partition_opt) && tree_wf(*x.by) && tree_wf(*x.partitions) && tree_wf(*x.order_by_opt) && tree_wf(*x.window_frame) && tree_wf(*x.close_paren),
        ParseTree::WindowFrame(x) => tree_wf(*x.frame_type) && tree_wf(*x.between_opt) && tree_wf(*x.start) && tree_wf(*x.and) && tree_wf(*x.end),
        ParseTree::UnboundedFrame(x) => tree_wf(*x.unbounded) && tree_wf(*x.bound_type),
        ParseTree::CurrentRowBound(x) => tree_wf(*x.current) && tree_wf(*x.row),
        ParseTree::BoundedFrame(x) => tree_wf(*x.bound) && tree_wf(*x.bound_type),
        ParseTree::UnicodeString(x) => tree_wf(*x.string) && tree_wf(*x.uescape_opt) && tree_wf(*x.escape),
        ParseTree::ConfigureExpression(x) => tree_wf(*x.configure) && tree_wf(*x.open_paren) && tree_wf(*x.identifier) && tree_wf(*x.comma) && tree_wf(*x.value) && tree_wf(*x.close_paren),
        ParseTree::SubqueryExpression(x) => tree_wf(*x.open_paren) && tree_wf(*x.query) && tree_wf(*x.close_paren),
        ParseTree::Grouping(x) => tree_wf(*x.grouping) && tree_wf(*x.groups),
        ParseTree::Extract(x) => tree_wf(*x.extract) && tree_wf(*x.open_paren) && tree_wf(*x.identifier) && tree_wf(*x.from) && tree_wf(*x.value) && tree_wf(*x.close_paren),
        ParseTree::CurrentTime(x) => tree_wf(*x.current_time) && tree_wf(*x.open_paren) && tree_wf(*x.precision) && tree_wf(*x.close_paren),
        ParseTree::CurrentTimestamp(x) => tree_wf(*x.current_timestamp) && tree_wf(*x.open_paren) && tree_wf(*x.precision) && tree_wf(*x.close_paren),
        ParseTree::Normalize(x) => tree_wf(*x.normalize) && tree_wf(*x.open_paren) && tree_wf(*x.value) && tree_wf(*x.comma_opt) && tree_wf(*x.normal_form) && tree_wf(*x.close_paren),
        ParseTree::Localtime(x) => tree_wf(*x.localtime) && tree_wf(*x.open_paren) && tree_wf(*x.precision) && tree_wf(*x.close_paren),
        ParseTree::Localtimestamp(x) => tree_wf(*x.localtimestamp) && tree_wf(*x.open_paren) && tree_wf(*x.precision) && tree_wf(*x.close_paren),
        ParseTree::Cast(x) => tree_wf(*x.cast) && tree_wf(*x.open_paren) && tree_wf(*x.value) && tree_wf(*x.as_) && tree_wf(*x.type_) && tree_wf(*x.close_paren),
        ParseTree::WhenClause(x) => tree_wf(*x.when) && tree_wf(*x.condition) && tree_wf(*x.then_) && tree_wf(*x.result),
        ParseTree::Case(x) => tree_wf(*x.case) && tree_wf(*x.value_opt) && tree_wf(*x.when_clauses) && tree_wf(*x.else_opt) && tree_wf(*x.default) && tree_wf(*x.end),
        ParseTree::Exists(x) => tree_wf(*x.exists) && tree_wf(*x.open_paren) && tree_wf(*x.query) && tree_wf(*x.close_paren),
        ParseTree::TypeConstructor(x) => tree_wf(*x.type_) && tree_wf(*x.value),
        ParseTree::Array(x) => tree_wf(*x.array) && tree_wf(*x.elements),
        ParseTree::Interval(x) => tree_wf(*x.interval) && tree_wf(*x.sign_opt) && tree_wf(*x.value) && tree_wf(*x.from) && tree_wf(*x.to_kw_opt) && tree_wf(*x.to),
        ParseTree::Row(x) => tree_wf(*x.row) && tree_wf(*x.elements),
        ParseTree::TryCast(x) => tree_wf(*x.try_cast) && tree_wf(*x.open_paren) && tree_wf(*x.value) && tree_wf(*x.as_) && tree_wf(*x.type_) && tree_wf(*x.close_paren),
        ParseTree::Substring(x) => tree_wf(*x.substring) && tree_wf(*x.open_paren) && tree_wf(*x.value) && tree_wf(*x.from) && tree_wf(*x.from_value) && tree_wf(*x.for_opt) && tree_wf(*x.for_value) && tree_wf(*x.close_paren),
        ParseTree::Position(x) => tree_wf(*x.position) && tree_wf(*x.open_paren) && tree_wf(*x.value) && tree_wf(*x.in_) && tree_wf(*x.target) && tree_wf(*x.close_paren),
        ParseTree::ArrayTypeSuffix(x) => tree_wf(*x.base_type) && tree_wf(*x.array),
        ParseTree::NamedType(x) => tree_wf(*x.name) && tree_wf(*x.type_parameters),
        ParseTree::ArrayType(x) => tree_wf(*x.array) && tree_wf(*x.open_angle) && tree_wf(*x.element_type) && tree_wf(*x.close_angle),
        ParseTree::MapType(x) => tree_wf(*x.map) && tree_wf(*x.open_angle) && tree_wf(*x.key_type) && tree_wf(*x.comma) && tree_wf(*x.value_type) && tree_wf(*x.close_angle),
        ParseTree::RowType(x) => tree_wf(*x.row) && tree_wf(*x.element_types),
        ParseTree::RowTypeElement(x) => tree_wf(*x.identifier) && tree_wf(*x.type_),
        ParseTree::IntervalType(x) => tree_wf(*x.interval) && tree_wf(*x.from) && tree_wf(*x.to_kw) && tree_wf(*x.to),
        ParseTree::IfNotExists(x) => tree_wf(*x.if_) && tree_wf(*x.not) && tree_wf(*x.exists),
        ParseTree::CreateTable(x) => tree_wf(*x.create) && tree_wf(*x.table) && tree_wf(*x.if_not_exists_opt) && tree_wf(*x.table_name) && tree_wf(*x.table_elements) && tree_wf(*x.comment_opt) && tree_wf(*x.with_properties_opt),
        ParseTree::CreateView(x) => tree_wf(*x.create) && tree_wf(*x.or_opt) && tree_wf(*x.replace_opt) && tree_wf(*x.view) && tree_wf(*x.qualified_name) && tree_wf(*x.as_) && tree_wf(*x.query),
        ParseTree::CreateRole(x) => tree_wf(*x.create) && tree_wf(*x.role) && tree_wf(*x.name) && tree_wf(*x.with_admin_grantor_opt),
        ParseTree::WithAdminGrantor(x) => tree_wf(*x.with) && tree_wf(*x.admin) && tree_wf(*x.grantor),
        ParseTree::UserPrincipal(x) => tree_wf(*x.user) && tree_wf(*x.identifier),
        ParseTree::RolePrincipal(x) => tree_wf(*x.role) && tree_wf(*x.identifier),
        ParseTree::UnspecifiedPrincipal(x) => tree_wf(*x.identifier),
        ParseTree::CreateTableAsSelect(x) => tree_wf(*x.create) && tree_wf(*x.table) && tree_wf(*x.if_not_exists_opt) && tree_wf(*x.table_name) && tree_wf(*x.column_aliases_opt) && tree_wf(*x.comment_opt) && tree_wf(*x.with_properties_opt) && tree_wf(*x.as_) && tree_wf(*x.open_paren_opt) && tree_wf(*x.query) && tree_wf(*x.close_paren_opt) && tree_wf(*x.with_data_opt),
        ParseTree::WithProperties(x) => tree_wf(*x.with) && tree_wf(*x.properties),
        ParseTree::Property(x) => tree_wf(*x.identifier) && tree_wf(*x.eq) && tree_wf(*x.value),
        ParseTree::WithData(x) => tree_wf(*x.with) && tree_wf(*x.no_opt) && tree_wf(*x.data),
        ParseTree::Comment(x) => tree_wf(*x.comment) && tree_wf(*x.value),
        ParseTree::ColumnDefinition(x) => tree_wf(*x.identifier) && tree_wf(*x.type_) && tree_wf(*x.not_null_opt) && tree_wf(*x.comment_opt) && tree_wf(*x.with_properties_opt),
        ParseTree::NotNull(x) => tree_wf(*x.not) && tree_wf(*x.null),
        ParseTree::LikeClause(x) => tree_wf(*x.like) && tree_wf(*x.name) && tree_wf(*x.option_type_opt) && tree_wf(*x.properties),
        ParseTree::InsertInto(x) => tree_wf(*x.insert) && tree_wf(*x.into) && tree_wf(*x.table_name) && tree_wf(*x.column_aliases_opt) && tree_wf(*x.query),
        ParseTree::Delete(x) => tree_wf(*x.delete) && tree_wf(*x.from) && tree_wf(*x.table_name) && tree_wf(*x.where_opt) && tree_wf(*x.predicate),
        ParseTree::GroupingSet(x) => tree_wf(*x.elements),
        ParseTree::RelationOrQuery(x) => tree_wf(*x.open_paren) && tree_wf(*x.query_or_relation) && tree_wf(*x.close_paren),
        ParseTree::EmptyGroupingSet(x) => tree_wf(*x.open_paren) && tree_wf(*x.close_paren),
        ParseTree::ExpressionOrQuery(x) => tree_wf(*x.open_paren) && tree_wf(*x.expression_or_query) && tree_wf(*x.close_paren),
        ParseTree::Entrypoint(x) => tree_wf(*x.beginning_of_file) && tree_wf(*x.tree) && tree_wf(*x.end_of_file),
        ParseTree::NullTreatment(x) => tree_wf(*x.treatment) && tree_wf(*x.nulls),
    }
}

/// Every tree of a list's elements and separators is well formed.
pub open spec fn pairs_wf<'a>(ps: Seq<(ParseTree<'a>, ParseTree<'a>)>) -> bool
    decreases ps,
{
    if ps.len() == 0 {
        true
    } else {
        pairs_wf(ps.drop_last()) && tree_wf(ps.last().0) && tree_wf(ps.last().1)
    }
}

/// No error tree lies within the tree: where the parser builds one, it may drop
/// tokens it consumed.
#[verifier::opaque]
#[verifier::spinoff_prover]
#[verifier::rlimit(100)]
pub open spec fn lossless<'a>(t: ParseTree<'a>) -> bool
    decreases t,
{
    match t {
        ParseTree::Empty(_) => true,
        ParseTree::Token(_) => true,
        ParseTree::List(x) => lossless(*x.start_delimiter) && pairs_lossless(
            x.elements_and_separators@,
        ) && lossless(*x.end_delimiter),
        ParseTree::Error(_) => false,
        ParseTree::Query(x) => lossless(*x.with) && lossless(*x.query_no_with),
        ParseTree::With(x) => lossless(*x.with) && lossless(*x.recursive) && lossless(*x.named_queries),
        ParseTree::NamedQuery(x) => lossless(*x.name) && lossless(*x.column_aliases_opt) && lossless(*x.as_) && lossless(*x.open_paren) && lossless(*x.query) && lossless(*x.close_paren),
        ParseTree::QueryNoWith(x) => lossless(*x.query_term) && lossless(*x.order_by_opt) && lossless(*x.limit_opt),
        ParseTree::OrderBy(x) => lossless(*x.order) && lossless(*x.by) && lossless(*x.sort_items),
        ParseTree::Limit(x) => lossless(*x.limit) && lossless(*x.value),
        ParseTree::QuerySetOperation(x) => lossless(*x.left) && lossless(*x.operator) && lossless(*x.set_quantifier_opt) && lossless(*x.right),
        ParseTree::SortItem(x) => lossless(*x.expression) && lossless(*x.ordering_opt) && lossless(*x.nulls) && lossless(*x.null_ordering_opt),
        ParseTree::Subquery(x) => lossless(*x.open_paren) && lossless(*x.query_no_with) && lossless(*x.close_paren),
        ParseTree::InlineTable(x) => lossless(*x.values) && lossless(*x.expressions),
        ParseTree::Table(x) => lossless(*x.table) && lossless(*x.qualified_name),
        ParseTree::QuerySpecification(x) => lossless(*x.select) && lossless(*x.set_quantifier_opt) && lossless(*x.select_items) && lossless(*x.from) && lossless(*x.relations) && lossless(*x.where_) && lossless(*x.where_predicate) && lossless(*x.group) && lossless(*x.by) && lossless(*x.group_by) && lossless(*x.having) && lossless(*x.having_predicate),
        ParseTree::QualifiedName(x) => lossless(*x.names),
        ParseTree::SelectAll(x) => lossless(*x.asterisk),
        ParseTree::QualifiedSelectAll(x) => lossless(*x.qualifier) && lossless(*x.period) && lossless(*x.asterisk),
        ParseTree::SelectItem(x) => lossless(*x.expression) && lossless(*x.as_) && lossless(*x.identifier),
        ParseTree::SubqueryRelation(x) => lossless(*x.open_paren) && lossless(*x.query) && lossless(*x.close_paren),
        ParseTree::ParenthesizedRelation(x) => lossless(*x.open_paren) && lossless(*x.relation) && lossless(*x.close_paren),
        ParseTree::TableName(x) => lossless(*x.name),
        ParseTree::Lateral(x) => lossless(*x.lateral) && lossless(*x.open_paren) && lossless(*x.query) && lossless(*x.close_paren),
        ParseTree::Unnest(x) => lossless(*x.unnest) && lossless(*x.expressions) && lossless(*x.with) && lossless(*x.ordinality),
        ParseTree::SampledRelation(x) => lossless(*x.aliased_relation) && lossless(*x.tablesample) && lossless(*x.sample_type) && lossless(*x.open_paren) && lossless(*x.expression) && lossless(*x.close_paren),
        ParseTree::AliasedRelation(x) => lossless(*x.relation_primary) && lossless(*x.as_opt) && lossless(*x.identifier) && lossless(*x.column_aliases_opt),
        ParseTree::CrossJoin(x) => lossless(*x.left) && lossless(*x.cross) && lossless(*x.join) && lossless(*x.right),
        ParseTree::Join(x) => lossless(*x.left) && lossless(*x.join_type) && lossless(*x.join) && lossless(*x.right) && lossless(*x.join_criteria),
        ParseTree::NaturalJoin(x) => lossless(*x.left) && lossless(*x.natural) && lossless(*x.join_type) && lossless(*x.join) && lossless(*x.right),
        ParseTree::OuterJoinKind(x) => lossless(*x.kind) && lossless(*x.outer_opt),
        ParseTree::OnJoinCriteria(x) => lossless(*x.on) && lossless(*x.predicate),
        ParseTree::UsingJoinCriteria(x) => lossless(*x.using) && lossless(*x.names),
        ParseTree::GroupBy(x) => lossless(*x.set_quantifier_opt) && lossless(*x.grouping_elements),
        ParseTree::Rollup(x) => lossless(*x.rollup) && lossless(*x.expressions),
        ParseTree::Cube(x) => lossless(*x.cube) && lossless(*x.expressions),
        ParseTree::GroupingSets(x) => lossless(*x.grouping) && lossless(*x.sets) && lossless(*x.grouping_sets),
        ParseTree::BinaryExpression(x) => lossless(*x.left) && lossless(*x.operator) && lossless(*x.right),
        ParseTree::UnaryExpression(x) => lossless(*x.operator) && lossless(*x.operand),
        ParseTree::QuantifiedComparison(x) => lossless(*x.operand) && lossless(*x.operator) && lossless(*x.comparison_quantifier) && lossless(*x.open_paren) && lossless(*x.query) && lossless(*x.close_paren),
        ParseTree::NullPredicate(x) => lossless(*x.value) && lossless(*x.is) && lossless(*x.not_opt) && lossless(*x.null),
        ParseTree::DistinctFrom(x) => lossless(*x.left) && lossless(*x.is) && lossless(*x.not_opt) && lossless(*x.distinct) && lossless(*x.from) && lossless(*x.right),
        ParseTree::Between(x) => lossless(*x.value) && lossless(*x.not_opt) && lossless(*x.between) && lossless(*x.lower) && lossless(*x.and) && lossless(*x.upper),
        ParseTree::Like(x) => lossless(*x.value) && lossless(*x.not_opt) && lossless(*x.like) && lossless(*x.patrern) && lossless(*x.escape_opt) && lossless(*x.escape_value_opt),
        ParseTree::InSubquery(x) => lossless(*x.value) && lossless(*x.not_opt) && lossless(*x.in_) && lossless(*x.open_paren) && lossless(*x.query) && lossless(*x.close_paren),
        ParseTree::InList(x) => lossless(*x.value) && lossless(*x.not_opt) && lossless(*x.in_) && lossless(*x.expressions),
        ParseTree::AtTimeZone(x) => lossless(*x.value) && lossless(*x.at) && lossless(*x.time) && lossless(*x.zone) && lossless(*x.specifier),
        ParseTree::Dereference(x) => lossless(*x.object) && lossless(*x.period) && lossless(*x.field_name),
        ParseTree::Subscript(x) => lossless(*x.operand) && lossless(*x.open_square) && lossless(*x.index) && lossless(*x.close_square),
        ParseTree::Lambda(x) => lossless(*x.parameters) && lossless(*x.array) && lossless(*x.body),
        ParseTree::Literal(x) => lossless(*x.value),
        ParseTree::RowConstructor(x) => lossless(*x.elements),
        ParseTree::ParenthesizedExpression(x) => lossless(*x.open_paren) && lossless(*x.value) && lossless(*x.close_paren),
        ParseTree::Identifier(x) => lossless(*x.value),
        ParseTree::FunctionCall(x) => lossless(*x.name) && lossless(*x.open_paren) && lossless(*x.set_quantifier_opt) && lossless(*x.arguments) && lossless(*x.order_by_opt) && lossless(*x.close_paren) && lossless(*x.filter_opt) && lossless(*x.null_treatment_opt) && lossless(*x.over_opt),
        ParseTree::Filter(x) => lossless(*x.filter) && lossless(*x.open_paren) && lossless(*x.where_) && lossless(*x.predicate) && lossless(*x.close_paren),
        ParseTree::Over(x) => lossless(*x.over) && lossless(*x.open_paren) && lossless(*x.partition_opt) && lossless(*x.by) && lossless(*x.partitions) && lossless(*x.order_by_opt) && lossless(*x.window_frame) && lossless(*x.close_paren),
        ParseTree::WindowFrame(x) => lossless(*x.frame_type) && lossless(*x.between_opt) && lossless(*x.start) && lossless(*x.and) && lossless(*x.end),
        ParseTree::UnboundedFrame(x) => lossless(*x.unbounded) && lossless(*x.bound_type),
        ParseTree::CurrentRowBound(x) => lossless(*x.current) && lossless(*x.row),
        ParseTree::BoundedFrame(x) => lossless(*x.bound) && lossless(*x.bound_type),
        ParseTree::UnicodeString(x) => lossless(*x.string) && lossless(*x.uescape_opt) && lossless(*x.escape),
        ParseTree::ConfigureExpression(x) => lossless(*x.configure) && lossless(*x.open_paren) && lossless(*x.identifier) && lossless(*x.comma) && lossless(*x.value) && lossless(*x.close_paren),
        ParseTree::SubqueryExpression(x) => lossless(*x.open_paren) && lossless(*x.query) && lossless(*x.close_paren),
        ParseTree::Grouping(x) => lossless(*x.grouping) && lossless(*x.groups),
        ParseTree::Extract(x) => lossless(*x.extract) && lossless(*x.open_paren) && lossless(*x.identifier) && lossless(*x.from) && lossless(*x.value) && lossless(*x.close_paren),
        ParseTree::CurrentTime(x) => lossless(*x.current_time) && lossless(*x.open_paren) && lossless(*x.precision) && lossless(*x.close_paren),
        ParseTree::CurrentTimestamp(x) => lossless(*x.current_timestamp) && lossless(*x.open_paren) && lossless(*x.precision) && lossless(*x.close_paren),
        ParseTree::Normalize(x) => lossless(*x.normalize) && lossless(*x.open_paren) && lossless(*x.value) && lossless(*x.comma_opt) && lossless(*x.normal_form) && lossless(*x.close_paren),
        ParseTree::Localtime(x) => lossless(*x.localtime) && lossless(*x.open_paren) && lossless(*x.precision) && lossless(*x.close_paren),
        ParseTree::Localtimestamp(x) => lossless(*x.localtimestamp) && lossless(*x.open_paren) && lossless(*x.precision) && lossless(*x.close_paren),
        ParseTree::Cast(x) => lossless(*x.cast) && lossless(*x.open_paren) && lossless(*x.value) && lossless(*x.as_) && lossless(*x.type_) && lossless(*x.close_paren),
        ParseTree::WhenClause(x) => lossless(*x.when) && lossless(*x.condition) && lossless(*x.then_) && lossless(*x.result),
        ParseTree::Case(x) => lossless(*x.case) && lossless(*x.value_opt) && lossless(*x.when_clauses) && lossless(*x.else_opt) && lossless(*x.default) && lossless(*x.end),
        ParseTree::Exists(x) => lossless(*x.exists) && lossless(*x.open_paren) && lossless(*x.query) && lossless(*x.close_paren),
        ParseTree::TypeConstructor(x) => lossless(*x.type_) && lossless(*x.value),
        ParseTree::Array(x) => lossless(*x.array) && lossless(*x.elements),
        ParseTree::Interval(x) => lossless(*x.interval) && lossless(*x.sign_opt) && lossless(*x.value) && lossless(*x.from) && lossless(*x.to_kw_opt) && lossless(*x.to),
        ParseTree::Row(x) => lossless(*x.row) && lossless(*x.elements),
        ParseTree::TryCast(x) => lossless(*x.try_cast) && lossless(*x.open_paren) && lossless(*x.value) && lossless(*x.as_) && lossless(*x.type_) && lossless(*x.close_paren),
        ParseTree::Substring(x) => lossless(*x.substring) && lossless(*x.open_paren) && lossless(*x.value) && lossless(*x.from) && lossless(*x.from_value) && lossless(*x.for_opt) && lossless(*x.for_value) && lossless(*x.close_paren),
        ParseTree::Position(x) => lossless(*x.position) && lossless(*x.open_paren) && lossless(*x.value) && lossless(*x.in_) && lossless(*x.target) && lossless(*x.close_paren),
        ParseTree::ArrayTypeSuffix(x) => lossless(*x.base_type) && lossless(*x.array),
        ParseTree::NamedType(x) => lossless(*x.name) && lossless(*x.type_parameters),
        ParseTree::ArrayType(x) => lossless(*x.array) && lossless(*x.open_angle) && lossless(*x.element_type) && lossless(*x.close_angle),
        ParseTree::MapType(x) => lossless(*x.map) && lossless(*x.open_angle) && lossless(*x.key_type) && lossless(*x.comma) && lossless(*x.value_type) && lossless(*x.close_angle),
        ParseTree::RowType(x) => lossless(*x.row) && lossless(*x.element_types),
        ParseTree::RowTypeElement(x) => lossless(*x.identifier) && lossless(*x.type_),
        ParseTree::IntervalType(x) => lossless(*x.interval) && lossless(*x.from) && lossless(*x.to_kw) && lossless(*x.to),
        ParseTree::IfNotExists(x) => lossless(*x.if_) && lossless(*x.not) && lossless(*x.exists),
        ParseTree::CreateTable(x) => lossless(*x.create) && lossless(*x.table) && lossless(*x.if_not_exists_opt) && lossless(*x.table_name) && lossless(*x.table_elements) && lossless(*x.comment_opt) && lossless(*x.with_properties_opt),
        ParseTree::CreateView(x) => lossless(*x.create) && lossless(*x.or_opt) && lossless(*x.replace_opt) && lossless(*x.view) && lossless(*x.qualified_name) && lossless(*x.as_) && lossless(*x.query),
        ParseTree::CreateRole(x) => lossless(*x.create) && lossless(*x.role) && lossless(*x.name) && lossless(*x.with_admin_grantor_opt),
        ParseTree::WithAdminGrantor(x) => lossless(*x.with) && lossless(*x.admin) && lossless(*x.grantor),
        ParseTree::UserPrincipal(x) => lossless(*x.user) && lossless(*x.identifier),
        ParseTree::RolePrincipal(x) => lossless(*x.role) && lossless(*x.identifier),
        ParseTree::UnspecifiedPrincipal(x) => lossless(*x.identifier),
        ParseTree::CreateTableAsSelect(x) => lossless(*x.create) && lossless(*x.table) && lossless(*x.if_not_exists_opt) && lossless(*x.table_name) && lossless(*x.column_aliases_opt) && lossless(*x.comment_opt) && lossless(*x.with_properties_opt) && lossless(*x.as_) && lossless(*x.open_paren_opt) && lossless(*x.query) && lossless(*x.close_paren_opt) && lossless(*x.with_data_opt),
        ParseTree::WithProperties(x) => lossless(*x.with) && lossless(*x.properties),
        ParseTree::Property(x) => lossless(*x.identifier) && lossless(*x.eq) && lossless(*x.value),
        ParseTree::WithData(x) => lossless(*x.with) && lossless(*x.no_opt) && lossless(*x.data),
        ParseTree::Comment(x) => lossless(*x.comment) && lossless(*x.value),
        ParseTree::ColumnDefinition(x) => lossless(*x.identifier) && lossless(*x.type_) && lossless(*x.not_null_opt) && lossless(*x.comment_opt) && lossless(*x.with_properties_opt),
        ParseTree::NotNull(x) => lossless(*x.not) && lossless(*x.null),
        ParseTree::LikeClause(x) => lossless(*x.like) && lossless(*x.name) && lossless(*x.option_type_opt) && lossless(*x.properties),
        ParseTree::InsertInto(x) => lossless(*x.insert) && lossless(*x.into) && lossless(*x.table_name) && lossless(*x.column_aliases_opt) && lossless(*x.query),
        ParseTree::Delete(x) => lossless(*x.delete) && lossless(*x.from) && lossless(*x.table_name) && lossless(*x.where_opt) && lossless(*x.predicate),
        ParseTree::GroupingSet(x) => lossless(*x.elements),
        ParseTree::RelationOrQuery(x) => lossless(*x.open_paren) && lossless(*x.query_or_relation) && lossless(*x.close_paren),
        ParseTree::EmptyGroupingSet(x) => lossless(*x.open_paren) && lossless(*x.close_paren),
        ParseTree::ExpressionOrQuery(x) => lossless(*x.open_paren) && lossless(*x.expression_or_query) && lossless(*x.close_paren),
        ParseTree::Entrypoint(x) => lossless(*x.beginning_of_file) && lossless(*x.tree) && lossless(*x.end_of_file),
        ParseTree::NullTreatment(x) => lossless(*x.treatment) && lossless(*x.nulls),
    }
}

/// Every tree of a list's elements and separators is lossless.
pub open spec fn pairs_lossless<'a>(ps: Seq<(ParseTree<'a>, ParseTree<'a>)>) -> bool
    decreases ps,
{
    if ps.len() == 0 {
        true
    } else {
        pairs_lossless(ps.drop_last()) && lossless(ps.last().0) && lossless(ps.last().1)
    }
}

/// The children of a tree lie strictly within it.
#[verifier::spinoff_prover]
pub proof fn lemma_children_decrease<'a>(t: ParseTree<'a>)
    requires
        !is_leaf(t),
    ensures
        decreases_to!(t => first_child_of(t)),
        decreases_to!(t => last_child_of(t)),
        tree_wf(t) ==> tree_wf(first_child_of(t)) && tree_wf(last_child_of(t)),
{
    reveal_with_fuel(tree_wf, 1);
}

/// Where a tree starts: at its first token, or else where its first child starts.
#[verifier::spinoff_prover]
pub open spec fn start_of<'a>(t: ParseTree<'a>) -> position::Position
    decreases t,
{
    match t {
        ParseTree::Empty(x) => x.range.start,
        ParseTree::Error(x) => x.error.messages@[0].range.start,
        _ => if tokens_of(t).len() > 0 {
            tokens_of(t)[0].range.start
        } else if !is_leaf(t) {
            proof {
                lemma_children_decrease(t);
            }
            start_of(first_child_of(t))
        } else {
            position::spec_start()
        },
    }
}

/// Where a tree starts, including the leading comments of its first token.
pub open spec fn full_start_of<'a>(t: ParseTree<'a>) -> position::Position {
    match t {
        ParseTree::Empty(x) => x.range.start,
        ParseTree::Error(x) => x.error.messages@[0].range.start,
        _ => if tokens_of(t).len() > 0 {
            token::spec_full_start(tokens_of(t)[0])
        } else if !is_leaf(t) {
            start_of(first_child_of(t))
        } else {
            position::spec_start()
        },
    }
}

/// Where a tree ends: at its last token, or else where its last child ends.
#[verifier::spinoff_prover]
pub open spec fn end_of<'a>(t: ParseTree<'a>) -> position::Position
    decreases t,
{
    match t {
        ParseTree::Empty(x) => x.range.end,
        ParseTree::Error(x) => x.error.messages@[0].range.end,
        _ => if tokens_of(t).len() > 0 {
            tokens_of(t).last().range.end
        } else if !is_leaf(t) {
            proof {
                lemma_children_decrease(t);
            }
            end_of(last_child_of(t))
        } else {
            position::spec_start()
        },
    }
}

/// Where a tree ends, including the trailing comments of its last token.
#[verifier::spinoff_prover]
pub open spec fn full_end_of<'a>(t: ParseTree<'a>) -> position::Position
    decreases t,
{
    match t {
        ParseTree::Empty(x) => x.range.end,
        ParseTree::Error(x) => x.error.messages@[0].range.end,
        _ => if tokens_of(t).len() > 0 {
            token::spec_full_end(tokens_of(t).last())
        } else if !is_leaf(t) {
            proof {
                lemma_children_decrease(t);
            }
            full_end_of(last_child_of(t))
        } else {
            position::spec_start()
        },
    }
}

// The core trees
#[derive(Debug)]
pub struct Empty {
    pub range: TextRange,
}

pub fn empty<'a>(range: TextRange) -> (r: ParseTree<'a>)
    ensures
        r == ParseTree::<'a>::Empty(Empty { range }),
        tokens_of(r) == Seq::<token::Token<'a>>::empty(),
        tree_wf(r),
        lossless(r),
{
    proof {
        reveal_with_fuel(tokens_of, 1);
        reveal_with_fuel(tree_wf, 1);
        reveal_with_fuel(lossless, 1);
    }
    ParseTree::Empty(Empty { range })
}

impl Empty {
    pub fn children(&self) -> (r: Vec<&'static ParseTree<'static>>)
        ensures
            r@.len() == 0,
    {
        Vec::new()
    }
}

#[derive(Debug)]
pub struct Token<'a> {
    pub token: token::Token<'a>,
}

pub fn token<'a>(value: token::Token<'a>) -> (r: ParseTree<'a>)
    ensures
        r == ParseTree::Token(Token { token: value }),
        tokens_of(r) == seq![value],
        tree_wf(r) == errors_wf(value.errors@),
        lossless(r),
{
    proof {
        reveal_with_fuel(tokens_of, 1);
        reveal_with_fuel(tree_wf, 1);
        reveal_with_fuel(lossless, 1);
    }
    ParseTree::Token(Token { token: value })
}

impl<'a> Token<'a> {
    pub fn children(&self) -> (r: Vec<&ParseTree<'a>>)
        ensures
            r@.len() == 0,
    {
        Vec::new()
    }
}

#[derive(Debug)]
pub struct List<'a> {
    pub start_delimiter: Box<ParseTree<'a>>,
    pub elements_and_separators: Vec<(ParseTree<'a>, ParseTree<'a>)>,
    pub end_delimiter: Box<ParseTree<'a>>,
}

pub fn list<'a>(
    start_delimiter: ParseTree<'a>,
    elements_and_separators: Vec<(ParseTree<'a>, ParseTree<'a>)>,
    end_delimiter: ParseTree<'a>,
) -> (r: ParseTree<'a>)
    ensures
        r == ParseTree::List(
            List {
                start_delimiter: Box::new(start_delimiter),
                elements_and_separators,
                end_delimiter: Box::new(end_delimiter),
            },
        ),
        tokens_of(r) == tokens_of(start_delimiter) + pairs_tokens(elements_and_separators@)
            + tokens_of(end_delimiter),
        tree_wf(r) == (tree_wf(start_delimiter) && pairs_wf(elements_and_separators@) && tree_wf(
            end_delimiter,
        )),
        lossless(r) == (lossless(start_delimiter) && pairs_lossless(
            elements_and_separators@,
        ) && lossless(end_delimiter)),
{
    proof {
        reveal_with_fuel(tokens_of, 1);
        reveal_with_fuel(tree_wf, 1);
        reveal_with_fuel(lossless, 1);
    }
    ParseTree::List(
        List {
            start_delimiter: Box::new(start_delimiter),
            elements_and_separators,
            end_delimiter: Box::new(end_delimiter),
        },
    )
}

/// The tokens of a list split where its elements are split.
pub proof fn lemma_pairs_tokens_split<'a>(ps: Seq<(ParseTree<'a>, ParseTree<'a>)>, i: int)
    requires
        0 <= i <= ps.len(),
    ensures
        pairs_tokens(ps) == pairs_tokens(ps.take(i)) + pairs_tokens(ps.skip(i)),
    decreases ps.len(),
{
    reveal_with_fuel(tokens_of, 1);
    if i == ps.len() {
        assert(ps.take(i) =~= ps);
        assert(ps.skip(i) =~= Seq::<(ParseTree<'a>, ParseTree<'a>)>::empty());
        assert(pairs_tokens(ps) + Seq::empty() =~= pairs_tokens(ps));
    } else {
        lemma_pairs_tokens_split(ps.drop_last(), i);
        assert(ps.drop_last().take(i) =~= ps.take(i));
        assert(ps.skip(i).drop_last() =~= ps.drop_last().skip(i));
        assert(ps.skip(i).last() == ps.last());
        assert(pairs_tokens(ps) =~= pairs_tokens(ps.take(i)) + pairs_tokens(ps.skip(i)));
    }
}

/// The tokens of the first `i + 1` elements and separators of a list.
pub proof fn lemma_pairs_tokens_take<'a>(ps: Seq<(ParseTree<'a>, ParseTree<'a>)>, i: int)
    requires
        0 <= i < ps.len(),
    ensures
        pairs_tokens(ps.take(i + 1)) == pairs_tokens(ps.take(i)) + tokens_of(ps[i].0) + tokens_of(
            ps[i].1,
        ),
{
    reveal_with_fuel(tokens_of, 1);
    assert(ps.take(i + 1).drop_last() =~= ps.take(i));
}

/// The children of the first `i + 1` elements and separators of a list.
pub proof fn lemma_pair_children_take<'a>(ps: Seq<(ParseTree<'a>, ParseTree<'a>)>, i: int)
    requires
        0 <= i < ps.len(),
    ensures
        pair_children(ps.take(i + 1)) == pair_children(ps.take(i)) + seq![ps[i].0, ps[i].1],
{
    assert(ps.take(i + 1).drop_last() =~= ps.take(i));
}

impl<'a> List<'a> {
    pub fn len(&self) -> (r: usize)
        ensures
            r == self.elements_and_separators@.len(),
    {
        self.elements_and_separators.len()
    }

    pub fn unbox(self) -> (r: (ParseTree<'a>, Vec<(ParseTree<'a>, ParseTree<'a>)>, ParseTree<'a>))
        ensures
            r.0 == *self.start_delimiter,
            r.1 == self.elements_and_separators,
            r.2 == *self.end_delimiter,
    {
        (*self.start_delimiter, self.elements_and_separators, *self.end_delimiter)
    }

    pub fn children(&self) -> (r: Vec<&ParseTree<'a>>)
        ensures
            deref_seq(r@) == children_of(ParseTree::List(*self)),
    {
        let mut result: Vec<&ParseTree<'a>> = Vec::new();
        result.push(&*self.start_delimiter);
        let ghost ps = self.elements_and_separators@;
        let mut i: usize = 0;
        assert(deref_seq(result@) =~= seq![*self.start_delimiter] + pair_children(ps.take(0)));
        while i < self.elements_and_separators.len()
            invariant
                ps == self.elements_and_separators@,
                i <= ps.len(),
                deref_seq(result@) == seq![*self.start_delimiter] + pair_children(ps.take(i as int)),
            decreases ps.len() - i,
        {
            let pair = &self.elements_and_separators[i];
            let ghost before = result@;
            result.push(&pair.0);
            result.push(&pair.1);
            proof {
                lemma_pair_children_take(ps, i as int);
                assert(deref_seq(result@) =~= deref_seq(before) + seq![ps[i as int].0, ps[i as int].1]);
            }
            i += 1;
        }
        let ghost before = result@;
        result.push(&*self.end_delimiter);
        assert(ps.take(ps.len() as int) =~= ps);
        assert(deref_seq(result@) =~= deref_seq(before) + seq![*self.end_delimiter]);
        result
    }

    pub fn get_first_token(&self) -> (r: Option<&token::Token<'a>>)
        ensures
            deref_opt(r) == first_of(tokens_of(ParseTree::List(*self))),
        decreases *self, 0nat,
    {
        let ghost ps = self.elements_and_separators@;
        proof {
            reveal_with_fuel(tokens_of, 1);
            lemma_pairs_tokens_split(ps, 0);
            assert(ps.skip(0) =~= ps);
        }
        if let Some(token) = self.start_delimiter.get_first_token() {
            return Some(token);
        }
        let mut i: usize = 0;
        assert(ps.take(0) =~= Seq::<(ParseTree<'a>, ParseTree<'a>)>::empty());
        while i < self.elements_and_separators.len()
            invariant
                ps == self.elements_and_separators@,
                i <= ps.len(),
                tokens_of(*self.start_delimiter).len() == 0,
                pairs_tokens(ps.take(i as int)).len() == 0,
            decreases ps.len() - i,
        {
            let pair = &self.elements_and_separators[i];
            proof {
                reveal_with_fuel(tokens_of, 1);
                lemma_pairs_tokens_take(ps, i as int);
                lemma_pairs_tokens_split(ps, i + 1);
                assert(pairs_tokens(ps.take(i as int)) =~= Seq::<token::Token<'a>>::empty());
                assert(tokens_of(ParseTree::List(*self)) =~= tokens_of(ps[i as int].0) + tokens_of(
                    ps[i as int].1,
                ) + pairs_tokens(ps.skip(i + 1)) + tokens_of(*self.end_delimiter));
                assert(decreases_to!(*self => ps[i as int].0));
                assert(decreases_to!(*self => ps[i as int].1));
            }
            if let Some(token) = pair.0.get_first_token() {
                return Some(token);
            }
            if let Some(token) = pair.1.get_first_token() {
                return Some(token);
            }
            i += 1;
        }
        assert(ps.take(ps.len() as int) =~= ps);
        self.end_delimiter.get_first_token()
    }

    pub fn get_last_token(&self) -> (r: Option<&token::Token<'a>>)
        ensures
            deref_opt(r) == last_of(tokens_of(ParseTree::List(*self))),
        decreases *self, 0nat,
    {
        let ghost ps = self.elements_and_separators@;
        proof {
            reveal_with_fuel(tokens_of, 1);
        }
        if let Some(token) = self.end_delimiter.get_last_token() {
            return Some(token);
        }
        let mut i: usize = self.elements_and_separators.len();
        assert(ps.take(ps.len() as int) =~= ps);
        while i > 0
            invariant
                ps == self.elements_and_separators@,
                i <= ps.len(),
                tokens_of(*self.end_delimiter).len() == 0,
                pairs_tokens(ps.take(i as int)) == pairs_tokens(ps),
            decreases i,
        {
            let pair = &self.elements_and_separators[i - 1];
            proof {
                reveal_with_fuel(tokens_of, 1);
                lemma_pairs_tokens_take(ps, i - 1);
                assert(decreases_to!(*self => ps[i - 1].0));
                assert(decreases_to!(*self => ps[i - 1].1));
            }
            if let Some(token) = pair.1.get_last_token() {
                return Some(token);
            }
            if let Some(token) = pair.0.get_last_token() {
                return Some(token);
            }
            i -= 1;
        }
        assert(ps.take(0) =~= Seq::<(ParseTree<'a>, ParseTree<'a>)>::empty());
        self.start_delimiter.get_last_token()
    }
}

#[derive(Debug)]
pub struct Error {
    pub error: SyntaxError,
}

pub fn error<'a>(value: SyntaxError) -> (r: ParseTree<'a>)
    ensures
        r == ParseTree::<'a>::Error(Error { error: value }),
        tokens_of(r) == Seq::<token::Token<'a>>::empty(),
        tree_wf(r) == (value.messages@.len() > 0),
        !lossless(r),
{
    proof {
        reveal_with_fuel(tokens_of, 1);
        reveal_with_fuel(tree_wf, 1);
        reveal_with_fuel(lossless, 1);
    }
    ParseTree::Error(Error { error: value })
}

impl Error {
    pub fn children(&self) -> (r: Vec<&'static ParseTree<'static>>)
        ensures
            r@.len() == 0,
    {
        Vec::new()
    }
}

// core impl

impl<'a> ParseTree<'a> {
    pub fn unbox_list(self) -> (r: (
        ParseTree<'a>,
        Vec<(ParseTree<'a>, ParseTree<'a>)>,
        ParseTree<'a>,
    ))
        requires
            self is List,
        ensures
            self == ParseTree::List(
                List {
                    start_delimiter: Box::new(r.0),
                    elements_and_separators: r.1,
                    end_delimiter: Box::new(r.2),
                },
            ),
    {
        match self {
            ParseTree::List(value) => value.unbox(),
            _ => { proof { assert(false); } unreached() },
        }
    }

    // Note: Has poor performance O(tree depth)
    pub fn get_start(&self) -> (r: position::Position)
        requires
            tree_wf(*self),
        ensures
            r == start_of(*self),
        decreases *self,
    {
        match self {
            ParseTree::Empty(empty) => empty.range.start,
            ParseTree::Error(error) => {
                assert(error.error.messages@.len() > 0) by {
                    reveal_with_fuel(tree_wf, 1);
                }
                error.error.get_range().start
            },
            _ => match self.get_first_token() {
                Some(token) => token.range.start,
                // All children are empty or errors
                None => {
                    assert(!is_leaf(*self)) by {
                        reveal_with_fuel(tokens_of, 1);
                    }
                    proof {
                        lemma_children_decrease(*self);
                    }
                    self.get_first_child().get_start()
                },
            },
        }
    }

    // Note: Has poor performance O(tree depth)
    pub fn get_full_start(&self) -> (r: position::Position)
        requires
            tree_wf(*self),
        ensures
            r == full_start_of(*self),
    {
        match self {
            ParseTree::Empty(empty) => empty.range.start,
            ParseTree::Error(error) => {
                assert(error.error.messages@.len() > 0) by {
                    reveal_with_fuel(tree_wf, 1);
                }
                error.error.get_range().start
            },
            _ => match self.get_first_token() {
                Some(token) => token.full_start(),
                // All children are empty or errors
                None => {
                    assert(!is_leaf(*self)) by {
                        reveal_with_fuel(tokens_of, 1);
                    }
                    proof {
                        lemma_children_decrease(*self);
                    }
                    self.get_first_child().get_start()
                },
            },
        }
    }

    // Note: Has poor performance O(tree depth)
    pub fn get_end(&self) -> (r: position::Position)
        requires
            tree_wf(*self),
        ensures
            r == end_of(*self),
        decreases *self,
    {
        match self {
            ParseTree::Empty(empty) => empty.range.end,
            ParseTree::Error(error) => {
                assert(error.error.messages@.len() > 0) by {
                    reveal_with_fuel(tree_wf, 1);
                }
                error.error.get_range().end
            },
            _ => match self.get_last_token() {
                Some(token) => token.range.end,
                // All children are empty or errors
                None => {
                    assert(!is_leaf(*self)) by {
                        reveal_with_fuel(tokens_of, 1);
                    }
                    proof {
                        lemma_children_decrease(*self);
                    }
                    self.get_last_child().get_end()
                },
            },
        }
    }

    // Note: Has poor performance O(tree depth)
    pub fn get_full_end(&self) -> (r: position::Position)
        requires
            tree_wf(*self),
        ensures
            r == full_end_of(*self),
        decreases *self,
    {
        match self {
            ParseTree::Empty(empty) => empty.range.end,
            ParseTree::Error(error) => {
                assert(error.error.messages@.len() > 0) by {
                    reveal_with_fuel(tree_wf, 1);
                }
                error.error.get_range().end
            },
            _ => match self.get_last_token() {
                Some(token) => token.full_end(),
                // All children are empty or errors
                None => {
                    assert(!is_leaf(*self)) by {
                        reveal_with_fuel(tokens_of, 1);
                    }
                    proof {
                        lemma_children_decrease(*self);
                    }
                    self.get_last_child().get_full_end()
                },
            },
        }
    }

    // Note: Has poor performance O(tree depth)
    pub fn get_range(&self) -> (r: TextRange)
        requires
            tree_wf(*self),
            position_le(start_of(*self), end_of(*self)),
        ensures
            r == (TextRange { start: start_of(*self), end: end_of(*self) }),
    {
        proof {
            reveal_with_fuel(tokens_of, 1);
            reveal_with_fuel(tree_wf, 1);
        }
        TextRange::new(self.get_start(), self.get_end())
    }

    pub fn is_list(&self) -> (r: bool)
        ensures
            r == (*self is List),
    {
        if let ParseTree::List(_) = self {
            true
        } else {
            false
        }
    }

    pub fn as_list(&self) -> (r: &List<'a>)
        requires
            *self is List,
        ensures
            *self == ParseTree::List(*r),
    {
        if let ParseTree::List(value) = self {
            value
        } else {
            proof {
                assert(false);
            }
            unreached()
        }
    }

    pub fn is_empty(&self) -> (r: bool)
        ensures
            r == (*self is Empty),
    {
        if let ParseTree::Empty(_) = self {
            true
        } else {
            false
        }
    }

    pub fn as_empty(&self) -> (r: &Empty)
        requires
            *self is Empty,
        ensures
            *self == ParseTree::Empty(*r),
    {
        if let ParseTree::Empty(value) = self {
            value
        } else {
            proof {
                assert(false);
            }
            unreached()
        }
    }

    pub fn is_token(&self) -> (r: bool)
        ensures
            r == (*self is Token),
    {
        if let ParseTree::Token(_) = self {
            true
        } else {
            false
        }
    }

    pub fn as_token(&self) -> (r: &Token<'a>)
        requires
            *self is Token,
        ensures
            *self == ParseTree::Token(*r),
    {
        if let ParseTree::Token(value) = self {
            value
        } else {
            proof {
                assert(false);
            }
            unreached()
        }
    }

    pub fn is_error(&self) -> (r: bool)
        ensures
            r == (*self is Error),
    {
        if let ParseTree::Error(_) = self {
            true
        } else {
            false
        }
    }

    pub fn as_error(&self) -> (r: &Error)
        requires
            *self is Error,
        ensures
            *self == ParseTree::Error(*r),
    {
        if let ParseTree::Error(value) = self {
            value
        } else {
            proof {
                assert(false);
            }
            unreached()
        }
    }

    pub fn is_query(&self) -> (r: bool)
        ensures
            r == (*self is Query),
    {
        if let ParseTree::Query(_) = self {
            true
        } else {
            false
        }
    }

    pub fn as_query(&self) -> (r: &Query<'a>)
        requires
            *self is Query,
        ensures
            *self == ParseTree::Query(*r),
    {
        if let ParseTree::Query(value) = self {
            value
        } else {
            proof {
                assert(false);
            }
            unreached()
        }
    }

    pub fn unbox_query(self) -> (r: (ParseTree<'a>, ParseTree<'a>))
        requires
            self is Query,
        ensures
            self == ParseTree::Query(Query { with: Box::new(r.0), query_no_with: Box::new(r.1) }),
    {
        match self {
            ParseTree::Query(tree) => tree.unbox(),
            _ => {
                proof {
                    assert(false);
                }
                unreached()
            },
        }
    }

    pub fn is_with(&self) -> (r: bool)
        ensures
            r == (*self is With),
    {
        if let ParseTree::With(_) = self {
            true
        } else {
            false
        }
    }

    pub fn as_with(&self) -> (r: &With<'a>)
        requires
            *self is With,
        ensures
            *self == ParseTree::With(*r),
    {
        if let ParseTree::With(value) = self {
            value
        } else {
            proof {
                assert(false);
            }
            unreached()
        }
    }

    pub fn unbox_with(self) -> (r: (ParseTree<'a>, ParseTree<'a>, ParseTree<'a>))
        requires
            self is With,
        ensures
            self == ParseTree::With(With { with: Box::new(r.0), recursive: Box::new(r.1), named_queries: Box::new(r.2) }),
    {
        match self {
            ParseTree::With(tree) => tree.unbox(),
            _ => {
                proof {
                    assert(false);
                }
                unreached()
            },
        }
    }

    pub fn is_named_query(&self) -> (r: bool)
        ensures
            r == (*self is NamedQuery),
    {
        if let ParseTree::NamedQuery(_) = self {
            true
        } else {
            false
        }
    }

    pub fn as_named_query(&self) -> (r: &NamedQuery<'a>)
        requires
            *self is NamedQuery,
        ensures
            *self == ParseTree::NamedQuery(*r),
    {
        if let ParseTree::NamedQuery(value) = self {
            value
        } else {
            proof {
                assert(false);
            }
            unreached()
        }
    }

    pub fn unbox_named_query(self) -> (r: (ParseTree<'a>, ParseTree<'a>, ParseTree<'a>, ParseTree<'a>, ParseTree<'a>, ParseTree<'a>))
        requires
            self is NamedQuery,
        ensures
            self == ParseTree::NamedQuery(NamedQuery { name: Box::new(r.0), column_aliases_opt: Box::new(r.1), as_: Box::new(r.2), open_paren: Box::new(r.3), query: Box::new(r.4), close_paren: Box::new(r.5) }),
    {
        match self {
            ParseTree::NamedQuery(tree) => tree.unbox(),
            _ => {
                proof {
                    assert(false);
                }
                unreached()
            },
        }
    }

    pub fn is_query_no_with(&self) -> (r: bool)
        ensures
            r == (*self is QueryNoWith),
    {
        if let ParseTree::QueryNoWith(_) = self {
            true
        } else {
            false
        }
    }

    pub fn as_query_no_with(&self) -> (r: &QueryNoWith<'a>)
        requires
            *self is QueryNoWith,
        ensures
            *self == ParseTree::QueryNoWith(*r),
    {
        if let ParseTree::QueryNoWith(value) = self {
            value
        } else {
            proof {
                assert(false);
            }
            unreached()
        }
    }

    pub fn unbox_query_no_with(self) -> (r: (ParseTree<'a>, ParseTree<'a>, ParseTree<'a>))
        requires
            self is QueryNoWith,
        ensures
            self == ParseTree::QueryNoWith(QueryNoWith { query_term: Box::new(r.0), order_by_opt: Box::new(r.1), limit_opt: Box::new(r.2) }),
    {
        match self {
            ParseTree::QueryNoWith(tree) => tree.unbox(),
            _ => {
                proof {
                    assert(false);
                }
                unreached()
            },
        }
    }

    pub fn is_order_by(&self) -> (r: bool)
        ensures
            r == (*self is OrderBy),
    {
        if let ParseTree::OrderBy(_) = self {
            true
        } else {
            false
        }
    }

    pub fn as_order_by(&self) -> (r: &OrderBy<'a>)
        requires
            *self is OrderBy,
        ensures
            *self == ParseTree::OrderBy(*r),
    {
        if let ParseTree::OrderBy(value) = self {
            value
        } else {
            proof {
                assert(false);
            }
            unreached()
        }
    }

    pub fn unbox_order_by(self) -> (r: (ParseTree<'a>, ParseTree<'a>, ParseTree<'a>))
        requires
            self is OrderBy,
        ensures
            self == ParseTree::OrderBy(OrderBy { order: Box::new(r.0), by: Box::new(r.1), sort_items: Box::new(r.2) }),
    {
        match self {
            ParseTree::OrderBy(tree) => tree.unbox(),
            _ => {
                proof {
                    assert(false);
                }
                unreached()
            },
        }
    }

    pub fn is_limit(&self) -> (r: bool)
        ensures
            r == (*self is Limit),
    {
        if let ParseTree::Limit(_) = self {
            true
        } else {
            false
        }
    }

    pub fn as_limit(&self) -> (r: &Limit<'a>)
        requires
            *self is Limit,
        ensures
            *self == ParseTree::Limit(*r),
    {
        if let ParseTree::Limit(value) = self {
            value
        } else {
            proof {
                assert(false);
            }
            unreached()
        }
    }

    pub fn unbox_limit(self) -> (r: (ParseTree<'a>, ParseTree<'a>))
        requires
            self is Limit,
        ensures
            self == ParseTree::Limit(Limit { limit: Box::new(r.0), value: Box::new(r.1) }),
    {
        match self {
            ParseTree::Limit(tree) => tree.unbox(),
            _ => {
                proof {
                    assert(false);
                }
                unreached()
            },
        }
    }

    pub fn is_query_set_operation(&self) -> (r: bool)
        ensures
            r == (*self is QuerySetOperation),
    {
        if let ParseTree::QuerySetOperation(_) = self {
            true
        } else {
            false
        }
    }

    pub fn as_query_set_operation(&self) -> (r: &QuerySetOperation<'a>)
        requires
            *self is QuerySetOperation,
        ensures
            *self == ParseTree::QuerySetOperation(*r),
    {
        if let ParseTree::QuerySetOperation(value) = self {
            value
        } else {
            proof {
                assert(false);
            }
            unreached()
        }
    }

    pub fn unbox_query_set_operation(self) -> (r: (ParseTree<'a>, ParseTree<'a>, ParseTree<'a>, ParseTree<'a>))
        requires
            self is QuerySetOperation,
        ensures
            self == ParseTree::QuerySetOperation(QuerySetOperation { left: Box::new(r.0), operator: Box::new(r.1), set_quantifier_opt: Box::new(r.2), right: Box::new(r.3) }),
    {
        match self {
            ParseTree::QuerySetOperation(tree) => tree.unbox(),
            _ => {
                proof {
                    assert(false);
                }
                unreached()
            },
        }
    }

    pub fn is_sort_item(&self) -> (r: bool)
        ensures
            r == (*self is SortItem),
    {
        if let ParseTree::SortItem(_) = self {
            true
        } else {
            false
        }
    }

    pub fn as_sort_item(&self) -> (r: &SortItem<'a>)
        requires
            *self is SortItem,
        ensures
            *self == ParseTree::SortItem(*r),
    {
        if let ParseTree::SortItem(value) = self {
            value
        } else {
            proof {
                assert(false);
            }
            unreached()
        }
    }

    pub fn unbox_sort_item(self) -> (r: (ParseTree<'a>, ParseTree<'a>, ParseTree<'a>, ParseTree<'a>))
        requires
            self is SortItem,
        ensures
            self == ParseTree::SortItem(SortItem { expression: Box::new(r.0), ordering_opt: Box::new(r.1), nulls: Box::new(r.2), null_ordering_opt: Box::new(r.3) }),
    {
        match self {
            ParseTree::SortItem(tree) => tree.unbox(),
            _ => {
                proof {
                    assert(false);
                }
                unreached()
            },
        }
    }

    pub fn is_subquery(&self) -> (r: bool)
        ensures
            r == (*self is Subquery),
    {
        if let ParseTree::Subquery(_) = self {
            true
        } else {
            false
        }
    }

    pub fn as_subquery(&self) -> (r: &Subquery<'a>)
        requires
            *self is Subquery,
        ensures
            *self == ParseTree::Subquery(*r),
    {
        if let ParseTree::Subquery(value) = self {
            value
        } else {
            proof {
                assert(false);
            }
            unreached()
        }
    }

    pub fn unbox_subquery(self) -> (r: (ParseTree<'a>, ParseTree<'a>, ParseTree<'a>))
        requires
            self is Subquery,
        ensures
            self == ParseTree::Subquery(Subquery { open_paren: Box::new(r.0), query_no_with: Box::new(r.1), close_paren: Box::new(r.2) }),
    {
        match self {
            ParseTree::Subquery(tree) => tree.unbox(),
            _ => {
                proof {
                    assert(false);
                }
                unreached()
            },
        }
    }

    pub fn is_inline_table(&self) -> (r: bool)
        ensures
            r == (*self is InlineTable),
    {
        if let ParseTree::InlineTable(_) = self {
            true
        } else {
            false
        }
    }

    pub fn as_inline_table(&self) -> (r: &InlineTable<'a>)
        requires
            *self is InlineTable,
        ensures
            *self == ParseTree::InlineTable(*r),
    {
        if let ParseTree::InlineTable(value) = self {
            value
        } else {
            proof {
                assert(false);
            }
            unreached()
        }
    }

    pub fn unbox_inline_table(self) -> (r: (ParseTree<'a>, ParseTree<'a>))
        requires
            self is InlineTable,
        ensures
            self == ParseTree::InlineTable(InlineTable { values: Box::new(r.0), expressions: Box::new(r.1) }),
    {
        match self {
            ParseTree::InlineTable(tree) => tree.unbox(),
            _ => {
                proof {
                    assert(false);
                }
                unreached()
            },
        }
    }

    pub fn is_table(&self) -> (r: bool)
        ensures
            r == (*self is Table),
    {
        if let ParseTree::Table(_) = self {
            true
        } else {
            false
        }
    }

    pub fn as_table(&self) -> (r: &Table<'a>)
        requires
            *self is Table,
        ensures
            *self == ParseTree::Table(*r),
    {
        if let ParseTree::Table(value) = self {
            value
        } else {
            proof {
                assert(false);
            }
            unreached()
        }
    }

    pub fn unbox_table(self) -> (r: (ParseTree<'a>, ParseTree<'a>))
        requires
            self is Table,
        ensures
            self == ParseTree::Table(Table { table: Box::new(r.0), qualified_name: Box::new(r.1) }),
    {
        match self {
            ParseTree::Table(tree) => tree.unbox(),
            _ => {
                proof {
                    assert(false);
                }
                unreached()
            },
        }
    }

    pub fn is_query_specification(&self) -> (r: bool)
        ensures
            r == (*self is QuerySpecification),
    {
        if let ParseTree::QuerySpecification(_) = self {
            true
        } else {
            false
        }
    }

    pub fn as_query_specification(&self) -> (r: &QuerySpecification<'a>)
        requires
            *self is QuerySpecification,
        ensures
            *self == ParseTree::QuerySpecification(*r),
    {
        if let ParseTree::QuerySpecification(value) = self {
            value
        } else {
            proof {
                assert(false);
            }
            unreached()
        }
    }

    pub fn unbox_query_specification(self) -> (r: (ParseTree<'a>, ParseTree<'a>, ParseTree<'a>, ParseTree<'a>, ParseTree<'a>, ParseTree<'a>, ParseTree<'a>, ParseTree<'a>, ParseTree<'a>, ParseTree<'a>, ParseTree<'a>, ParseTree<'a>))
        requires
            self is QuerySpecification,
        ensures
            self == ParseTree::QuerySpecification(QuerySpecification { select: Box::new(r.0), set_quantifier_opt: Box::new(r.1), select_items: Box::new(r.2), from: Box::new(r.3), relations: Box::new(r.4), where_: Box::new(r.5), where_predicate: Box::new(r.6), group: Box::new(r.7), by: Box::new(r.8), group_by: Box::new(r.9), having: Box::new(r.10), having_predicate: Box::new(r.11) }),
    {
        match self {
            ParseTree::QuerySpecification(tree) => tree.unbox(),
            _ => {
                proof {
                    assert(false);
                }
                unreached()
            },
        }
    }

    pub fn is_qualified_name(&self) -> (r: bool)
        ensures
            r == (*self is QualifiedName),
    {
        if let ParseTree::QualifiedName(_) = self {
            true
        } else {
            false
        }
    }

    pub fn as_qualified_name(&self) -> (r: &QualifiedName<'a>)
        requires
            *self is QualifiedName,
        ensures
            *self == ParseTree::QualifiedName(*r),
    {
        if let ParseTree::QualifiedName(value) = self {
            value
        } else {
            proof {
                assert(false);
            }
            unreached()
        }
    }

    pub fn unbox_qualified_name(self) -> (r: (ParseTree<'a>,))
        requires
            self is QualifiedName,
        ensures
            self == ParseTree::QualifiedName(QualifiedName { names: Box::new(r.0) }),
    {
        match self {
            ParseTree::QualifiedName(tree) => tree.unbox(),
            _ => {
                proof {
                    assert(false);
                }
                unreached()
            },
        }
    }

    pub fn is_select_all(&self) -> (r: bool)
        ensures
            r == (*self is SelectAll),
    {
        if let ParseTree::SelectAll(_) = self {
            true
        } else {
            false
        }
    }

    pub fn as_select_all(&self) -> (r: &SelectAll<'a>)
        requires
            *self is SelectAll,
        ensures
            *self == ParseTree::SelectAll(*r),
    {
        if let ParseTree::SelectAll(value) = self {
            value
        } else {
            proof {
                assert(false);
            }
            unreached()
        }
    }

    pub fn unbox_select_all(self) -> (r: (ParseTree<'a>,))
        requires
            self is SelectAll,
        ensures
            self == ParseTree::SelectAll(SelectAll { asterisk: Box::new(r.0) }),
    {
        match self {
            ParseTree::SelectAll(tree) => tree.unbox(),
            _ => {
                proof {
                    assert(false);
                }
                unreached()
            },
        }
    }

    pub fn is_qualified_select_all(&self) -> (r: bool)
        ensures
            r == (*self is QualifiedSelectAll),
    {
        if let ParseTree::QualifiedSelectAll(_) = self {
            true
        } else {
            false
        }
    }

    pub fn as_qualified_select_all(&self) -> (r: &QualifiedSelectAll<'a>)
        requires
            *self is QualifiedSelectAll,
        ensures
            *self == ParseTree::QualifiedSelectAll(*r),
    {
        if let ParseTree::QualifiedSelectAll(value) = self {
            value
        } else {
            proof {
                assert(false);
            }
            unreached()
        }
    }

    pub fn unbox_qualified_select_all(self) -> (r: (ParseTree<'a>, ParseTree<'a>, ParseTree<'a>))
        requires
            self is QualifiedSelectAll,
        ensures
            self == ParseTree::QualifiedSelectAll(QualifiedSelectAll { qualifier: Box::new(r.0), period: Box::new(r.1), asterisk: Box::new(r.2) }),
    {
        match self {
            ParseTree::QualifiedSelectAll(tree) => tree.unbox(),
            _ => {
                proof {
                    assert(false);
                }
                unreached()
            },
        }
    }

    pub fn is_select_item(&self) -> (r: bool)
        ensures
            r == (*self is SelectItem),
    {
        if let ParseTree::SelectItem(_) = self {
            true
        } else {
            false
        }
    }

    pub fn as_select_item(&self) -> (r: &SelectItem<'a>)
        requires
            *self is SelectItem,
        ensures
            *self == ParseTree::SelectItem(*r),
    {
        if let ParseTree::SelectItem(value) = self {
            value
        } else {
            proof {
                assert(false);
            }
            unreached()
        }
    }

    pub fn unbox_select_item(self) -> (r: (ParseTree<'a>, ParseTree<'a>, ParseTree<'a>))
        requires
            self is SelectItem,
        ensures
            self == ParseTree::SelectItem(SelectItem { expression: Box::new(r.0), as_: Box::new(r.1), identifier: Box::new(r.2) }),
    {
        match self {
            ParseTree::SelectItem(tree) => tree.unbox(),
            _ => {
                proof {
                    assert(false);
                }
                unreached()
            },
        }
    }

    pub fn is_subquery_relation(&self) -> (r: bool)
        ensures
            r == (*self is SubqueryRelation),
    {
        if let ParseTree::SubqueryRelation(_) = self {
            true
        } else {
            false
        }
    }

    pub fn as_subquery_relation(&self) -> (r: &SubqueryRelation<'a>)
        requires
            *self is SubqueryRelation,
        ensures
            *self == ParseTree::SubqueryRelation(*r),
    {
        if let ParseTree::SubqueryRelation(value) = self {
            value
        } else {
            proof {
                assert(false);
            }
            unreached()
        }
    }

    pub fn unbox_subquery_relation(self) -> (r: (ParseTree<'a>, ParseTree<'a>, ParseTree<'a>))
        requires
            self is SubqueryRelation,
        ensures
            self == ParseTree::SubqueryRelation(SubqueryRelation { open_paren: Box::new(r.0), query: Box::new(r.1), close_paren: Box::new(r.2) }),
    {
        match self {
            ParseTree::SubqueryRelation(tree) => tree.unbox(),
            _ => {
                proof {
                    assert(false);
                }
                unreached()
            },
        }
    }

    pub fn is_parenthesized_relation(&self) -> (r: bool)
        ensures
            r == (*self is ParenthesizedRelation),
    {
        if let ParseTree::ParenthesizedRelation(_) = self {
            true
        } else {
            false
        }
    }

    pub fn as_parenthesized_relation(&self) -> (r: &ParenthesizedRelation<'a>)
        requires
            *self is ParenthesizedRelation,
        ensures
            *self == ParseTree::ParenthesizedRelation(*r),
    {
        if let ParseTree::ParenthesizedRelation(value) = self {
            value
        } else {
            proof {
                assert(false);
            }
            unreached()
        }
    }

    pub fn unbox_parenthesized_relation(self) -> (r: (ParseTree<'a>, ParseTree<'a>, ParseTree<'a>))
        requires
            self is ParenthesizedRelation,
        ensures
            self == ParseTree::ParenthesizedRelation(ParenthesizedRelation { open_paren: Box::new(r.0), relation: Box::new(r.1), close_paren: Box::new(r.2) }),
    {
        match self {
            ParseTree::ParenthesizedRelation(tree) => tree.unbox(),
            _ => {
                proof {
                    assert(false);
                }
                unreached()
            },
        }
    }

    pub fn is_table_name(&self) -> (r: bool)
        ensures
            r == (*self is TableName),
    {
        if let ParseTree::TableName(_) = self {
            true
        } else {
            false
        }
    }

    pub fn as_table_name(&self) -> (r: &TableName<'a>)
        requires
            *self is TableName,
        ensures
            *self == ParseTree::TableName(*r),
    {
        if let ParseTree::TableName(value) = self {
            value
        } else {
            proof {
                assert(false);
            }
            unreached()
        }
    }

    pub fn unbox_table_name(self) -> (r: (ParseTree<'a>,))
        requires
            self is TableName,
        ensures
            self == ParseTree::TableName(TableName { name: Box::new(r.0) }),
    {
        match self {
            ParseTree::TableName(tree) => tree.unbox(),
            _ => {
                proof {
                    assert(false);
                }
                unreached()
            },
        }
    }

    pub fn is_lateral(&self) -> (r: bool)
        ensures
            r == (*self is Lateral),
    {
        if let ParseTree::Lateral(_) = self {
            true
        } else {
            false
        }
    }

    pub fn as_lateral(&self) -> (r: &Lateral<'a>)
        requires
            *self is Lateral,
        ensures
            *self == ParseTree::Lateral(*r),
    {
        if let ParseTree::Lateral(value) = self {
            value
        } else {
            proof {
                assert(false);
            }
            unreached()
        }
    }

    pub fn unbox_lateral(self) -> (r: (ParseTree<'a>, ParseTree<'a>, ParseTree<'a>, ParseTree<'a>))
        requires
            self is Lateral,
        ensures
            self == ParseTree::Lateral(Lateral { lateral: Box::new(r.0), open_paren: Box::new(r.1), query: Box::new(r.2), close_paren: Box::new(r.3) }),
    {
        match self {
            ParseTree::Lateral(tree) => tree.unbox(),
            _ => {
                proof {
                    assert(false);
                }
                unreached()
            },
        }
    }

    pub fn is_unnest(&self) -> (r: bool)
        ensures
            r == (*self is Unnest),
    {
        if let ParseTree::Unnest(_) = self {
            true
        } else {
            false
        }
    }

    pub fn as_unnest(&self) -> (r: &Unnest<'a>)
        requires
            *self is Unnest,
        ensures
            *self == ParseTree::Unnest(*r),
    {
        if let ParseTree::Unnest(value) = self {
            value
        } else {
            proof {
                assert(false);
            }
            unreached()
        }
    }

    pub fn unbox_unnest(self) -> (r: (ParseTree<'a>, ParseTree<'a>, ParseTree<'a>, ParseTree<'a>))
        requires
            self is Unnest,
        ensures
            self == ParseTree::Unnest(Unnest { unnest: Box::new(r.0), expressions: Box::new(r.1), with: Box::new(r.2), ordinality: Box::new(r.3) }),
    {
        match self {
            ParseTree::Unnest(tree) => tree.unbox(),
            _ => {
                proof {
                    assert(false);
                }
                unreached()
            },
        }
    }

    pub fn is_sampled_relation(&self) -> (r: bool)
        ensures
            r == (*self is SampledRelation),
    {
        if let ParseTree::SampledRelation(_) = self {
            true
        } else {
            false
        }
    }

    pub fn as_sampled_relation(&self) -> (r: &SampledRelation<'a>)
        requires
            *self is SampledRelation,
        ensures
            *self == ParseTree::SampledRelation(*r),
    {
        if let ParseTree::SampledRelation(value) = self {
            value
        } else {
            proof {
                assert(false);
            }
            unreached()
        }
    }

    pub fn unbox_sampled_relation(self) -> (r: (ParseTree<'a>, ParseTree<'a>, ParseTree<'a>, ParseTree<'a>, ParseTree<'a>, ParseTree<'a>))
        requires
            self is SampledRelation,
        ensures
            self == ParseTree::SampledRelation(SampledRelation { aliased_relation: Box::new(r.0), tablesample: Box::new(r.1), sample_type: Box::new(r.2), open_paren: Box::new(r.3), expression: Box::new(r.4), close_paren: Box::new(r.5) }),
    {
        match self {
            ParseTree::SampledRelation(tree) => tree.unbox(),
            _ => {
                proof {
                    assert(false);
                }
                unreached()
            },
        }
    }

    pub fn is_aliased_relation(&self) -> (r: bool)
        ensures
            r == (*self is AliasedRelation),
    {
        if let ParseTree::AliasedRelation(_) = self {
            true
        } else {
            false
        }
    }

    pub fn as_aliased_relation(&self) -> (r: &AliasedRelation<'a>)
        requires
            *self is AliasedRelation,
        ensures
            *self == ParseTree::AliasedRelation(*r),
    {
        if let ParseTree::AliasedRelation(value) = self {
            value
        } else {
            proof {
                assert(false);
            }
            unreached()
        }
    }

    pub fn unbox_aliased_relation(self) -> (r: (ParseTree<'a>, ParseTree<'a>, ParseTree<'a>, ParseTree<'a>))
        requires
            self is AliasedRelation,
        ensures
            self == ParseTree::AliasedRelation(AliasedRelation { relation_primary: Box::new(r.0), as_opt: Box::new(r.1), identifier: Box::new(r.2), column_aliases_opt: Box::new(r.3) }),
    {
        match self {
            ParseTree::AliasedRelation(tree) => tree.unbox(),
            _ => {
                proof {
                    assert(false);
                }
                unreached()
            },
        }
    }

    pub fn is_cross_join(&self) -> (r: bool)
        ensures
            r == (*self is CrossJoin),
    {
        if let ParseTree::CrossJoin(_) = self {
            true
        } else {
            false
        }
    }

    pub fn as_cross_join(&self) -> (r: &CrossJoin<'a>)
        requires
            *self is CrossJoin,
        ensures
            *self == ParseTree::CrossJoin(*r),
    {
        if let ParseTree::CrossJoin(value) = self {
            value
        } else {
            proof {
                assert(false);
            }
            unreached()
        }
    }

    pub fn unbox_cross_join(self) -> (r: (ParseTree<'a>, ParseTree<'a>, ParseTree<'a>, ParseTree<'a>))
        requires
            self is CrossJoin,
        ensures
            self == ParseTree::CrossJoin(CrossJoin { left: Box::new(r.0), cross: Box::new(r.1), join: Box::new(r.2), right: Box::new(r.3) }),
    {
        match self {
            ParseTree::CrossJoin(tree) => tree.unbox(),
            _ => {
                proof {
                    assert(false);
                }
                unreached()
            },
        }
    }

    pub fn is_join(&self) -> (r: bool)
        ensures
            r == (*self is Join),
    {
        if let ParseTree::Join(_) = self {
            true
        } else {
            false
        }
    }

    pub fn as_join(&self) -> (r: &Join<'a>)
        requires
            *self is Join,
        ensures
            *self == ParseTree::Join(*r),
    {
        if let ParseTree::Join(value) = self {
            value
        } else {
            proof {
                assert(false);
            }
            unreached()
        }
    }

    pub fn unbox_join(self) -> (r: (ParseTree<'a>, ParseTree<'a>, ParseTree<'a>, ParseTree<'a>, ParseTree<'a>))
        requires
            self is Join,
        ensures
            self == ParseTree::Join(Join { left: Box::new(r.0), join_type: Box::new(r.1), join: Box::new(r.2), right: Box::new(r.3), join_criteria: Box::new(r.4) }),
    {
        match self {
            ParseTree::Join(tree) => tree.unbox(),
            _ => {
                proof {
                    assert(false);
                }
                unreached()
            },
        }
    }

    pub fn is_natural_join(&self) -> (r: bool)
        ensures
            r == (*self is NaturalJoin),
    {
        if let ParseTree::NaturalJoin(_) = self {
            true
        } else {
            false
        }
    }

    pub fn as_natural_join(&self) -> (r: &NaturalJoin<'a>)
        requires
            *self is NaturalJoin,
        ensures
            *self == ParseTree::NaturalJoin(*r),
    {
        if let ParseTree::NaturalJoin(value) = self {
            value
        } else {
            proof {
                assert(false);
            }
            unreached()
        }
    }

    pub fn unbox_natural_join(self) -> (r: (ParseTree<'a>, ParseTree<'a>, ParseTree<'a>, ParseTree<'a>, ParseTree<'a>))
        requires
            self is NaturalJoin,
        ensures
            self == ParseTree::NaturalJoin(NaturalJoin { left: Box::new(r.0), natural: Box::new(r.1), join_type: Box::new(r.2), join: Box::new(r.3), right: Box::new(r.4) }),
    {
        match self {
            ParseTree::NaturalJoin(tree) => tree.unbox(),
            _ => {
                proof {
                    assert(false);
                }
                unreached()
            },
        }
    }

    pub fn is_outer_join_kind(&self) -> (r: bool)
        ensures
            r == (*self is OuterJoinKind),
    {
        if let ParseTree::OuterJoinKind(_) = self {
            true
        } else {
            false
        }
    }

    pub fn as_outer_join_kind(&self) -> (r: &OuterJoinKind<'a>)
        requires
            *self is OuterJoinKind,
        ensures
            *self == ParseTree::OuterJoinKind(*r),
    {
        if let ParseTree::OuterJoinKind(value) = self {
            value
        } else {
            proof {
                assert(false);
            }
            unreached()
        }
    }

    pub fn unbox_outer_join_kind(self) -> (r: (ParseTree<'a>, ParseTree<'a>))
        requires
            self is OuterJoinKind,
        ensures
            self == ParseTree::OuterJoinKind(OuterJoinKind { kind: Box::new(r.0), outer_opt: Box::new(r.1) }),
    {
        match self {
            ParseTree::OuterJoinKind(tree) => tree.unbox(),
            _ => {
                proof {
                    assert(false);
                }
                unreached()
            },
        }
    }

    pub fn is_on_join_criteria(&self) -> (r: bool)
        ensures
            r == (*self is OnJoinCriteria),
    {
        if let ParseTree::OnJoinCriteria(_) = self {
            true
        } else {
            false
        }
    }

    pub fn as_on_join_criteria(&self) -> (r: &OnJoinCriteria<'a>)
        requires
            *self is OnJoinCriteria,
        ensures
            *self == ParseTree::OnJoinCriteria(*r),
    {
        if let ParseTree::OnJoinCriteria(value) = self {
            value
        } else {
            proof {
                assert(false);
            }
            unreached()
        }
    }

    pub fn unbox_on_join_criteria(self) -> (r: (ParseTree<'a>, ParseTree<'a>))
        requires
            self is OnJoinCriteria,
        ensures
            self == ParseTree::OnJoinCriteria(OnJoinCriteria { on: Box::new(r.0), predicate: Box::new(r.1) }),
    {
        match self {
            ParseTree::OnJoinCriteria(tree) => tree.unbox(),
            _ => {
                proof {
                    assert(false);
                }
                unreached()
            },
        }
    }

    pub fn is_using_join_criteria(&self) -> (r: bool)
        ensures
            r == (*self is UsingJoinCriteria),
    {
        if let ParseTree::UsingJoinCriteria(_) = self {
            true
        } else {
            false
        }
    }

    pub fn as_using_join_criteria(&self) -> (r: &UsingJoinCriteria<'a>)
        requires
            *self is UsingJoinCriteria,
        ensures
            *self == ParseTree::UsingJoinCriteria(*r),
    {
        if let ParseTree::UsingJoinCriteria(value) = self {
            value
        } else {
            proof {
                assert(false);
            }
            unreached()
        }
    }

    pub fn unbox_using_join_criteria(self) -> (r: (ParseTree<'a>, ParseTree<'a>))
        requires
            self is UsingJoinCriteria,
        ensures
            self == ParseTree::UsingJoinCriteria(UsingJoinCriteria { using: Box::new(r.0), names: Box::new(r.1) }),
    {
        match self {
            ParseTree::UsingJoinCriteria(tree) => tree.unbox(),
            _ => {
                proof {
                    assert(false);
                }
                unreached()
            },
        }
    }

    pub fn is_group_by(&self) -> (r: bool)
        ensures
            r == (*self is GroupBy),
    {
        if let ParseTree::GroupBy(_) = self {
            true
        } else {
            false
        }
    }

    pub fn as_group_by(&self) -> (r: &GroupBy<'a>)
        requires
            *self is GroupBy,
        ensures
            *self == ParseTree::GroupBy(*r),
    {
        if let ParseTree::GroupBy(value) = self {
            value
        } else {
            proof {
                assert(false);
            }
            unreached()
        }
    }

    pub fn unbox_group_by(self) -> (r: (ParseTree<'a>, ParseTree<'a>))
        requires
            self is GroupBy,
        ensures
            self == ParseTree::GroupBy(GroupBy { set_quantifier_opt: Box::new(r.0), grouping_elements: Box::new(r.1) }),
    {
        match self {
            ParseTree::GroupBy(tree) => tree.unbox(),
            _ => {
                proof {
                    assert(false);
                }
                unreached()
            },
        }
    }

    pub fn is_rollup(&self) -> (r: bool)
        ensures
            r == (*self is Rollup),
    {
        if let ParseTree::Rollup(_) = self {
            true
        } else {
            false
        }
    }

    pub fn as_rollup(&self) -> (r: &Rollup<'a>)
        requires
            *self is Rollup,
        ensures
            *self == ParseTree::Rollup(*r),
    {
        if let ParseTree::Rollup(value) = self {
            value
        } else {
            proof {
                assert(false);
            }
            unreached()
        }
    }

    pub fn unbox_rollup(self) -> (r: (ParseTree<'a>, ParseTree<'a>))
        requires
            self is Rollup,
        ensures
            self == ParseTree::Rollup(Rollup { rollup: Box::new(r.0), expressions: Box::new(r.1) }),
    {
        match self {
            ParseTree::Rollup(tree) => tree.unbox(),
            _ => {
                proof {
                    assert(false);
                }
                unreached()
            },
        }
    }

    pub fn is_cube(&self) -> (r: bool)
        ensures
            r == (*self is Cube),
    {
        if let ParseTree::Cube(_) = self {
            true
        } else {
            false
        }
    }

    pub fn as_cube(&self) -> (r: &Cube<'a>)
        requires
            *self is Cube,
        ensures
            *self == ParseTree::Cube(*r),
    {
        if let ParseTree::Cube(value) = self {
            value
        } else {
            proof {
                assert(false);
            }
            unreached()
        }
    }

    pub fn unbox_cube(self) -> (r: (ParseTree<'a>, ParseTree<'a>))
        requires
            self is Cube,
        ensures
            self == ParseTree::Cube(Cube { cube: Box::new(r.0), expressions: Box::new(r.1) }),
    {
        match self {
            ParseTree::Cube(tree) => tree.unbox(),
            _ => {
                proof {
                    assert(false);
                }
                unreached()
            },
        }
    }

    pub fn is_grouping_sets(&self) -> (r: bool)
        ensures
            r == (*self is GroupingSets),
    {
        if let ParseTree::GroupingSets(_) = self {
            true
        } else {
            false
        }
    }

    pub fn as_grouping_sets(&self) -> (r: &GroupingSets<'a>)
        requires
            *self is GroupingSets,
        ensures
            *self == ParseTree::GroupingSets(*r),
    {
        if let ParseTree::GroupingSets(value) = self {
            value
        } else {
            proof {
                assert(false);
            }
            unreached()
        }
    }

    pub fn unbox_grouping_sets(self) -> (r: (ParseTree<'a>, ParseTree<'a>, ParseTree<'a>))
        requires
            self is GroupingSets,
        ensures
            self == ParseTree::GroupingSets(GroupingSets { grouping: Box::new(r.0), sets: Box::new(r.1), grouping_sets: Box::new(r.2) }),
    {
        match self {
            ParseTree::GroupingSets(tree) => tree.unbox(),
            _ => {
                proof {
                    assert(false);
                }
                unreached()
            },
        }
    }

    pub fn is_binary_expression(&self) -> (r: bool)
        ensures
            r == (*self is BinaryExpression),
    {
        if let ParseTree::BinaryExpression(_) = self {
            true
        } else {
            false
        }
    }

    pub fn as_binary_expression(&self) -> (r: &BinaryExpression<'a>)
        requires
            *self is BinaryExpression,
        ensures
            *self == ParseTree::BinaryExpression(*r),
    {
        if let ParseTree::BinaryExpression(value) = self {
            value
        } else {
            proof {
                assert(false);
            }
            unreached()
        }
    }

    pub fn unbox_binary_expression(self) -> (r: (ParseTree<'a>, ParseTree<'a>, ParseTree<'a>))
        requires
            self is BinaryExpression,
        ensures
            self == ParseTree::BinaryExpression(BinaryExpression { left: Box::new(r.0), operator: Box::new(r.1), right: Box::new(r.2) }),
    {
        match self {
            ParseTree::BinaryExpression(tree) => tree.unbox(),
            _ => {
                proof {
                    assert(false);
                }
                unreached()
            },
        }
    }

    pub fn is_unary_expression(&self) -> (r: bool)
        ensures
            r == (*self is UnaryExpression),
    {
        if let ParseTree::UnaryExpression(_) = self {
            true
        } else {
            false
        }
    }

    pub fn as_unary_expression(&self) -> (r: &UnaryExpression<'a>)
        requires
            *self is UnaryExpression,
        ensures
            *self == ParseTree::UnaryExpression(*r),
    {
        if let ParseTree::UnaryExpression(value) = self {
            value
        } else {
            proof {
                assert(false);
            }
            unreached()
        }
    }

    pub fn unbox_unary_expression(self) -> (r: (ParseTree<'a>, ParseTree<'a>))
        requires
            self is UnaryExpression,
        ensures
            self == ParseTree::UnaryExpression(UnaryExpression { operator: Box::new(r.0), operand: Box::new(r.1) }),
    {
        match self {
            ParseTree::UnaryExpression(tree) => tree.unbox(),
            _ => {
                proof {
                    assert(false);
                }
                unreached()
            },
        }
    }

    pub fn is_quantified_comparison(&self) -> (r: bool)
        ensures
            r == (*self is QuantifiedComparison),
    {
        if let ParseTree::QuantifiedComparison(_) = self {
            true
        } else {
            false
        }
    }

    pub fn as_quantified_comparison(&self) -> (r: &QuantifiedComparison<'a>)
        requires
            *self is QuantifiedComparison,
        ensures
            *self == ParseTree::QuantifiedComparison(*r),
    {
        if let ParseTree::QuantifiedComparison(value) = self {
            value
        } else {
            proof {
                assert(false);
            }
            unreached()
        }
    }

    pub fn unbox_quantified_comparison(self) -> (r: (ParseTree<'a>, ParseTree<'a>, ParseTree<'a>, ParseTree<'a>, ParseTree<'a>, ParseTree<'a>))
        requires
            self is QuantifiedComparison,
        ensures
            self == ParseTree::QuantifiedComparison(QuantifiedComparison { operand: Box::new(r.0), operator: Box::new(r.1), comparison_quantifier: Box::new(r.2), open_paren: Box::new(r.3), query: Box::new(r.4), close_paren: Box::new(r.5) }),
    {
        match self {
            ParseTree::QuantifiedComparison(tree) => tree.unbox(),
            _ => {
                proof {
                    assert(false);
                }
                unreached()
            },
        }
    }

    pub fn is_null_predicate(&self) -> (r: bool)
        ensures
            r == (*self is NullPredicate),
    {
        if let ParseTree::NullPredicate(_) = self {
            true
        } else {
            false
        }
    }

    pub fn as_null_predicate(&self) -> (r: &NullPredicate<'a>)
        requires
            *self is NullPredicate,
        ensures
            *self == ParseTree::NullPredicate(*r),
    {
        if let ParseTree::NullPredicate(value) = self {
            value
        } else {
            proof {
                assert(false);
            }
            unreached()
        }
    }

    pub fn unbox_null_predicate(self) -> (r: (ParseTree<'a>, ParseTree<'a>, ParseTree<'a>, ParseTree<'a>))
        requires
            self is NullPredicate,
        ensures
            self == ParseTree::NullPredicate(NullPredicate { value: Box::new(r.0), is: Box::new(r.1), not_opt: Box::new(r.2), null: Box::new(r.3) }),
    {
        match self {
            ParseTree::NullPredicate(tree) => tree.unbox(),
            _ => {
                proof {
                    assert(false);
                }
                unreached()
            },
        }
    }

    pub fn is_distinct_from(&self) -> (r: bool)
        ensures
            r == (*self is DistinctFrom),
    {
        if let ParseTree::DistinctFrom(_) = self {
            true
        } else {
            false
        }
    }

    pub fn as_distinct_from(&self) -> (r: &DistinctFrom<'a>)
        requires
            *self is DistinctFrom,
        ensures
            *self == ParseTree::DistinctFrom(*r),
    {
        if let ParseTree::DistinctFrom(value) = self {
            value
        } else {
            proof {
                assert(false);
            }
            unreached()
        }
    }

    pub fn unbox_distinct_from(self) -> (r: (ParseTree<'a>, ParseTree<'a>, ParseTree<'a>, ParseTree<'a>, ParseTree<'a>, ParseTree<'a>))
        requires
            self is DistinctFrom,
        ensures
            self == ParseTree::DistinctFrom(DistinctFrom { left: Box::new(r.0), is: Box::new(r.1), not_opt: Box::new(r.2), distinct: Box::new(r.3), from: Box::new(r.4), right: Box::new(r.5) }),
    {
        match self {
            ParseTree::DistinctFrom(tree) => tree.unbox(),
            _ => {
                proof {
                    assert(false);
                }
                unreached()
            },
        }
    }

    pub fn is_between(&self) -> (r: bool)
        ensures
            r == (*self is Between),
    {
        if let ParseTree::Between(_) = self {
            true
        } else {
            false
        }
    }

    pub fn as_between(&self) -> (r: &Between<'a>)
        requires
            *self is Between,
        ensures
            *self == ParseTree::Between(*r),
    {
        if let ParseTree::Between(value) = self {
            value
        } else {
            proof {
                assert(false);
            }
            unreached()
        }
    }

    pub fn unbox_between(self) -> (r: (ParseTree<'a>, ParseTree<'a>, ParseTree<'a>, ParseTree<'a>, ParseTree<'a>, ParseTree<'a>))
        requires
            self is Between,
        ensures
            self == ParseTree::Between(Between { value: Box::new(r.0), not_opt: Box::new(r.1), between: Box::new(r.2), lower: Box::new(r.3), and: Box::new(r.4), upper: Box::new(r.5) }),
    {
        match self {
            ParseTree::Between(tree) => tree.unbox(),
            _ => {
                proof {
                    assert(false);
                }
                unreached()
            },
        }
    }

    pub fn is_like(&self) -> (r: bool)
        ensures
            r == (*self is Like),
    {
        if let ParseTree::Like(_) = self {
            true
        } else {
            false
        }
    }

    pub fn as_like(&self) -> (r: &Like<'a>)
        requires
            *self is Like,
        ensures
            *self == ParseTree::Like(*r),
    {
        if let ParseTree::Like(value) = self {
            value
        } else {
            proof {
                assert(false);
            }
            unreached()
        }
    }

    pub fn unbox_like(self) -> (r: (ParseTree<'a>, ParseTree<'a>, ParseTree<'a>, ParseTree<'a>, ParseTree<'a>, ParseTree<'a>))
        requires
            self is Like,
        ensures
            self == ParseTree::Like(Like { value: Box::new(r.0), not_opt: Box::new(r.1), like: Box::new(r.2), patrern: Box::new(r.3), escape_opt: Box::new(r.4), escape_value_opt: Box::new(r.5) }),
    {
        match self {
            ParseTree::Like(tree) => tree.unbox(),
            _ => {
                proof {
                    assert(false);
                }
                unreached()
            },
        }
    }

    pub fn is_in_subquery(&self) -> (r: bool)
        ensures
            r == (*self is InSubquery),
    {
        if let ParseTree::InSubquery(_) = self {
            true
        } else {
            false
        }
    }

    pub fn as_in_subquery(&self) -> (r: &InSubquery<'a>)
        requires
            *self is InSubquery,
        ensures
            *self == ParseTree::InSubquery(*r),
    {
        if let ParseTree::InSubquery(value) = self {
            value
        } else {
            proof {
                assert(false);
            }
            unreached()
        }
    }

    pub fn unbox_in_subquery(self) -> (r: (ParseTree<'a>, ParseTree<'a>, ParseTree<'a>, ParseTree<'a>, ParseTree<'a>, ParseTree<'a>))
        requires
            self is InSubquery,
        ensures
            self == ParseTree::InSubquery(InSubquery { value: Box::new(r.0), not_opt: Box::new(r.1), in_: Box::new(r.2), open_paren: Box::new(r.3), query: Box::new(r.4), close_paren: Box::new(r.5) }),
    {
        match self {
            ParseTree::InSubquery(tree) => tree.unbox(),
            _ => {
                proof {
                    assert(false);
                }
                unreached()
            },
        }
    }

    pub fn is_in_list(&self) -> (r: bool)
        ensures
            r == (*self is InList),
    {
        if let ParseTree::InList(_) = self {
            true
        } else {
            false
        }
    }

    pub fn as_in_list(&self) -> (r: &InList<'a>)
        requires
            *self is InList,
        ensures
            *self == ParseTree::InList(*r),
    {
        if let ParseTree::InList(value) = self {
            value
        } else {
            proof {
                assert(false);
            }
            unreached()
        }
    }

    pub fn unbox_in_list(self) -> (r: (ParseTree<'a>, ParseTree<'a>, ParseTree<'a>, ParseTree<'a>))
        requires
            self is InList,
        ensures
            self == ParseTree::InList(InList { value: Box::new(r.0), not_opt: Box::new(r.1), in_: Box::new(r.2), expressions: Box::new(r.3) }),
    {
        match self {
            ParseTree::InList(tree) => tree.unbox(),
            _ => {
                proof {
                    assert(false);
                }
                unreached()
            },
        }
    }

    pub fn is_at_time_zone(&self) -> (r: bool)
        ensures
            r == (*self is AtTimeZone),
    {
        if let ParseTree::AtTimeZone(_) = self {
            true
        } else {
            false
        }
    }

    pub fn as_at_time_zone(&self) -> (r: &AtTimeZone<'a>)
        requires
            *self is AtTimeZone,
        ensures
            *self == ParseTree::AtTimeZone(*r),
    {
        if let ParseTree::AtTimeZone(value) = self {
            value
        } else {
            proof {
                assert(false);
            }
            unreached()
        }
    }

    pub fn unbox_at_time_zone(self) -> (r: (ParseTree<'a>, ParseTree<'a>, ParseTree<'a>, ParseTree<'a>, ParseTree<'a>))
        requires
            self is AtTimeZone,
        ensures
            self == ParseTree::AtTimeZone(AtTimeZone { value: Box::new(r.0), at: Box::new(r.1), time: Box::new(r.2), zone: Box::new(r.3), specifier: Box::new(r.4) }),
    {
        match self {
            ParseTree::AtTimeZone(tree) => tree.unbox(),
            _ => {
                proof {
                    assert(false);
                }
                unreached()
            },
        }
    }

    pub fn is_dereference(&self) -> (r: bool)
        ensures
            r == (*self is Dereference),
    {
        if let ParseTree::Dereference(_) = self {
            true
        } else {
            false
        }
    }

    pub fn as_dereference(&self) -> (r: &Dereference<'a>)
        requires
            *self is Dereference,
        ensures
            *self == ParseTree::Dereference(*r),
    {
        if let ParseTree::Dereference(value) = self {
            value
        } else {
            proof {
                assert(false);
            }
            unreached()
        }
    }

    pub fn unbox_dereference(self) -> (r: (ParseTree<'a>, ParseTree<'a>, ParseTree<'a>))
        requires
            self is Dereference,
        ensures
            self == ParseTree::Dereference(Dereference { object: Box::new(r.0), period: Box::new(r.1), field_name: Box::new(r.2) }),
    {
        match self {
            ParseTree::Dereference(tree) => tree.unbox(),
            _ => {
                proof {
                    assert(false);
                }
                unreached()
            },
        }
    }

    pub fn is_subscript(&self) -> (r: bool)
        ensures
            r == (*self is Subscript),
    {
        if let ParseTree::Subscript(_) = self {
            true
        } else {
            false
        }
    }

    pub fn as_subscript(&self) -> (r: &Subscript<'a>)
        requires
            *self is Subscript,
        ensures
            *self == ParseTree::Subscript(*r),
    {
        if let ParseTree::Subscript(value) = self {
            value
        } else {
            proof {
                assert(false);
            }
            unreached()
        }
    }

    pub fn unbox_subscript(self) -> (r: (ParseTree<'a>, ParseTree<'a>, ParseTree<'a>, ParseTree<'a>))
        requires
            self is Subscript,
        ensures
            self == ParseTree::Subscript(Subscript { operand: Box::new(r.0), open_square: Box::new(r.1), index: Box::new(r.2), close_square: Box::new(r.3) }),
    {
        match self {
            ParseTree::Subscript(tree) => tree.unbox(),
            _ => {
                proof {
                    assert(false);
                }
                unreached()
            },
        }
    }

    pub fn is_lambda(&self) -> (r: bool)
        ensures
            r == (*self is Lambda),
    {
        if let ParseTree::Lambda(_) = self {
            true
        } else {
            false
        }
    }

    pub fn as_lambda(&self) -> (r: &Lambda<'a>)
        requires
            *self is Lambda,
        ensures
            *self == ParseTree::Lambda(*r),
    {
        if let ParseTree::Lambda(value) = self {
            value
        } else {
            proof {
                assert(false);
            }
            unreached()
        }
    }

    pub fn unbox_lambda(self) -> (r: (ParseTree<'a>, ParseTree<'a>, ParseTree<'a>))
        requires
            self is Lambda,
        ensures
            self == ParseTree::Lambda(Lambda { parameters: Box::new(r.0), array: Box::new(r.1), body: Box::new(r.2) }),
    {
        match self {
            ParseTree::Lambda(tree) => tree.unbox(),
            _ => {
                proof {
                    assert(false);
                }
                unreached()
            },
        }
    }

    pub fn is_literal(&self) -> (r: bool)
        ensures
            r == (*self is Literal),
    {
        if let ParseTree::Literal(_) = self {
            true
        } else {
            false
        }
    }

    pub fn as_literal(&self) -> (r: &Literal<'a>)
        requires
            *self is Literal,
        ensures
            *self == ParseTree::Literal(*r),
    {
        if let ParseTree::Literal(value) = self {
            value
        } else {
            proof {
                assert(false);
            }
            unreached()
        }
    }

    pub fn unbox_literal(self) -> (r: (ParseTree<'a>,))
        requires
            self is Literal,
        ensures
            self == ParseTree::Literal(Literal { value: Box::new(r.0) }),
    {
        match self {
            ParseTree::Literal(tree) => tree.unbox(),
            _ => {
                proof {
                    assert(false);
                }
                unreached()
            },
        }
    }

    pub fn is_row_constructor(&self) -> (r: bool)
        ensures
            r == (*self is RowConstructor),
    {
        if let ParseTree::RowConstructor(_) = self {
            true
        } else {
            false
        }
    }

    pub fn as_row_constructor(&self) -> (r: &RowConstructor<'a>)
        requires
            *self is RowConstructor,
        ensures
            *self == ParseTree::RowConstructor(*r),
    {
        if let ParseTree::RowConstructor(value) = self {
            value
        } else {
            proof {
                assert(false);
            }
            unreached()
        }
    }

    pub fn unbox_row_constructor(self) -> (r: (ParseTree<'a>,))
        requires
            self is RowConstructor,
        ensures
            self == ParseTree::RowConstructor(RowConstructor { elements: Box::new(r.0) }),
            tokens_of(self) == tokens_of(r.0),
            tree_wf(self) == (tree_wf(r.0)),
            lossless(self) == (lossless(r.0)),
    {
        proof {
            reveal_with_fuel(tokens_of, 1);
            reveal_with_fuel(tree_wf, 1);
            reveal_with_fuel(lossless, 1);
        }
        match self {
            ParseTree::RowConstructor(tree) => tree.unbox(),
            _ => {
                proof {
                    assert(false);
                }
                unreached()
            },
        }
    }

    pub fn is_parenthesized_expression(&self) -> (r: bool)
        ensures
            r == (*self is ParenthesizedExpression),
    {
        if let ParseTree::ParenthesizedExpression(_) = self {
            true
        } else {
            false
        }
    }

    pub fn as_parenthesized_expression(&self) -> (r: &ParenthesizedExpression<'a>)
        requires
            *self is ParenthesizedExpression,
        ensures
            *self == ParseTree::ParenthesizedExpression(*r),
    {
        if let ParseTree::ParenthesizedExpression(value) = self {
            value
        } else {
            proof {
                assert(false);
            }
            unreached()
        }
    }

    pub fn unbox_parenthesized_expression(self) -> (r: (ParseTree<'a>, ParseTree<'a>, ParseTree<'a>))
        requires
            self is ParenthesizedExpression,
        ensures
            self == ParseTree::ParenthesizedExpression(ParenthesizedExpression { open_paren: Box::new(r.0), value: Box::new(r.1), close_paren: Box::new(r.2) }),
            tokens_of(self) == tokens_of(r.0) + tokens_of(r.1) + tokens_of(r.2),
            tree_wf(self) == (tree_wf(r.0) && tree_wf(r.1) && tree_wf(r.2)),
            lossless(self) == (lossless(r.0) && lossless(r.1) && lossless(r.2)),
    {
        proof {
            reveal_with_fuel(tokens_of, 1);
            reveal_with_fuel(tree_wf, 1);
            reveal_with_fuel(lossless, 1);
        }
        match self {
            ParseTree::ParenthesizedExpression(tree) => tree.unbox(),
            _ => {
                proof {
                    assert(false);
                }
                unreached()
            },
        }
    }

    pub fn is_identifier(&self) -> (r: bool)
        ensures
            r == (*self is Identifier),
    {
        if let ParseTree::Identifier(_) = self {
            true
        } else {
            false
        }
    }

    pub fn as_identifier(&self) -> (r: &Identifier<'a>)
        requires
            *self is Identifier,
        ensures
            *self == ParseTree::Identifier(*r),
    {
        if let ParseTree::Identifier(value) = self {
            value
        } else {
            proof {
                assert(false);
            }
            unreached()
        }
    }

    pub fn unbox_identifier(self) -> (r: (ParseTree<'a>,))
        requires
            self is Identifier,
        ensures
            self == ParseTree::Identifier(Identifier { value: Box::new(r.0) }),
    {
        match self {
            ParseTree::Identifier(tree) => tree.unbox(),
            _ => {
                proof {
                    assert(false);
                }
                unreached()
            },
        }
    }

    pub fn is_function_call(&self) -> (r: bool)
        ensures
            r == (*self is FunctionCall),
    {
        if let ParseTree::FunctionCall(_) = self {
            true
        } else {
            false
        }
    }

    pub fn as_function_call(&self) -> (r: &FunctionCall<'a>)
        requires
            *self is FunctionCall,
        ensures
            *self == ParseTree::FunctionCall(*r),
    {
        if let ParseTree::FunctionCall(value) = self {
            value
        } else {
            proof {
                assert(false);
            }
            unreached()
        }
    }

    pub fn unbox_function_call(self) -> (r: (ParseTree<'a>, ParseTree<'a>, ParseTree<'a>, ParseTree<'a>, ParseTree<'a>, ParseTree<'a>, ParseTree<'a>, ParseTree<'a>, ParseTree<'a>))
        requires
            self is FunctionCall,
        ensures
            self == ParseTree::FunctionCall(FunctionCall { name: Box::new(r.0), open_paren: Box::new(r.1), set_quantifier_opt: Box::new(r.2), arguments: Box::new(r.3), order_by_opt: Box::new(r.4), close_paren: Box::new(r.5), filter_opt: Box::new(r.6), null_treatment_opt: Box::new(r.7), over_opt: Box::new(r.8) }),
    {
        match self {
            ParseTree::FunctionCall(tree) => tree.unbox(),
            _ => {
                proof {
                    assert(false);
                }
                unreached()
            },
        }
    }

    pub fn is_filter(&self) -> (r: bool)
        ensures
            r == (*self is Filter),
    {
        if let ParseTree::Filter(_) = self {
            true
        } else {
            false
        }
    }

    pub fn as_filter(&self) -> (r: &Filter<'a>)
        requires
            *self is Filter,
        ensures
            *self == ParseTree::Filter(*r),
    {
        if let ParseTree::Filter(value) = self {
            value
        } else {
            proof {
                assert(false);
            }
            unreached()
        }
    }

    pub fn unbox_filter(self) -> (r: (ParseTree<'a>, ParseTree<'a>, ParseTree<'a>, ParseTree<'a>, ParseTree<'a>))
        requires
            self is Filter,
        ensures
            self == ParseTree::Filter(Filter { filter: Box::new(r.0), open_paren: Box::new(r.1), where_: Box::new(r.2), predicate: Box::new(r.3), close_paren: Box::new(r.4) }),
    {
        match self {
            ParseTree::Filter(tree) => tree.unbox(),
            _ => {
                proof {
                    assert(false);
                }
                unreached()
            },
        }
    }

    pub fn is_over(&self) -> (r: bool)
        ensures
            r == (*self is Over),
    {
        if let ParseTree::Over(_) = self {
            true
        } else {
            false
        }
    }

    pub fn as_over(&self) -> (r: &Over<'a>)
        requires
            *self is Over,
        ensures
            *self == ParseTree::Over(*r),
    {
        if let ParseTree::Over(value) = self {
            value
        } else {
            proof {
                assert(false);
            }
            unreached()
        }
    }

    pub fn unbox_over(self) -> (r: (ParseTree<'a>, ParseTree<'a>, ParseTree<'a>, ParseTree<'a>, ParseTree<'a>, ParseTree<'a>, ParseTree<'a>, ParseTree<'a>))
        requires
            self is Over,
        ensures
            self == ParseTree::Over(Over { over: Box::new(r.0), open_paren: Box::new(r.1), partition_opt: Box::new(r.2), by: Box::new(r.3), partitions: Box::new(r.4), order_by_opt: Box::new(r.5), window_frame: Box::new(r.6), close_paren: Box::new(r.7) }),
    {
        match self {
            ParseTree::Over(tree) => tree.unbox(),
            _ => {
                proof {
                    assert(false);
                }
                unreached()
            },
        }
    }

    pub fn is_window_frame(&self) -> (r: bool)
        ensures
            r == (*self is WindowFrame),
    {
        if let ParseTree::WindowFrame(_) = self {
            true
        } else {
            false
        }
    }

    pub fn as_window_frame(&self) -> (r: &WindowFrame<'a>)
        requires
            *self is WindowFrame,
        ensures
            *self == ParseTree::WindowFrame(*r),
    {
        if let ParseTree::WindowFrame(value) = self {
            value
        } else {
            proof {
                assert(false);
            }
            unreached()
        }
    }

    pub fn unbox_window_frame(self) -> (r: (ParseTree<'a>, ParseTree<'a>, ParseTree<'a>, ParseTree<'a>, ParseTree<'a>))
        requires
            self is WindowFrame,
        ensures
            self == ParseTree::WindowFrame(WindowFrame { frame_type: Box::new(r.0), between_opt: Box::new(r.1), start: Box::new(r.2), and: Box::new(r.3), end: Box::new(r.4) }),
    {
        match self {
            ParseTree::WindowFrame(tree) => tree.unbox(),
            _ => {
                proof {
                    assert(false);
                }
                unreached()
            },
        }
    }

    pub fn is_unbounded_frame(&self) -> (r: bool)
        ensures
            r == (*self is UnboundedFrame),
    {
        if let ParseTree::UnboundedFrame(_) = self {
            true
        } else {
            false
        }
    }

    pub fn as_unbounded_frame(&self) -> (r: &UnboundedFrame<'a>)
        requires
            *self is UnboundedFrame,
        ensures
            *self == ParseTree::UnboundedFrame(*r),
    {
        if let ParseTree::UnboundedFrame(value) = self {
            value
        } else {
            proof {
                assert(false);
            }
            unreached()
        }
    }

    pub fn unbox_unbounded_frame(self) -> (r: (ParseTree<'a>, ParseTree<'a>))
        requires
            self is UnboundedFrame,
        ensures
            self == ParseTree::UnboundedFrame(UnboundedFrame { unbounded: Box::new(r.0), bound_type: Box::new(r.1) }),
    {
        match self {
            ParseTree::UnboundedFrame(tree) => tree.unbox(),
            _ => {
                proof {
                    assert(false);
                }
                unreached()
            },
        }
    }

    pub fn is_current_row_bound(&self) -> (r: bool)
        ensures
            r == (*self is CurrentRowBound),
    {
        if let ParseTree::CurrentRowBound(_) = self {
            true
        } else {
            false
        }
    }

    pub fn as_current_row_bound(&self) -> (r: &CurrentRowBound<'a>)
        requires
            *self is CurrentRowBound,
        ensures
            *self == ParseTree::CurrentRowBound(*r),
    {
        if let ParseTree::CurrentRowBound(value) = self {
            value
        } else {
            proof {
                assert(false);
            }
            unreached()
        }
    }

    pub fn unbox_current_row_bound(self) -> (r: (ParseTree<'a>, ParseTree<'a>))
        requires
            self is CurrentRowBound,
        ensures
            self == ParseTree::CurrentRowBound(CurrentRowBound { current: Box::new(r.0), row: Box::new(r.1) }),
    {
        match self {
            ParseTree::CurrentRowBound(tree) => tree.unbox(),
            _ => {
                proof {
                    assert(false);
                }
                unreached()
            },
        }
    }

    pub fn is_bounded_frame(&self) -> (r: bool)
        ensures
            r == (*self is BoundedFrame),
    {
        if let ParseTree::BoundedFrame(_) = self {
            true
        } else {
            false
        }
    }

    pub fn as_bounded_frame(&self) -> (r: &BoundedFrame<'a>)
        requires
            *self is BoundedFrame,
        ensures
            *self == ParseTree::BoundedFrame(*r),
    {
        if let ParseTree::BoundedFrame(value) = self {
            value
        } else {
            proof {
                assert(false);
            }
            unreached()
        }
    }

    pub fn unbox_bounded_frame(self) -> (r: (ParseTree<'a>, ParseTree<'a>))
        requires
            self is BoundedFrame,
        ensures
            self == ParseTree::BoundedFrame(BoundedFrame { bound: Box::new(r.0), bound_type: Box::new(r.1) }),
    {
        match self {
            ParseTree::BoundedFrame(tree) => tree.unbox(),
            _ => {
                proof {
                    assert(false);
                }
                unreached()
            },
        }
    }

    pub fn is_unicode_string(&self) -> (r: bool)
        ensures
            r == (*self is UnicodeString),
    {
        if let ParseTree::UnicodeString(_) = self {
            true
        } else {
            false
        }
    }

    pub fn as_unicode_string(&self) -> (r: &UnicodeString<'a>)
        requires
            *self is UnicodeString,
        ensures
            *self == ParseTree::UnicodeString(*r),
    {
        if let ParseTree::UnicodeString(value) = self {
            value
        } else {
            proof {
                assert(false);
            }
            unreached()
        }
    }

    pub fn unbox_unicode_string(self) -> (r: (ParseTree<'a>, ParseTree<'a>, ParseTree<'a>))
        requires
            self is UnicodeString,
        ensures
            self == ParseTree::UnicodeString(UnicodeString { string: Box::new(r.0), uescape_opt: Box::new(r.1), escape: Box::new(r.2) }),
    {
        match self {
            ParseTree::UnicodeString(tree) => tree.unbox(),
            _ => {
                proof {
                    assert(false);
                }
                unreached()
            },
        }
    }

    pub fn is_configure_expression(&self) -> (r: bool)
        ensures
            r == (*self is ConfigureExpression),
    {
        if let ParseTree::ConfigureExpression(_) = self {
            true
        } else {
            false
        }
    }

    pub fn as_configure_expression(&self) -> (r: &ConfigureExpression<'a>)
        requires
            *self is ConfigureExpression,
        ensures
            *self == ParseTree::ConfigureExpression(*r),
    {
        if let ParseTree::ConfigureExpression(value) = self {
            value
        } else {
            proof {
                assert(false);
            }
            unreached()
        }
    }

    pub fn unbox_configure_expression(self) -> (r: (ParseTree<'a>, ParseTree<'a>, ParseTree<'a>, ParseTree<'a>, ParseTree<'a>, ParseTree<'a>))
        requires
            self is ConfigureExpression,
        ensures
            self == ParseTree::ConfigureExpression(ConfigureExpression { configure: Box::new(r.0), open_paren: Box::new(r.1), identifier: Box::new(r.2), comma: Box::new(r.3), value: Box::new(r.4), close_paren: Box::new(r.5) }),
    {
        match self {
            ParseTree::ConfigureExpression(tree) => tree.unbox(),
            _ => {
                proof {
                    assert(false);
                }
                unreached()
            },
        }
    }

    pub fn is_subquery_expression(&self) -> (r: bool)
        ensures
            r == (*self is SubqueryExpression),
    {
        if let ParseTree::SubqueryExpression(_) = self {
            true
        } else {
            false
        }
    }

    pub fn as_subquery_expression(&self) -> (r: &SubqueryExpression<'a>)
        requires
            *self is SubqueryExpression,
        ensures
            *self == ParseTree::SubqueryExpression(*r),
    {
        if let ParseTree::SubqueryExpression(value) = self {
            value
        } else {
            proof {
                assert(false);
            }
            unreached()
        }
    }

    pub fn unbox_subquery_expression(self) -> (r: (ParseTree<'a>, ParseTree<'a>, ParseTree<'a>))
        requires
            self is SubqueryExpression,
        ensures
            self == ParseTree::SubqueryExpression(SubqueryExpression { open_paren: Box::new(r.0), query: Box::new(r.1), close_paren: Box::new(r.2) }),
            tokens_of(self) == tokens_of(r.0) + tokens_of(r.1) + tokens_of(r.2),
            tree_wf(self) == (tree_wf(r.0) && tree_wf(r.1) && tree_wf(r.2)),
            lossless(self) == (lossless(r.0) && lossless(r.1) && lossless(r.2)),
    {
        proof {
            reveal_with_fuel(tokens_of, 1);
            reveal_with_fuel(tree_wf, 1);
            reveal_with_fuel(lossless, 1);
        }
        match self {
            ParseTree::SubqueryExpression(tree) => tree.unbox(),
            _ => {
                proof {
                    assert(false);
                }
                unreached()
            },
        }
    }

    pub fn is_grouping(&self) -> (r: bool)
        ensures
            r == (*self is Grouping),
    {
        if let ParseTree::Grouping(_) = self {
            true
        } else {
            false
        }
    }

    pub fn as_grouping(&self) -> (r: &Grouping<'a>)
        requires
            *self is Grouping,
        ensures
            *self == ParseTree::Grouping(*r),
    {
        if let ParseTree::Grouping(value) = self {
            value
        } else {
            proof {
                assert(false);
            }
            unreached()
        }
    }

    pub fn unbox_grouping(self) -> (r: (ParseTree<'a>, ParseTree<'a>))
        requires
            self is Grouping,
        ensures
            self == ParseTree::Grouping(Grouping { grouping: Box::new(r.0), groups: Box::new(r.1) }),
    {
        match self {
            ParseTree::Grouping(tree) => tree.unbox(),
            _ => {
                proof {
                    assert(false);
                }
                unreached()
            },
        }
    }

    pub fn is_extract(&self) -> (r: bool)
        ensures
            r == (*self is Extract),
    {
        if let ParseTree::Extract(_) = self {
            true
        } else {
            false
        }
    }

    pub fn as_extract(&self) -> (r: &Extract<'a>)
        requires
            *self is Extract,
        ensures
            *self == ParseTree::Extract(*r),
    {
        if let ParseTree::Extract(value) = self {
            value
        } else {
            proof {
                assert(false);
            }
            unreached()
        }
    }

    pub fn unbox_extract(self) -> (r: (ParseTree<'a>, ParseTree<'a>, ParseTree<'a>, ParseTree<'a>, ParseTree<'a>, ParseTree<'a>))
        requires
            self is Extract,
        ensures
            self == ParseTree::Extract(Extract { extract: Box::new(r.0), open_paren: Box::new(r.1), identifier: Box::new(r.2), from: Box::new(r.3), value: Box::new(r.4), close_paren: Box::new(r.5) }),
    {
        match self {
            ParseTree::Extract(tree) => tree.unbox(),
            _ => {
                proof {
                    assert(false);
                }
                unreached()
            },
        }
    }

    pub fn is_current_time(&self) -> (r: bool)
        ensures
            r == (*self is CurrentTime),
    {
        if let ParseTree::CurrentTime(_) = self {
            true
        } else {
            false
        }
    }

    pub fn as_current_time(&self) -> (r: &CurrentTime<'a>)
        requires
            *self is CurrentTime,
        ensures
            *self == ParseTree::CurrentTime(*r),
    {
        if let ParseTree::CurrentTime(value) = self {
            value
        } else {
            proof {
                assert(false);
            }
            unreached()
        }
    }

    pub fn unbox_current_time(self) -> (r: (ParseTree<'a>, ParseTree<'a>, ParseTree<'a>, ParseTree<'a>))
        requires
            self is CurrentTime,
        ensures
            self == ParseTree::CurrentTime(CurrentTime { current_time: Box::new(r.0), open_paren: Box::new(r.1), precision: Box::new(r.2), close_paren: Box::new(r.3) }),
    {
        match self {
            ParseTree::CurrentTime(tree) => tree.unbox(),
            _ => {
                proof {
                    assert(false);
                }
                unreached()
            },
        }
    }

    pub fn is_current_timestamp(&self) -> (r: bool)
        ensures
            r == (*self is CurrentTimestamp),
    {
        if let ParseTree::CurrentTimestamp(_) = self {
            true
        } else {
            false
        }
    }

    pub fn as_current_timestamp(&self) -> (r: &CurrentTimestamp<'a>)
        requires
            *self is CurrentTimestamp,
        ensures
            *self == ParseTree::CurrentTimestamp(*r),
    {
        if let ParseTree::CurrentTimestamp(value) = self {
            value
        } else {
            proof {
                assert(false);
            }
            unreached()
        }
    }

    pub fn unbox_current_timestamp(self) -> (r: (ParseTree<'a>, ParseTree<'a>, ParseTree<'a>, ParseTree<'a>))
        requires
            self is CurrentTimestamp,
        ensures
            self == ParseTree::CurrentTimestamp(CurrentTimestamp { current_timestamp: Box::new(r.0), open_paren: Box::new(r.1), precision: Box::new(r.2), close_paren: Box::new(r.3) }),
    {
        match self {
            ParseTree::CurrentTimestamp(tree) => tree.unbox(),
            _ => {
                proof {
                    assert(false);
                }
                unreached()
            },
        }
    }

    pub fn is_normalize(&self) -> (r: bool)
        ensures
            r == (*self is Normalize),
    {
        if let ParseTree::Normalize(_) = self {
            true
        } else {
            false
        }
    }

    pub fn as_normalize(&self) -> (r: &Normalize<'a>)
        requires
            *self is Normalize,
        ensures
            *self == ParseTree::Normalize(*r),
    {
        if let ParseTree::Normalize(value) = self {
            value
        } else {
            proof {
                assert(false);
            }
            unreached()
        }
    }

    pub fn unbox_normalize(self) -> (r: (ParseTree<'a>, ParseTree<'a>, ParseTree<'a>, ParseTree<'a>, ParseTree<'a>, ParseTree<'a>))
        requires
            self is Normalize,
        ensures
            self == ParseTree::Normalize(Normalize { normalize: Box::new(r.0), open_paren: Box::new(r.1), value: Box::new(r.2), comma_opt: Box::new(r.3), normal_form: Box::new(r.4), close_paren: Box::new(r.5) }),
    {
        match self {
            ParseTree::Normalize(tree) => tree.unbox(),
            _ => {
                proof {
                    assert(false);
                }
                unreached()
            },
        }
    }

    pub fn is_localtime(&self) -> (r: bool)
        ensures
            r == (*self is Localtime),
    {
        if let ParseTree::Localtime(_) = self {
            true
        } else {
            false
        }
    }

    pub fn as_localtime(&self) -> (r: &Localtime<'a>)
        requires
            *self is Localtime,
        ensures
            *self == ParseTree::Localtime(*r),
    {
        if let ParseTree::Localtime(value) = self {
            value
        } else {
            proof {
                assert(false);
            }
            unreached()
        }
    }

    pub fn unbox_localtime(self) -> (r: (ParseTree<'a>, ParseTree<'a>, ParseTree<'a>, ParseTree<'a>))
        requires
            self is Localtime,
        ensures
            self == ParseTree::Localtime(Localtime { localtime: Box::new(r.0), open_paren: Box::new(r.1), precision: Box::new(r.2), close_paren: Box::new(r.3) }),
    {
        match self {
            ParseTree::Localtime(tree) => tree.unbox(),
            _ => {
                proof {
                    assert(false);
                }
                unreached()
            },
        }
    }

    pub fn is_localtimestamp(&self) -> (r: bool)
        ensures
            r == (*self is Localtimestamp),
    {
        if let ParseTree::Localtimestamp(_) = self {
            true
        } else {
            false
        }
    }

    pub fn as_localtimestamp(&self) -> (r: &Localtimestamp<'a>)
        requires
            *self is Localtimestamp,
        ensures
            *self == ParseTree::Localtimestamp(*r),
    {
        if let ParseTree::Localtimestamp(value) = self {
            value
        } else {
            proof {
                assert(false);
            }
            unreached()
        }
    }

    pub fn unbox_localtimestamp(self) -> (r: (ParseTree<'a>, ParseTree<'a>, ParseTree<'a>, ParseTree<'a>))
        requires
            self is Localtimestamp,
        ensures
            self == ParseTree::Localtimestamp(Localtimestamp { localtimestamp: Box::new(r.0), open_paren: Box::new(r.1), precision: Box::new(r.2), close_paren: Box::new(r.3) }),
    {
        match self {
            ParseTree::Localtimestamp(tree) => tree.unbox(),
            _ => {
                proof {
                    assert(false);
                }
                unreached()
            },
        }
    }

    pub fn is_cast(&self) -> (r: bool)
        ensures
            r == (*self is Cast),
    {
        if let ParseTree::Cast(_) = self {
            true
        } else {
            false
        }
    }

    pub fn as_cast(&self) -> (r: &Cast<'a>)
        requires
            *self is Cast,
        ensures
            *self == ParseTree::Cast(*r),
    {
        if let ParseTree::Cast(value) = self {
            value
        } else {
            proof {
                assert(false);
            }
            unreached()
        }
    }

    pub fn unbox_cast(self) -> (r: (ParseTree<'a>, ParseTree<'a>, ParseTree<'a>, ParseTree<'a>, ParseTree<'a>, ParseTree<'a>))
        requires
            self is Cast,
        ensures
            self == ParseTree::Cast(Cast { cast: Box::new(r.0), open_paren: Box::new(r.1), value: Box::new(r.2), as_: Box::new(r.3), type_: Box::new(r.4), close_paren: Box::new(r.5) }),
    {
        match self {
            ParseTree::Cast(tree) => tree.unbox(),
            _ => {
                proof {
                    assert(false);
                }
                unreached()
            },
        }
    }

    pub fn is_when_clause(&self) -> (r: bool)
        ensures
            r == (*self is WhenClause),
    {
        if let ParseTree::WhenClause(_) = self {
            true
        } else {
            false
        }
    }

    pub fn as_when_clause(&self) -> (r: &WhenClause<'a>)
        requires
            *self is WhenClause,
        ensures
            *self == ParseTree::WhenClause(*r),
    {
        if let ParseTree::WhenClause(value) = self {
            value
        } else {
            proof {
                assert(false);
            }
            unreached()
        }
    }

    pub fn unbox_when_clause(self) -> (r: (ParseTree<'a>, ParseTree<'a>, ParseTree<'a>, ParseTree<'a>))
        requires
            self is WhenClause,
        ensures
            self == ParseTree::WhenClause(WhenClause { when: Box::new(r.0), condition: Box::new(r.1), then_: Box::new(r.2), result: Box::new(r.3) }),
    {
        match self {
            ParseTree::WhenClause(tree) => tree.unbox(),
            _ => {
                proof {
                    assert(false);
                }
                unreached()
            },
        }
    }

    pub fn is_case(&self) -> (r: bool)
        ensures
            r == (*self is Case),
    {
        if let ParseTree::Case(_) = self {
            true
        } else {
            false
        }
    }

    pub fn as_case(&self) -> (r: &Case<'a>)
        requires
            *self is Case,
        ensures
            *self == ParseTree::Case(*r),
    {
        if let ParseTree::Case(value) = self {
            value
        } else {
            proof {
                assert(false);
            }
            unreached()
        }
    }

    pub fn unbox_case(self) -> (r: (ParseTree<'a>, ParseTree<'a>, ParseTree<'a>, ParseTree<'a>, ParseTree<'a>, ParseTree<'a>))
        requires
            self is Case,
        ensures
            self == ParseTree::Case(Case { case: Box::new(r.0), value_opt: Box::new(r.1), when_clauses: Box::new(r.2), else_opt: Box::new(r.3), default: Box::new(r.4), end: Box::new(r.5) }),
    {
        match self {
            ParseTree::Case(tree) => tree.unbox(),
            _ => {
                proof {
                    assert(false);
                }
                unreached()
            },
        }
    }

    pub fn is_exists(&self) -> (r: bool)
        ensures
            r == (*self is Exists),
    {
        if let ParseTree::Exists(_) = self {
            true
        } else {
            false
        }
    }

    pub fn as_exists(&self) -> (r: &Exists<'a>)
        requires
            *self is Exists,
        ensures
            *self == ParseTree::Exists(*r),
    {
        if let ParseTree::Exists(value) = self {
            value
        } else {
            proof {
                assert(false);
            }
            unreached()
        }
    }

    pub fn unbox_exists(self) -> (r: (ParseTree<'a>, ParseTree<'a>, ParseTree<'a>, ParseTree<'a>))
        requires
            self is Exists,
        ensures
            self == ParseTree::Exists(Exists { exists: Box::new(r.0), open_paren: Box::new(r.1), query: Box::new(r.2), close_paren: Box::new(r.3) }),
    {
        match self {
            ParseTree::Exists(tree) => tree.unbox(),
            _ => {
                proof {
                    assert(false);
                }
                unreached()
            },
        }
    }

    pub fn is_type_constructor(&self) -> (r: bool)
        ensures
            r == (*self is TypeConstructor),
    {
        if let ParseTree::TypeConstructor(_) = self {
            true
        } else {
            false
        }
    }

    pub fn as_type_constructor(&self) -> (r: &TypeConstructor<'a>)
        requires
            *self is TypeConstructor,
        ensures
            *self == ParseTree::TypeConstructor(*r),
    {
        if let ParseTree::TypeConstructor(value) = self {
            value
        } else {
            proof {
                assert(false);
            }
            unreached()
        }
    }

    pub fn unbox_type_constructor(self) -> (r: (ParseTree<'a>, ParseTree<'a>))
        requires
            self is TypeConstructor,
        ensures
            self == ParseTree::TypeConstructor(TypeConstructor { type_: Box::new(r.0), value: Box::new(r.1) }),
    {
        match self {
            ParseTree::TypeConstructor(tree) => tree.unbox(),
            _ => {
                proof {
                    assert(false);
                }
                unreached()
            },
        }
    }

    pub fn is_array(&self) -> (r: bool)
        ensures
            r == (*self is Array),
    {
        if let ParseTree::Array(_) = self {
            true
        } else {
            false
        }
    }

    pub fn as_array(&self) -> (r: &Array<'a>)
        requires
            *self is Array,
        ensures
            *self == ParseTree::Array(*r),
    {
        if let ParseTree::Array(value) = self {
            value
        } else {
            proof {
                assert(false);
            }
            unreached()
        }
    }

    pub fn unbox_array(self) -> (r: (ParseTree<'a>, ParseTree<'a>))
        requires
            self is Array,
        ensures
            self == ParseTree::Array(Array { array: Box::new(r.0), elements: Box::new(r.1) }),
    {
        match self {
            ParseTree::Array(tree) => tree.unbox(),
            _ => {
                proof {
                    assert(false);
                }
                unreached()
            },
        }
    }

    pub fn is_interval(&self) -> (r: bool)
        ensures
            r == (*self is Interval),
    {
        if let ParseTree::Interval(_) = self {
            true
        } else {
            false
        }
    }

    pub fn as_interval(&self) -> (r: &Interval<'a>)
        requires
            *self is Interval,
        ensures
            *self == ParseTree::Interval(*r),
    {
        if let ParseTree::Interval(value) = self {
            value
        } else {
            proof {
                assert(false);
            }
            unreached()
        }
    }

    pub fn unbox_interval(self) -> (r: (ParseTree<'a>, ParseTree<'a>, ParseTree<'a>, ParseTree<'a>, ParseTree<'a>, ParseTree<'a>))
        requires
            self is Interval,
        ensures
            self == ParseTree::Interval(Interval { interval: Box::new(r.0), sign_opt: Box::new(r.1), value: Box::new(r.2), from: Box::new(r.3), to_kw_opt: Box::new(r.4), to: Box::new(r.5) }),
    {
        match self {
            ParseTree::Interval(tree) => tree.unbox(),
            _ => {
                proof {
                    assert(false);
                }
                unreached()
            },
        }
    }

    pub fn is_row(&self) -> (r: bool)
        ensures
            r == (*self is Row),
    {
        if let ParseTree::Row(_) = self {
            true
        } else {
            false
        }
    }

    pub fn as_row(&self) -> (r: &Row<'a>)
        requires
            *self is Row,
        ensures
            *self == ParseTree::Row(*r),
    {
        if let ParseTree::Row(value) = self {
            value
        } else {
            proof {
                assert(false);
            }
            unreached()
        }
    }

    pub fn unbox_row(self) -> (r: (ParseTree<'a>, ParseTree<'a>))
        requires
            self is Row,
        ensures
            self == ParseTree::Row(Row { row: Box::new(r.0), elements: Box::new(r.1) }),
    {
        match self {
            ParseTree::Row(tree) => tree.unbox(),
            _ => {
                proof {
                    assert(false);
                }
                unreached()
            },
        }
    }

    pub fn is_try_cast(&self) -> (r: bool)
        ensures
            r == (*self is TryCast),
    {
        if let ParseTree::TryCast(_) = self {
            true
        } else {
            false
        }
    }

    pub fn as_try_cast(&self) -> (r: &TryCast<'a>)
        requires
            *self is TryCast,
        ensures
            *self == ParseTree::TryCast(*r),
    {
        if let ParseTree::TryCast(value) = self {
            value
        } else {
            proof {
                assert(false);
            }
            unreached()
        }
    }

    pub fn unbox_try_cast(self) -> (r: (ParseTree<'a>, ParseTree<'a>, ParseTree<'a>, ParseTree<'a>, ParseTree<'a>, ParseTree<'a>))
        requires
            self is TryCast,
        ensures
            self == ParseTree::TryCast(TryCast { try_cast: Box::new(r.0), open_paren: Box::new(r.1), value: Box::new(r.2), as_: Box::new(r.3), type_: Box::new(r.4), close_paren: Box::new(r.5) }),
    {
        match self {
            ParseTree::TryCast(tree) => tree.unbox(),
            _ => {
                proof {
                    assert(false);
                }
                unreached()
            },
        }
    }

    pub fn is_substring(&self) -> (r: bool)
        ensures
            r == (*self is Substring),
    {
        if let ParseTree::Substring(_) = self {
            true
        } else {
            false
        }
    }

    pub fn as_substring(&self) -> (r: &Substring<'a>)
        requires
            *self is Substring,
        ensures
            *self == ParseTree::Substring(*r),
    {
        if let ParseTree::Substring(value) = self {
            value
        } else {
            proof {
                assert(false);
            }
            unreached()
        }
    }

    pub fn unbox_substring(self) -> (r: (ParseTree<'a>, ParseTree<'a>, ParseTree<'a>, ParseTree<'a>, ParseTree<'a>, ParseTree<'a>, ParseTree<'a>, ParseTree<'a>))
        requires
            self is Substring,
        ensures
            self == ParseTree::Substring(Substring { substring: Box::new(r.0), open_paren: Box::new(r.1), value: Box::new(r.2), from: Box::new(r.3), from_value: Box::new(r.4), for_opt: Box::new(r.5), for_value: Box::new(r.6), close_paren: Box::new(r.7) }),
    {
        match self {
            ParseTree::Substring(tree) => tree.unbox(),
            _ => {
                proof {
                    assert(false);
                }
                unreached()
            },
        }
    }

    pub fn is_position(&self) -> (r: bool)
        ensures
            r == (*self is Position),
    {
        if let ParseTree::Position(_) = self {
            true
        } else {
            false
        }
    }

    pub fn as_position(&self) -> (r: &Position<'a>)
        requires
            *self is Position,
        ensures
            *self == ParseTree::Position(*r),
    {
        if let ParseTree::Position(value) = self {
            value
        } else {
            proof {
                assert(false);
            }
            unreached()
        }
    }

    pub fn unbox_position(self) -> (r: (ParseTree<'a>, ParseTree<'a>, ParseTree<'a>, ParseTree<'a>, ParseTree<'a>, ParseTree<'a>))
        requires
            self is Position,
        ensures
            self == ParseTree::Position(Position { position: Box::new(r.0), open_paren: Box::new(r.1), value: Box::new(r.2), in_: Box::new(r.3), target: Box::new(r.4), close_paren: Box::new(r.5) }),
    {
        match self {
            ParseTree::Position(tree) => tree.unbox(),
            _ => {
                proof {
                    assert(false);
                }
                unreached()
            },
        }
    }

    pub fn is_array_type_suffix(&self) -> (r: bool)
        ensures
            r == (*self is ArrayTypeSuffix),
    {
        if let ParseTree::ArrayTypeSuffix(_) = self {
            true
        } else {
            false
        }
    }

    pub fn as_array_type_suffix(&self) -> (r: &ArrayTypeSuffix<'a>)
        requires
            *self is ArrayTypeSuffix,
        ensures
            *self == ParseTree::ArrayTypeSuffix(*r),
    {
        if let ParseTree::ArrayTypeSuffix(value) = self {
            value
        } else {
            proof {
                assert(false);
            }
            unreached()
        }
    }

    pub fn unbox_array_type_suffix(self) -> (r: (ParseTree<'a>, ParseTree<'a>))
        requires
            self is ArrayTypeSuffix,
        ensures
            self == ParseTree::ArrayTypeSuffix(ArrayTypeSuffix { base_type: Box::new(r.0), array: Box::new(r.1) }),
    {
        match self {
            ParseTree::ArrayTypeSuffix(tree) => tree.unbox(),
            _ => {
                proof {
                    assert(false);
                }
                unreached()
            },
        }
    }

    pub fn is_named_type(&self) -> (r: bool)
        ensures
            r == (*self is NamedType),
    {
        if let ParseTree::NamedType(_) = self {
            true
        } else {
            false
        }
    }

    pub fn as_named_type(&self) -> (r: &NamedType<'a>)
        requires
            *self is NamedType,
        ensures
            *self == ParseTree::NamedType(*r),
    {
        if let ParseTree::NamedType(value) = self {
            value
        } else {
            proof {
                assert(false);
            }
            unreached()
        }
    }

    pub fn unbox_named_type(self) -> (r: (ParseTree<'a>, ParseTree<'a>))
        requires
            self is NamedType,
        ensures
            self == ParseTree::NamedType(NamedType { name: Box::new(r.0), type_parameters: Box::new(r.1) }),
    {
        match self {
            ParseTree::NamedType(tree) => tree.unbox(),
            _ => {
                proof {
                    assert(false);
                }
                unreached()
            },
        }
    }

    pub fn is_array_type(&self) -> (r: bool)
        ensures
            r == (*self is ArrayType),
    {
        if let ParseTree::ArrayType(_) = self {
            true
        } else {
            false
        }
    }

    pub fn as_array_type(&self) -> (r: &ArrayType<'a>)
        requires
            *self is ArrayType,
        ensures
            *self == ParseTree::ArrayType(*r),
    {
        if let ParseTree::ArrayType(value) = self {
            value
        } else {
            proof {
                assert(false);
            }
            unreached()
        }
    }

    pub fn unbox_array_type(self) -> (r: (ParseTree<'a>, ParseTree<'a>, ParseTree<'a>, ParseTree<'a>))
        requires
            self is ArrayType,
        ensures
            self == ParseTree::ArrayType(ArrayType { array: Box::new(r.0), open_angle: Box::new(r.1), element_type: Box::new(r.2), close_angle: Box::new(r.3) }),
    {
        match self {
            ParseTree::ArrayType(tree) => tree.unbox(),
            _ => {
                proof {
                    assert(false);
                }
                unreached()
            },
        }
    }

    pub fn is_map_type(&self) -> (r: bool)
        ensures
            r == (*self is MapType),
    {
        if let ParseTree::MapType(_) = self {
            true
        } else {
            false
        }
    }

    pub fn as_map_type(&self) -> (r: &MapType<'a>)
        requires
            *self is MapType,
        ensures
            *self == ParseTree::MapType(*r),
    {
        if let ParseTree::MapType(value) = self {
            value
        } else {
            proof {
                assert(false);
            }
            unreached()
        }
    }

    pub fn unbox_map_type(self) -> (r: (ParseTree<'a>, ParseTree<'a>, ParseTree<'a>, ParseTree<'a>, ParseTree<'a>, ParseTree<'a>))
        requires
            self is MapType,
        ensures
            self == ParseTree::MapType(MapType { map: Box::new(r.0), open_angle: Box::new(r.1), key_type: Box::new(r.2), comma: Box::new(r.3), value_type: Box::new(r.4), close_angle: Box::new(r.5) }),
    {
        match self {
            ParseTree::MapType(tree) => tree.unbox(),
            _ => {
                proof {
                    assert(false);
                }
                unreached()
            },
        }
    }

    pub fn is_row_type(&self) -> (r: bool)
        ensures
            r == (*self is RowType),
    {
        if let ParseTree::RowType(_) = self {
            true
        } else {
            false
        }
    }

    pub fn as_row_type(&self) -> (r: &RowType<'a>)
        requires
            *self is RowType,
        ensures
            *self == ParseTree::RowType(*r),
    {
        if let ParseTree::RowType(value) = self {
            value
        } else {
            proof {
                assert(false);
            }
            unreached()
        }
    }

    pub fn unbox_row_type(self) -> (r: (ParseTree<'a>, ParseTree<'a>))
        requires
            self is RowType,
        ensures
            self == ParseTree::RowType(RowType { row: Box::new(r.0), element_types: Box::new(r.1) }),
    {
        match self {
            ParseTree::RowType(tree) => tree.unbox(),
            _ => {
                proof {
                    assert(false);
                }
                unreached()
            },
        }
    }

    pub fn is_row_type_element(&self) -> (r: bool)
        ensures
            r == (*self is RowTypeElement),
    {
        if let ParseTree::RowTypeElement(_) = self {
            true
        } else {
            false
        }
    }

    pub fn as_row_type_element(&self) -> (r: &RowTypeElement<'a>)
        requires
            *self is RowTypeElement,
        ensures
            *self == ParseTree::RowTypeElement(*r),
    {
        if let ParseTree::RowTypeElement(value) = self {
            value
        } else {
            proof {
                assert(false);
            }
            unreached()
        }
    }

    pub fn unbox_row_type_element(self) -> (r: (ParseTree<'a>, ParseTree<'a>))
        requires
            self is RowTypeElement,
        ensures
            self == ParseTree::RowTypeElement(RowTypeElement { identifier: Box::new(r.0), type_: Box::new(r.1) }),
    {
        match self {
            ParseTree::RowTypeElement(tree) => tree.unbox(),
            _ => {
                proof {
                    assert(false);
                }
                unreached()
            },
        }
    }

    pub fn is_interval_type(&self) -> (r: bool)
        ensures
            r == (*self is IntervalType),
    {
        if let ParseTree::IntervalType(_) = self {
            true
        } else {
            false
        }
    }

    pub fn as_interval_type(&self) -> (r: &IntervalType<'a>)
        requires
            *self is IntervalType,
        ensures
            *self == ParseTree::IntervalType(*r),
    {
        if let ParseTree::IntervalType(value) = self {
            value
        } else {
            proof {
                assert(false);
            }
            unreached()
        }
    }

    pub fn unbox_interval_type(self) -> (r: (ParseTree<'a>, ParseTree<'a>, ParseTree<'a>, ParseTree<'a>))
        requires
            self is IntervalType,
        ensures
            self == ParseTree::IntervalType(IntervalType { interval: Box::new(r.0), from: Box::new(r.1), to_kw: Box::new(r.2), to: Box::new(r.3) }),
    {
        match self {
            ParseTree::IntervalType(tree) => tree.unbox(),
            _ => {
                proof {
                    assert(false);
                }
                unreached()
            },
        }
    }

    pub fn is_if_not_exists(&self) -> (r: bool)
        ensures
            r == (*self is IfNotExists),
    {
        if let ParseTree::IfNotExists(_) = self {
            true
        } else {
            false
        }
    }

    pub fn as_if_not_exists(&self) -> (r: &IfNotExists<'a>)
        requires
            *self is IfNotExists,
        ensures
            *self == ParseTree::IfNotExists(*r),
    {
        if let ParseTree::IfNotExists(value) = self {
            value
        } else {
            proof {
                assert(false);
            }
            unreached()
        }
    }

    pub fn unbox_if_not_exists(self) -> (r: (ParseTree<'a>, ParseTree<'a>, ParseTree<'a>))
        requires
            self is IfNotExists,
        ensures
            self == ParseTree::IfNotExists(IfNotExists { if_: Box::new(r.0), not: Box::new(r.1), exists: Box::new(r.2) }),
    {
        match self {
            ParseTree::IfNotExists(tree) => tree.unbox(),
            _ => {
                proof {
                    assert(false);
                }
                unreached()
            },
        }
    }

    pub fn is_create_table(&self) -> (r: bool)
        ensures
            r == (*self is CreateTable),
    {
        if let ParseTree::CreateTable(_) = self {
            true
        } else {
            false
        }
    }

    pub fn as_create_table(&self) -> (r: &CreateTable<'a>)
        requires
            *self is CreateTable,
        ensures
            *self == ParseTree::CreateTable(*r),
    {
        if let ParseTree::CreateTable(value) = self {
            value
        } else {
            proof {
                assert(false);
            }
            unreached()
        }
    }

    pub fn unbox_create_table(self) -> (r: (ParseTree<'a>, ParseTree<'a>, ParseTree<'a>, ParseTree<'a>, ParseTree<'a>, ParseTree<'a>, ParseTree<'a>))
        requires
            self is CreateTable,
        ensures
            self == ParseTree::CreateTable(CreateTable { create: Box::new(r.0), table: Box::new(r.1), if_not_exists_opt: Box::new(r.2), table_name: Box::new(r.3), table_elements: Box::new(r.4), comment_opt: Box::new(r.5), with_properties_opt: Box::new(r.6) }),
    {
        match self {
            ParseTree::CreateTable(tree) => tree.unbox(),
            _ => {
                proof {
                    assert(false);
                }
                unreached()
            },
        }
    }

    pub fn is_create_view(&self) -> (r: bool)
        ensures
            r == (*self is CreateView),
    {
        if let ParseTree::CreateView(_) = self {
            true
        } else {
            false
        }
    }

    pub fn as_create_view(&self) -> (r: &CreateView<'a>)
        requires
            *self is CreateView,
        ensures
            *self == ParseTree::CreateView(*r),
    {
        if let ParseTree::CreateView(value) = self {
            value
        } else {
            proof {
                assert(false);
            }
            unreached()
        }
    }

    pub fn unbox_create_view(self) -> (r: (ParseTree<'a>, ParseTree<'a>, ParseTree<'a>, ParseTree<'a>, ParseTree<'a>, ParseTree<'a>, ParseTree<'a>))
        requires
            self is CreateView,
        ensures
            self == ParseTree::CreateView(CreateView { create: Box::new(r.0), or_opt: Box::new(r.1), replace_opt: Box::new(r.2), view: Box::new(r.3), qualified_name: Box::new(r.4), as_: Box::new(r.5), query: Box::new(r.6) }),
    {
        match self {
            ParseTree::CreateView(tree) => tree.unbox(),
            _ => {
                proof {
                    assert(false);
                }
                unreached()
            },
        }
    }

    pub fn is_create_role(&self) -> (r: bool)
        ensures
            r == (*self is CreateRole),
    {
        if let ParseTree::CreateRole(_) = self {
            true
        } else {
            false
        }
    }

    pub fn as_create_role(&self) -> (r: &CreateRole<'a>)
        requires
            *self is CreateRole,
        ensures
            *self == ParseTree::CreateRole(*r),
    {
        if let ParseTree::CreateRole(value) = self {
            value
        } else {
            proof {
                assert(false);
            }
            unreached()
        }
    }

    pub fn unbox_create_role(self) -> (r: (ParseTree<'a>, ParseTree<'a>, ParseTree<'a>, ParseTree<'a>))
        requires
            self is CreateRole,
        ensures
            self == ParseTree::CreateRole(CreateRole { create: Box::new(r.0), role: Box::new(r.1), name: Box::new(r.2), with_admin_grantor_opt: Box::new(r.3) }),
    {
        match self {
            ParseTree::CreateRole(tree) => tree.unbox(),
            _ => {
                proof {
                    assert(false);
                }
                unreached()
            },
        }
    }

    pub fn is_with_admin_grantor(&self) -> (r: bool)
        ensures
            r == (*self is WithAdminGrantor),
    {
        if let ParseTree::WithAdminGrantor(_) = self {
            true
        } else {
            false
        }
    }

    pub fn as_with_admin_grantor(&self) -> (r: &WithAdminGrantor<'a>)
        requires
            *self is WithAdminGrantor,
        ensures
            *self == ParseTree::WithAdminGrantor(*r),
    {
        if let ParseTree::WithAdminGrantor(value) = self {
            value
        } else {
            proof {
                assert(false);
            }
            unreached()
        }
    }

    pub fn unbox_with_admin_grantor(self) -> (r: (ParseTree<'a>, ParseTree<'a>, ParseTree<'a>))
        requires
            self is WithAdminGrantor,
        ensures
            self == ParseTree::WithAdminGrantor(WithAdminGrantor { with: Box::new(r.0), admin: Box::new(r.1), grantor: Box::new(r.2) }),
    {
        match self {
            ParseTree::WithAdminGrantor(tree) => tree.unbox(),
            _ => {
                proof {
                    assert(false);
                }
                unreached()
            },
        }
    }

    pub fn is_user_principal(&self) -> (r: bool)
        ensures
            r == (*self is UserPrincipal),
    {
        if let ParseTree::UserPrincipal(_) = self {
            true
        } else {
            false
        }
    }

    pub fn as_user_principal(&self) -> (r: &UserPrincipal<'a>)
        requires
            *self is UserPrincipal,
        ensures
            *self == ParseTree::UserPrincipal(*r),
    {
        if let ParseTree::UserPrincipal(value) = self {
            value
        } else {
            proof {
                assert(false);
            }
            unreached()
        }
    }

    pub fn unbox_user_principal(self) -> (r: (ParseTree<'a>, ParseTree<'a>))
        requires
            self is UserPrincipal,
        ensures
            self == ParseTree::UserPrincipal(UserPrincipal { user: Box::new(r.0), identifier: Box::new(r.1) }),
    {
        match self {
            ParseTree::UserPrincipal(tree) => tree.unbox(),
            _ => {
                proof {
                    assert(false);
                }
                unreached()
            },
        }
    }

    pub fn is_role_principal(&self) -> (r: bool)
        ensures
            r == (*self is RolePrincipal),
    {
        if let ParseTree::RolePrincipal(_) = self {
            true
        } else {
            false
        }
    }

    pub fn as_role_principal(&self) -> (r: &RolePrincipal<'a>)
        requires
            *self is RolePrincipal,
        ensures
            *self == ParseTree::RolePrincipal(*r),
    {
        if let ParseTree::RolePrincipal(value) = self {
            value
        } else {
            proof {
                assert(false);
            }
            unreached()
        }
    }

    pub fn unbox_role_principal(self) -> (r: (ParseTree<'a>, ParseTree<'a>))
        requires
            self is RolePrincipal,
        ensures
            self == ParseTree::RolePrincipal(RolePrincipal { role: Box::new(r.0), identifier: Box::new(r.1) }),
    {
        match self {
            ParseTree::RolePrincipal(tree) => tree.unbox(),
            _ => {
                proof {
                    assert(false);
                }
                unreached()
            },
        }
    }

    pub fn is_unspecified_principal(&self) -> (r: bool)
        ensures
            r == (*self is UnspecifiedPrincipal),
    {
        if let ParseTree::UnspecifiedPrincipal(_) = self {
            true
        } else {
            false
        }
    }

    pub fn as_unspecified_principal(&self) -> (r: &UnspecifiedPrincipal<'a>)
        requires
            *self is UnspecifiedPrincipal,
        ensures
            *self == ParseTree::UnspecifiedPrincipal(*r),
    {
        if let ParseTree::UnspecifiedPrincipal(value) = self {
            value
        } else {
            proof {
                assert(false);
            }
            unreached()
        }
    }

    pub fn unbox_unspecified_principal(self) -> (r: (ParseTree<'a>,))
        requires
            self is UnspecifiedPrincipal,
        ensures
            self == ParseTree::UnspecifiedPrincipal(UnspecifiedPrincipal { identifier: Box::new(r.0) }),
    {
        match self {
            ParseTree::UnspecifiedPrincipal(tree) => tree.unbox(),
            _ => {
                proof {
                    assert(false);
                }
                unreached()
            },
        }
    }

    pub fn is_create_table_as_select(&self) -> (r: bool)
        ensures
            r == (*self is CreateTableAsSelect),
    {
        if let ParseTree::CreateTableAsSelect(_) = self {
            true
        } else {
            false
        }
    }

    pub fn as_create_table_as_select(&self) -> (r: &CreateTableAsSelect<'a>)
        requires
            *self is CreateTableAsSelect,
        ensures
            *self == ParseTree::CreateTableAsSelect(*r),
    {
        if let ParseTree::CreateTableAsSelect(value) = self {
            value
        } else {
            proof {
                assert(false);
            }
            unreached()
        }
    }

    pub fn unbox_create_table_as_select(self) -> (r: (ParseTree<'a>, ParseTree<'a>, ParseTree<'a>, ParseTree<'a>, ParseTree<'a>, ParseTree<'a>, ParseTree<'a>, ParseTree<'a>, ParseTree<'a>, ParseTree<'a>, ParseTree<'a>, ParseTree<'a>))
        requires
            self is CreateTableAsSelect,
        ensures
            self == ParseTree::CreateTableAsSelect(CreateTableAsSelect { create: Box::new(r.0), table: Box::new(r.1), if_not_exists_opt: Box::new(r.2), table_name: Box::new(r.3), column_aliases_opt: Box::new(r.4), comment_opt: Box::new(r.5), with_properties_opt: Box::new(r.6), as_: Box::new(r.7), open_paren_opt: Box::new(r.8), query: Box::new(r.9), close_paren_opt: Box::new(r.10), with_data_opt: Box::new(r.11) }),
    {
        match self {
            ParseTree::CreateTableAsSelect(tree) => tree.unbox(),
            _ => {
                proof {
                    assert(false);
                }
                unreached()
            },
        }
    }

    pub fn is_with_properties(&self) -> (r: bool)
        ensures
            r == (*self is WithProperties),
    {
        if let ParseTree::WithProperties(_) = self {
            true
        } else {
            false
        }
    }

    pub fn as_with_properties(&self) -> (r: &WithProperties<'a>)
        requires
            *self is WithProperties,
        ensures
            *self == ParseTree::WithProperties(*r),
    {
        if let ParseTree::WithProperties(value) = self {
            value
        } else {
            proof {
                assert(false);
            }
            unreached()
        }
    }

    pub fn unbox_with_properties(self) -> (r: (ParseTree<'a>, ParseTree<'a>))
        requires
            self is WithProperties,
        ensures
            self == ParseTree::WithProperties(WithProperties { with: Box::new(r.0), properties: Box::new(r.1) }),
    {
        match self {
            ParseTree::WithProperties(tree) => tree.unbox(),
            _ => {
                proof {
                    assert(false);
                }
                unreached()
            },
        }
    }

    pub fn is_property(&self) -> (r: bool)
        ensures
            r == (*self is Property),
    {
        if let ParseTree::Property(_) = self {
            true
        } else {
            false
        }
    }

    pub fn as_property(&self) -> (r: &Property<'a>)
        requires
            *self is Property,
        ensures
            *self == ParseTree::Property(*r),
    {
        if let ParseTree::Property(value) = self {
            value
        } else {
            proof {
                assert(false);
            }
            unreached()
        }
    }

    pub fn unbox_property(self) -> (r: (ParseTree<'a>, ParseTree<'a>, ParseTree<'a>))
        requires
            self is Property,
        ensures
            self == ParseTree::Property(Property { identifier: Box::new(r.0), eq: Box::new(r.1), value: Box::new(r.2) }),
    {
        match self {
            ParseTree::Property(tree) => tree.unbox(),
            _ => {
                proof {
                    assert(false);
                }
                unreached()
            },
        }
    }

    pub fn is_with_data(&self) -> (r: bool)
        ensures
            r == (*self is WithData),
    {
        if let ParseTree::WithData(_) = self {
            true
        } else {
            false
        }
    }

    pub fn as_with_data(&self) -> (r: &WithData<'a>)
        requires
            *self is WithData,
        ensures
            *self == ParseTree::WithData(*r),
    {
        if let ParseTree::WithData(value) = self {
            value
        } else {
            proof {
                assert(false);
            }
            unreached()
        }
    }

    pub fn unbox_with_data(self) -> (r: (ParseTree<'a>, ParseTree<'a>, ParseTree<'a>))
        requires
            self is WithData,
        ensures
            self == ParseTree::WithData(WithData { with: Box::new(r.0), no_opt: Box::new(r.1), data: Box::new(r.2) }),
    {
        match self {
            ParseTree::WithData(tree) => tree.unbox(),
            _ => {
                proof {
                    assert(false);
                }
                unreached()
            },
        }
    }

    pub fn is_comment(&self) -> (r: bool)
        ensures
            r == (*self is Comment),
    {
        if let ParseTree::Comment(_) = self {
            true
        } else {
            false
        }
    }

    pub fn as_comment(&self) -> (r: &Comment<'a>)
        requires
            *self is Comment,
        ensures
            *self == ParseTree::Comment(*r),
    {
        if let ParseTree::Comment(value) = self {
            value
        } else {
            proof {
                assert(false);
            }
            unreached()
        }
    }

    pub fn unbox_comment(self) -> (r: (ParseTree<'a>, ParseTree<'a>))
        requires
            self is Comment,
        ensures
            self == ParseTree::Comment(Comment { comment: Box::new(r.0), value: Box::new(r.1) }),
    {
        match self {
            ParseTree::Comment(tree) => tree.unbox(),
            _ => {
                proof {
                    assert(false);
                }
                unreached()
            },
        }
    }

    pub fn is_column_definition(&self) -> (r: bool)
        ensures
            r == (*self is ColumnDefinition),
    {
        if let ParseTree::ColumnDefinition(_) = self {
            true
        } else {
            false
        }
    }

    pub fn as_column_definition(&self) -> (r: &ColumnDefinition<'a>)
        requires
            *self is ColumnDefinition,
        ensures
            *self == ParseTree::ColumnDefinition(*r),
    {
        if let ParseTree::ColumnDefinition(value) = self {
            value
        } else {
            proof {
                assert(false);
            }
            unreached()
        }
    }

    pub fn unbox_column_definition(self) -> (r: (ParseTree<'a>, ParseTree<'a>, ParseTree<'a>, ParseTree<'a>, ParseTree<'a>))
        requires
            self is ColumnDefinition,
        ensures
            self == ParseTree::ColumnDefinition(ColumnDefinition { identifier: Box::new(r.0), type_: Box::new(r.1), not_null_opt: Box::new(r.2), comment_opt: Box::new(r.3), with_properties_opt: Box::new(r.4) }),
    {
        match self {
            ParseTree::ColumnDefinition(tree) => tree.unbox(),
            _ => {
                proof {
                    assert(false);
                }
                unreached()
            },
        }
    }

    pub fn is_not_null(&self) -> (r: bool)
        ensures
            r == (*self is NotNull),
    {
        if let ParseTree::NotNull(_) = self {
            true
        } else {
            false
        }
    }

    pub fn as_not_null(&self) -> (r: &NotNull<'a>)
        requires
            *self is NotNull,
        ensures
            *self == ParseTree::NotNull(*r),
    {
        if let ParseTree::NotNull(value) = self {
            value
        } else {
            proof {
                assert(false);
            }
            unreached()
        }
    }

    pub fn unbox_not_null(self) -> (r: (ParseTree<'a>, ParseTree<'a>))
        requires
            self is NotNull,
        ensures
            self == ParseTree::NotNull(NotNull { not: Box::new(r.0), null: Box::new(r.1) }),
    {
        match self {
            ParseTree::NotNull(tree) => tree.unbox(),
            _ => {
                proof {
                    assert(false);
                }
                unreached()
            },
        }
    }

    pub fn is_like_clause(&self) -> (r: bool)
        ensures
            r == (*self is LikeClause),
    {
        if let ParseTree::LikeClause(_) = self {
            true
        } else {
            false
        }
    }

    pub fn as_like_clause(&self) -> (r: &LikeClause<'a>)
        requires
            *self is LikeClause,
        ensures
            *self == ParseTree::LikeClause(*r),
    {
        if let ParseTree::LikeClause(value) = self {
            value
        } else {
            proof {
                assert(false);
            }
            unreached()
        }
    }

    pub fn unbox_like_clause(self) -> (r: (ParseTree<'a>, ParseTree<'a>, ParseTree<'a>, ParseTree<'a>))
        requires
            self is LikeClause,
        ensures
            self == ParseTree::LikeClause(LikeClause { like: Box::new(r.0), name: Box::new(r.1), option_type_opt: Box::new(r.2), properties: Box::new(r.3) }),
    {
        match self {
            ParseTree::LikeClause(tree) => tree.unbox(),
            _ => {
                proof {
                    assert(false);
                }
                unreached()
            },
        }
    }

    pub fn is_insert_into(&self) -> (r: bool)
        ensures
            r == (*self is InsertInto),
    {
        if let ParseTree::InsertInto(_) = self {
            true
        } else {
            false
        }
    }

    pub fn as_insert_into(&self) -> (r: &InsertInto<'a>)
        requires
            *self is InsertInto,
        ensures
            *self == ParseTree::InsertInto(*r),
    {
        if let ParseTree::InsertInto(value) = self {
            value
        } else {
            proof {
                assert(false);
            }
            unreached()
        }
    }

    pub fn unbox_insert_into(self) -> (r: (ParseTree<'a>, ParseTree<'a>, ParseTree<'a>, ParseTree<'a>, ParseTree<'a>))
        requires
            self is InsertInto,
        ensures
            self == ParseTree::InsertInto(InsertInto { insert: Box::new(r.0), into: Box::new(r.1), table_name: Box::new(r.2), column_aliases_opt: Box::new(r.3), query: Box::new(r.4) }),
    {
        match self {
            ParseTree::InsertInto(tree) => tree.unbox(),
            _ => {
                proof {
                    assert(false);
                }
                unreached()
            },
        }
    }

    pub fn is_delete(&self) -> (r: bool)
        ensures
            r == (*self is Delete),
    {
        if let ParseTree::Delete(_) = self {
            true
        } else {
            false
        }
    }

    pub fn as_delete(&self) -> (r: &Delete<'a>)
        requires
            *self is Delete,
        ensures
            *self == ParseTree::Delete(*r),
    {
        if let ParseTree::Delete(value) = self {
            value
        } else {
            proof {
                assert(false);
            }
            unreached()
        }
    }

    pub fn unbox_delete(self) -> (r: (ParseTree<'a>, ParseTree<'a>, ParseTree<'a>, ParseTree<'a>, ParseTree<'a>))
        requires
            self is Delete,
        ensures
            self == ParseTree::Delete(Delete { delete: Box::new(r.0), from: Box::new(r.1), table_name: Box::new(r.2), where_opt: Box::new(r.3), predicate: Box::new(r.4) }),
    {
        match self {
            ParseTree::Delete(tree) => tree.unbox(),
            _ => {
                proof {
                    assert(false);
                }
                unreached()
            },
        }
    }

    pub fn is_grouping_set(&self) -> (r: bool)
        ensures
            r == (*self is GroupingSet),
    {
        if let ParseTree::GroupingSet(_) = self {
            true
        } else {
            false
        }
    }

    pub fn as_grouping_set(&self) -> (r: &GroupingSet<'a>)
        requires
            *self is GroupingSet,
        ensures
            *self == ParseTree::GroupingSet(*r),
    {
        if let ParseTree::GroupingSet(value) = self {
            value
        } else {
            proof {
                assert(false);
            }
            unreached()
        }
    }

    pub fn unbox_grouping_set(self) -> (r: (ParseTree<'a>,))
        requires
            self is GroupingSet,
        ensures
            self == ParseTree::GroupingSet(GroupingSet { elements: Box::new(r.0) }),
    {
        match self {
            ParseTree::GroupingSet(tree) => tree.unbox(),
            _ => {
                proof {
                    assert(false);
                }
                unreached()
            },
        }
    }

    pub fn is_relation_or_query(&self) -> (r: bool)
        ensures
            r == (*self is RelationOrQuery),
    {
        if let ParseTree::RelationOrQuery(_) = self {
            true
        } else {
            false
        }
    }

    pub fn as_relation_or_query(&self) -> (r: &RelationOrQuery<'a>)
        requires
            *self is RelationOrQuery,
        ensures
            *self == ParseTree::RelationOrQuery(*r),
    {
        if let ParseTree::RelationOrQuery(value) = self {
            value
        } else {
            proof {
                assert(false);
            }
            unreached()
        }
    }

    pub fn unbox_relation_or_query(self) -> (r: (ParseTree<'a>, ParseTree<'a>, ParseTree<'a>))
        requires
            self is RelationOrQuery,
        ensures
            self == ParseTree::RelationOrQuery(RelationOrQuery { open_paren: Box::new(r.0), query_or_relation: Box::new(r.1), close_paren: Box::new(r.2) }),
    {
        match self {
            ParseTree::RelationOrQuery(tree) => tree.unbox(),
            _ => {
                proof {
                    assert(false);
                }
                unreached()
            },
        }
    }

    pub fn is_empty_grouping_set(&self) -> (r: bool)
        ensures
            r == (*self is EmptyGroupingSet),
    {
        if let ParseTree::EmptyGroupingSet(_) = self {
            true
        } else {
            false
        }
    }

    pub fn as_empty_grouping_set(&self) -> (r: &EmptyGroupingSet<'a>)
        requires
            *self is EmptyGroupingSet,
        ensures
            *self == ParseTree::EmptyGroupingSet(*r),
    {
        if let ParseTree::EmptyGroupingSet(value) = self {
            value
        } else {
            proof {
                assert(false);
            }
            unreached()
        }
    }

    pub fn unbox_empty_grouping_set(self) -> (r: (ParseTree<'a>, ParseTree<'a>))
        requires
            self is EmptyGroupingSet,
        ensures
            self == ParseTree::EmptyGroupingSet(EmptyGroupingSet { open_paren: Box::new(r.0), close_paren: Box::new(r.1) }),
    {
        match self {
            ParseTree::EmptyGroupingSet(tree) => tree.unbox(),
            _ => {
                proof {
                    assert(false);
                }
                unreached()
            },
        }
    }

    pub fn is_expression_or_query(&self) -> (r: bool)
        ensures
            r == (*self is ExpressionOrQuery),
    {
        if let ParseTree::ExpressionOrQuery(_) = self {
            true
        } else {
            false
        }
    }

    pub fn as_expression_or_query(&self) -> (r: &ExpressionOrQuery<'a>)
        requires
            *self is ExpressionOrQuery,
        ensures
            *self == ParseTree::ExpressionOrQuery(*r),
    {
        if let ParseTree::ExpressionOrQuery(value) = self {
            value
        } else {
            proof {
                assert(false);
            }
            unreached()
        }
    }

    pub fn unbox_expression_or_query(self) -> (r: (ParseTree<'a>, ParseTree<'a>, ParseTree<'a>))
        requires
            self is ExpressionOrQuery,
        ensures
            self == ParseTree::ExpressionOrQuery(ExpressionOrQuery { open_paren: Box::new(r.0), expression_or_query: Box::new(r.1), close_paren: Box::new(r.2) }),
            tokens_of(self) == tokens_of(r.0) + tokens_of(r.1) + tokens_of(r.2),
            tree_wf(self) == (tree_wf(r.0) && tree_wf(r.1) && tree_wf(r.2)),
            lossless(self) == (lossless(r.0) && lossless(r.1) && lossless(r.2)),
    {
        proof {
            reveal_with_fuel(tokens_of, 1);
            reveal_with_fuel(tree_wf, 1);
            reveal_with_fuel(lossless, 1);
        }
        match self {
            ParseTree::ExpressionOrQuery(tree) => tree.unbox(),
            _ => {
                proof {
                    assert(false);
                }
                unreached()
            },
        }
    }

    pub fn is_entrypoint(&self) -> (r: bool)
        ensures
            r == (*self is Entrypoint),
    {
        if let ParseTree::Entrypoint(_) = self {
            true
        } else {
            false
        }
    }

    pub fn as_entrypoint(&self) -> (r: &Entrypoint<'a>)
        requires
            *self is Entrypoint,
        ensures
            *self == ParseTree::Entrypoint(*r),
    {
        if let ParseTree::Entrypoint(value) = self {
            value
        } else {
            proof {
                assert(false);
            }
            unreached()
        }
    }

    pub fn unbox_entrypoint(self) -> (r: (ParseTree<'a>, ParseTree<'a>, ParseTree<'a>))
        requires
            self is Entrypoint,
        ensures
            self == ParseTree::Entrypoint(Entrypoint { beginning_of_file: Box::new(r.0), tree: Box::new(r.1), end_of_file: Box::new(r.2) }),
    {
        proof {
            reveal_with_fuel(tokens_of, 1);
        }
        match self {
            ParseTree::Entrypoint(tree) => tree.unbox(),
            _ => {
                proof {
                    assert(false);
                }
                unreached()
            },
        }
    }

    pub fn is_null_treatment(&self) -> (r: bool)
        ensures
            r == (*self is NullTreatment),
    {
        if let ParseTree::NullTreatment(_) = self {
            true
        } else {
            false
        }
    }

    pub fn as_null_treatment(&self) -> (r: &NullTreatment<'a>)
        requires
            *self is NullTreatment,
        ensures
            *self == ParseTree::NullTreatment(*r),
    {
        if let ParseTree::NullTreatment(value) = self {
            value
        } else {
            proof {
                assert(false);
            }
            unreached()
        }
    }

    pub fn unbox_null_treatment(self) -> (r: (ParseTree<'a>, ParseTree<'a>))
        requires
            self is NullTreatment,
        ensures
            self == ParseTree::NullTreatment(NullTreatment { treatment: Box::new(r.0), nulls: Box::new(r.1) }),
    {
        match self {
            ParseTree::NullTreatment(tree) => tree.unbox(),
            _ => {
                proof {
                    assert(false);
                }
                unreached()
            },
        }
    }

    pub fn children(&self) -> (r: Vec<&ParseTree<'a>>)
        ensures
            deref_seq(r@) == children_of(*self),
    {
        match self {
            ParseTree::Token(token) => {
                let r = token.children();
                assert(deref_seq(r@) =~= children_of(*self));
                r
            },
            ParseTree::List(list) => list.children(),
            ParseTree::Error(error) => {
                let r = error.children();
                assert(deref_seq(r@) =~= children_of(*self));
                r
            },
            ParseTree::Empty(empty) => {
                let r = empty.children();
                assert(deref_seq(r@) =~= children_of(*self));
                r
            },
            ParseTree::Query(tree) => tree.children(),
            ParseTree::With(tree) => tree.children(),
            ParseTree::NamedQuery(tree) => tree.children(),
            ParseTree::QueryNoWith(tree) => tree.children(),
            ParseTree::OrderBy(tree) => tree.children(),
            ParseTree::Limit(tree) => tree.children(),
            ParseTree::QuerySetOperation(tree) => tree.children(),
            ParseTree::SortItem(tree) => tree.children(),
            ParseTree::Subquery(tree) => tree.children(),
            ParseTree::InlineTable(tree) => tree.children(),
            ParseTree::Table(tree) => tree.children(),
            ParseTree::QuerySpecification(tree) => tree.children(),
            ParseTree::QualifiedName(tree) => tree.children(),
            ParseTree::SelectAll(tree) => tree.children(),
            ParseTree::QualifiedSelectAll(tree) => tree.children(),
            ParseTree::SelectItem(tree) => tree.children(),
            ParseTree::SubqueryRelation(tree) => tree.children(),
            ParseTree::ParenthesizedRelation(tree) => tree.children(),
            ParseTree::TableName(tree) => tree.children(),
            ParseTree::Lateral(tree) => tree.children(),
            ParseTree::Unnest(tree) => tree.children(),
            ParseTree::SampledRelation(tree) => tree.children(),
            ParseTree::AliasedRelation(tree) => tree.children(),
            ParseTree::CrossJoin(tree) => tree.children(),
            ParseTree::Join(tree) => tree.children(),
            ParseTree::NaturalJoin(tree) => tree.children(),
            ParseTree::OuterJoinKind(tree) => tree.children(),
            ParseTree::OnJoinCriteria(tree) => tree.children(),
            ParseTree::UsingJoinCriteria(tree) => tree.children(),
            ParseTree::GroupBy(tree) => tree.children(),
            ParseTree::Rollup(tree) => tree.children(),
            ParseTree::Cube(tree) => tree.children(),
            ParseTree::GroupingSets(tree) => tree.children(),
            ParseTree::BinaryExpression(tree) => tree.children(),
            ParseTree::UnaryExpression(tree) => tree.children(),
            ParseTree::QuantifiedComparison(tree) => tree.children(),
            ParseTree::NullPredicate(tree) => tree.children(),
            ParseTree::DistinctFrom(tree) => tree.children(),
            ParseTree::Between(tree) => tree.children(),
            ParseTree::Like(tree) => tree.children(),
            ParseTree::InSubquery(tree) => tree.children(),
            ParseTree::InList(tree) => tree.children(),
            ParseTree::AtTimeZone(tree) => tree.children(),
            ParseTree::Dereference(tree) => tree.children(),
            ParseTree::Subscript(tree) => tree.children(),
            ParseTree::Lambda(tree) => tree.children(),
            ParseTree::Literal(tree) => tree.children(),
            ParseTree::RowConstructor(tree) => tree.children(),
            ParseTree::ParenthesizedExpression(tree) => tree.children(),
            ParseTree::Identifier(tree) => tree.children(),
            ParseTree::FunctionCall(tree) => tree.children(),
            ParseTree::Filter(tree) => tree.children(),
            ParseTree::Over(tree) => tree.children(),
            ParseTree::WindowFrame(tree) => tree.children(),
            ParseTree::UnboundedFrame(tree) => tree.children(),
            ParseTree::CurrentRowBound(tree) => tree.children(),
            ParseTree::BoundedFrame(tree) => tree.children(),
            ParseTree::UnicodeString(tree) => tree.children(),
            ParseTree::ConfigureExpression(tree) => tree.children(),
            ParseTree::SubqueryExpression(tree) => tree.children(),
            ParseTree::Grouping(tree) => tree.children(),
            ParseTree::Extract(tree) => tree.children(),
            ParseTree::CurrentTime(tree) => tree.children(),
            ParseTree::CurrentTimestamp(tree) => tree.children(),
            ParseTree::Normalize(tree) => tree.children(),
            ParseTree::Localtime(tree) => tree.children(),
            ParseTree::Localtimestamp(tree) => tree.children(),
            ParseTree::Cast(tree) => tree.children(),
            ParseTree::WhenClause(tree) => tree.children(),
            ParseTree::Case(tree) => tree.children(),
            ParseTree::Exists(tree) => tree.children(),
            ParseTree::TypeConstructor(tree) => tree.children(),
            ParseTree::Array(tree) => tree.children(),
            ParseTree::Interval(tree) => tree.children(),
            ParseTree::Row(tree) => tree.children(),
            ParseTree::TryCast(tree) => tree.children(),
            ParseTree::Substring(tree) => tree.children(),
            ParseTree::Position(tree) => tree.children(),
            ParseTree::ArrayTypeSuffix(tree) => tree.children(),
            ParseTree::NamedType(tree) => tree.children(),
            ParseTree::ArrayType(tree) => tree.children(),
            ParseTree::MapType(tree) => tree.children(),
            ParseTree::RowType(tree) => tree.children(),
            ParseTree::RowTypeElement(tree) => tree.children(),
            ParseTree::IntervalType(tree) => tree.children(),
            ParseTree::IfNotExists(tree) => tree.children(),
            ParseTree::CreateTable(tree) => tree.children(),
            ParseTree::CreateView(tree) => tree.children(),
            ParseTree::CreateRole(tree) => tree.children(),
            ParseTree::WithAdminGrantor(tree) => tree.children(),
            ParseTree::UserPrincipal(tree) => tree.children(),
            ParseTree::RolePrincipal(tree) => tree.children(),
            ParseTree::UnspecifiedPrincipal(tree) => tree.children(),
            ParseTree::CreateTableAsSelect(tree) => tree.children(),
            ParseTree::WithProperties(tree) => tree.children(),
            ParseTree::Property(tree) => tree.children(),
            ParseTree::WithData(tree) => tree.children(),
            ParseTree::Comment(tree) => tree.children(),
            ParseTree::ColumnDefinition(tree) => tree.children(),
            ParseTree::NotNull(tree) => tree.children(),
            ParseTree::LikeClause(tree) => tree.children(),
            ParseTree::InsertInto(tree) => tree.children(),
            ParseTree::Delete(tree) => tree.children(),
            ParseTree::GroupingSet(tree) => tree.children(),
            ParseTree::RelationOrQuery(tree) => tree.children(),
            ParseTree::EmptyGroupingSet(tree) => tree.children(),
            ParseTree::ExpressionOrQuery(tree) => tree.children(),
            ParseTree::Entrypoint(tree) => tree.children(),
            ParseTree::NullTreatment(tree) => tree.children(),
        }
    }

    pub fn get_first_child(&self) -> (r: &ParseTree<'a>)
        ensures
            *r == first_child_of(*self),
    {
        match self {
            ParseTree::Token(_) => self,
            ParseTree::List(list) => &list.start_delimiter,
            ParseTree::Error(_) => self,
            ParseTree::Empty(_) => self,
            ParseTree::Query(tree) => tree.get_first_child(),
            ParseTree::With(tree) => tree.get_first_child(),
            ParseTree::NamedQuery(tree) => tree.get_first_child(),
            ParseTree::QueryNoWith(tree) => tree.get_first_child(),
            ParseTree::OrderBy(tree) => tree.get_first_child(),
            ParseTree::Limit(tree) => tree.get_first_child(),
            ParseTree::QuerySetOperation(tree) => tree.get_first_child(),
            ParseTree::SortItem(tree) => tree.get_first_child(),
            ParseTree::Subquery(tree) => tree.get_first_child(),
            ParseTree::InlineTable(tree) => tree.get_first_child(),
            ParseTree::Table(tree) => tree.get_first_child(),
            ParseTree::QuerySpecification(tree) => tree.get_first_child(),
            ParseTree::QualifiedName(tree) => tree.get_first_child(),
            ParseTree::SelectAll(tree) => tree.get_first_child(),
            ParseTree::QualifiedSelectAll(tree) => tree.get_first_child(),
            ParseTree::SelectItem(tree) => tree.get_first_child(),
            ParseTree::SubqueryRelation(tree) => tree.get_first_child(),
            ParseTree::ParenthesizedRelation(tree) => tree.get_first_child(),
            ParseTree::TableName(tree) => tree.get_first_child(),
            ParseTree::Lateral(tree) => tree.get_first_child(),
            ParseTree::Unnest(tree) => tree.get_first_child(),
            ParseTree::SampledRelation(tree) => tree.get_first_child(),
            ParseTree::AliasedRelation(tree) => tree.get_first_child(),
            ParseTree::CrossJoin(tree) => tree.get_first_child(),
            ParseTree::Join(tree) => tree.get_first_child(),
            ParseTree::NaturalJoin(tree) => tree.get_first_child(),
            ParseTree::OuterJoinKind(tree) => tree.get_first_child(),
            ParseTree::OnJoinCriteria(tree) => tree.get_first_child(),
            ParseTree::UsingJoinCriteria(tree) => tree.get_first_child(),
            ParseTree::GroupBy(tree) => tree.get_first_child(),
            ParseTree::Rollup(tree) => tree.get_first_child(),
            ParseTree::Cube(tree) => tree.get_first_child(),
            ParseTree::GroupingSets(tree) => tree.get_first_child(),
            ParseTree::BinaryExpression(tree) => tree.get_first_child(),
            ParseTree::UnaryExpression(tree) => tree.get_first_child(),
            ParseTree::QuantifiedComparison(tree) => tree.get_first_child(),
            ParseTree::NullPredicate(tree) => tree.get_first_child(),
            ParseTree::DistinctFrom(tree) => tree.get_first_child(),
            ParseTree::Between(tree) => tree.get_first_child(),
            ParseTree::Like(tree) => tree.get_first_child(),
            ParseTree::InSubquery(tree) => tree.get_first_child(),
            ParseTree::InList(tree) => tree.get_first_child(),
            ParseTree::AtTimeZone(tree) => tree.get_first_child(),
            ParseTree::Dereference(tree) => tree.get_first_child(),
            ParseTree::Subscript(tree) => tree.get_first_child(),
            ParseTree::Lambda(tree) => tree.get_first_child(),
            ParseTree::Literal(tree) => tree.get_first_child(),
            ParseTree::RowConstructor(tree) => tree.get_first_child(),
            ParseTree::ParenthesizedExpression(tree) => tree.get_first_child(),
            ParseTree::Identifier(tree) => tree.get_first_child(),
            ParseTree::FunctionCall(tree) => tree.get_first_child(),
            ParseTree::Filter(tree) => tree.get_first_child(),
            ParseTree::Over(tree) => tree.get_first_child(),
            ParseTree::WindowFrame(tree) => tree.get_first_child(),
            ParseTree::UnboundedFrame(tree) => tree.get_first_child(),
            ParseTree::CurrentRowBound(tree) => tree.get_first_child(),
            ParseTree::BoundedFrame(tree) => tree.get_first_child(),
            ParseTree::UnicodeString(tree) => tree.get_first_child(),
            ParseTree::ConfigureExpression(tree) => tree.get_first_child(),
            ParseTree::SubqueryExpression(tree) => tree.get_first_child(),
            ParseTree::Grouping(tree) => tree.get_first_child(),
            ParseTree::Extract(tree) => tree.get_first_child(),
            ParseTree::CurrentTime(tree) => tree.get_first_child(),
            ParseTree::CurrentTimestamp(tree) => tree.get_first_child(),
            ParseTree::Normalize(tree) => tree.get_first_child(),
            ParseTree::Localtime(tree) => tree.get_first_child(),
            ParseTree::Localtimestamp(tree) => tree.get_first_child(),
            ParseTree::Cast(tree) => tree.get_first_child(),
            ParseTree::WhenClause(tree) => tree.get_first_child(),
            ParseTree::Case(tree) => tree.get_first_child(),
            ParseTree::Exists(tree) => tree.get_first_child(),
            ParseTree::TypeConstructor(tree) => tree.get_first_child(),
            ParseTree::Array(tree) => tree.get_first_child(),
            ParseTree::Interval(tree) => tree.get_first_child(),
            ParseTree::Row(tree) => tree.get_first_child(),
            ParseTree::TryCast(tree) => tree.get_first_child(),
            ParseTree::Substring(tree) => tree.get_first_child(),
            ParseTree::Position(tree) => tree.get_first_child(),
            ParseTree::ArrayTypeSuffix(tree) => tree.get_first_child(),
            ParseTree::NamedType(tree) => tree.get_first_child(),
            ParseTree::ArrayType(tree) => tree.get_first_child(),
            ParseTree::MapType(tree) => tree.get_first_child(),
            ParseTree::RowType(tree) => tree.get_first_child(),
            ParseTree::RowTypeElement(tree) => tree.get_first_child(),
            ParseTree::IntervalType(tree) => tree.get_first_child(),
            ParseTree::IfNotExists(tree) => tree.get_first_child(),
            ParseTree::CreateTable(tree) => tree.get_first_child(),
            ParseTree::CreateView(tree) => tree.get_first_child(),
            ParseTree::CreateRole(tree) => tree.get_first_child(),
            ParseTree::WithAdminGrantor(tree) => tree.get_first_child(),
            ParseTree::UserPrincipal(tree) => tree.get_first_child(),
            ParseTree::RolePrincipal(tree) => tree.get_first_child(),
            ParseTree::UnspecifiedPrincipal(tree) => tree.get_first_child(),
            ParseTree::CreateTableAsSelect(tree) => tree.get_first_child(),
            ParseTree::WithProperties(tree) => tree.get_first_child(),
            ParseTree::Property(tree) => tree.get_first_child(),
            ParseTree::WithData(tree) => tree.get_first_child(),
            ParseTree::Comment(tree) => tree.get_first_child(),
            ParseTree::ColumnDefinition(tree) => tree.get_first_child(),
            ParseTree::NotNull(tree) => tree.get_first_child(),
            ParseTree::LikeClause(tree) => tree.get_first_child(),
            ParseTree::InsertInto(tree) => tree.get_first_child(),
            ParseTree::Delete(tree) => tree.get_first_child(),
            ParseTree::GroupingSet(tree) => tree.get_first_child(),
            ParseTree::RelationOrQuery(tree) => tree.get_first_child(),
            ParseTree::EmptyGroupingSet(tree) => tree.get_first_child(),
            ParseTree::ExpressionOrQuery(tree) => tree.get_first_child(),
            ParseTree::Entrypoint(tree) => tree.get_first_child(),
            ParseTree::NullTreatment(tree) => tree.get_first_child(),
        }
    }

    pub fn get_last_child(&self) -> (r: &ParseTree<'a>)
        ensures
            *r == last_child_of(*self),
    {
        match self {
            ParseTree::Token(_) => self,
            ParseTree::List(list) => &list.end_delimiter,
            ParseTree::Error(_) => self,
            ParseTree::Empty(_) => self,
            ParseTree::Query(tree) => tree.get_last_child(),
            ParseTree::With(tree) => tree.get_last_child(),
            ParseTree::NamedQuery(tree) => tree.get_last_child(),
            ParseTree::QueryNoWith(tree) => tree.get_last_child(),
            ParseTree::OrderBy(tree) => tree.get_last_child(),
            ParseTree::Limit(tree) => tree.get_last_child(),
            ParseTree::QuerySetOperation(tree) => tree.get_last_child(),
            ParseTree::SortItem(tree) => tree.get_last_child(),
            ParseTree::Subquery(tree) => tree.get_last_child(),
            ParseTree::InlineTable(tree) => tree.get_last_child(),
            ParseTree::Table(tree) => tree.get_last_child(),
            ParseTree::QuerySpecification(tree) => tree.get_last_child(),
            ParseTree::QualifiedName(tree) => tree.get_last_child(),
            ParseTree::SelectAll(tree) => tree.get_last_child(),
            ParseTree::QualifiedSelectAll(tree) => tree.get_last_child(),
            ParseTree::SelectItem(tree) => tree.get_last_child(),
            ParseTree::SubqueryRelation(tree) => tree.get_last_child(),
            ParseTree::ParenthesizedRelation(tree) => tree.get_last_child(),
            ParseTree::TableName(tree) => tree.get_last_child(),
            ParseTree::Lateral(tree) => tree.get_last_child(),
            ParseTree::Unnest(tree) => tree.get_last_child(),
            ParseTree::SampledRelation(tree) => tree.get_last_child(),
            ParseTree::AliasedRelation(tree) => tree.get_last_child(),
            ParseTree::CrossJoin(tree) => tree.get_last_child(),
            ParseTree::Join(tree) => tree.get_last_child(),
            ParseTree::NaturalJoin(tree) => tree.get_last_child(),
            ParseTree::OuterJoinKind(tree) => tree.get_last_child(),
            ParseTree::OnJoinCriteria(tree) => tree.get_last_child(),
            ParseTree::UsingJoinCriteria(tree) => tree.get_last_child(),
            ParseTree::GroupBy(tree) => tree.get_last_child(),
            ParseTree::Rollup(tree) => tree.get_last_child(),
            ParseTree::Cube(tree) => tree.get_last_child(),
            ParseTree::GroupingSets(tree) => tree.get_last_child(),
            ParseTree::BinaryExpression(tree) => tree.get_last_child(),
            ParseTree::UnaryExpression(tree) => tree.get_last_child(),
            ParseTree::QuantifiedComparison(tree) => tree.get_last_child(),
            ParseTree::NullPredicate(tree) => tree.get_last_child(),
            ParseTree::DistinctFrom(tree) => tree.get_last_child(),
            ParseTree::Between(tree) => tree.get_last_child(),
            ParseTree::Like(tree) => tree.get_last_child(),
            ParseTree::InSubquery(tree) => tree.get_last_child(),
            ParseTree::InList(tree) => tree.get_last_child(),
            ParseTree::AtTimeZone(tree) => tree.get_last_child(),
            ParseTree::Dereference(tree) => tree.get_last_child(),
            ParseTree::Subscript(tree) => tree.get_last_child(),
            ParseTree::Lambda(tree) => tree.get_last_child(),
            ParseTree::Literal(tree) => tree.get_last_child(),
            ParseTree::RowConstructor(tree) => tree.get_last_child(),
            ParseTree::ParenthesizedExpression(tree) => tree.get_last_child(),
            ParseTree::Identifier(tree) => tree.get_last_child(),
            ParseTree::FunctionCall(tree) => tree.get_last_child(),
            ParseTree::Filter(tree) => tree.get_last_child(),
            ParseTree::Over(tree) => tree.get_last_child(),
            ParseTree::WindowFrame(tree) => tree.get_last_child(),
            ParseTree::UnboundedFrame(tree) => tree.get_last_child(),
            ParseTree::CurrentRowBound(tree) => tree.get_last_child(),
            ParseTree::BoundedFrame(tree) => tree.get_last_child(),
            ParseTree::UnicodeString(tree) => tree.get_last_child(),
            ParseTree::ConfigureExpression(tree) => tree.get_last_child(),
            ParseTree::SubqueryExpression(tree) => tree.get_last_child(),
            ParseTree::Grouping(tree) => tree.get_last_child(),
            ParseTree::Extract(tree) => tree.get_last_child(),
            ParseTree::CurrentTime(tree) => tree.get_last_child(),
            ParseTree::CurrentTimestamp(tree) => tree.get_last_child(),
            ParseTree::Normalize(tree) => tree.get_last_child(),
            ParseTree::Localtime(tree) => tree.get_last_child(),
            ParseTree::Localtimestamp(tree) => tree.get_last_child(),
            ParseTree::Cast(tree) => tree.get_last_child(),
            ParseTree::WhenClause(tree) => tree.get_last_child(),
            ParseTree::Case(tree) => tree.get_last_child(),
            ParseTree::Exists(tree) => tree.get_last_child(),
            ParseTree::TypeConstructor(tree) => tree.get_last_child(),
            ParseTree::Array(tree) => tree.get_last_child(),
            ParseTree::Interval(tree) => tree.get_last_child(),
            ParseTree::Row(tree) => tree.get_last_child(),
            ParseTree::TryCast(tree) => tree.get_last_child(),
            ParseTree::Substring(tree) => tree.get_last_child(),
            ParseTree::Position(tree) => tree.get_last_child(),
            ParseTree::ArrayTypeSuffix(tree) => tree.get_last_child(),
            ParseTree::NamedType(tree) => tree.get_last_child(),
            ParseTree::ArrayType(tree) => tree.get_last_child(),
            ParseTree::MapType(tree) => tree.get_last_child(),
            ParseTree::RowType(tree) => tree.get_last_child(),
            ParseTree::RowTypeElement(tree) => tree.get_last_child(),
            ParseTree::IntervalType(tree) => tree.get_last_child(),
            ParseTree::IfNotExists(tree) => tree.get_last_child(),
            ParseTree::CreateTable(tree) => tree.get_last_child(),
            ParseTree::CreateView(tree) => tree.get_last_child(),
            ParseTree::CreateRole(tree) => tree.get_last_child(),
            ParseTree::WithAdminGrantor(tree) => tree.get_last_child(),
            ParseTree::UserPrincipal(tree) => tree.get_last_child(),
            ParseTree::RolePrincipal(tree) => tree.get_last_child(),
            ParseTree::UnspecifiedPrincipal(tree) => tree.get_last_child(),
            ParseTree::CreateTableAsSelect(tree) => tree.get_last_child(),
            ParseTree::WithProperties(tree) => tree.get_last_child(),
            ParseTree::Property(tree) => tree.get_last_child(),
            ParseTree::WithData(tree) => tree.get_last_child(),
            ParseTree::Comment(tree) => tree.get_last_child(),
            ParseTree::ColumnDefinition(tree) => tree.get_last_child(),
            ParseTree::NotNull(tree) => tree.get_last_child(),
            ParseTree::LikeClause(tree) => tree.get_last_child(),
            ParseTree::InsertInto(tree) => tree.get_last_child(),
            ParseTree::Delete(tree) => tree.get_last_child(),
            ParseTree::GroupingSet(tree) => tree.get_last_child(),
            ParseTree::RelationOrQuery(tree) => tree.get_last_child(),
            ParseTree::EmptyGroupingSet(tree) => tree.get_last_child(),
            ParseTree::ExpressionOrQuery(tree) => tree.get_last_child(),
            ParseTree::Entrypoint(tree) => tree.get_last_child(),
            ParseTree::NullTreatment(tree) => tree.get_last_child(),
        }
    }

    pub fn get_first_token(&self) -> (r: Option<&token::Token<'a>>)
        ensures
            deref_opt(r) == first_of(tokens_of(*self)),
        decreases *self, 1nat,
    {
        match self {
            ParseTree::Token(token) => {
                assert(tokens_of(*self) == seq![token.token]) by {
                    reveal_with_fuel(tokens_of, 1);
                }
                Some(&token.token)
            },
            ParseTree::List(list) => list.get_first_token(),
            ParseTree::Error(_) => {
                assert(tokens_of(*self) == Seq::<token::Token<'a>>::empty()) by {
                    reveal_with_fuel(tokens_of, 1);
                }
                None
            },
            ParseTree::Empty(_) => {
                assert(tokens_of(*self) == Seq::<token::Token<'a>>::empty()) by {
                    reveal_with_fuel(tokens_of, 1);
                }
                None
            },
            ParseTree::Query(tree) => tree.get_first_token(),
            ParseTree::With(tree) => tree.get_first_token(),
            ParseTree::NamedQuery(tree) => tree.get_first_token(),
            ParseTree::QueryNoWith(tree) => tree.get_first_token(),
            ParseTree::OrderBy(tree) => tree.get_first_token(),
            ParseTree::Limit(tree) => tree.get_first_token(),
            ParseTree::QuerySetOperation(tree) => tree.get_first_token(),
            ParseTree::SortItem(tree) => tree.get_first_token(),
            ParseTree::Subquery(tree) => tree.get_first_token(),
            ParseTree::InlineTable(tree) => tree.get_first_token(),
            ParseTree::Table(tree) => tree.get_first_token(),
            ParseTree::QuerySpecification(tree) => tree.get_first_token(),
            ParseTree::QualifiedName(tree) => tree.get_first_token(),
            ParseTree::SelectAll(tree) => tree.get_first_token(),
            ParseTree::QualifiedSelectAll(tree) => tree.get_first_token(),
            ParseTree::SelectItem(tree) => tree.get_first_token(),
            ParseTree::SubqueryRelation(tree) => tree.get_first_token(),
            ParseTree::ParenthesizedRelation(tree) => tree.get_first_token(),
            ParseTree::TableName(tree) => tree.get_first_token(),
            ParseTree::Lateral(tree) => tree.get_first_token(),
            ParseTree::Unnest(tree) => tree.get_first_token(),
            ParseTree::SampledRelation(tree) => tree.get_first_token(),
            ParseTree::AliasedRelation(tree) => tree.get_first_token(),
            ParseTree::CrossJoin(tree) => tree.get_first_token(),
            ParseTree::Join(tree) => tree.get_first_token(),
            ParseTree::NaturalJoin(tree) => tree.get_first_token(),
            ParseTree::OuterJoinKind(tree) => tree.get_first_token(),
            ParseTree::OnJoinCriteria(tree) => tree.get_first_token(),
            ParseTree::UsingJoinCriteria(tree) => tree.get_first_token(),
            ParseTree::GroupBy(tree) => tree.get_first_token(),
            ParseTree::Rollup(tree) => tree.get_first_token(),
            ParseTree::Cube(tree) => tree.get_first_token(),
            ParseTree::GroupingSets(tree) => tree.get_first_token(),
            ParseTree::BinaryExpression(tree) => tree.get_first_token(),
            ParseTree::UnaryExpression(tree) => tree.get_first_token(),
            ParseTree::QuantifiedComparison(tree) => tree.get_first_token(),
            ParseTree::NullPredicate(tree) => tree.get_first_token(),
            ParseTree::DistinctFrom(tree) => tree.get_first_token(),
            ParseTree::Between(tree) => tree.get_first_token(),
            ParseTree::Like(tree) => tree.get_first_token(),
            ParseTree::InSubquery(tree) => tree.get_first_token(),
            ParseTree::InList(tree) => tree.get_first_token(),
            ParseTree::AtTimeZone(tree) => tree.get_first_token(),
            ParseTree::Dereference(tree) => tree.get_first_token(),
            ParseTree::Subscript(tree) => tree.get_first_token(),
            ParseTree::Lambda(tree) => tree.get_first_token(),
            ParseTree::Literal(tree) => tree.get_first_token(),
            ParseTree::RowConstructor(tree) => tree.get_first_token(),
            ParseTree::ParenthesizedExpression(tree) => tree.get_first_token(),
            ParseTree::Identifier(tree) => tree.get_first_token(),
            ParseTree::FunctionCall(tree) => tree.get_first_token(),
            ParseTree::Filter(tree) => tree.get_first_token(),
            ParseTree::Over(tree) => tree.get_first_token(),
            ParseTree::WindowFrame(tree) => tree.get_first_token(),
            ParseTree::UnboundedFrame(tree) => tree.get_first_token(),
            ParseTree::CurrentRowBound(tree) => tree.get_first_token(),
            ParseTree::BoundedFrame(tree) => tree.get_first_token(),
            ParseTree::UnicodeString(tree) => tree.get_first_token(),
            ParseTree::ConfigureExpression(tree) => tree.get_first_token(),
            ParseTree::SubqueryExpression(tree) => tree.get_first_token(),
            ParseTree::Grouping(tree) => tree.get_first_token(),
            ParseTree::Extract(tree) => tree.get_first_token(),
            ParseTree::CurrentTime(tree) => tree.get_first_token(),
            ParseTree::CurrentTimestamp(tree) => tree.get_first_token(),
            ParseTree::Normalize(tree) => tree.get_first_token(),
            ParseTree::Localtime(tree) => tree.get_first_token(),
            ParseTree::Localtimestamp(tree) => tree.get_first_token(),
            ParseTree::Cast(tree) => tree.get_first_token(),
            ParseTree::WhenClause(tree) => tree.get_first_token(),
            ParseTree::Case(tree) => tree.get_first_token(),
            ParseTree::Exists(tree) => tree.get_first_token(),
            ParseTree::TypeConstructor(tree) => tree.get_first_token(),
            ParseTree::Array(tree) => tree.get_first_token(),
            ParseTree::Interval(tree) => tree.get_first_token(),
            ParseTree::Row(tree) => tree.get_first_token(),
            ParseTree::TryCast(tree) => tree.get_first_token(),
            ParseTree::Substring(tree) => tree.get_first_token(),
            ParseTree::Position(tree) => tree.get_first_token(),
            ParseTree::ArrayTypeSuffix(tree) => tree.get_first_token(),
            ParseTree::NamedType(tree) => tree.get_first_token(),
            ParseTree::ArrayType(tree) => tree.get_first_token(),
            ParseTree::MapType(tree) => tree.get_first_token(),
            ParseTree::RowType(tree) => tree.get_first_token(),
            ParseTree::RowTypeElement(tree) => tree.get_first_token(),
            ParseTree::IntervalType(tree) => tree.get_first_token(),
            ParseTree::IfNotExists(tree) => tree.get_first_token(),
            ParseTree::CreateTable(tree) => tree.get_first_token(),
            ParseTree::CreateView(tree) => tree.get_first_token(),
            ParseTree::CreateRole(tree) => tree.get_first_token(),
            ParseTree::WithAdminGrantor(tree) => tree.get_first_token(),
            ParseTree::UserPrincipal(tree) => tree.get_first_token(),
            ParseTree::RolePrincipal(tree) => tree.get_first_token(),
            ParseTree::UnspecifiedPrincipal(tree) => tree.get_first_token(),
            ParseTree::CreateTableAsSelect(tree) => tree.get_first_token(),
            ParseTree::WithProperties(tree) => tree.get_first_token(),
            ParseTree::Property(tree) => tree.get_first_token(),
            ParseTree::WithData(tree) => tree.get_first_token(),
            ParseTree::Comment(tree) => tree.get_first_token(),
            ParseTree::ColumnDefinition(tree) => tree.get_first_token(),
            ParseTree::NotNull(tree) => tree.get_first_token(),
            ParseTree::LikeClause(tree) => tree.get_first_token(),
            ParseTree::InsertInto(tree) => tree.get_first_token(),
            ParseTree::Delete(tree) => tree.get_first_token(),
            ParseTree::GroupingSet(tree) => tree.get_first_token(),
            ParseTree::RelationOrQuery(tree) => tree.get_first_token(),
            ParseTree::EmptyGroupingSet(tree) => tree.get_first_token(),
            ParseTree::ExpressionOrQuery(tree) => tree.get_first_token(),
            ParseTree::Entrypoint(tree) => tree.get_first_token(),
            ParseTree::NullTreatment(tree) => tree.get_first_token(),
        }
    }

    pub fn get_last_token(&self) -> (r: Option<&token::Token<'a>>)
        ensures
            deref_opt(r) == last_of(tokens_of(*self)),
        decreases *self, 1nat,
    {
        match self {
            ParseTree::Token(token) => {
                assert(tokens_of(*self) == seq![token.token]) by {
                    reveal_with_fuel(tokens_of, 1);
                }
                Some(&token.token)
            },
            ParseTree::List(list) => list.get_last_token(),
            ParseTree::Error(_) => {
                assert(tokens_of(*self) == Seq::<token::Token<'a>>::empty()) by {
                    reveal_with_fuel(tokens_of, 1);
                }
                None
            },
            ParseTree::Empty(_) => {
                assert(tokens_of(*self) == Seq::<token::Token<'a>>::empty()) by {
                    reveal_with_fuel(tokens_of, 1);
                }
                None
            },
            ParseTree::Query(tree) => tree.get_last_token(),
            ParseTree::With(tree) => tree.get_last_token(),
            ParseTree::NamedQuery(tree) => tree.get_last_token(),
            ParseTree::QueryNoWith(tree) => tree.get_last_token(),
            ParseTree::OrderBy(tree) => tree.get_last_token(),
            ParseTree::Limit(tree) => tree.get_last_token(),
            ParseTree::QuerySetOperation(tree) => tree.get_last_token(),
            ParseTree::SortItem(tree) => tree.get_last_token(),
            ParseTree::Subquery(tree) => tree.get_last_token(),
            ParseTree::InlineTable(tree) => tree.get_last_token(),
            ParseTree::Table(tree) => tree.get_last_token(),
            ParseTree::QuerySpecification(tree) => tree.get_last_token(),
            ParseTree::QualifiedName(tree) => tree.get_last_token(),
            ParseTree::SelectAll(tree) => tree.get_last_token(),
            ParseTree::QualifiedSelectAll(tree) => tree.get_last_token(),
            ParseTree::SelectItem(tree) => tree.get_last_token(),
            ParseTree::SubqueryRelation(tree) => tree.get_last_token(),
            ParseTree::ParenthesizedRelation(tree) => tree.get_last_token(),
            ParseTree::TableName(tree) => tree.get_last_token(),
            ParseTree::Lateral(tree) => tree.get_last_token(),
            ParseTree::Unnest(tree) => tree.get_last_token(),
            ParseTree::SampledRelation(tree) => tree.get_last_token(),
            ParseTree::AliasedRelation(tree) => tree.get_last_token(),
            ParseTree::CrossJoin(tree) => tree.get_last_token(),
            ParseTree::Join(tree) => tree.get_last_token(),
            ParseTree::NaturalJoin(tree) => tree.get_last_token(),
            ParseTree::OuterJoinKind(tree) => tree.get_last_token(),
            ParseTree::OnJoinCriteria(tree) => tree.get_last_token(),
            ParseTree::UsingJoinCriteria(tree) => tree.get_last_token(),
            ParseTree::GroupBy(tree) => tree.get_last_token(),
            ParseTree::Rollup(tree) => tree.get_last_token(),
            ParseTree::Cube(tree) => tree.get_last_token(),
            ParseTree::GroupingSets(tree) => tree.get_last_token(),
            ParseTree::BinaryExpression(tree) => tree.get_last_token(),
            ParseTree::UnaryExpression(tree) => tree.get_last_token(),
            ParseTree::QuantifiedComparison(tree) => tree.get_last_token(),
            ParseTree::NullPredicate(tree) => tree.get_last_token(),
            ParseTree::DistinctFrom(tree) => tree.get_last_token(),
            ParseTree::Between(tree) => tree.get_last_token(),
            ParseTree::Like(tree) => tree.get_last_token(),
            ParseTree::InSubquery(tree) => tree.get_last_token(),
            ParseTree::InList(tree) => tree.get_last_token(),
            ParseTree::AtTimeZone(tree) => tree.get_last_token(),
            ParseTree::Dereference(tree) => tree.get_last_token(),
            ParseTree::Subscript(tree) => tree.get_last_token(),
            ParseTree::Lambda(tree) => tree.get_last_token(),
            ParseTree::Literal(tree) => tree.get_last_token(),
            ParseTree::RowConstructor(tree) => tree.get_last_token(),
            ParseTree::ParenthesizedExpression(tree) => tree.get_last_token(),
            ParseTree::Identifier(tree) => tree.get_last_token(),
            ParseTree::FunctionCall(tree) => tree.get_last_token(),
            ParseTree::Filter(tree) => tree.get_last_token(),
            ParseTree::Over(tree) => tree.get_last_token(),
            ParseTree::WindowFrame(tree) => tree.get_last_token(),
            ParseTree::UnboundedFrame(tree) => tree.get_last_token(),
            ParseTree::CurrentRowBound(tree) => tree.get_last_token(),
            ParseTree::BoundedFrame(tree) => tree.get_last_token(),
            ParseTree::UnicodeString(tree) => tree.get_last_token(),
            ParseTree::ConfigureExpression(tree) => tree.get_last_token(),
            ParseTree::SubqueryExpression(tree) => tree.get_last_token(),
            ParseTree::Grouping(tree) => tree.get_last_token(),
            ParseTree::Extract(tree) => tree.get_last_token(),
            ParseTree::CurrentTime(tree) => tree.get_last_token(),
            ParseTree::CurrentTimestamp(tree) => tree.get_last_token(),
            ParseTree::Normalize(tree) => tree.get_last_token(),
            ParseTree::Localtime(tree) => tree.get_last_token(),
            ParseTree::Localtimestamp(tree) => tree.get_last_token(),
            ParseTree::Cast(tree) => tree.get_last_token(),
            ParseTree::WhenClause(tree) => tree.get_last_token(),
            ParseTree::Case(tree) => tree.get_last_token(),
            ParseTree::Exists(tree) => tree.get_last_token(),
            ParseTree::TypeConstructor(tree) => tree.get_last_token(),
            ParseTree::Array(tree) => tree.get_last_token(),
            ParseTree::Interval(tree) => tree.get_last_token(),
            ParseTree::Row(tree) => tree.get_last_token(),
            ParseTree::TryCast(tree) => tree.get_last_token(),
            ParseTree::Substring(tree) => tree.get_last_token(),
            ParseTree::Position(tree) => tree.get_last_token(),
            ParseTree::ArrayTypeSuffix(tree) => tree.get_last_token(),
            ParseTree::NamedType(tree) => tree.get_last_token(),
            ParseTree::ArrayType(tree) => tree.get_last_token(),
            ParseTree::MapType(tree) => tree.get_last_token(),
            ParseTree::RowType(tree) => tree.get_last_token(),
            ParseTree::RowTypeElement(tree) => tree.get_last_token(),
            ParseTree::IntervalType(tree) => tree.get_last_token(),
            ParseTree::IfNotExists(tree) => tree.get_last_token(),
            ParseTree::CreateTable(tree) => tree.get_last_token(),
            ParseTree::CreateView(tree) => tree.get_last_token(),
            ParseTree::CreateRole(tree) => tree.get_last_token(),
            ParseTree::WithAdminGrantor(tree) => tree.get_last_token(),
            ParseTree::UserPrincipal(tree) => tree.get_last_token(),
            ParseTree::RolePrincipal(tree) => tree.get_last_token(),
            ParseTree::UnspecifiedPrincipal(tree) => tree.get_last_token(),
            ParseTree::CreateTableAsSelect(tree) => tree.get_last_token(),
            ParseTree::WithProperties(tree) => tree.get_last_token(),
            ParseTree::Property(tree) => tree.get_last_token(),
            ParseTree::WithData(tree) => tree.get_last_token(),
            ParseTree::Comment(tree) => tree.get_last_token(),
            ParseTree::ColumnDefinition(tree) => tree.get_last_token(),
            ParseTree::NotNull(tree) => tree.get_last_token(),
            ParseTree::LikeClause(tree) => tree.get_last_token(),
            ParseTree::InsertInto(tree) => tree.get_last_token(),
            ParseTree::Delete(tree) => tree.get_last_token(),
            ParseTree::GroupingSet(tree) => tree.get_last_token(),
            ParseTree::RelationOrQuery(tree) => tree.get_last_token(),
            ParseTree::EmptyGroupingSet(tree) => tree.get_last_token(),
            ParseTree::ExpressionOrQuery(tree) => tree.get_last_token(),
            ParseTree::Entrypoint(tree) => tree.get_last_token(),
            ParseTree::NullTreatment(tree) => tree.get_last_token(),
        }
    }
}

} // verus!
