//! Laws of parse trees.
use super::parse_tree::{
    children_of, is_leaf, pair_children, pairs_tokens, tokens_of, tokens_of_all, ParseTree,
};
use crate::lexing::token::Token;
use vstd::prelude::*;

verus! {

/// The tokens of a sequence of trees with one more tree at its end.
pub proof fn lemma_tokens_of_all_push<'a>(s: Seq<ParseTree<'a>>, t: ParseTree<'a>)
    ensures
        tokens_of_all(s.push(t)) == tokens_of_all(s) + tokens_of(t),
{
    assert(s.push(t).drop_last() =~= s);
}

/// The tokens of two sequences of trees, one after the other.
pub proof fn lemma_tokens_of_all_append<'a>(a: Seq<ParseTree<'a>>, b: Seq<ParseTree<'a>>)
    ensures
        tokens_of_all(a + b) == tokens_of_all(a) + tokens_of_all(b),
    decreases b.len(),
{
    if b.len() == 0 {
        assert(a + b =~= a);
        assert(tokens_of_all(b) =~= Seq::<Token<'a>>::empty());
    } else {
        lemma_tokens_of_all_append(a, b.drop_last());
        assert((a + b).drop_last() =~= a + b.drop_last());
        assert((a + b).last() == b.last());
    }
}

/// The tokens of a sequence of one tree are the tokens of that tree.
pub proof fn lemma_tokens_of_all_one<'a>(t: ParseTree<'a>)
    ensures
        tokens_of_all(seq![t]) == tokens_of(t),
{
    let e = Seq::<ParseTree<'a>>::empty();
    lemma_tokens_of_all_push(e, t);
    assert(e.push(t) =~= seq![t]);
    assert(Seq::<Token<'a>>::empty() + tokens_of(t) =~= tokens_of(t));
}

/// The tokens of the elements and separators of a list, taken as trees.
pub proof fn lemma_pair_children_tokens<'a>(ps: Seq<(ParseTree<'a>, ParseTree<'a>)>)
    ensures
        tokens_of_all(pair_children(ps)) == pairs_tokens(ps),
    decreases ps.len(),
{
    reveal_with_fuel(tokens_of, 1);
    if ps.len() > 0 {
        let prefix = ps.drop_last();
        let (a, b) = ps.last();
        lemma_pair_children_tokens(prefix);
        lemma_tokens_of_all_one(a);
        lemma_tokens_of_all_push(seq![a], b);
        assert(seq![a].push(b) =~= seq![a, b]);
        lemma_tokens_of_all_append(pair_children(prefix), seq![a, b]);
        let p = pairs_tokens(prefix);
        assert(p + (tokens_of(a) + tokens_of(b)) =~= p + tokens_of(a) + tokens_of(b));
    }
}

/// The children of a tree are in source order: the tokens of a tree that is
/// not a leaf are the tokens of its children, one child after the other.
pub proof fn lemma_children_in_source_order<'a>(t: ParseTree<'a>)
    requires
        !is_leaf(t),
    ensures
        tokens_of(t) == tokens_of_all(children_of(t)),
{
    match t {
        ParseTree::Empty(_) => {},
        ParseTree::Token(_) => {},
        ParseTree::Error(_) => {},
        ParseTree::List(_) => lemma_list_tokens(t),
        ParseTree::Query(_) => lemma_query_tokens(t),
        ParseTree::With(_) => lemma_with_tokens(t),
        ParseTree::NamedQuery(_) => lemma_named_query_tokens(t),
        ParseTree::QueryNoWith(_) => lemma_query_no_with_tokens(t),
        ParseTree::OrderBy(_) => lemma_order_by_tokens(t),
        ParseTree::Limit(_) => lemma_limit_tokens(t),
        ParseTree::QuerySetOperation(_) => lemma_query_set_operation_tokens(t),
        ParseTree::SortItem(_) => lemma_sort_item_tokens(t),
        ParseTree::Subquery(_) => lemma_subquery_tokens(t),
        ParseTree::InlineTable(_) => lemma_inline_table_tokens(t),
        ParseTree::Table(_) => lemma_table_tokens(t),
        ParseTree::QuerySpecification(_) => lemma_query_specification_tokens(t),
        ParseTree::QualifiedName(_) => lemma_qualified_name_tokens(t),
        ParseTree::SelectAll(_) => lemma_select_all_tokens(t),
        ParseTree::QualifiedSelectAll(_) => lemma_qualified_select_all_tokens(t),
        ParseTree::SelectItem(_) => lemma_select_item_tokens(t),
        ParseTree::SubqueryRelation(_) => lemma_subquery_relation_tokens(t),
        ParseTree::ParenthesizedRelation(_) => lemma_parenthesized_relation_tokens(t),
        ParseTree::TableName(_) => lemma_table_name_tokens(t),
        ParseTree::Lateral(_) => lemma_lateral_tokens(t),
        ParseTree::Unnest(_) => lemma_unnest_tokens(t),
        ParseTree::SampledRelation(_) => lemma_sampled_relation_tokens(t),
        ParseTree::AliasedRelation(_) => lemma_aliased_relation_tokens(t),
        ParseTree::CrossJoin(_) => lemma_cross_join_tokens(t),
        ParseTree::Join(_) => lemma_join_tokens(t),
        ParseTree::NaturalJoin(_) => lemma_natural_join_tokens(t),
        ParseTree::OuterJoinKind(_) => lemma_outer_join_kind_tokens(t),
        ParseTree::OnJoinCriteria(_) => lemma_on_join_criteria_tokens(t),
        ParseTree::UsingJoinCriteria(_) => lemma_using_join_criteria_tokens(t),
        ParseTree::GroupBy(_) => lemma_group_by_tokens(t),
        ParseTree::Rollup(_) => lemma_rollup_tokens(t),
        ParseTree::Cube(_) => lemma_cube_tokens(t),
        ParseTree::GroupingSets(_) => lemma_grouping_sets_tokens(t),
        ParseTree::BinaryExpression(_) => lemma_binary_expression_tokens(t),
        ParseTree::UnaryExpression(_) => lemma_unary_expression_tokens(t),
        ParseTree::QuantifiedComparison(_) => lemma_quantified_comparison_tokens(t),
        ParseTree::NullPredicate(_) => lemma_null_predicate_tokens(t),
        ParseTree::DistinctFrom(_) => lemma_distinct_from_tokens(t),
        ParseTree::Between(_) => lemma_between_tokens(t),
        ParseTree::Like(_) => lemma_like_tokens(t),
        ParseTree::InSubquery(_) => lemma_in_subquery_tokens(t),
        ParseTree::InList(_) => lemma_in_list_tokens(t),
        ParseTree::AtTimeZone(_) => lemma_at_time_zone_tokens(t),
        ParseTree::Dereference(_) => lemma_dereference_tokens(t),
        ParseTree::Subscript(_) => lemma_subscript_tokens(t),
        ParseTree::Lambda(_) => lemma_lambda_tokens(t),
        ParseTree::Literal(_) => lemma_literal_tokens(t),
        ParseTree::RowConstructor(_) => lemma_row_constructor_tokens(t),
        ParseTree::ParenthesizedExpression(_) => lemma_parenthesized_expression_tokens(t),
        ParseTree::Identifier(_) => lemma_identifier_tokens(t),
        ParseTree::FunctionCall(_) => lemma_function_call_tokens(t),
        ParseTree::Filter(_) => lemma_filter_tokens(t),
        ParseTree::Over(_) => lemma_over_tokens(t),
        ParseTree::WindowFrame(_) => lemma_window_frame_tokens(t),
        ParseTree::UnboundedFrame(_) => lemma_unbounded_frame_tokens(t),
        ParseTree::CurrentRowBound(_) => lemma_current_row_bound_tokens(t),
        ParseTree::BoundedFrame(_) => lemma_bounded_frame_tokens(t),
        ParseTree::UnicodeString(_) => lemma_unicode_string_tokens(t),
        ParseTree::ConfigureExpression(_) => lemma_configure_expression_tokens(t),
        ParseTree::SubqueryExpression(_) => lemma_subquery_expression_tokens(t),
        ParseTree::Grouping(_) => lemma_grouping_tokens(t),
        ParseTree::Extract(_) => lemma_extract_tokens(t),
        ParseTree::CurrentTime(_) => lemma_current_time_tokens(t),
        ParseTree::CurrentTimestamp(_) => lemma_current_timestamp_tokens(t),
        ParseTree::Normalize(_) => lemma_normalize_tokens(t),
        ParseTree::Localtime(_) => lemma_localtime_tokens(t),
        ParseTree::Localtimestamp(_) => lemma_localtimestamp_tokens(t),
        ParseTree::Cast(_) => lemma_cast_tokens(t),
        ParseTree::WhenClause(_) => lemma_when_clause_tokens(t),
        ParseTree::Case(_) => lemma_case_tokens(t),
        ParseTree::Exists(_) => lemma_exists_tokens(t),
        ParseTree::TypeConstructor(_) => lemma_type_constructor_tokens(t),
        ParseTree::Array(_) => lemma_array_tokens(t),
        ParseTree::Interval(_) => lemma_interval_tokens(t),
        ParseTree::Row(_) => lemma_row_tokens(t),
        ParseTree::TryCast(_) => lemma_try_cast_tokens(t),
        ParseTree::Substring(_) => lemma_substring_tokens(t),
        ParseTree::Position(_) => lemma_position_tokens(t),
        ParseTree::ArrayTypeSuffix(_) => lemma_array_type_suffix_tokens(t),
        ParseTree::NamedType(_) => lemma_named_type_tokens(t),
        ParseTree::ArrayType(_) => lemma_array_type_tokens(t),
        ParseTree::MapType(_) => lemma_map_type_tokens(t),
        ParseTree::RowType(_) => lemma_row_type_tokens(t),
        ParseTree::RowTypeElement(_) => lemma_row_type_element_tokens(t),
        ParseTree::IntervalType(_) => lemma_interval_type_tokens(t),
        ParseTree::IfNotExists(_) => lemma_if_not_exists_tokens(t),
        ParseTree::CreateTable(_) => lemma_create_table_tokens(t),
        ParseTree::CreateView(_) => lemma_create_view_tokens(t),
        ParseTree::CreateRole(_) => lemma_create_role_tokens(t),
        ParseTree::WithAdminGrantor(_) => lemma_with_admin_grantor_tokens(t),
        ParseTree::UserPrincipal(_) => lemma_user_principal_tokens(t),
        ParseTree::RolePrincipal(_) => lemma_role_principal_tokens(t),
        ParseTree::UnspecifiedPrincipal(_) => lemma_unspecified_principal_tokens(t),
        ParseTree::CreateTableAsSelect(_) => lemma_create_table_as_select_tokens(t),
        ParseTree::WithProperties(_) => lemma_with_properties_tokens(t),
        ParseTree::Property(_) => lemma_property_tokens(t),
        ParseTree::WithData(_) => lemma_with_data_tokens(t),
        ParseTree::Comment(_) => lemma_comment_tokens(t),
        ParseTree::ColumnDefinition(_) => lemma_column_definition_tokens(t),
        ParseTree::NotNull(_) => lemma_not_null_tokens(t),
        ParseTree::LikeClause(_) => lemma_like_clause_tokens(t),
        ParseTree::InsertInto(_) => lemma_insert_into_tokens(t),
        ParseTree::Delete(_) => lemma_delete_tokens(t),
        ParseTree::GroupingSet(_) => lemma_grouping_set_tokens(t),
        ParseTree::RelationOrQuery(_) => lemma_relation_or_query_tokens(t),
        ParseTree::EmptyGroupingSet(_) => lemma_empty_grouping_set_tokens(t),
        ParseTree::ExpressionOrQuery(_) => lemma_expression_or_query_tokens(t),
        ParseTree::Entrypoint(_) => lemma_entrypoint_tokens(t),
        ParseTree::NullTreatment(_) => lemma_null_treatment_tokens(t),
    }
}

/// The tokens of a list are those of its start delimiter, its elements and separators,
/// and its end delimiter.
proof fn lemma_list_tokens<'a>(t: ParseTree<'a>)
    requires
        t is List,
    ensures
        tokens_of(t) == tokens_of_all(children_of(t)),
{
    reveal_with_fuel(tokens_of, 1);
    let x = t->List_0;
    let start = seq![*x.start_delimiter];
    let middle = pair_children(x.elements_and_separators@);
    let end = seq![*x.end_delimiter];
    lemma_tokens_of_all_one(*x.start_delimiter);
    lemma_tokens_of_all_one(*x.end_delimiter);
    lemma_tokens_of_all_append(start + middle, end);
    lemma_tokens_of_all_append(start, middle);
    lemma_pair_children_tokens(x.elements_and_separators@);
}

/// The tokens of a `Query` tree are those of its children, in order.
proof fn lemma_query_tokens<'a>(t: ParseTree<'a>)
    requires
        t is Query,
    ensures
        tokens_of(t) == tokens_of_all(children_of(t)),
{
    let x = t->Query_0;
    assert(tokens_of(t) == tokens_of(*x.with) + tokens_of(*x.query_no_with)) by {
        reveal_with_fuel(tokens_of, 1);
    }
    lemma_tokens_of_all_one(*x.with);
    let s1 = seq![*x.with];
    lemma_tokens_of_all_push(s1, *x.query_no_with);
    let s2 = s1.push(*x.query_no_with);
    assert(children_of(t) =~= s2);
}

/// The tokens of a `With` tree are those of its children, in order.
proof fn lemma_with_tokens<'a>(t: ParseTree<'a>)
    requires
        t is With,
    ensures
        tokens_of(t) == tokens_of_all(children_of(t)),
{
    let x = t->With_0;
    assert(tokens_of(t) == tokens_of(*x.with) + tokens_of(*x.recursive) + tokens_of(*x.named_queries)) by {
        reveal_with_fuel(tokens_of, 1);
    }
    lemma_tokens_of_all_one(*x.with);
    let s1 = seq![*x.with];
    lemma_tokens_of_all_push(s1, *x.recursive);
    let s2 = s1.push(*x.recursive);
    lemma_tokens_of_all_push(s2, *x.named_queries);
    let s3 = s2.push(*x.named_queries);
    assert(children_of(t) =~= s3);
}

/// The tokens of a `NamedQuery` tree are those of its children, in order.
proof fn lemma_named_query_tokens<'a>(t: ParseTree<'a>)
    requires
        t is NamedQuery,
    ensures
        tokens_of(t) == tokens_of_all(children_of(t)),
{
    let x = t->NamedQuery_0;
    assert(tokens_of(t) == tokens_of(*x.name) + tokens_of(*x.column_aliases_opt) + tokens_of(*x.as_) + tokens_of(*x.open_paren) + tokens_of(*x.query) + tokens_of(*x.close_paren)) by {
        reveal_with_fuel(tokens_of, 1);
    }
    lemma_tokens_of_all_one(*x.name);
    let s1 = seq![*x.name];
    lemma_tokens_of_all_push(s1, *x.column_aliases_opt);
    let s2 = s1.push(*x.column_aliases_opt);
    lemma_tokens_of_all_push(s2, *x.as_);
    let s3 = s2.push(*x.as_);
    lemma_tokens_of_all_push(s3, *x.open_paren);
    let s4 = s3.push(*x.open_paren);
    lemma_tokens_of_all_push(s4, *x.query);
    let s5 = s4.push(*x.query);
    lemma_tokens_of_all_push(s5, *x.close_paren);
    let s6 = s5.push(*x.close_paren);
    assert(children_of(t) =~= s6);
}

/// The tokens of a `QueryNoWith` tree are those of its children, in order.
proof fn lemma_query_no_with_tokens<'a>(t: ParseTree<'a>)
    requires
        t is QueryNoWith,
    ensures
        tokens_of(t) == tokens_of_all(children_of(t)),
{
    let x = t->QueryNoWith_0;
    assert(tokens_of(t) == tokens_of(*x.query_term) + tokens_of(*x.order_by_opt) + tokens_of(*x.limit_opt)) by {
        reveal_with_fuel(tokens_of, 1);
    }
    lemma_tokens_of_all_one(*x.query_term);
    let s1 = seq![*x.query_term];
    lemma_tokens_of_all_push(s1, *x.order_by_opt);
    let s2 = s1.push(*x.order_by_opt);
    lemma_tokens_of_all_push(s2, *x.limit_opt);
    let s3 = s2.push(*x.limit_opt);
    assert(children_of(t) =~= s3);
}

/// The tokens of a `OrderBy` tree are those of its children, in order.
proof fn lemma_order_by_tokens<'a>(t: ParseTree<'a>)
    requires
        t is OrderBy,
    ensures
        tokens_of(t) == tokens_of_all(children_of(t)),
{
    let x = t->OrderBy_0;
    assert(tokens_of(t) == tokens_of(*x.order) + tokens_of(*x.by) + tokens_of(*x.sort_items)) by {
        reveal_with_fuel(tokens_of, 1);
    }
    lemma_tokens_of_all_one(*x.order);
    let s1 = seq![*x.order];
    lemma_tokens_of_all_push(s1, *x.by);
    let s2 = s1.push(*x.by);
    lemma_tokens_of_all_push(s2, *x.sort_items);
    let s3 = s2.push(*x.sort_items);
    assert(children_of(t) =~= s3);
}

/// The tokens of a `Limit` tree are those of its children, in order.
proof fn lemma_limit_tokens<'a>(t: ParseTree<'a>)
    requires
        t is Limit,
    ensures
        tokens_of(t) == tokens_of_all(children_of(t)),
{
    let x = t->Limit_0;
    assert(tokens_of(t) == tokens_of(*x.limit) + tokens_of(*x.value)) by {
        reveal_with_fuel(tokens_of, 1);
    }
    lemma_tokens_of_all_one(*x.limit);
    let s1 = seq![*x.limit];
    lemma_tokens_of_all_push(s1, *x.value);
    let s2 = s1.push(*x.value);
    assert(children_of(t) =~= s2);
}

/// The tokens of a `QuerySetOperation` tree are those of its children, in order.
proof fn lemma_query_set_operation_tokens<'a>(t: ParseTree<'a>)
    requires
        t is QuerySetOperation,
    ensures
        tokens_of(t) == tokens_of_all(children_of(t)),
{
    let x = t->QuerySetOperation_0;
    assert(tokens_of(t) == tokens_of(*x.left) + tokens_of(*x.operator) + tokens_of(*x.set_quantifier_opt) + tokens_of(*x.right)) by {
        reveal_with_fuel(tokens_of, 1);
    }
    lemma_tokens_of_all_one(*x.left);
    let s1 = seq![*x.left];
    lemma_tokens_of_all_push(s1, *x.operator);
    let s2 = s1.push(*x.operator);
    lemma_tokens_of_all_push(s2, *x.set_quantifier_opt);
    let s3 = s2.push(*x.set_quantifier_opt);
    lemma_tokens_of_all_push(s3, *x.right);
    let s4 = s3.push(*x.right);
    assert(children_of(t) =~= s4);
}

/// The tokens of a `SortItem` tree are those of its children, in order.
proof fn lemma_sort_item_tokens<'a>(t: ParseTree<'a>)
    requires
        t is SortItem,
    ensures
        tokens_of(t) == tokens_of_all(children_of(t)),
{
    let x = t->SortItem_0;
    assert(tokens_of(t) == tokens_of(*x.expression) + tokens_of(*x.ordering_opt) + tokens_of(*x.nulls) + tokens_of(*x.null_ordering_opt)) by {
        reveal_with_fuel(tokens_of, 1);
    }
    lemma_tokens_of_all_one(*x.expression);
    let s1 = seq![*x.expression];
    lemma_tokens_of_all_push(s1, *x.ordering_opt);
    let s2 = s1.push(*x.ordering_opt);
    lemma_tokens_of_all_push(s2, *x.nulls);
    let s3 = s2.push(*x.nulls);
    lemma_tokens_of_all_push(s3, *x.null_ordering_opt);
    let s4 = s3.push(*x.null_ordering_opt);
    assert(children_of(t) =~= s4);
}

/// The tokens of a `Subquery` tree are those of its children, in order.
proof fn lemma_subquery_tokens<'a>(t: ParseTree<'a>)
    requires
        t is Subquery,
    ensures
        tokens_of(t) == tokens_of_all(children_of(t)),
{
    let x = t->Subquery_0;
    assert(tokens_of(t) == tokens_of(*x.open_paren) + tokens_of(*x.query_no_with) + tokens_of(*x.close_paren)) by {
        reveal_with_fuel(tokens_of, 1);
    }
    lemma_tokens_of_all_one(*x.open_paren);
    let s1 = seq![*x.open_paren];
    lemma_tokens_of_all_push(s1, *x.query_no_with);
    let s2 = s1.push(*x.query_no_with);
    lemma_tokens_of_all_push(s2, *x.close_paren);
    let s3 = s2.push(*x.close_paren);
    assert(children_of(t) =~= s3);
}

/// The tokens of a `InlineTable` tree are those of its children, in order.
proof fn lemma_inline_table_tokens<'a>(t: ParseTree<'a>)
    requires
        t is InlineTable,
    ensures
        tokens_of(t) == tokens_of_all(children_of(t)),
{
    let x = t->InlineTable_0;
    assert(tokens_of(t) == tokens_of(*x.values) + tokens_of(*x.expressions)) by {
        reveal_with_fuel(tokens_of, 1);
    }
    lemma_tokens_of_all_one(*x.values);
    let s1 = seq![*x.values];
    lemma_tokens_of_all_push(s1, *x.expressions);
    let s2 = s1.push(*x.expressions);
    assert(children_of(t) =~= s2);
}

/// The tokens of a `Table` tree are those of its children, in order.
proof fn lemma_table_tokens<'a>(t: ParseTree<'a>)
    requires
        t is Table,
    ensures
        tokens_of(t) == tokens_of_all(children_of(t)),
{
    let x = t->Table_0;
    assert(tokens_of(t) == tokens_of(*x.table) + tokens_of(*x.qualified_name)) by {
        reveal_with_fuel(tokens_of, 1);
    }
    lemma_tokens_of_all_one(*x.table);
    let s1 = seq![*x.table];
    lemma_tokens_of_all_push(s1, *x.qualified_name);
    let s2 = s1.push(*x.qualified_name);
    assert(children_of(t) =~= s2);
}

/// The tokens of a `QuerySpecification` tree are those of its children, in order.
proof fn lemma_query_specification_tokens<'a>(t: ParseTree<'a>)
    requires
        t is QuerySpecification,
    ensures
        tokens_of(t) == tokens_of_all(children_of(t)),
{
    let x = t->QuerySpecification_0;
    assert(tokens_of(t) == tokens_of(*x.select) + tokens_of(*x.set_quantifier_opt) + tokens_of(*x.select_items) + tokens_of(*x.from) + tokens_of(*x.relations) + tokens_of(*x.where_) + tokens_of(*x.where_predicate) + tokens_of(*x.group) + tokens_of(*x.by) + tokens_of(*x.group_by) + tokens_of(*x.having) + tokens_of(*x.having_predicate)) by {
        reveal_with_fuel(tokens_of, 1);
    }
    lemma_tokens_of_all_one(*x.select);
    let s1 = seq![*x.select];
    lemma_tokens_of_all_push(s1, *x.set_quantifier_opt);
    let s2 = s1.push(*x.set_quantifier_opt);
    lemma_tokens_of_all_push(s2, *x.select_items);
    let s3 = s2.push(*x.select_items);
    lemma_tokens_of_all_push(s3, *x.from);
    let s4 = s3.push(*x.from);
    lemma_tokens_of_all_push(s4, *x.relations);
    let s5 = s4.push(*x.relations);
    lemma_tokens_of_all_push(s5, *x.where_);
    let s6 = s5.push(*x.where_);
    lemma_tokens_of_all_push(s6, *x.where_predicate);
    let s7 = s6.push(*x.where_predicate);
    lemma_tokens_of_all_push(s7, *x.group);
    let s8 = s7.push(*x.group);
    lemma_tokens_of_all_push(s8, *x.by);
    let s9 = s8.push(*x.by);
    lemma_tokens_of_all_push(s9, *x.group_by);
    let s10 = s9.push(*x.group_by);
    lemma_tokens_of_all_push(s10, *x.having);
    let s11 = s10.push(*x.having);
    lemma_tokens_of_all_push(s11, *x.having_predicate);
    let s12 = s11.push(*x.having_predicate);
    assert(children_of(t) =~= s12);
}

/// The tokens of a `QualifiedName` tree are those of its children, in order.
proof fn lemma_qualified_name_tokens<'a>(t: ParseTree<'a>)
    requires
        t is QualifiedName,
    ensures
        tokens_of(t) == tokens_of_all(children_of(t)),
{
    let x = t->QualifiedName_0;
    assert(tokens_of(t) == tokens_of(*x.names)) by {
        reveal_with_fuel(tokens_of, 1);
    }
    lemma_tokens_of_all_one(*x.names);
    let s1 = seq![*x.names];
    assert(children_of(t) =~= s1);
}

/// The tokens of a `SelectAll` tree are those of its children, in order.
proof fn lemma_select_all_tokens<'a>(t: ParseTree<'a>)
    requires
        t is SelectAll,
    ensures
        tokens_of(t) == tokens_of_all(children_of(t)),
{
    let x = t->SelectAll_0;
    assert(tokens_of(t) == tokens_of(*x.asterisk)) by {
        reveal_with_fuel(tokens_of, 1);
    }
    lemma_tokens_of_all_one(*x.asterisk);
    let s1 = seq![*x.asterisk];
    assert(children_of(t) =~= s1);
}

/// The tokens of a `QualifiedSelectAll` tree are those of its children, in order.
proof fn lemma_qualified_select_all_tokens<'a>(t: ParseTree<'a>)
    requires
        t is QualifiedSelectAll,
    ensures
        tokens_of(t) == tokens_of_all(children_of(t)),
{
    let x = t->QualifiedSelectAll_0;
    assert(tokens_of(t) == tokens_of(*x.qualifier) + tokens_of(*x.period) + tokens_of(*x.asterisk)) by {
        reveal_with_fuel(tokens_of, 1);
    }
    lemma_tokens_of_all_one(*x.qualifier);
    let s1 = seq![*x.qualifier];
    lemma_tokens_of_all_push(s1, *x.period);
    let s2 = s1.push(*x.period);
    lemma_tokens_of_all_push(s2, *x.asterisk);
    let s3 = s2.push(*x.asterisk);
    assert(children_of(t) =~= s3);
}

/// The tokens of a `SelectItem` tree are those of its children, in order.
proof fn lemma_select_item_tokens<'a>(t: ParseTree<'a>)
    requires
        t is SelectItem,
    ensures
        tokens_of(t) == tokens_of_all(children_of(t)),
{
    let x = t->SelectItem_0;
    assert(tokens_of(t) == tokens_of(*x.expression) + tokens_of(*x.as_) + tokens_of(*x.identifier)) by {
        reveal_with_fuel(tokens_of, 1);
    }
    lemma_tokens_of_all_one(*x.expression);
    let s1 = seq![*x.expression];
    lemma_tokens_of_all_push(s1, *x.as_);
    let s2 = s1.push(*x.as_);
    lemma_tokens_of_all_push(s2, *x.identifier);
    let s3 = s2.push(*x.identifier);
    assert(children_of(t) =~= s3);
}

/// The tokens of a `SubqueryRelation` tree are those of its children, in order.
proof fn lemma_subquery_relation_tokens<'a>(t: ParseTree<'a>)
    requires
        t is SubqueryRelation,
    ensures
        tokens_of(t) == tokens_of_all(children_of(t)),
{
    let x = t->SubqueryRelation_0;
    assert(tokens_of(t) == tokens_of(*x.open_paren) + tokens_of(*x.query) + tokens_of(*x.close_paren)) by {
        reveal_with_fuel(tokens_of, 1);
    }
    lemma_tokens_of_all_one(*x.open_paren);
    let s1 = seq![*x.open_paren];
    lemma_tokens_of_all_push(s1, *x.query);
    let s2 = s1.push(*x.query);
    lemma_tokens_of_all_push(s2, *x.close_paren);
    let s3 = s2.push(*x.close_paren);
    assert(children_of(t) =~= s3);
}

/// The tokens of a `ParenthesizedRelation` tree are those of its children, in order.
proof fn lemma_parenthesized_relation_tokens<'a>(t: ParseTree<'a>)
    requires
        t is ParenthesizedRelation,
    ensures
        tokens_of(t) == tokens_of_all(children_of(t)),
{
    let x = t->ParenthesizedRelation_0;
    assert(tokens_of(t) == tokens_of(*x.open_paren) + tokens_of(*x.relation) + tokens_of(*x.close_paren)) by {
        reveal_with_fuel(tokens_of, 1);
    }
    lemma_tokens_of_all_one(*x.open_paren);
    let s1 = seq![*x.open_paren];
    lemma_tokens_of_all_push(s1, *x.relation);
    let s2 = s1.push(*x.relation);
    lemma_tokens_of_all_push(s2, *x.close_paren);
    let s3 = s2.push(*x.close_paren);
    assert(children_of(t) =~= s3);
}

/// The tokens of a `TableName` tree are those of its children, in order.
proof fn lemma_table_name_tokens<'a>(t: ParseTree<'a>)
    requires
        t is TableName,
    ensures
        tokens_of(t) == tokens_of_all(children_of(t)),
{
    let x = t->TableName_0;
    assert(tokens_of(t) == tokens_of(*x.name)) by {
        reveal_with_fuel(tokens_of, 1);
    }
    lemma_tokens_of_all_one(*x.name);
    let s1 = seq![*x.name];
    assert(children_of(t) =~= s1);
}

/// The tokens of a `Lateral` tree are those of its children, in order.
proof fn lemma_lateral_tokens<'a>(t: ParseTree<'a>)
    requires
        t is Lateral,
    ensures
        tokens_of(t) == tokens_of_all(children_of(t)),
{
    let x = t->Lateral_0;
    assert(tokens_of(t) == tokens_of(*x.lateral) + tokens_of(*x.open_paren) + tokens_of(*x.query) + tokens_of(*x.close_paren)) by {
        reveal_with_fuel(tokens_of, 1);
    }
    lemma_tokens_of_all_one(*x.lateral);
    let s1 = seq![*x.lateral];
    lemma_tokens_of_all_push(s1, *x.open_paren);
    let s2 = s1.push(*x.open_paren);
    lemma_tokens_of_all_push(s2, *x.query);
    let s3 = s2.push(*x.query);
    lemma_tokens_of_all_push(s3, *x.close_paren);
    let s4 = s3.push(*x.close_paren);
    assert(children_of(t) =~= s4);
}

/// The tokens of a `Unnest` tree are those of its children, in order.
proof fn lemma_unnest_tokens<'a>(t: ParseTree<'a>)
    requires
        t is Unnest,
    ensures
        tokens_of(t) == tokens_of_all(children_of(t)),
{
    let x = t->Unnest_0;
    assert(tokens_of(t) == tokens_of(*x.unnest) + tokens_of(*x.expressions) + tokens_of(*x.with) + tokens_of(*x.ordinality)) by {
        reveal_with_fuel(tokens_of, 1);
    }
    lemma_tokens_of_all_one(*x.unnest);
    let s1 = seq![*x.unnest];
    lemma_tokens_of_all_push(s1, *x.expressions);
    let s2 = s1.push(*x.expressions);
    lemma_tokens_of_all_push(s2, *x.with);
    let s3 = s2.push(*x.with);
    lemma_tokens_of_all_push(s3, *x.ordinality);
    let s4 = s3.push(*x.ordinality);
    assert(children_of(t) =~= s4);
}

/// The tokens of a `SampledRelation` tree are those of its children, in order.
proof fn lemma_sampled_relation_tokens<'a>(t: ParseTree<'a>)
    requires
        t is SampledRelation,
    ensures
        tokens_of(t) == tokens_of_all(children_of(t)),
{
    let x = t->SampledRelation_0;
    assert(tokens_of(t) == tokens_of(*x.aliased_relation) + tokens_of(*x.tablesample) + tokens_of(*x.sample_type) + tokens_of(*x.open_paren) + tokens_of(*x.expression) + tokens_of(*x.close_paren)) by {
        reveal_with_fuel(tokens_of, 1);
    }
    lemma_tokens_of_all_one(*x.aliased_relation);
    let s1 = seq![*x.aliased_relation];
    lemma_tokens_of_all_push(s1, *x.tablesample);
    let s2 = s1.push(*x.tablesample);
    lemma_tokens_of_all_push(s2, *x.sample_type);
    let s3 = s2.push(*x.sample_type);
    lemma_tokens_of_all_push(s3, *x.open_paren);
    let s4 = s3.push(*x.open_paren);
    lemma_tokens_of_all_push(s4, *x.expression);
    let s5 = s4.push(*x.expression);
    lemma_tokens_of_all_push(s5, *x.close_paren);
    let s6 = s5.push(*x.close_paren);
    assert(children_of(t) =~= s6);
}

/// The tokens of a `AliasedRelation` tree are those of its children, in order.
proof fn lemma_aliased_relation_tokens<'a>(t: ParseTree<'a>)
    requires
        t is AliasedRelation,
    ensures
        tokens_of(t) == tokens_of_all(children_of(t)),
{
    let x = t->AliasedRelation_0;
    assert(tokens_of(t) == tokens_of(*x.relation_primary) + tokens_of(*x.as_opt) + tokens_of(*x.identifier) + tokens_of(*x.column_aliases_opt)) by {
        reveal_with_fuel(tokens_of, 1);
    }
    lemma_tokens_of_all_one(*x.relation_primary);
    let s1 = seq![*x.relation_primary];
    lemma_tokens_of_all_push(s1, *x.as_opt);
    let s2 = s1.push(*x.as_opt);
    lemma_tokens_of_all_push(s2, *x.identifier);
    let s3 = s2.push(*x.identifier);
    lemma_tokens_of_all_push(s3, *x.column_aliases_opt);
    let s4 = s3.push(*x.column_aliases_opt);
    assert(children_of(t) =~= s4);
}

/// The tokens of a `CrossJoin` tree are those of its children, in order.
proof fn lemma_cross_join_tokens<'a>(t: ParseTree<'a>)
    requires
        t is CrossJoin,
    ensures
        tokens_of(t) == tokens_of_all(children_of(t)),
{
    let x = t->CrossJoin_0;
    assert(tokens_of(t) == tokens_of(*x.left) + tokens_of(*x.cross) + tokens_of(*x.join) + tokens_of(*x.right)) by {
        reveal_with_fuel(tokens_of, 1);
    }
    lemma_tokens_of_all_one(*x.left);
    let s1 = seq![*x.left];
    lemma_tokens_of_all_push(s1, *x.cross);
    let s2 = s1.push(*x.cross);
    lemma_tokens_of_all_push(s2, *x.join);
    let s3 = s2.push(*x.join);
    lemma_tokens_of_all_push(s3, *x.right);
    let s4 = s3.push(*x.right);
    assert(children_of(t) =~= s4);
}

/// The tokens of a `Join` tree are those of its children, in order.
proof fn lemma_join_tokens<'a>(t: ParseTree<'a>)
    requires
        t is Join,
    ensures
        tokens_of(t) == tokens_of_all(children_of(t)),
{
    let x = t->Join_0;
    assert(tokens_of(t) == tokens_of(*x.left) + tokens_of(*x.join_type) + tokens_of(*x.join) + tokens_of(*x.right) + tokens_of(*x.join_criteria)) by {
        reveal_with_fuel(tokens_of, 1);
    }
    lemma_tokens_of_all_one(*x.left);
    let s1 = seq![*x.left];
    lemma_tokens_of_all_push(s1, *x.join_type);
    let s2 = s1.push(*x.join_type);
    lemma_tokens_of_all_push(s2, *x.join);
    let s3 = s2.push(*x.join);
    lemma_tokens_of_all_push(s3, *x.right);
    let s4 = s3.push(*x.right);
    lemma_tokens_of_all_push(s4, *x.join_criteria);
    let s5 = s4.push(*x.join_criteria);
    assert(children_of(t) =~= s5);
}

/// The tokens of a `NaturalJoin` tree are those of its children, in order.
proof fn lemma_natural_join_tokens<'a>(t: ParseTree<'a>)
    requires
        t is NaturalJoin,
    ensures
        tokens_of(t) == tokens_of_all(children_of(t)),
{
    let x = t->NaturalJoin_0;
    assert(tokens_of(t) == tokens_of(*x.left) + tokens_of(*x.natural) + tokens_of(*x.join_type) + tokens_of(*x.join) + tokens_of(*x.right)) by {
        reveal_with_fuel(tokens_of, 1);
    }
    lemma_tokens_of_all_one(*x.left);
    let s1 = seq![*x.left];
    lemma_tokens_of_all_push(s1, *x.natural);
    let s2 = s1.push(*x.natural);
    lemma_tokens_of_all_push(s2, *x.join_type);
    let s3 = s2.push(*x.join_type);
    lemma_tokens_of_all_push(s3, *x.join);
    let s4 = s3.push(*x.join);
    lemma_tokens_of_all_push(s4, *x.right);
    let s5 = s4.push(*x.right);
    assert(children_of(t) =~= s5);
}

/// The tokens of a `OuterJoinKind` tree are those of its children, in order.
proof fn lemma_outer_join_kind_tokens<'a>(t: ParseTree<'a>)
    requires
        t is OuterJoinKind,
    ensures
        tokens_of(t) == tokens_of_all(children_of(t)),
{
    let x = t->OuterJoinKind_0;
    assert(tokens_of(t) == tokens_of(*x.kind) + tokens_of(*x.outer_opt)) by {
        reveal_with_fuel(tokens_of, 1);
    }
    lemma_tokens_of_all_one(*x.kind);
    let s1 = seq![*x.kind];
    lemma_tokens_of_all_push(s1, *x.outer_opt);
    let s2 = s1.push(*x.outer_opt);
    assert(children_of(t) =~= s2);
}

/// The tokens of a `OnJoinCriteria` tree are those of its children, in order.
proof fn lemma_on_join_criteria_tokens<'a>(t: ParseTree<'a>)
    requires
        t is OnJoinCriteria,
    ensures
        tokens_of(t) == tokens_of_all(children_of(t)),
{
    let x = t->OnJoinCriteria_0;
    assert(tokens_of(t) == tokens_of(*x.on) + tokens_of(*x.predicate)) by {
        reveal_with_fuel(tokens_of, 1);
    }
    lemma_tokens_of_all_one(*x.on);
    let s1 = seq![*x.on];
    lemma_tokens_of_all_push(s1, *x.predicate);
    let s2 = s1.push(*x.predicate);
    assert(children_of(t) =~= s2);
}

/// The tokens of a `UsingJoinCriteria` tree are those of its children, in order.
proof fn lemma_using_join_criteria_tokens<'a>(t: ParseTree<'a>)
    requires
        t is UsingJoinCriteria,
    ensures
        tokens_of(t) == tokens_of_all(children_of(t)),
{
    let x = t->UsingJoinCriteria_0;
    assert(tokens_of(t) == tokens_of(*x.using) + tokens_of(*x.names)) by {
        reveal_with_fuel(tokens_of, 1);
    }
    lemma_tokens_of_all_one(*x.using);
    let s1 = seq![*x.using];
    lemma_tokens_of_all_push(s1, *x.names);
    let s2 = s1.push(*x.names);
    assert(children_of(t) =~= s2);
}

/// The tokens of a `GroupBy` tree are those of its children, in order.
proof fn lemma_group_by_tokens<'a>(t: ParseTree<'a>)
    requires
        t is GroupBy,
    ensures
        tokens_of(t) == tokens_of_all(children_of(t)),
{
    let x = t->GroupBy_0;
    assert(tokens_of(t) == tokens_of(*x.set_quantifier_opt) + tokens_of(*x.grouping_elements)) by {
        reveal_with_fuel(tokens_of, 1);
    }
    lemma_tokens_of_all_one(*x.set_quantifier_opt);
    let s1 = seq![*x.set_quantifier_opt];
    lemma_tokens_of_all_push(s1, *x.grouping_elements);
    let s2 = s1.push(*x.grouping_elements);
    assert(children_of(t) =~= s2);
}

/// The tokens of a `Rollup` tree are those of its children, in order.
proof fn lemma_rollup_tokens<'a>(t: ParseTree<'a>)
    requires
        t is Rollup,
    ensures
        tokens_of(t) == tokens_of_all(children_of(t)),
{
    let x = t->Rollup_0;
    assert(tokens_of(t) == tokens_of(*x.rollup) + tokens_of(*x.expressions)) by {
        reveal_with_fuel(tokens_of, 1);
    }
    lemma_tokens_of_all_one(*x.rollup);
    let s1 = seq![*x.rollup];
    lemma_tokens_of_all_push(s1, *x.expressions);
    let s2 = s1.push(*x.expressions);
    assert(children_of(t) =~= s2);
}

/// The tokens of a `Cube` tree are those of its children, in order.
proof fn lemma_cube_tokens<'a>(t: ParseTree<'a>)
    requires
        t is Cube,
    ensures
        tokens_of(t) == tokens_of_all(children_of(t)),
{
    let x = t->Cube_0;
    assert(tokens_of(t) == tokens_of(*x.cube) + tokens_of(*x.expressions)) by {
        reveal_with_fuel(tokens_of, 1);
    }
    lemma_tokens_of_all_one(*x.cube);
    let s1 = seq![*x.cube];
    lemma_tokens_of_all_push(s1, *x.expressions);
    let s2 = s1.push(*x.expressions);
    assert(children_of(t) =~= s2);
}

/// The tokens of a `GroupingSets` tree are those of its children, in order.
proof fn lemma_grouping_sets_tokens<'a>(t: ParseTree<'a>)
    requires
        t is GroupingSets,
    ensures
        tokens_of(t) == tokens_of_all(children_of(t)),
{
    let x = t->GroupingSets_0;
    assert(tokens_of(t) == tokens_of(*x.grouping) + tokens_of(*x.sets) + tokens_of(*x.grouping_sets)) by {
        reveal_with_fuel(tokens_of, 1);
    }
    lemma_tokens_of_all_one(*x.grouping);
    let s1 = seq![*x.grouping];
    lemma_tokens_of_all_push(s1, *x.sets);
    let s2 = s1.push(*x.sets);
    lemma_tokens_of_all_push(s2, *x.grouping_sets);
    let s3 = s2.push(*x.grouping_sets);
    assert(children_of(t) =~= s3);
}

/// The tokens of a `BinaryExpression` tree are those of its children, in order.
proof fn lemma_binary_expression_tokens<'a>(t: ParseTree<'a>)
    requires
        t is BinaryExpression,
    ensures
        tokens_of(t) == tokens_of_all(children_of(t)),
{
    let x = t->BinaryExpression_0;
    assert(tokens_of(t) == tokens_of(*x.left) + tokens_of(*x.operator) + tokens_of(*x.right)) by {
        reveal_with_fuel(tokens_of, 1);
    }
    lemma_tokens_of_all_one(*x.left);
    let s1 = seq![*x.left];
    lemma_tokens_of_all_push(s1, *x.operator);
    let s2 = s1.push(*x.operator);
    lemma_tokens_of_all_push(s2, *x.right);
    let s3 = s2.push(*x.right);
    assert(children_of(t) =~= s3);
}

/// The tokens of a `UnaryExpression` tree are those of its children, in order.
proof fn lemma_unary_expression_tokens<'a>(t: ParseTree<'a>)
    requires
        t is UnaryExpression,
    ensures
        tokens_of(t) == tokens_of_all(children_of(t)),
{
    let x = t->UnaryExpression_0;
    assert(tokens_of(t) == tokens_of(*x.operator) + tokens_of(*x.operand)) by {
        reveal_with_fuel(tokens_of, 1);
    }
    lemma_tokens_of_all_one(*x.operator);
    let s1 = seq![*x.operator];
    lemma_tokens_of_all_push(s1, *x.operand);
    let s2 = s1.push(*x.operand);
    assert(children_of(t) =~= s2);
}

/// The tokens of a `QuantifiedComparison` tree are those of its children, in order.
proof fn lemma_quantified_comparison_tokens<'a>(t: ParseTree<'a>)
    requires
        t is QuantifiedComparison,
    ensures
        tokens_of(t) == tokens_of_all(children_of(t)),
{
    let x = t->QuantifiedComparison_0;
    assert(tokens_of(t) == tokens_of(*x.operand) + tokens_of(*x.operator) + tokens_of(*x.comparison_quantifier) + tokens_of(*x.open_paren) + tokens_of(*x.query) + tokens_of(*x.close_paren)) by {
        reveal_with_fuel(tokens_of, 1);
    }
    lemma_tokens_of_all_one(*x.operand);
    let s1 = seq![*x.operand];
    lemma_tokens_of_all_push(s1, *x.operator);
    let s2 = s1.push(*x.operator);
    lemma_tokens_of_all_push(s2, *x.comparison_quantifier);
    let s3 = s2.push(*x.comparison_quantifier);
    lemma_tokens_of_all_push(s3, *x.open_paren);
    let s4 = s3.push(*x.open_paren);
    lemma_tokens_of_all_push(s4, *x.query);
    let s5 = s4.push(*x.query);
    lemma_tokens_of_all_push(s5, *x.close_paren);
    let s6 = s5.push(*x.close_paren);
    assert(children_of(t) =~= s6);
}

/// The tokens of a `NullPredicate` tree are those of its children, in order.
proof fn lemma_null_predicate_tokens<'a>(t: ParseTree<'a>)
    requires
        t is NullPredicate,
    ensures
        tokens_of(t) == tokens_of_all(children_of(t)),
{
    let x = t->NullPredicate_0;
    assert(tokens_of(t) == tokens_of(*x.value) + tokens_of(*x.is) + tokens_of(*x.not_opt) + tokens_of(*x.null)) by {
        reveal_with_fuel(tokens_of, 1);
    }
    lemma_tokens_of_all_one(*x.value);
    let s1 = seq![*x.value];
    lemma_tokens_of_all_push(s1, *x.is);
    let s2 = s1.push(*x.is);
    lemma_tokens_of_all_push(s2, *x.not_opt);
    let s3 = s2.push(*x.not_opt);
    lemma_tokens_of_all_push(s3, *x.null);
    let s4 = s3.push(*x.null);
    assert(children_of(t) =~= s4);
}

/// The tokens of a `DistinctFrom` tree are those of its children, in order.
proof fn lemma_distinct_from_tokens<'a>(t: ParseTree<'a>)
    requires
        t is DistinctFrom,
    ensures
        tokens_of(t) == tokens_of_all(children_of(t)),
{
    let x = t->DistinctFrom_0;
    assert(tokens_of(t) == tokens_of(*x.left) + tokens_of(*x.is) + tokens_of(*x.not_opt) + tokens_of(*x.distinct) + tokens_of(*x.from) + tokens_of(*x.right)) by {
        reveal_with_fuel(tokens_of, 1);
    }
    lemma_tokens_of_all_one(*x.left);
    let s1 = seq![*x.left];
    lemma_tokens_of_all_push(s1, *x.is);
    let s2 = s1.push(*x.is);
    lemma_tokens_of_all_push(s2, *x.not_opt);
    let s3 = s2.push(*x.not_opt);
    lemma_tokens_of_all_push(s3, *x.distinct);
    let s4 = s3.push(*x.distinct);
    lemma_tokens_of_all_push(s4, *x.from);
    let s5 = s4.push(*x.from);
    lemma_tokens_of_all_push(s5, *x.right);
    let s6 = s5.push(*x.right);
    assert(children_of(t) =~= s6);
}

/// The tokens of a `Between` tree are those of its children, in order.
proof fn lemma_between_tokens<'a>(t: ParseTree<'a>)
    requires
        t is Between,
    ensures
        tokens_of(t) == tokens_of_all(children_of(t)),
{
    let x = t->Between_0;
    assert(tokens_of(t) == tokens_of(*x.value) + tokens_of(*x.not_opt) + tokens_of(*x.between) + tokens_of(*x.lower) + tokens_of(*x.and) + tokens_of(*x.upper)) by {
        reveal_with_fuel(tokens_of, 1);
    }
    lemma_tokens_of_all_one(*x.value);
    let s1 = seq![*x.value];
    lemma_tokens_of_all_push(s1, *x.not_opt);
    let s2 = s1.push(*x.not_opt);
    lemma_tokens_of_all_push(s2, *x.between);
    let s3 = s2.push(*x.between);
    lemma_tokens_of_all_push(s3, *x.lower);
    let s4 = s3.push(*x.lower);
    lemma_tokens_of_all_push(s4, *x.and);
    let s5 = s4.push(*x.and);
    lemma_tokens_of_all_push(s5, *x.upper);
    let s6 = s5.push(*x.upper);
    assert(children_of(t) =~= s6);
}

/// The tokens of a `Like` tree are those of its children, in order.
proof fn lemma_like_tokens<'a>(t: ParseTree<'a>)
    requires
        t is Like,
    ensures
        tokens_of(t) == tokens_of_all(children_of(t)),
{
    let x = t->Like_0;
    assert(tokens_of(t) == tokens_of(*x.value) + tokens_of(*x.not_opt) + tokens_of(*x.like) + tokens_of(*x.patrern) + tokens_of(*x.escape_opt) + tokens_of(*x.escape_value_opt)) by {
        reveal_with_fuel(tokens_of, 1);
    }
    lemma_tokens_of_all_one(*x.value);
    let s1 = seq![*x.value];
    lemma_tokens_of_all_push(s1, *x.not_opt);
    let s2 = s1.push(*x.not_opt);
    lemma_tokens_of_all_push(s2, *x.like);
    let s3 = s2.push(*x.like);
    lemma_tokens_of_all_push(s3, *x.patrern);
    let s4 = s3.push(*x.patrern);
    lemma_tokens_of_all_push(s4, *x.escape_opt);
    let s5 = s4.push(*x.escape_opt);
    lemma_tokens_of_all_push(s5, *x.escape_value_opt);
    let s6 = s5.push(*x.escape_value_opt);
    assert(children_of(t) =~= s6);
}

/// The tokens of a `InSubquery` tree are those of its children, in order.
proof fn lemma_in_subquery_tokens<'a>(t: ParseTree<'a>)
    requires
        t is InSubquery,
    ensures
        tokens_of(t) == tokens_of_all(children_of(t)),
{
    let x = t->InSubquery_0;
    assert(tokens_of(t) == tokens_of(*x.value) + tokens_of(*x.not_opt) + tokens_of(*x.in_) + tokens_of(*x.open_paren) + tokens_of(*x.query) + tokens_of(*x.close_paren)) by {
        reveal_with_fuel(tokens_of, 1);
    }
    lemma_tokens_of_all_one(*x.value);
    let s1 = seq![*x.value];
    lemma_tokens_of_all_push(s1, *x.not_opt);
    let s2 = s1.push(*x.not_opt);
    lemma_tokens_of_all_push(s2, *x.in_);
    let s3 = s2.push(*x.in_);
    lemma_tokens_of_all_push(s3, *x.open_paren);
    let s4 = s3.push(*x.open_paren);
    lemma_tokens_of_all_push(s4, *x.query);
    let s5 = s4.push(*x.query);
    lemma_tokens_of_all_push(s5, *x.close_paren);
    let s6 = s5.push(*x.close_paren);
    assert(children_of(t) =~= s6);
}

/// The tokens of a `InList` tree are those of its children, in order.
proof fn lemma_in_list_tokens<'a>(t: ParseTree<'a>)
    requires
        t is InList,
    ensures
        tokens_of(t) == tokens_of_all(children_of(t)),
{
    let x = t->InList_0;
    assert(tokens_of(t) == tokens_of(*x.value) + tokens_of(*x.not_opt) + tokens_of(*x.in_) + tokens_of(*x.expressions)) by {
        reveal_with_fuel(tokens_of, 1);
    }
    lemma_tokens_of_all_one(*x.value);
    let s1 = seq![*x.value];
    lemma_tokens_of_all_push(s1, *x.not_opt);
    let s2 = s1.push(*x.not_opt);
    lemma_tokens_of_all_push(s2, *x.in_);
    let s3 = s2.push(*x.in_);
    lemma_tokens_of_all_push(s3, *x.expressions);
    let s4 = s3.push(*x.expressions);
    assert(children_of(t) =~= s4);
}

/// The tokens of a `AtTimeZone` tree are those of its children, in order.
proof fn lemma_at_time_zone_tokens<'a>(t: ParseTree<'a>)
    requires
        t is AtTimeZone,
    ensures
        tokens_of(t) == tokens_of_all(children_of(t)),
{
    let x = t->AtTimeZone_0;
    assert(tokens_of(t) == tokens_of(*x.value) + tokens_of(*x.at) + tokens_of(*x.time) + tokens_of(*x.zone) + tokens_of(*x.specifier)) by {
        reveal_with_fuel(tokens_of, 1);
    }
    lemma_tokens_of_all_one(*x.value);
    let s1 = seq![*x.value];
    lemma_tokens_of_all_push(s1, *x.at);
    let s2 = s1.push(*x.at);
    lemma_tokens_of_all_push(s2, *x.time);
    let s3 = s2.push(*x.time);
    lemma_tokens_of_all_push(s3, *x.zone);
    let s4 = s3.push(*x.zone);
    lemma_tokens_of_all_push(s4, *x.specifier);
    let s5 = s4.push(*x.specifier);
    assert(children_of(t) =~= s5);
}

/// The tokens of a `Dereference` tree are those of its children, in order.
proof fn lemma_dereference_tokens<'a>(t: ParseTree<'a>)
    requires
        t is Dereference,
    ensures
        tokens_of(t) == tokens_of_all(children_of(t)),
{
    let x = t->Dereference_0;
    assert(tokens_of(t) == tokens_of(*x.object) + tokens_of(*x.period) + tokens_of(*x.field_name)) by {
        reveal_with_fuel(tokens_of, 1);
    }
    lemma_tokens_of_all_one(*x.object);
    let s1 = seq![*x.object];
    lemma_tokens_of_all_push(s1, *x.period);
    let s2 = s1.push(*x.period);
    lemma_tokens_of_all_push(s2, *x.field_name);
    let s3 = s2.push(*x.field_name);
    assert(children_of(t) =~= s3);
}

/// The tokens of a `Subscript` tree are those of its children, in order.
proof fn lemma_subscript_tokens<'a>(t: ParseTree<'a>)
    requires
        t is Subscript,
    ensures
        tokens_of(t) == tokens_of_all(children_of(t)),
{
    let x = t->Subscript_0;
    assert(tokens_of(t) == tokens_of(*x.operand) + tokens_of(*x.open_square) + tokens_of(*x.index) + tokens_of(*x.close_square)) by {
        reveal_with_fuel(tokens_of, 1);
    }
    lemma_tokens_of_all_one(*x.operand);
    let s1 = seq![*x.operand];
    lemma_tokens_of_all_push(s1, *x.open_square);
    let s2 = s1.push(*x.open_square);
    lemma_tokens_of_all_push(s2, *x.index);
    let s3 = s2.push(*x.index);
    lemma_tokens_of_all_push(s3, *x.close_square);
    let s4 = s3.push(*x.close_square);
    assert(children_of(t) =~= s4);
}

/// The tokens of a `Lambda` tree are those of its children, in order.
proof fn lemma_lambda_tokens<'a>(t: ParseTree<'a>)
    requires
        t is Lambda,
    ensures
        tokens_of(t) == tokens_of_all(children_of(t)),
{
    let x = t->Lambda_0;
    assert(tokens_of(t) == tokens_of(*x.parameters) + tokens_of(*x.array) + tokens_of(*x.body)) by {
        reveal_with_fuel(tokens_of, 1);
    }
    lemma_tokens_of_all_one(*x.parameters);
    let s1 = seq![*x.parameters];
    lemma_tokens_of_all_push(s1, *x.array);
    let s2 = s1.push(*x.array);
    lemma_tokens_of_all_push(s2, *x.body);
    let s3 = s2.push(*x.body);
    assert(children_of(t) =~= s3);
}

/// The tokens of a `Literal` tree are those of its children, in order.
proof fn lemma_literal_tokens<'a>(t: ParseTree<'a>)
    requires
        t is Literal,
    ensures
        tokens_of(t) == tokens_of_all(children_of(t)),
{
    let x = t->Literal_0;
    assert(tokens_of(t) == tokens_of(*x.value)) by {
        reveal_with_fuel(tokens_of, 1);
    }
    lemma_tokens_of_all_one(*x.value);
    let s1 = seq![*x.value];
    assert(children_of(t) =~= s1);
}

/// The tokens of a `RowConstructor` tree are those of its children, in order.
proof fn lemma_row_constructor_tokens<'a>(t: ParseTree<'a>)
    requires
        t is RowConstructor,
    ensures
        tokens_of(t) == tokens_of_all(children_of(t)),
{
    let x = t->RowConstructor_0;
    assert(tokens_of(t) == tokens_of(*x.elements)) by {
        reveal_with_fuel(tokens_of, 1);
    }
    lemma_tokens_of_all_one(*x.elements);
    let s1 = seq![*x.elements];
    assert(children_of(t) =~= s1);
}

/// The tokens of a `ParenthesizedExpression` tree are those of its children, in order.
proof fn lemma_parenthesized_expression_tokens<'a>(t: ParseTree<'a>)
    requires
        t is ParenthesizedExpression,
    ensures
        tokens_of(t) == tokens_of_all(children_of(t)),
{
    let x = t->ParenthesizedExpression_0;
    assert(tokens_of(t) == tokens_of(*x.open_paren) + tokens_of(*x.value) + tokens_of(*x.close_paren)) by {
        reveal_with_fuel(tokens_of, 1);
    }
    lemma_tokens_of_all_one(*x.open_paren);
    let s1 = seq![*x.open_paren];
    lemma_tokens_of_all_push(s1, *x.value);
    let s2 = s1.push(*x.value);
    lemma_tokens_of_all_push(s2, *x.close_paren);
    let s3 = s2.push(*x.close_paren);
    assert(children_of(t) =~= s3);
}

/// The tokens of a `Identifier` tree are those of its children, in order.
proof fn lemma_identifier_tokens<'a>(t: ParseTree<'a>)
    requires
        t is Identifier,
    ensures
        tokens_of(t) == tokens_of_all(children_of(t)),
{
    let x = t->Identifier_0;
    assert(tokens_of(t) == tokens_of(*x.value)) by {
        reveal_with_fuel(tokens_of, 1);
    }
    lemma_tokens_of_all_one(*x.value);
    let s1 = seq![*x.value];
    assert(children_of(t) =~= s1);
}

/// The tokens of a `FunctionCall` tree are those of its children, in order.
proof fn lemma_function_call_tokens<'a>(t: ParseTree<'a>)
    requires
        t is FunctionCall,
    ensures
        tokens_of(t) == tokens_of_all(children_of(t)),
{
    let x = t->FunctionCall_0;
    assert(tokens_of(t) == tokens_of(*x.name) + tokens_of(*x.open_paren) + tokens_of(*x.set_quantifier_opt) + tokens_of(*x.arguments) + tokens_of(*x.order_by_opt) + tokens_of(*x.close_paren) + tokens_of(*x.filter_opt) + tokens_of(*x.null_treatment_opt) + tokens_of(*x.over_opt)) by {
        reveal_with_fuel(tokens_of, 1);
    }
    lemma_tokens_of_all_one(*x.name);
    let s1 = seq![*x.name];
    lemma_tokens_of_all_push(s1, *x.open_paren);
    let s2 = s1.push(*x.open_paren);
    lemma_tokens_of_all_push(s2, *x.set_quantifier_opt);
    let s3 = s2.push(*x.set_quantifier_opt);
    lemma_tokens_of_all_push(s3, *x.arguments);
    let s4 = s3.push(*x.arguments);
    lemma_tokens_of_all_push(s4, *x.order_by_opt);
    let s5 = s4.push(*x.order_by_opt);
    lemma_tokens_of_all_push(s5, *x.close_paren);
    let s6 = s5.push(*x.close_paren);
    lemma_tokens_of_all_push(s6, *x.filter_opt);
    let s7 = s6.push(*x.filter_opt);
    lemma_tokens_of_all_push(s7, *x.null_treatment_opt);
    let s8 = s7.push(*x.null_treatment_opt);
    lemma_tokens_of_all_push(s8, *x.over_opt);
    let s9 = s8.push(*x.over_opt);
    assert(children_of(t) =~= s9);
}

/// The tokens of a `Filter` tree are those of its children, in order.
proof fn lemma_filter_tokens<'a>(t: ParseTree<'a>)
    requires
        t is Filter,
    ensures
        tokens_of(t) == tokens_of_all(children_of(t)),
{
    let x = t->Filter_0;
    assert(tokens_of(t) == tokens_of(*x.filter) + tokens_of(*x.open_paren) + tokens_of(*x.where_) + tokens_of(*x.predicate) + tokens_of(*x.close_paren)) by {
        reveal_with_fuel(tokens_of, 1);
    }
    lemma_tokens_of_all_one(*x.filter);
    let s1 = seq![*x.filter];
    lemma_tokens_of_all_push(s1, *x.open_paren);
    let s2 = s1.push(*x.open_paren);
    lemma_tokens_of_all_push(s2, *x.where_);
    let s3 = s2.push(*x.where_);
    lemma_tokens_of_all_push(s3, *x.predicate);
    let s4 = s3.push(*x.predicate);
    lemma_tokens_of_all_push(s4, *x.close_paren);
    let s5 = s4.push(*x.close_paren);
    assert(children_of(t) =~= s5);
}

/// The tokens of a `Over` tree are those of its children, in order.
proof fn lemma_over_tokens<'a>(t: ParseTree<'a>)
    requires
        t is Over,
    ensures
        tokens_of(t) == tokens_of_all(children_of(t)),
{
    let x = t->Over_0;
    assert(tokens_of(t) == tokens_of(*x.over) + tokens_of(*x.open_paren) + tokens_of(*x.partition_opt) + tokens_of(*x.by) + tokens_of(*x.partitions) + tokens_of(*x.order_by_opt) + tokens_of(*x.window_frame) + tokens_of(*x.close_paren)) by {
        reveal_with_fuel(tokens_of, 1);
    }
    lemma_tokens_of_all_one(*x.over);
    let s1 = seq![*x.over];
    lemma_tokens_of_all_push(s1, *x.open_paren);
    let s2 = s1.push(*x.open_paren);
    lemma_tokens_of_all_push(s2, *x.partition_opt);
    let s3 = s2.push(*x.partition_opt);
    lemma_tokens_of_all_push(s3, *x.by);
    let s4 = s3.push(*x.by);
    lemma_tokens_of_all_push(s4, *x.partitions);
    let s5 = s4.push(*x.partitions);
    lemma_tokens_of_all_push(s5, *x.order_by_opt);
    let s6 = s5.push(*x.order_by_opt);
    lemma_tokens_of_all_push(s6, *x.window_frame);
    let s7 = s6.push(*x.window_frame);
    lemma_tokens_of_all_push(s7, *x.close_paren);
    let s8 = s7.push(*x.close_paren);
    assert(children_of(t) =~= s8);
}

/// The tokens of a `WindowFrame` tree are those of its children, in order.
proof fn lemma_window_frame_tokens<'a>(t: ParseTree<'a>)
    requires
        t is WindowFrame,
    ensures
        tokens_of(t) == tokens_of_all(children_of(t)),
{
    let x = t->WindowFrame_0;
    assert(tokens_of(t) == tokens_of(*x.frame_type) + tokens_of(*x.between_opt) + tokens_of(*x.start) + tokens_of(*x.and) + tokens_of(*x.end)) by {
        reveal_with_fuel(tokens_of, 1);
    }
    lemma_tokens_of_all_one(*x.frame_type);
    let s1 = seq![*x.frame_type];
    lemma_tokens_of_all_push(s1, *x.between_opt);
    let s2 = s1.push(*x.between_opt);
    lemma_tokens_of_all_push(s2, *x.start);
    let s3 = s2.push(*x.start);
    lemma_tokens_of_all_push(s3, *x.and);
    let s4 = s3.push(*x.and);
    lemma_tokens_of_all_push(s4, *x.end);
    let s5 = s4.push(*x.end);
    assert(children_of(t) =~= s5);
}

/// The tokens of a `UnboundedFrame` tree are those of its children, in order.
proof fn lemma_unbounded_frame_tokens<'a>(t: ParseTree<'a>)
    requires
        t is UnboundedFrame,
    ensures
        tokens_of(t) == tokens_of_all(children_of(t)),
{
    let x = t->UnboundedFrame_0;
    assert(tokens_of(t) == tokens_of(*x.unbounded) + tokens_of(*x.bound_type)) by {
        reveal_with_fuel(tokens_of, 1);
    }
    lemma_tokens_of_all_one(*x.unbounded);
    let s1 = seq![*x.unbounded];
    lemma_tokens_of_all_push(s1, *x.bound_type);
    let s2 = s1.push(*x.bound_type);
    assert(children_of(t) =~= s2);
}

/// The tokens of a `CurrentRowBound` tree are those of its children, in order.
proof fn lemma_current_row_bound_tokens<'a>(t: ParseTree<'a>)
    requires
        t is CurrentRowBound,
    ensures
        tokens_of(t) == tokens_of_all(children_of(t)),
{
    let x = t->CurrentRowBound_0;
    assert(tokens_of(t) == tokens_of(*x.current) + tokens_of(*x.row)) by {
        reveal_with_fuel(tokens_of, 1);
    }
    lemma_tokens_of_all_one(*x.current);
    let s1 = seq![*x.current];
    lemma_tokens_of_all_push(s1, *x.row);
    let s2 = s1.push(*x.row);
    assert(children_of(t) =~= s2);
}

/// The tokens of a `BoundedFrame` tree are those of its children, in order.
proof fn lemma_bounded_frame_tokens<'a>(t: ParseTree<'a>)
    requires
        t is BoundedFrame,
    ensures
        tokens_of(t) == tokens_of_all(children_of(t)),
{
    let x = t->BoundedFrame_0;
    assert(tokens_of(t) == tokens_of(*x.bound) + tokens_of(*x.bound_type)) by {
        reveal_with_fuel(tokens_of, 1);
    }
    lemma_tokens_of_all_one(*x.bound);
    let s1 = seq![*x.bound];
    lemma_tokens_of_all_push(s1, *x.bound_type);
    let s2 = s1.push(*x.bound_type);
    assert(children_of(t) =~= s2);
}

/// The tokens of a `UnicodeString` tree are those of its children, in order.
proof fn lemma_unicode_string_tokens<'a>(t: ParseTree<'a>)
    requires
        t is UnicodeString,
    ensures
        tokens_of(t) == tokens_of_all(children_of(t)),
{
    let x = t->UnicodeString_0;
    assert(tokens_of(t) == tokens_of(*x.string) + tokens_of(*x.uescape_opt) + tokens_of(*x.escape)) by {
        reveal_with_fuel(tokens_of, 1);
    }
    lemma_tokens_of_all_one(*x.string);
    let s1 = seq![*x.string];
    lemma_tokens_of_all_push(s1, *x.uescape_opt);
    let s2 = s1.push(*x.uescape_opt);
    lemma_tokens_of_all_push(s2, *x.escape);
    let s3 = s2.push(*x.escape);
    assert(children_of(t) =~= s3);
}

/// The tokens of a `ConfigureExpression` tree are those of its children, in order.
proof fn lemma_configure_expression_tokens<'a>(t: ParseTree<'a>)
    requires
        t is ConfigureExpression,
    ensures
        tokens_of(t) == tokens_of_all(children_of(t)),
{
    let x = t->ConfigureExpression_0;
    assert(tokens_of(t) == tokens_of(*x.configure) + tokens_of(*x.open_paren) + tokens_of(*x.identifier) + tokens_of(*x.comma) + tokens_of(*x.value) + tokens_of(*x.close_paren)) by {
        reveal_with_fuel(tokens_of, 1);
    }
    lemma_tokens_of_all_one(*x.configure);
    let s1 = seq![*x.configure];
    lemma_tokens_of_all_push(s1, *x.open_paren);
    let s2 = s1.push(*x.open_paren);
    lemma_tokens_of_all_push(s2, *x.identifier);
    let s3 = s2.push(*x.identifier);
    lemma_tokens_of_all_push(s3, *x.comma);
    let s4 = s3.push(*x.comma);
    lemma_tokens_of_all_push(s4, *x.value);
    let s5 = s4.push(*x.value);
    lemma_tokens_of_all_push(s5, *x.close_paren);
    let s6 = s5.push(*x.close_paren);
    assert(children_of(t) =~= s6);
}

/// The tokens of a `SubqueryExpression` tree are those of its children, in order.
proof fn lemma_subquery_expression_tokens<'a>(t: ParseTree<'a>)
    requires
        t is SubqueryExpression,
    ensures
        tokens_of(t) == tokens_of_all(children_of(t)),
{
    let x = t->SubqueryExpression_0;
    assert(tokens_of(t) == tokens_of(*x.open_paren) + tokens_of(*x.query) + tokens_of(*x.close_paren)) by {
        reveal_with_fuel(tokens_of, 1);
    }
    lemma_tokens_of_all_one(*x.open_paren);
    let s1 = seq![*x.open_paren];
    lemma_tokens_of_all_push(s1, *x.query);
    let s2 = s1.push(*x.query);
    lemma_tokens_of_all_push(s2, *x.close_paren);
    let s3 = s2.push(*x.close_paren);
    assert(children_of(t) =~= s3);
}

/// The tokens of a `Grouping` tree are those of its children, in order.
proof fn lemma_grouping_tokens<'a>(t: ParseTree<'a>)
    requires
        t is Grouping,
    ensures
        tokens_of(t) == tokens_of_all(children_of(t)),
{
    let x = t->Grouping_0;
    assert(tokens_of(t) == tokens_of(*x.grouping) + tokens_of(*x.groups)) by {
        reveal_with_fuel(tokens_of, 1);
    }
    lemma_tokens_of_all_one(*x.grouping);
    let s1 = seq![*x.grouping];
    lemma_tokens_of_all_push(s1, *x.groups);
    let s2 = s1.push(*x.groups);
    assert(children_of(t) =~= s2);
}

/// The tokens of a `Extract` tree are those of its children, in order.
proof fn lemma_extract_tokens<'a>(t: ParseTree<'a>)
    requires
        t is Extract,
    ensures
        tokens_of(t) == tokens_of_all(children_of(t)),
{
    let x = t->Extract_0;
    assert(tokens_of(t) == tokens_of(*x.extract) + tokens_of(*x.open_paren) + tokens_of(*x.identifier) + tokens_of(*x.from) + tokens_of(*x.value) + tokens_of(*x.close_paren)) by {
        reveal_with_fuel(tokens_of, 1);
    }
    lemma_tokens_of_all_one(*x.extract);
    let s1 = seq![*x.extract];
    lemma_tokens_of_all_push(s1, *x.open_paren);
    let s2 = s1.push(*x.open_paren);
    lemma_tokens_of_all_push(s2, *x.identifier);
    let s3 = s2.push(*x.identifier);
    lemma_tokens_of_all_push(s3, *x.from);
    let s4 = s3.push(*x.from);
    lemma_tokens_of_all_push(s4, *x.value);
    let s5 = s4.push(*x.value);
    lemma_tokens_of_all_push(s5, *x.close_paren);
    let s6 = s5.push(*x.close_paren);
    assert(children_of(t) =~= s6);
}

/// The tokens of a `CurrentTime` tree are those of its children, in order.
proof fn lemma_current_time_tokens<'a>(t: ParseTree<'a>)
    requires
        t is CurrentTime,
    ensures
        tokens_of(t) == tokens_of_all(children_of(t)),
{
    let x = t->CurrentTime_0;
    assert(tokens_of(t) == tokens_of(*x.current_time) + tokens_of(*x.open_paren) + tokens_of(*x.precision) + tokens_of(*x.close_paren)) by {
        reveal_with_fuel(tokens_of, 1);
    }
    lemma_tokens_of_all_one(*x.current_time);
    let s1 = seq![*x.current_time];
    lemma_tokens_of_all_push(s1, *x.open_paren);
    let s2 = s1.push(*x.open_paren);
    lemma_tokens_of_all_push(s2, *x.precision);
    let s3 = s2.push(*x.precision);
    lemma_tokens_of_all_push(s3, *x.close_paren);
    let s4 = s3.push(*x.close_paren);
    assert(children_of(t) =~= s4);
}

/// The tokens of a `CurrentTimestamp` tree are those of its children, in order.
proof fn lemma_current_timestamp_tokens<'a>(t: ParseTree<'a>)
    requires
        t is CurrentTimestamp,
    ensures
        tokens_of(t) == tokens_of_all(children_of(t)),
{
    let x = t->CurrentTimestamp_0;
    assert(tokens_of(t) == tokens_of(*x.current_timestamp) + tokens_of(*x.open_paren) + tokens_of(*x.precision) + tokens_of(*x.close_paren)) by {
        reveal_with_fuel(tokens_of, 1);
    }
    lemma_tokens_of_all_one(*x.current_timestamp);
    let s1 = seq![*x.current_timestamp];
    lemma_tokens_of_all_push(s1, *x.open_paren);
    let s2 = s1.push(*x.open_paren);
    lemma_tokens_of_all_push(s2, *x.precision);
    let s3 = s2.push(*x.precision);
    lemma_tokens_of_all_push(s3, *x.close_paren);
    let s4 = s3.push(*x.close_paren);
    assert(children_of(t) =~= s4);
}

/// The tokens of a `Normalize` tree are those of its children, in order.
proof fn lemma_normalize_tokens<'a>(t: ParseTree<'a>)
    requires
        t is Normalize,
    ensures
        tokens_of(t) == tokens_of_all(children_of(t)),
{
    let x = t->Normalize_0;
    assert(tokens_of(t) == tokens_of(*x.normalize) + tokens_of(*x.open_paren) + tokens_of(*x.value) + tokens_of(*x.comma_opt) + tokens_of(*x.normal_form) + tokens_of(*x.close_paren)) by {
        reveal_with_fuel(tokens_of, 1);
    }
    lemma_tokens_of_all_one(*x.normalize);
    let s1 = seq![*x.normalize];
    lemma_tokens_of_all_push(s1, *x.open_paren);
    let s2 = s1.push(*x.open_paren);
    lemma_tokens_of_all_push(s2, *x.value);
    let s3 = s2.push(*x.value);
    lemma_tokens_of_all_push(s3, *x.comma_opt);
    let s4 = s3.push(*x.comma_opt);
    lemma_tokens_of_all_push(s4, *x.normal_form);
    let s5 = s4.push(*x.normal_form);
    lemma_tokens_of_all_push(s5, *x.close_paren);
    let s6 = s5.push(*x.close_paren);
    assert(children_of(t) =~= s6);
}

/// The tokens of a `Localtime` tree are those of its children, in order.
proof fn lemma_localtime_tokens<'a>(t: ParseTree<'a>)
    requires
        t is Localtime,
    ensures
        tokens_of(t) == tokens_of_all(children_of(t)),
{
    let x = t->Localtime_0;
    assert(tokens_of(t) == tokens_of(*x.localtime) + tokens_of(*x.open_paren) + tokens_of(*x.precision) + tokens_of(*x.close_paren)) by {
        reveal_with_fuel(tokens_of, 1);
    }
    lemma_tokens_of_all_one(*x.localtime);
    let s1 = seq![*x.localtime];
    lemma_tokens_of_all_push(s1, *x.open_paren);
    let s2 = s1.push(*x.open_paren);
    lemma_tokens_of_all_push(s2, *x.precision);
    let s3 = s2.push(*x.precision);
    lemma_tokens_of_all_push(s3, *x.close_paren);
    let s4 = s3.push(*x.close_paren);
    assert(children_of(t) =~= s4);
}

/// The tokens of a `Localtimestamp` tree are those of its children, in order.
proof fn lemma_localtimestamp_tokens<'a>(t: ParseTree<'a>)
    requires
        t is Localtimestamp,
    ensures
        tokens_of(t) == tokens_of_all(children_of(t)),
{
    let x = t->Localtimestamp_0;
    assert(tokens_of(t) == tokens_of(*x.localtimestamp) + tokens_of(*x.open_paren) + tokens_of(*x.precision) + tokens_of(*x.close_paren)) by {
        reveal_with_fuel(tokens_of, 1);
    }
    lemma_tokens_of_all_one(*x.localtimestamp);
    let s1 = seq![*x.localtimestamp];
    lemma_tokens_of_all_push(s1, *x.open_paren);
    let s2 = s1.push(*x.open_paren);
    lemma_tokens_of_all_push(s2, *x.precision);
    let s3 = s2.push(*x.precision);
    lemma_tokens_of_all_push(s3, *x.close_paren);
    let s4 = s3.push(*x.close_paren);
    assert(children_of(t) =~= s4);
}

/// The tokens of a `Cast` tree are those of its children, in order.
proof fn lemma_cast_tokens<'a>(t: ParseTree<'a>)
    requires
        t is Cast,
    ensures
        tokens_of(t) == tokens_of_all(children_of(t)),
{
    let x = t->Cast_0;
    assert(tokens_of(t) == tokens_of(*x.cast) + tokens_of(*x.open_paren) + tokens_of(*x.value) + tokens_of(*x.as_) + tokens_of(*x.type_) + tokens_of(*x.close_paren)) by {
        reveal_with_fuel(tokens_of, 1);
    }
    lemma_tokens_of_all_one(*x.cast);
    let s1 = seq![*x.cast];
    lemma_tokens_of_all_push(s1, *x.open_paren);
    let s2 = s1.push(*x.open_paren);
    lemma_tokens_of_all_push(s2, *x.value);
    let s3 = s2.push(*x.value);
    lemma_tokens_of_all_push(s3, *x.as_);
    let s4 = s3.push(*x.as_);
    lemma_tokens_of_all_push(s4, *x.type_);
    let s5 = s4.push(*x.type_);
    lemma_tokens_of_all_push(s5, *x.close_paren);
    let s6 = s5.push(*x.close_paren);
    assert(children_of(t) =~= s6);
}

/// The tokens of a `WhenClause` tree are those of its children, in order.
proof fn lemma_when_clause_tokens<'a>(t: ParseTree<'a>)
    requires
        t is WhenClause,
    ensures
        tokens_of(t) == tokens_of_all(children_of(t)),
{
    let x = t->WhenClause_0;
    assert(tokens_of(t) == tokens_of(*x.when) + tokens_of(*x.condition) + tokens_of(*x.then_) + tokens_of(*x.result)) by {
        reveal_with_fuel(tokens_of, 1);
    }
    lemma_tokens_of_all_one(*x.when);
    let s1 = seq![*x.when];
    lemma_tokens_of_all_push(s1, *x.condition);
    let s2 = s1.push(*x.condition);
    lemma_tokens_of_all_push(s2, *x.then_);
    let s3 = s2.push(*x.then_);
    lemma_tokens_of_all_push(s3, *x.result);
    let s4 = s3.push(*x.result);
    assert(children_of(t) =~= s4);
}

/// The tokens of a `Case` tree are those of its children, in order.
proof fn lemma_case_tokens<'a>(t: ParseTree<'a>)
    requires
        t is Case,
    ensures
        tokens_of(t) == tokens_of_all(children_of(t)),
{
    let x = t->Case_0;
    assert(tokens_of(t) == tokens_of(*x.case) + tokens_of(*x.value_opt) + tokens_of(*x.when_clauses) + tokens_of(*x.else_opt) + tokens_of(*x.default) + tokens_of(*x.end)) by {
        reveal_with_fuel(tokens_of, 1);
    }
    lemma_tokens_of_all_one(*x.case);
    let s1 = seq![*x.case];
    lemma_tokens_of_all_push(s1, *x.value_opt);
    let s2 = s1.push(*x.value_opt);
    lemma_tokens_of_all_push(s2, *x.when_clauses);
    let s3 = s2.push(*x.when_clauses);
    lemma_tokens_of_all_push(s3, *x.else_opt);
    let s4 = s3.push(*x.else_opt);
    lemma_tokens_of_all_push(s4, *x.default);
    let s5 = s4.push(*x.default);
    lemma_tokens_of_all_push(s5, *x.end);
    let s6 = s5.push(*x.end);
    assert(children_of(t) =~= s6);
}

/// The tokens of a `Exists` tree are those of its children, in order.
proof fn lemma_exists_tokens<'a>(t: ParseTree<'a>)
    requires
        t is Exists,
    ensures
        tokens_of(t) == tokens_of_all(children_of(t)),
{
    let x = t->Exists_0;
    assert(tokens_of(t) == tokens_of(*x.exists) + tokens_of(*x.open_paren) + tokens_of(*x.query) + tokens_of(*x.close_paren)) by {
        reveal_with_fuel(tokens_of, 1);
    }
    lemma_tokens_of_all_one(*x.exists);
    let s1 = seq![*x.exists];
    lemma_tokens_of_all_push(s1, *x.open_paren);
    let s2 = s1.push(*x.open_paren);
    lemma_tokens_of_all_push(s2, *x.query);
    let s3 = s2.push(*x.query);
    lemma_tokens_of_all_push(s3, *x.close_paren);
    let s4 = s3.push(*x.close_paren);
    assert(children_of(t) =~= s4);
}

/// The tokens of a `TypeConstructor` tree are those of its children, in order.
proof fn lemma_type_constructor_tokens<'a>(t: ParseTree<'a>)
    requires
        t is TypeConstructor,
    ensures
        tokens_of(t) == tokens_of_all(children_of(t)),
{
    let x = t->TypeConstructor_0;
    assert(tokens_of(t) == tokens_of(*x.type_) + tokens_of(*x.value)) by {
        reveal_with_fuel(tokens_of, 1);
    }
    lemma_tokens_of_all_one(*x.type_);
    let s1 = seq![*x.type_];
    lemma_tokens_of_all_push(s1, *x.value);
    let s2 = s1.push(*x.value);
    assert(children_of(t) =~= s2);
}

/// The tokens of a `Array` tree are those of its children, in order.
proof fn lemma_array_tokens<'a>(t: ParseTree<'a>)
    requires
        t is Array,
    ensures
        tokens_of(t) == tokens_of_all(children_of(t)),
{
    let x = t->Array_0;
    assert(tokens_of(t) == tokens_of(*x.array) + tokens_of(*x.elements)) by {
        reveal_with_fuel(tokens_of, 1);
    }
    lemma_tokens_of_all_one(*x.array);
    let s1 = seq![*x.array];
    lemma_tokens_of_all_push(s1, *x.elements);
    let s2 = s1.push(*x.elements);
    assert(children_of(t) =~= s2);
}

/// The tokens of a `Interval` tree are those of its children, in order.
proof fn lemma_interval_tokens<'a>(t: ParseTree<'a>)
    requires
        t is Interval,
    ensures
        tokens_of(t) == tokens_of_all(children_of(t)),
{
    let x = t->Interval_0;
    assert(tokens_of(t) == tokens_of(*x.interval) + tokens_of(*x.sign_opt) + tokens_of(*x.value) + tokens_of(*x.from) + tokens_of(*x.to_kw_opt) + tokens_of(*x.to)) by {
        reveal_with_fuel(tokens_of, 1);
    }
    lemma_tokens_of_all_one(*x.interval);
    let s1 = seq![*x.interval];
    lemma_tokens_of_all_push(s1, *x.sign_opt);
    let s2 = s1.push(*x.sign_opt);
    lemma_tokens_of_all_push(s2, *x.value);
    let s3 = s2.push(*x.value);
    lemma_tokens_of_all_push(s3, *x.from);
    let s4 = s3.push(*x.from);
    lemma_tokens_of_all_push(s4, *x.to_kw_opt);
    let s5 = s4.push(*x.to_kw_opt);
    lemma_tokens_of_all_push(s5, *x.to);
    let s6 = s5.push(*x.to);
    assert(children_of(t) =~= s6);
}

/// The tokens of a `Row` tree are those of its children, in order.
proof fn lemma_row_tokens<'a>(t: ParseTree<'a>)
    requires
        t is Row,
    ensures
        tokens_of(t) == tokens_of_all(children_of(t)),
{
    let x = t->Row_0;
    assert(tokens_of(t) == tokens_of(*x.row) + tokens_of(*x.elements)) by {
        reveal_with_fuel(tokens_of, 1);
    }
    lemma_tokens_of_all_one(*x.row);
    let s1 = seq![*x.row];
    lemma_tokens_of_all_push(s1, *x.elements);
    let s2 = s1.push(*x.elements);
    assert(children_of(t) =~= s2);
}

/// The tokens of a `TryCast` tree are those of its children, in order.
proof fn lemma_try_cast_tokens<'a>(t: ParseTree<'a>)
    requires
        t is TryCast,
    ensures
        tokens_of(t) == tokens_of_all(children_of(t)),
{
    let x = t->TryCast_0;
    assert(tokens_of(t) == tokens_of(*x.try_cast) + tokens_of(*x.open_paren) + tokens_of(*x.value) + tokens_of(*x.as_) + tokens_of(*x.type_) + tokens_of(*x.close_paren)) by {
        reveal_with_fuel(tokens_of, 1);
    }
    lemma_tokens_of_all_one(*x.try_cast);
    let s1 = seq![*x.try_cast];
    lemma_tokens_of_all_push(s1, *x.open_paren);
    let s2 = s1.push(*x.open_paren);
    lemma_tokens_of_all_push(s2, *x.value);
    let s3 = s2.push(*x.value);
    lemma_tokens_of_all_push(s3, *x.as_);
    let s4 = s3.push(*x.as_);
    lemma_tokens_of_all_push(s4, *x.type_);
    let s5 = s4.push(*x.type_);
    lemma_tokens_of_all_push(s5, *x.close_paren);
    let s6 = s5.push(*x.close_paren);
    assert(children_of(t) =~= s6);
}

/// The tokens of a `Substring` tree are those of its children, in order.
proof fn lemma_substring_tokens<'a>(t: ParseTree<'a>)
    requires
        t is Substring,
    ensures
        tokens_of(t) == tokens_of_all(children_of(t)),
{
    let x = t->Substring_0;
    assert(tokens_of(t) == tokens_of(*x.substring) + tokens_of(*x.open_paren) + tokens_of(*x.value) + tokens_of(*x.from) + tokens_of(*x.from_value) + tokens_of(*x.for_opt) + tokens_of(*x.for_value) + tokens_of(*x.close_paren)) by {
        reveal_with_fuel(tokens_of, 1);
    }
    lemma_tokens_of_all_one(*x.substring);
    let s1 = seq![*x.substring];
    lemma_tokens_of_all_push(s1, *x.open_paren);
    let s2 = s1.push(*x.open_paren);
    lemma_tokens_of_all_push(s2, *x.value);
    let s3 = s2.push(*x.value);
    lemma_tokens_of_all_push(s3, *x.from);
    let s4 = s3.push(*x.from);
    lemma_tokens_of_all_push(s4, *x.from_value);
    let s5 = s4.push(*x.from_value);
    lemma_tokens_of_all_push(s5, *x.for_opt);
    let s6 = s5.push(*x.for_opt);
    lemma_tokens_of_all_push(s6, *x.for_value);
    let s7 = s6.push(*x.for_value);
    lemma_tokens_of_all_push(s7, *x.close_paren);
    let s8 = s7.push(*x.close_paren);
    assert(children_of(t) =~= s8);
}

/// The tokens of a `Position` tree are those of its children, in order.
proof fn lemma_position_tokens<'a>(t: ParseTree<'a>)
    requires
        t is Position,
    ensures
        tokens_of(t) == tokens_of_all(children_of(t)),
{
    let x = t->Position_0;
    assert(tokens_of(t) == tokens_of(*x.position) + tokens_of(*x.open_paren) + tokens_of(*x.value) + tokens_of(*x.in_) + tokens_of(*x.target) + tokens_of(*x.close_paren)) by {
        reveal_with_fuel(tokens_of, 1);
    }
    lemma_tokens_of_all_one(*x.position);
    let s1 = seq![*x.position];
    lemma_tokens_of_all_push(s1, *x.open_paren);
    let s2 = s1.push(*x.open_paren);
    lemma_tokens_of_all_push(s2, *x.value);
    let s3 = s2.push(*x.value);
    lemma_tokens_of_all_push(s3, *x.in_);
    let s4 = s3.push(*x.in_);
    lemma_tokens_of_all_push(s4, *x.target);
    let s5 = s4.push(*x.target);
    lemma_tokens_of_all_push(s5, *x.close_paren);
    let s6 = s5.push(*x.close_paren);
    assert(children_of(t) =~= s6);
}

/// The tokens of a `ArrayTypeSuffix` tree are those of its children, in order.
proof fn lemma_array_type_suffix_tokens<'a>(t: ParseTree<'a>)
    requires
        t is ArrayTypeSuffix,
    ensures
        tokens_of(t) == tokens_of_all(children_of(t)),
{
    let x = t->ArrayTypeSuffix_0;
    assert(tokens_of(t) == tokens_of(*x.base_type) + tokens_of(*x.array)) by {
        reveal_with_fuel(tokens_of, 1);
    }
    lemma_tokens_of_all_one(*x.base_type);
    let s1 = seq![*x.base_type];
    lemma_tokens_of_all_push(s1, *x.array);
    let s2 = s1.push(*x.array);
    assert(children_of(t) =~= s2);
}

/// The tokens of a `NamedType` tree are those of its children, in order.
proof fn lemma_named_type_tokens<'a>(t: ParseTree<'a>)
    requires
        t is NamedType,
    ensures
        tokens_of(t) == tokens_of_all(children_of(t)),
{
    let x = t->NamedType_0;
    assert(tokens_of(t) == tokens_of(*x.name) + tokens_of(*x.type_parameters)) by {
        reveal_with_fuel(tokens_of, 1);
    }
    lemma_tokens_of_all_one(*x.name);
    let s1 = seq![*x.name];
    lemma_tokens_of_all_push(s1, *x.type_parameters);
    let s2 = s1.push(*x.type_parameters);
    assert(children_of(t) =~= s2);
}

/// The tokens of a `ArrayType` tree are those of its children, in order.
proof fn lemma_array_type_tokens<'a>(t: ParseTree<'a>)
    requires
        t is ArrayType,
    ensures
        tokens_of(t) == tokens_of_all(children_of(t)),
{
    let x = t->ArrayType_0;
    assert(tokens_of(t) == tokens_of(*x.array) + tokens_of(*x.open_angle) + tokens_of(*x.element_type) + tokens_of(*x.close_angle)) by {
        reveal_with_fuel(tokens_of, 1);
    }
    lemma_tokens_of_all_one(*x.array);
    let s1 = seq![*x.array];
    lemma_tokens_of_all_push(s1, *x.open_angle);
    let s2 = s1.push(*x.open_angle);
    lemma_tokens_of_all_push(s2, *x.element_type);
    let s3 = s2.push(*x.element_type);
    lemma_tokens_of_all_push(s3, *x.close_angle);
    let s4 = s3.push(*x.close_angle);
    assert(children_of(t) =~= s4);
}

/// The tokens of a `MapType` tree are those of its children, in order.
proof fn lemma_map_type_tokens<'a>(t: ParseTree<'a>)
    requires
        t is MapType,
    ensures
        tokens_of(t) == tokens_of_all(children_of(t)),
{
    let x = t->MapType_0;
    assert(tokens_of(t) == tokens_of(*x.map) + tokens_of(*x.open_angle) + tokens_of(*x.key_type) + tokens_of(*x.comma) + tokens_of(*x.value_type) + tokens_of(*x.close_angle)) by {
        reveal_with_fuel(tokens_of, 1);
    }
    lemma_tokens_of_all_one(*x.map);
    let s1 = seq![*x.map];
    lemma_tokens_of_all_push(s1, *x.open_angle);
    let s2 = s1.push(*x.open_angle);
    lemma_tokens_of_all_push(s2, *x.key_type);
    let s3 = s2.push(*x.key_type);
    lemma_tokens_of_all_push(s3, *x.comma);
    let s4 = s3.push(*x.comma);
    lemma_tokens_of_all_push(s4, *x.value_type);
    let s5 = s4.push(*x.value_type);
    lemma_tokens_of_all_push(s5, *x.close_angle);
    let s6 = s5.push(*x.close_angle);
    assert(children_of(t) =~= s6);
}

/// The tokens of a `RowType` tree are those of its children, in order.
proof fn lemma_row_type_tokens<'a>(t: ParseTree<'a>)
    requires
        t is RowType,
    ensures
        tokens_of(t) == tokens_of_all(children_of(t)),
{
    let x = t->RowType_0;
    assert(tokens_of(t) == tokens_of(*x.row) + tokens_of(*x.element_types)) by {
        reveal_with_fuel(tokens_of, 1);
    }
    lemma_tokens_of_all_one(*x.row);
    let s1 = seq![*x.row];
    lemma_tokens_of_all_push(s1, *x.element_types);
    let s2 = s1.push(*x.element_types);
    assert(children_of(t) =~= s2);
}

/// The tokens of a `RowTypeElement` tree are those of its children, in order.
proof fn lemma_row_type_element_tokens<'a>(t: ParseTree<'a>)
    requires
        t is RowTypeElement,
    ensures
        tokens_of(t) == tokens_of_all(children_of(t)),
{
    let x = t->RowTypeElement_0;
    assert(tokens_of(t) == tokens_of(*x.identifier) + tokens_of(*x.type_)) by {
        reveal_with_fuel(tokens_of, 1);
    }
    lemma_tokens_of_all_one(*x.identifier);
    let s1 = seq![*x.identifier];
    lemma_tokens_of_all_push(s1, *x.type_);
    let s2 = s1.push(*x.type_);
    assert(children_of(t) =~= s2);
}

/// The tokens of a `IntervalType` tree are those of its children, in order.
proof fn lemma_interval_type_tokens<'a>(t: ParseTree<'a>)
    requires
        t is IntervalType,
    ensures
        tokens_of(t) == tokens_of_all(children_of(t)),
{
    let x = t->IntervalType_0;
    assert(tokens_of(t) == tokens_of(*x.interval) + tokens_of(*x.from) + tokens_of(*x.to_kw) + tokens_of(*x.to)) by {
        reveal_with_fuel(tokens_of, 1);
    }
    lemma_tokens_of_all_one(*x.interval);
    let s1 = seq![*x.interval];
    lemma_tokens_of_all_push(s1, *x.from);
    let s2 = s1.push(*x.from);
    lemma_tokens_of_all_push(s2, *x.to_kw);
    let s3 = s2.push(*x.to_kw);
    lemma_tokens_of_all_push(s3, *x.to);
    let s4 = s3.push(*x.to);
    assert(children_of(t) =~= s4);
}

/// The tokens of a `IfNotExists` tree are those of its children, in order.
proof fn lemma_if_not_exists_tokens<'a>(t: ParseTree<'a>)
    requires
        t is IfNotExists,
    ensures
        tokens_of(t) == tokens_of_all(children_of(t)),
{
    let x = t->IfNotExists_0;
    assert(tokens_of(t) == tokens_of(*x.if_) + tokens_of(*x.not) + tokens_of(*x.exists)) by {
        reveal_with_fuel(tokens_of, 1);
    }
    lemma_tokens_of_all_one(*x.if_);
    let s1 = seq![*x.if_];
    lemma_tokens_of_all_push(s1, *x.not);
    let s2 = s1.push(*x.not);
    lemma_tokens_of_all_push(s2, *x.exists);
    let s3 = s2.push(*x.exists);
    assert(children_of(t) =~= s3);
}

/// The tokens of a `CreateTable` tree are those of its children, in order.
proof fn lemma_create_table_tokens<'a>(t: ParseTree<'a>)
    requires
        t is CreateTable,
    ensures
        tokens_of(t) == tokens_of_all(children_of(t)),
{
    let x = t->CreateTable_0;
    assert(tokens_of(t) == tokens_of(*x.create) + tokens_of(*x.table) + tokens_of(*x.if_not_exists_opt) + tokens_of(*x.table_name) + tokens_of(*x.table_elements) + tokens_of(*x.comment_opt) + tokens_of(*x.with_properties_opt)) by {
        reveal_with_fuel(tokens_of, 1);
    }
    lemma_tokens_of_all_one(*x.create);
    let s1 = seq![*x.create];
    lemma_tokens_of_all_push(s1, *x.table);
    let s2 = s1.push(*x.table);
    lemma_tokens_of_all_push(s2, *x.if_not_exists_opt);
    let s3 = s2.push(*x.if_not_exists_opt);
    lemma_tokens_of_all_push(s3, *x.table_name);
    let s4 = s3.push(*x.table_name);
    lemma_tokens_of_all_push(s4, *x.table_elements);
    let s5 = s4.push(*x.table_elements);
    lemma_tokens_of_all_push(s5, *x.comment_opt);
    let s6 = s5.push(*x.comment_opt);
    lemma_tokens_of_all_push(s6, *x.with_properties_opt);
    let s7 = s6.push(*x.with_properties_opt);
    assert(children_of(t) =~= s7);
}

/// The tokens of a `CreateView` tree are those of its children, in order.
proof fn lemma_create_view_tokens<'a>(t: ParseTree<'a>)
    requires
        t is CreateView,
    ensures
        tokens_of(t) == tokens_of_all(children_of(t)),
{
    let x = t->CreateView_0;
    assert(tokens_of(t) == tokens_of(*x.create) + tokens_of(*x.or_opt) + tokens_of(*x.replace_opt) + tokens_of(*x.view) + tokens_of(*x.qualified_name) + tokens_of(*x.as_) + tokens_of(*x.query)) by {
        reveal_with_fuel(tokens_of, 1);
    }
    lemma_tokens_of_all_one(*x.create);
    let s1 = seq![*x.create];
    lemma_tokens_of_all_push(s1, *x.or_opt);
    let s2 = s1.push(*x.or_opt);
    lemma_tokens_of_all_push(s2, *x.replace_opt);
    let s3 = s2.push(*x.replace_opt);
    lemma_tokens_of_all_push(s3, *x.view);
    let s4 = s3.push(*x.view);
    lemma_tokens_of_all_push(s4, *x.qualified_name);
    let s5 = s4.push(*x.qualified_name);
    lemma_tokens_of_all_push(s5, *x.as_);
    let s6 = s5.push(*x.as_);
    lemma_tokens_of_all_push(s6, *x.query);
    let s7 = s6.push(*x.query);
    assert(children_of(t) =~= s7);
}

/// The tokens of a `CreateRole` tree are those of its children, in order.
proof fn lemma_create_role_tokens<'a>(t: ParseTree<'a>)
    requires
        t is CreateRole,
    ensures
        tokens_of(t) == tokens_of_all(children_of(t)),
{
    let x = t->CreateRole_0;
    assert(tokens_of(t) == tokens_of(*x.create) + tokens_of(*x.role) + tokens_of(*x.name) + tokens_of(*x.with_admin_grantor_opt)) by {
        reveal_with_fuel(tokens_of, 1);
    }
    lemma_tokens_of_all_one(*x.create);
    let s1 = seq![*x.create];
    lemma_tokens_of_all_push(s1, *x.role);
    let s2 = s1.push(*x.role);
    lemma_tokens_of_all_push(s2, *x.name);
    let s3 = s2.push(*x.name);
    lemma_tokens_of_all_push(s3, *x.with_admin_grantor_opt);
    let s4 = s3.push(*x.with_admin_grantor_opt);
    assert(children_of(t) =~= s4);
}

/// The tokens of a `WithAdminGrantor` tree are those of its children, in order.
proof fn lemma_with_admin_grantor_tokens<'a>(t: ParseTree<'a>)
    requires
        t is WithAdminGrantor,
    ensures
        tokens_of(t) == tokens_of_all(children_of(t)),
{
    let x = t->WithAdminGrantor_0;
    assert(tokens_of(t) == tokens_of(*x.with) + tokens_of(*x.admin) + tokens_of(*x.grantor)) by {
        reveal_with_fuel(tokens_of, 1);
    }
    lemma_tokens_of_all_one(*x.with);
    let s1 = seq![*x.with];
    lemma_tokens_of_all_push(s1, *x.admin);
    let s2 = s1.push(*x.admin);
    lemma_tokens_of_all_push(s2, *x.grantor);
    let s3 = s2.push(*x.grantor);
    assert(children_of(t) =~= s3);
}

/// The tokens of a `UserPrincipal` tree are those of its children, in order.
proof fn lemma_user_principal_tokens<'a>(t: ParseTree<'a>)
    requires
        t is UserPrincipal,
    ensures
        tokens_of(t) == tokens_of_all(children_of(t)),
{
    let x = t->UserPrincipal_0;
    assert(tokens_of(t) == tokens_of(*x.user) + tokens_of(*x.identifier)) by {
        reveal_with_fuel(tokens_of, 1);
    }
    lemma_tokens_of_all_one(*x.user);
    let s1 = seq![*x.user];
    lemma_tokens_of_all_push(s1, *x.identifier);
    let s2 = s1.push(*x.identifier);
    assert(children_of(t) =~= s2);
}

/// The tokens of a `RolePrincipal` tree are those of its children, in order.
proof fn lemma_role_principal_tokens<'a>(t: ParseTree<'a>)
    requires
        t is RolePrincipal,
    ensures
        tokens_of(t) == tokens_of_all(children_of(t)),
{
    let x = t->RolePrincipal_0;
    assert(tokens_of(t) == tokens_of(*x.role) + tokens_of(*x.identifier)) by {
        reveal_with_fuel(tokens_of, 1);
    }
    lemma_tokens_of_all_one(*x.role);
    let s1 = seq![*x.role];
    lemma_tokens_of_all_push(s1, *x.identifier);
    let s2 = s1.push(*x.identifier);
    assert(children_of(t) =~= s2);
}

/// The tokens of a `UnspecifiedPrincipal` tree are those of its children, in order.
proof fn lemma_unspecified_principal_tokens<'a>(t: ParseTree<'a>)
    requires
        t is UnspecifiedPrincipal,
    ensures
        tokens_of(t) == tokens_of_all(children_of(t)),
{
    let x = t->UnspecifiedPrincipal_0;
    assert(tokens_of(t) == tokens_of(*x.identifier)) by {
        reveal_with_fuel(tokens_of, 1);
    }
    lemma_tokens_of_all_one(*x.identifier);
    let s1 = seq![*x.identifier];
    assert(children_of(t) =~= s1);
}

/// The tokens of a `CreateTableAsSelect` tree are those of its children, in order.
proof fn lemma_create_table_as_select_tokens<'a>(t: ParseTree<'a>)
    requires
        t is CreateTableAsSelect,
    ensures
        tokens_of(t) == tokens_of_all(children_of(t)),
{
    let x = t->CreateTableAsSelect_0;
    assert(tokens_of(t) == tokens_of(*x.create) + tokens_of(*x.table) + tokens_of(*x.if_not_exists_opt) + tokens_of(*x.table_name) + tokens_of(*x.column_aliases_opt) + tokens_of(*x.comment_opt) + tokens_of(*x.with_properties_opt) + tokens_of(*x.as_) + tokens_of(*x.open_paren_opt) + tokens_of(*x.query) + tokens_of(*x.close_paren_opt) + tokens_of(*x.with_data_opt)) by {
        reveal_with_fuel(tokens_of, 1);
    }
    lemma_tokens_of_all_one(*x.create);
    let s1 = seq![*x.create];
    lemma_tokens_of_all_push(s1, *x.table);
    let s2 = s1.push(*x.table);
    lemma_tokens_of_all_push(s2, *x.if_not_exists_opt);
    let s3 = s2.push(*x.if_not_exists_opt);
    lemma_tokens_of_all_push(s3, *x.table_name);
    let s4 = s3.push(*x.table_name);
    lemma_tokens_of_all_push(s4, *x.column_aliases_opt);
    let s5 = s4.push(*x.column_aliases_opt);
    lemma_tokens_of_all_push(s5, *x.comment_opt);
    let s6 = s5.push(*x.comment_opt);
    lemma_tokens_of_all_push(s6, *x.with_properties_opt);
    let s7 = s6.push(*x.with_properties_opt);
    lemma_tokens_of_all_push(s7, *x.as_);
    let s8 = s7.push(*x.as_);
    lemma_tokens_of_all_push(s8, *x.open_paren_opt);
    let s9 = s8.push(*x.open_paren_opt);
    lemma_tokens_of_all_push(s9, *x.query);
    let s10 = s9.push(*x.query);
    lemma_tokens_of_all_push(s10, *x.close_paren_opt);
    let s11 = s10.push(*x.close_paren_opt);
    lemma_tokens_of_all_push(s11, *x.with_data_opt);
    let s12 = s11.push(*x.with_data_opt);
    assert(children_of(t) =~= s12);
}

/// The tokens of a `WithProperties` tree are those of its children, in order.
proof fn lemma_with_properties_tokens<'a>(t: ParseTree<'a>)
    requires
        t is WithProperties,
    ensures
        tokens_of(t) == tokens_of_all(children_of(t)),
{
    let x = t->WithProperties_0;
    assert(tokens_of(t) == tokens_of(*x.with) + tokens_of(*x.properties)) by {
        reveal_with_fuel(tokens_of, 1);
    }
    lemma_tokens_of_all_one(*x.with);
    let s1 = seq![*x.with];
    lemma_tokens_of_all_push(s1, *x.properties);
    let s2 = s1.push(*x.properties);
    assert(children_of(t) =~= s2);
}

/// The tokens of a `Property` tree are those of its children, in order.
proof fn lemma_property_tokens<'a>(t: ParseTree<'a>)
    requires
        t is Property,
    ensures
        tokens_of(t) == tokens_of_all(children_of(t)),
{
    let x = t->Property_0;
    assert(tokens_of(t) == tokens_of(*x.identifier) + tokens_of(*x.eq) + tokens_of(*x.value)) by {
        reveal_with_fuel(tokens_of, 1);
    }
    lemma_tokens_of_all_one(*x.identifier);
    let s1 = seq![*x.identifier];
    lemma_tokens_of_all_push(s1, *x.eq);
    let s2 = s1.push(*x.eq);
    lemma_tokens_of_all_push(s2, *x.value);
    let s3 = s2.push(*x.value);
    assert(children_of(t) =~= s3);
}

/// The tokens of a `WithData` tree are those of its children, in order.
proof fn lemma_with_data_tokens<'a>(t: ParseTree<'a>)
    requires
        t is WithData,
    ensures
        tokens_of(t) == tokens_of_all(children_of(t)),
{
    let x = t->WithData_0;
    assert(tokens_of(t) == tokens_of(*x.with) + tokens_of(*x.no_opt) + tokens_of(*x.data)) by {
        reveal_with_fuel(tokens_of, 1);
    }
    lemma_tokens_of_all_one(*x.with);
    let s1 = seq![*x.with];
    lemma_tokens_of_all_push(s1, *x.no_opt);
    let s2 = s1.push(*x.no_opt);
    lemma_tokens_of_all_push(s2, *x.data);
    let s3 = s2.push(*x.data);
    assert(children_of(t) =~= s3);
}

/// The tokens of a `Comment` tree are those of its children, in order.
proof fn lemma_comment_tokens<'a>(t: ParseTree<'a>)
    requires
        t is Comment,
    ensures
        tokens_of(t) == tokens_of_all(children_of(t)),
{
    let x = t->Comment_0;
    assert(tokens_of(t) == tokens_of(*x.comment) + tokens_of(*x.value)) by {
        reveal_with_fuel(tokens_of, 1);
    }
    lemma_tokens_of_all_one(*x.comment);
    let s1 = seq![*x.comment];
    lemma_tokens_of_all_push(s1, *x.value);
    let s2 = s1.push(*x.value);
    assert(children_of(t) =~= s2);
}

/// The tokens of a `ColumnDefinition` tree are those of its children, in order.
proof fn lemma_column_definition_tokens<'a>(t: ParseTree<'a>)
    requires
        t is ColumnDefinition,
    ensures
        tokens_of(t) == tokens_of_all(children_of(t)),
{
    let x = t->ColumnDefinition_0;
    assert(tokens_of(t) == tokens_of(*x.identifier) + tokens_of(*x.type_) + tokens_of(*x.not_null_opt) + tokens_of(*x.comment_opt) + tokens_of(*x.with_properties_opt)) by {
        reveal_with_fuel(tokens_of, 1);
    }
    lemma_tokens_of_all_one(*x.identifier);
    let s1 = seq![*x.identifier];
    lemma_tokens_of_all_push(s1, *x.type_);
    let s2 = s1.push(*x.type_);
    lemma_tokens_of_all_push(s2, *x.not_null_opt);
    let s3 = s2.push(*x.not_null_opt);
    lemma_tokens_of_all_push(s3, *x.comment_opt);
    let s4 = s3.push(*x.comment_opt);
    lemma_tokens_of_all_push(s4, *x.with_properties_opt);
    let s5 = s4.push(*x.with_properties_opt);
    assert(children_of(t) =~= s5);
}

/// The tokens of a `NotNull` tree are those of its children, in order.
proof fn lemma_not_null_tokens<'a>(t: ParseTree<'a>)
    requires
        t is NotNull,
    ensures
        tokens_of(t) == tokens_of_all(children_of(t)),
{
    let x = t->NotNull_0;
    assert(tokens_of(t) == tokens_of(*x.not) + tokens_of(*x.null)) by {
        reveal_with_fuel(tokens_of, 1);
    }
    lemma_tokens_of_all_one(*x.not);
    let s1 = seq![*x.not];
    lemma_tokens_of_all_push(s1, *x.null);
    let s2 = s1.push(*x.null);
    assert(children_of(t) =~= s2);
}

/// The tokens of a `LikeClause` tree are those of its children, in order.
proof fn lemma_like_clause_tokens<'a>(t: ParseTree<'a>)
    requires
        t is LikeClause,
    ensures
        tokens_of(t) == tokens_of_all(children_of(t)),
{
    let x = t->LikeClause_0;
    assert(tokens_of(t) == tokens_of(*x.like) + tokens_of(*x.name) + tokens_of(*x.option_type_opt) + tokens_of(*x.properties)) by {
        reveal_with_fuel(tokens_of, 1);
    }
    lemma_tokens_of_all_one(*x.like);
    let s1 = seq![*x.like];
    lemma_tokens_of_all_push(s1, *x.name);
    let s2 = s1.push(*x.name);
    lemma_tokens_of_all_push(s2, *x.option_type_opt);
    let s3 = s2.push(*x.option_type_opt);
    lemma_tokens_of_all_push(s3, *x.properties);
    let s4 = s3.push(*x.properties);
    assert(children_of(t) =~= s4);
}

/// The tokens of a `InsertInto` tree are those of its children, in order.
proof fn lemma_insert_into_tokens<'a>(t: ParseTree<'a>)
    requires
        t is InsertInto,
    ensures
        tokens_of(t) == tokens_of_all(children_of(t)),
{
    let x = t->InsertInto_0;
    assert(tokens_of(t) == tokens_of(*x.insert) + tokens_of(*x.into) + tokens_of(*x.table_name) + tokens_of(*x.column_aliases_opt) + tokens_of(*x.query)) by {
        reveal_with_fuel(tokens_of, 1);
    }
    lemma_tokens_of_all_one(*x.insert);
    let s1 = seq![*x.insert];
    lemma_tokens_of_all_push(s1, *x.into);
    let s2 = s1.push(*x.into);
    lemma_tokens_of_all_push(s2, *x.table_name);
    let s3 = s2.push(*x.table_name);
    lemma_tokens_of_all_push(s3, *x.column_aliases_opt);
    let s4 = s3.push(*x.column_aliases_opt);
    lemma_tokens_of_all_push(s4, *x.query);
    let s5 = s4.push(*x.query);
    assert(children_of(t) =~= s5);
}

/// The tokens of a `Delete` tree are those of its children, in order.
proof fn lemma_delete_tokens<'a>(t: ParseTree<'a>)
    requires
        t is Delete,
    ensures
        tokens_of(t) == tokens_of_all(children_of(t)),
{
    let x = t->Delete_0;
    assert(tokens_of(t) == tokens_of(*x.delete) + tokens_of(*x.from) + tokens_of(*x.table_name) + tokens_of(*x.where_opt) + tokens_of(*x.predicate)) by {
        reveal_with_fuel(tokens_of, 1);
    }
    lemma_tokens_of_all_one(*x.delete);
    let s1 = seq![*x.delete];
    lemma_tokens_of_all_push(s1, *x.from);
    let s2 = s1.push(*x.from);
    lemma_tokens_of_all_push(s2, *x.table_name);
    let s3 = s2.push(*x.table_name);
    lemma_tokens_of_all_push(s3, *x.where_opt);
    let s4 = s3.push(*x.where_opt);
    lemma_tokens_of_all_push(s4, *x.predicate);
    let s5 = s4.push(*x.predicate);
    assert(children_of(t) =~= s5);
}

/// The tokens of a `GroupingSet` tree are those of its children, in order.
proof fn lemma_grouping_set_tokens<'a>(t: ParseTree<'a>)
    requires
        t is GroupingSet,
    ensures
        tokens_of(t) == tokens_of_all(children_of(t)),
{
    let x = t->GroupingSet_0;
    assert(tokens_of(t) == tokens_of(*x.elements)) by {
        reveal_with_fuel(tokens_of, 1);
    }
    lemma_tokens_of_all_one(*x.elements);
    let s1 = seq![*x.elements];
    assert(children_of(t) =~= s1);
}

/// The tokens of a `RelationOrQuery` tree are those of its children, in order.
proof fn lemma_relation_or_query_tokens<'a>(t: ParseTree<'a>)
    requires
        t is RelationOrQuery,
    ensures
        tokens_of(t) == tokens_of_all(children_of(t)),
{
    let x = t->RelationOrQuery_0;
    assert(tokens_of(t) == tokens_of(*x.open_paren) + tokens_of(*x.query_or_relation) + tokens_of(*x.close_paren)) by {
        reveal_with_fuel(tokens_of, 1);
    }
    lemma_tokens_of_all_one(*x.open_paren);
    let s1 = seq![*x.open_paren];
    lemma_tokens_of_all_push(s1, *x.query_or_relation);
    let s2 = s1.push(*x.query_or_relation);
    lemma_tokens_of_all_push(s2, *x.close_paren);
    let s3 = s2.push(*x.close_paren);
    assert(children_of(t) =~= s3);
}

/// The tokens of a `EmptyGroupingSet` tree are those of its children, in order.
proof fn lemma_empty_grouping_set_tokens<'a>(t: ParseTree<'a>)
    requires
        t is EmptyGroupingSet,
    ensures
        tokens_of(t) == tokens_of_all(children_of(t)),
{
    let x = t->EmptyGroupingSet_0;
    assert(tokens_of(t) == tokens_of(*x.open_paren) + tokens_of(*x.close_paren)) by {
        reveal_with_fuel(tokens_of, 1);
    }
    lemma_tokens_of_all_one(*x.open_paren);
    let s1 = seq![*x.open_paren];
    lemma_tokens_of_all_push(s1, *x.close_paren);
    let s2 = s1.push(*x.close_paren);
    assert(children_of(t) =~= s2);
}

/// The tokens of a `ExpressionOrQuery` tree are those of its children, in order.
proof fn lemma_expression_or_query_tokens<'a>(t: ParseTree<'a>)
    requires
        t is ExpressionOrQuery,
    ensures
        tokens_of(t) == tokens_of_all(children_of(t)),
{
    let x = t->ExpressionOrQuery_0;
    assert(tokens_of(t) == tokens_of(*x.open_paren) + tokens_of(*x.expression_or_query) + tokens_of(*x.close_paren)) by {
        reveal_with_fuel(tokens_of, 1);
    }
    lemma_tokens_of_all_one(*x.open_paren);
    let s1 = seq![*x.open_paren];
    lemma_tokens_of_all_push(s1, *x.expression_or_query);
    let s2 = s1.push(*x.expression_or_query);
    lemma_tokens_of_all_push(s2, *x.close_paren);
    let s3 = s2.push(*x.close_paren);
    assert(children_of(t) =~= s3);
}

/// The tokens of a `Entrypoint` tree are those of its children, in order.
proof fn lemma_entrypoint_tokens<'a>(t: ParseTree<'a>)
    requires
        t is Entrypoint,
    ensures
        tokens_of(t) == tokens_of_all(children_of(t)),
{
    let x = t->Entrypoint_0;
    assert(tokens_of(t) == tokens_of(*x.beginning_of_file) + tokens_of(*x.tree) + tokens_of(*x.end_of_file)) by {
        reveal_with_fuel(tokens_of, 1);
    }
    lemma_tokens_of_all_one(*x.beginning_of_file);
    let s1 = seq![*x.beginning_of_file];
    lemma_tokens_of_all_push(s1, *x.tree);
    let s2 = s1.push(*x.tree);
    lemma_tokens_of_all_push(s2, *x.end_of_file);
    let s3 = s2.push(*x.end_of_file);
    assert(children_of(t) =~= s3);
}

/// The tokens of a `NullTreatment` tree are those of its children, in order.
proof fn lemma_null_treatment_tokens<'a>(t: ParseTree<'a>)
    requires
        t is NullTreatment,
    ensures
        tokens_of(t) == tokens_of_all(children_of(t)),
{
    let x = t->NullTreatment_0;
    assert(tokens_of(t) == tokens_of(*x.treatment) + tokens_of(*x.nulls)) by {
        reveal_with_fuel(tokens_of, 1);
    }
    lemma_tokens_of_all_one(*x.treatment);
    let s1 = seq![*x.treatment];
    lemma_tokens_of_all_push(s1, *x.nulls);
    let s2 = s1.push(*x.nulls);
    assert(children_of(t) =~= s2);
}

} // verus!
