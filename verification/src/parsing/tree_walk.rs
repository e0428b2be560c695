//! Walks over parse trees: their subtrees in pre-order and post-order.
use super::parse_tree::{children_of, deref_seq, pair_children, pairs_wf, tree_wf, ParseTree};
use crate::utils::syntax_error::SyntaxError;
use vstd::prelude::*;

verus! {

/// A list of `n` pairs has `2 * n` elements and separators.
pub proof fn lemma_pair_children_len<'a>(ps: Seq<(ParseTree<'a>, ParseTree<'a>)>)
    ensures
        pair_children(ps).len() == 2 * ps.len(),
    decreases ps.len(),
{
    if ps.len() > 0 {
        lemma_pair_children_len(ps.drop_last());
    }
}

/// Where a list's elements and separators stand among its children: elements at even places,
/// separators at odd ones.
pub proof fn lemma_pair_children_index<'a>(ps: Seq<(ParseTree<'a>, ParseTree<'a>)>, k: int)
    requires
        0 <= k < 2 * ps.len(),
    ensures
        pair_children(ps)[k] == (if k % 2 == 0 { ps[k / 2].0 } else { ps[k / 2].1 }),
    decreases ps.len(),
{
    let prefix = ps.drop_last();
    lemma_pair_children_len(prefix);
    let last = seq![ps.last().0, ps.last().1];
    assert(pair_children(ps) == pair_children(prefix) + last);
    if k < 2 * prefix.len() {
        lemma_pair_children_index(prefix, k);
        assert(prefix[k / 2] == ps[k / 2]);
    } else {
        assert(pair_children(ps)[k] == last[k - 2 * prefix.len()]);
    }
}

/// Each tree of a well formed list's elements and separators is well formed.
pub proof fn lemma_pairs_wf_index<'a>(ps: Seq<(ParseTree<'a>, ParseTree<'a>)>, j: int)
    requires
        pairs_wf(ps),
        0 <= j < ps.len(),
    ensures
        tree_wf(ps[j].0),
        tree_wf(ps[j].1),
    decreases ps.len(),
{
    reveal_with_fuel(tree_wf, 1);
    reveal_with_fuel(pairs_wf, 2);
    let prefix = ps.drop_last();
    if j < prefix.len() {
        lemma_pairs_wf_index(prefix, j);
        assert(prefix[j] == ps[j]);
    }
}


/// Each child of a tree lies strictly within it, and is well formed where the tree is.
pub proof fn lemma_child_decreases<'a>(t: ParseTree<'a>, i: int)
    requires
        0 <= i < children_of(t).len(),
    ensures
        decreases_to!(t => children_of(t)[i]),
        tree_wf(t) ==> tree_wf(children_of(t)[i]),
{
    match t {
        ParseTree::Empty(_) => {},
        ParseTree::Token(_) => {},
        ParseTree::Error(_) => {},
        ParseTree::List(_) => lemma_list_child(t, i),
        ParseTree::Query(_) => lemma_query_child(t, i),
        ParseTree::With(_) => lemma_with_child(t, i),
        ParseTree::NamedQuery(_) => lemma_named_query_child(t, i),
        ParseTree::QueryNoWith(_) => lemma_query_no_with_child(t, i),
        ParseTree::OrderBy(_) => lemma_order_by_child(t, i),
        ParseTree::Limit(_) => lemma_limit_child(t, i),
        ParseTree::QuerySetOperation(_) => lemma_query_set_operation_child(t, i),
        ParseTree::SortItem(_) => lemma_sort_item_child(t, i),
        ParseTree::Subquery(_) => lemma_subquery_child(t, i),
        ParseTree::InlineTable(_) => lemma_inline_table_child(t, i),
        ParseTree::Table(_) => lemma_table_child(t, i),
        ParseTree::QuerySpecification(_) => lemma_query_specification_child(t, i),
        ParseTree::QualifiedName(_) => lemma_qualified_name_child(t, i),
        ParseTree::SelectAll(_) => lemma_select_all_child(t, i),
        ParseTree::QualifiedSelectAll(_) => lemma_qualified_select_all_child(t, i),
        ParseTree::SelectItem(_) => lemma_select_item_child(t, i),
        ParseTree::SubqueryRelation(_) => lemma_subquery_relation_child(t, i),
        ParseTree::ParenthesizedRelation(_) => lemma_parenthesized_relation_child(t, i),
        ParseTree::TableName(_) => lemma_table_name_child(t, i),
        ParseTree::Lateral(_) => lemma_lateral_child(t, i),
        ParseTree::Unnest(_) => lemma_unnest_child(t, i),
        ParseTree::SampledRelation(_) => lemma_sampled_relation_child(t, i),
        ParseTree::AliasedRelation(_) => lemma_aliased_relation_child(t, i),
        ParseTree::CrossJoin(_) => lemma_cross_join_child(t, i),
        ParseTree::Join(_) => lemma_join_child(t, i),
        ParseTree::NaturalJoin(_) => lemma_natural_join_child(t, i),
        ParseTree::OuterJoinKind(_) => lemma_outer_join_kind_child(t, i),
        ParseTree::OnJoinCriteria(_) => lemma_on_join_criteria_child(t, i),
        ParseTree::UsingJoinCriteria(_) => lemma_using_join_criteria_child(t, i),
        ParseTree::GroupBy(_) => lemma_group_by_child(t, i),
        ParseTree::Rollup(_) => lemma_rollup_child(t, i),
        ParseTree::Cube(_) => lemma_cube_child(t, i),
        ParseTree::GroupingSets(_) => lemma_grouping_sets_child(t, i),
        ParseTree::BinaryExpression(_) => lemma_binary_expression_child(t, i),
        ParseTree::UnaryExpression(_) => lemma_unary_expression_child(t, i),
        ParseTree::QuantifiedComparison(_) => lemma_quantified_comparison_child(t, i),
        ParseTree::NullPredicate(_) => lemma_null_predicate_child(t, i),
        ParseTree::DistinctFrom(_) => lemma_distinct_from_child(t, i),
        ParseTree::Between(_) => lemma_between_child(t, i),
        ParseTree::Like(_) => lemma_like_child(t, i),
        ParseTree::InSubquery(_) => lemma_in_subquery_child(t, i),
        ParseTree::InList(_) => lemma_in_list_child(t, i),
        ParseTree::AtTimeZone(_) => lemma_at_time_zone_child(t, i),
        ParseTree::Dereference(_) => lemma_dereference_child(t, i),
        ParseTree::Subscript(_) => lemma_subscript_child(t, i),
        ParseTree::Lambda(_) => lemma_lambda_child(t, i),
        ParseTree::Literal(_) => lemma_literal_child(t, i),
        ParseTree::RowConstructor(_) => lemma_row_constructor_child(t, i),
        ParseTree::ParenthesizedExpression(_) => lemma_parenthesized_expression_child(t, i),
        ParseTree::Identifier(_) => lemma_identifier_child(t, i),
        ParseTree::FunctionCall(_) => lemma_function_call_child(t, i),
        ParseTree::Filter(_) => lemma_filter_child(t, i),
        ParseTree::Over(_) => lemma_over_child(t, i),
        ParseTree::WindowFrame(_) => lemma_window_frame_child(t, i),
        ParseTree::UnboundedFrame(_) => lemma_unbounded_frame_child(t, i),
        ParseTree::CurrentRowBound(_) => lemma_current_row_bound_child(t, i),
        ParseTree::BoundedFrame(_) => lemma_bounded_frame_child(t, i),
        ParseTree::UnicodeString(_) => lemma_unicode_string_child(t, i),
        ParseTree::ConfigureExpression(_) => lemma_configure_expression_child(t, i),
        ParseTree::SubqueryExpression(_) => lemma_subquery_expression_child(t, i),
        ParseTree::Grouping(_) => lemma_grouping_child(t, i),
        ParseTree::Extract(_) => lemma_extract_child(t, i),
        ParseTree::CurrentTime(_) => lemma_current_time_child(t, i),
        ParseTree::CurrentTimestamp(_) => lemma_current_timestamp_child(t, i),
        ParseTree::Normalize(_) => lemma_normalize_child(t, i),
        ParseTree::Localtime(_) => lemma_localtime_child(t, i),
        ParseTree::Localtimestamp(_) => lemma_localtimestamp_child(t, i),
        ParseTree::Cast(_) => lemma_cast_child(t, i),
        ParseTree::WhenClause(_) => lemma_when_clause_child(t, i),
        ParseTree::Case(_) => lemma_case_child(t, i),
        ParseTree::Exists(_) => lemma_exists_child(t, i),
        ParseTree::TypeConstructor(_) => lemma_type_constructor_child(t, i),
        ParseTree::Array(_) => lemma_array_child(t, i),
        ParseTree::Interval(_) => lemma_interval_child(t, i),
        ParseTree::Row(_) => lemma_row_child(t, i),
        ParseTree::TryCast(_) => lemma_try_cast_child(t, i),
        ParseTree::Substring(_) => lemma_substring_child(t, i),
        ParseTree::Position(_) => lemma_position_child(t, i),
        ParseTree::ArrayTypeSuffix(_) => lemma_array_type_suffix_child(t, i),
        ParseTree::NamedType(_) => lemma_named_type_child(t, i),
        ParseTree::ArrayType(_) => lemma_array_type_child(t, i),
        ParseTree::MapType(_) => lemma_map_type_child(t, i),
        ParseTree::RowType(_) => lemma_row_type_child(t, i),
        ParseTree::RowTypeElement(_) => lemma_row_type_element_child(t, i),
        ParseTree::IntervalType(_) => lemma_interval_type_child(t, i),
        ParseTree::IfNotExists(_) => lemma_if_not_exists_child(t, i),
        ParseTree::CreateTable(_) => lemma_create_table_child(t, i),
        ParseTree::CreateView(_) => lemma_create_view_child(t, i),
        ParseTree::CreateRole(_) => lemma_create_role_child(t, i),
        ParseTree::WithAdminGrantor(_) => lemma_with_admin_grantor_child(t, i),
        ParseTree::UserPrincipal(_) => lemma_user_principal_child(t, i),
        ParseTree::RolePrincipal(_) => lemma_role_principal_child(t, i),
        ParseTree::UnspecifiedPrincipal(_) => lemma_unspecified_principal_child(t, i),
        ParseTree::CreateTableAsSelect(_) => lemma_create_table_as_select_child(t, i),
        ParseTree::WithProperties(_) => lemma_with_properties_child(t, i),
        ParseTree::Property(_) => lemma_property_child(t, i),
        ParseTree::WithData(_) => lemma_with_data_child(t, i),
        ParseTree::Comment(_) => lemma_comment_child(t, i),
        ParseTree::ColumnDefinition(_) => lemma_column_definition_child(t, i),
        ParseTree::NotNull(_) => lemma_not_null_child(t, i),
        ParseTree::LikeClause(_) => lemma_like_clause_child(t, i),
        ParseTree::InsertInto(_) => lemma_insert_into_child(t, i),
        ParseTree::Delete(_) => lemma_delete_child(t, i),
        ParseTree::GroupingSet(_) => lemma_grouping_set_child(t, i),
        ParseTree::RelationOrQuery(_) => lemma_relation_or_query_child(t, i),
        ParseTree::EmptyGroupingSet(_) => lemma_empty_grouping_set_child(t, i),
        ParseTree::ExpressionOrQuery(_) => lemma_expression_or_query_child(t, i),
        ParseTree::Entrypoint(_) => lemma_entrypoint_child(t, i),
        ParseTree::NullTreatment(_) => lemma_null_treatment_child(t, i),
    }
}

/// Each child of a list lies strictly within it, and is well formed where the list is.
proof fn lemma_list_child<'a>(t: ParseTree<'a>, i: int)
    requires
        t is List,
        0 <= i < children_of(t).len(),
    ensures
        decreases_to!(t => children_of(t)[i]),
        tree_wf(t) ==> tree_wf(children_of(t)[i]),
{
    let x = t->List_0;
    let ps = x.elements_and_separators@;
    assert(tree_wf(t) == (tree_wf(*x.start_delimiter) && pairs_wf(ps) && tree_wf(*x.end_delimiter)))
        by {
        reveal_with_fuel(tree_wf, 1);
    }
    lemma_pair_children_len(ps);
    let middle = pair_children(ps);
    assert(children_of(t) == seq![*x.start_delimiter] + middle + seq![*x.end_delimiter]);
    if i == 0 {
        assert(decreases_to!(t => *x.start_delimiter));
    } else if i == 2 * ps.len() + 1 {
        assert(children_of(t)[i] == *x.end_delimiter);
        assert(decreases_to!(t => *x.end_delimiter));
    } else {
        let k = i - 1;
        lemma_pair_children_index(ps, k);
        let j = k / 2;
        assert(children_of(t)[i] == middle[k]);
        assert(decreases_to!(t => ps));
        assert(decreases_to!(ps => ps[j]));
        assert(decreases_to!(ps[j] => ps[j].0));
        assert(decreases_to!(ps[j] => ps[j].1));
        if tree_wf(t) {
            lemma_pairs_wf_index(ps, j);
        }
    }
}

/// Each child of a `Query` tree lies strictly within it, and is well formed where the tree is.
proof fn lemma_query_child<'a>(t: ParseTree<'a>, i: int)
    requires
        t is Query,
        0 <= i < children_of(t).len(),
    ensures
        decreases_to!(t => children_of(t)[i]),
        tree_wf(t) ==> tree_wf(children_of(t)[i]),
{
    let x = t->Query_0;
    assert(tree_wf(t) == (tree_wf(*x.with) && tree_wf(*x.query_no_with))) by {
        reveal_with_fuel(tree_wf, 1);
    }
    assert(children_of(t) == seq![*x.with, *x.query_no_with]);
    if i == 0 {
        assert(decreases_to!(t => *x.with));
    } else {
        assert(decreases_to!(t => *x.query_no_with));
    }
}

/// Each child of a `With` tree lies strictly within it, and is well formed where the tree is.
proof fn lemma_with_child<'a>(t: ParseTree<'a>, i: int)
    requires
        t is With,
        0 <= i < children_of(t).len(),
    ensures
        decreases_to!(t => children_of(t)[i]),
        tree_wf(t) ==> tree_wf(children_of(t)[i]),
{
    let x = t->With_0;
    assert(tree_wf(t) == (tree_wf(*x.with) && tree_wf(*x.recursive) && tree_wf(*x.named_queries))) by {
        reveal_with_fuel(tree_wf, 1);
    }
    assert(children_of(t) == seq![*x.with, *x.recursive, *x.named_queries]);
    if i == 0 {
        assert(decreases_to!(t => *x.with));
    } else if i == 1 {
        assert(decreases_to!(t => *x.recursive));
    } else {
        assert(decreases_to!(t => *x.named_queries));
    }
}

/// Each child of a `NamedQuery` tree lies strictly within it, and is well formed where the tree is.
proof fn lemma_named_query_child<'a>(t: ParseTree<'a>, i: int)
    requires
        t is NamedQuery,
        0 <= i < children_of(t).len(),
    ensures
        decreases_to!(t => children_of(t)[i]),
        tree_wf(t) ==> tree_wf(children_of(t)[i]),
{
    let x = t->NamedQuery_0;
    assert(tree_wf(t) == (tree_wf(*x.name) && tree_wf(*x.column_aliases_opt) && tree_wf(*x.as_) && tree_wf(*x.open_paren) && tree_wf(*x.query) && tree_wf(*x.close_paren))) by {
        reveal_with_fuel(tree_wf, 1);
    }
    assert(children_of(t) == seq![*x.name, *x.column_aliases_opt, *x.as_, *x.open_paren, *x.query, *x.close_paren]);
    if i == 0 {
        assert(decreases_to!(t => *x.name));
    } else if i == 1 {
        assert(decreases_to!(t => *x.column_aliases_opt));
    } else if i == 2 {
        assert(decreases_to!(t => *x.as_));
    } else if i == 3 {
        assert(decreases_to!(t => *x.open_paren));
    } else if i == 4 {
        assert(decreases_to!(t => *x.query));
    } else {
        assert(decreases_to!(t => *x.close_paren));
    }
}

/// Each child of a `QueryNoWith` tree lies strictly within it, and is well formed where the tree is.
proof fn lemma_query_no_with_child<'a>(t: ParseTree<'a>, i: int)
    requires
        t is QueryNoWith,
        0 <= i < children_of(t).len(),
    ensures
        decreases_to!(t => children_of(t)[i]),
        tree_wf(t) ==> tree_wf(children_of(t)[i]),
{
    let x = t->QueryNoWith_0;
    assert(tree_wf(t) == (tree_wf(*x.query_term) && tree_wf(*x.order_by_opt) && tree_wf(*x.limit_opt))) by {
        reveal_with_fuel(tree_wf, 1);
    }
    assert(children_of(t) == seq![*x.query_term, *x.order_by_opt, *x.limit_opt]);
    if i == 0 {
        assert(decreases_to!(t => *x.query_term));
    } else if i == 1 {
        assert(decreases_to!(t => *x.order_by_opt));
    } else {
        assert(decreases_to!(t => *x.limit_opt));
    }
}

/// Each child of a `OrderBy` tree lies strictly within it, and is well formed where the tree is.
proof fn lemma_order_by_child<'a>(t: ParseTree<'a>, i: int)
    requires
        t is OrderBy,
        0 <= i < children_of(t).len(),
    ensures
        decreases_to!(t => children_of(t)[i]),
        tree_wf(t) ==> tree_wf(children_of(t)[i]),
{
    let x = t->OrderBy_0;
    assert(tree_wf(t) == (tree_wf(*x.order) && tree_wf(*x.by) && tree_wf(*x.sort_items))) by {
        reveal_with_fuel(tree_wf, 1);
    }
    assert(children_of(t) == seq![*x.order, *x.by, *x.sort_items]);
    if i == 0 {
        assert(decreases_to!(t => *x.order));
    } else if i == 1 {
        assert(decreases_to!(t => *x.by));
    } else {
        assert(decreases_to!(t => *x.sort_items));
    }
}

/// Each child of a `Limit` tree lies strictly within it, and is well formed where the tree is.
proof fn lemma_limit_child<'a>(t: ParseTree<'a>, i: int)
    requires
        t is Limit,
        0 <= i < children_of(t).len(),
    ensures
        decreases_to!(t => children_of(t)[i]),
        tree_wf(t) ==> tree_wf(children_of(t)[i]),
{
    let x = t->Limit_0;
    assert(tree_wf(t) == (tree_wf(*x.limit) && tree_wf(*x.value))) by {
        reveal_with_fuel(tree_wf, 1);
    }
    assert(children_of(t) == seq![*x.limit, *x.value]);
    if i == 0 {
        assert(decreases_to!(t => *x.limit));
    } else {
        assert(decreases_to!(t => *x.value));
    }
}

/// Each child of a `QuerySetOperation` tree lies strictly within it, and is well formed where the tree is.
proof fn lemma_query_set_operation_child<'a>(t: ParseTree<'a>, i: int)
    requires
        t is QuerySetOperation,
        0 <= i < children_of(t).len(),
    ensures
        decreases_to!(t => children_of(t)[i]),
        tree_wf(t) ==> tree_wf(children_of(t)[i]),
{
    let x = t->QuerySetOperation_0;
    assert(tree_wf(t) == (tree_wf(*x.left) && tree_wf(*x.operator) && tree_wf(*x.set_quantifier_opt) && tree_wf(*x.right))) by {
        reveal_with_fuel(tree_wf, 1);
    }
    assert(children_of(t) == seq![*x.left, *x.operator, *x.set_quantifier_opt, *x.right]);
    if i == 0 {
        assert(decreases_to!(t => *x.left));
    } else if i == 1 {
        assert(decreases_to!(t => *x.operator));
    } else if i == 2 {
        assert(decreases_to!(t => *x.set_quantifier_opt));
    } else {
        assert(decreases_to!(t => *x.right));
    }
}

/// Each child of a `SortItem` tree lies strictly within it, and is well formed where the tree is.
proof fn lemma_sort_item_child<'a>(t: ParseTree<'a>, i: int)
    requires
        t is SortItem,
        0 <= i < children_of(t).len(),
    ensures
        decreases_to!(t => children_of(t)[i]),
        tree_wf(t) ==> tree_wf(children_of(t)[i]),
{
    let x = t->SortItem_0;
    assert(tree_wf(t) == (tree_wf(*x.expression) && tree_wf(*x.ordering_opt) && tree_wf(*x.nulls) && tree_wf(*x.null_ordering_opt))) by {
        reveal_with_fuel(tree_wf, 1);
    }
    assert(children_of(t) == seq![*x.expression, *x.ordering_opt, *x.nulls, *x.null_ordering_opt]);
    if i == 0 {
        assert(decreases_to!(t => *x.expression));
    } else if i == 1 {
        assert(decreases_to!(t => *x.ordering_opt));
    } else if i == 2 {
        assert(decreases_to!(t => *x.nulls));
    } else {
        assert(decreases_to!(t => *x.null_ordering_opt));
    }
}

/// Each child of a `Subquery` tree lies strictly within it, and is well formed where the tree is.
proof fn lemma_subquery_child<'a>(t: ParseTree<'a>, i: int)
    requires
        t is Subquery,
        0 <= i < children_of(t).len(),
    ensures
        decreases_to!(t => children_of(t)[i]),
        tree_wf(t) ==> tree_wf(children_of(t)[i]),
{
    let x = t->Subquery_0;
    assert(tree_wf(t) == (tree_wf(*x.open_paren) && tree_wf(*x.query_no_with) && tree_wf(*x.close_paren))) by {
        reveal_with_fuel(tree_wf, 1);
    }
    assert(children_of(t) == seq![*x.open_paren, *x.query_no_with, *x.close_paren]);
    if i == 0 {
        assert(decreases_to!(t => *x.open_paren));
    } else if i == 1 {
        assert(decreases_to!(t => *x.query_no_with));
    } else {
        assert(decreases_to!(t => *x.close_paren));
    }
}

/// Each child of a `InlineTable` tree lies strictly within it, and is well formed where the tree is.
proof fn lemma_inline_table_child<'a>(t: ParseTree<'a>, i: int)
    requires
        t is InlineTable,
        0 <= i < children_of(t).len(),
    ensures
        decreases_to!(t => children_of(t)[i]),
        tree_wf(t) ==> tree_wf(children_of(t)[i]),
{
    let x = t->InlineTable_0;
    assert(tree_wf(t) == (tree_wf(*x.values) && tree_wf(*x.expressions))) by {
        reveal_with_fuel(tree_wf, 1);
    }
    assert(children_of(t) == seq![*x.values, *x.expressions]);
    if i == 0 {
        assert(decreases_to!(t => *x.values));
    } else {
        assert(decreases_to!(t => *x.expressions));
    }
}

/// Each child of a `Table` tree lies strictly within it, and is well formed where the tree is.
proof fn lemma_table_child<'a>(t: ParseTree<'a>, i: int)
    requires
        t is Table,
        0 <= i < children_of(t).len(),
    ensures
        decreases_to!(t => children_of(t)[i]),
        tree_wf(t) ==> tree_wf(children_of(t)[i]),
{
    let x = t->Table_0;
    assert(tree_wf(t) == (tree_wf(*x.table) && tree_wf(*x.qualified_name))) by {
        reveal_with_fuel(tree_wf, 1);
    }
    assert(children_of(t) == seq![*x.table, *x.qualified_name]);
    if i == 0 {
        assert(decreases_to!(t => *x.table));
    } else {
        assert(decreases_to!(t => *x.qualified_name));
    }
}

/// Each child of a `QuerySpecification` tree lies strictly within it, and is well formed where the tree is.
proof fn lemma_query_specification_child<'a>(t: ParseTree<'a>, i: int)
    requires
        t is QuerySpecification,
        0 <= i < children_of(t).len(),
    ensures
        decreases_to!(t => children_of(t)[i]),
        tree_wf(t) ==> tree_wf(children_of(t)[i]),
{
    let x = t->QuerySpecification_0;
    assert(tree_wf(t) == (tree_wf(*x.select) && tree_wf(*x.set_quantifier_opt) && tree_wf(*x.select_items) && tree_wf(*x.from) && tree_wf(*x.relations) && tree_wf(*x.where_) && tree_wf(*x.where_predicate) && tree_wf(*x.group) && tree_wf(*x.by) && tree_wf(*x.group_by) && tree_wf(*x.having) && tree_wf(*x.having_predicate))) by {
        reveal_with_fuel(tree_wf, 1);
    }
    assert(children_of(t) == seq![*x.select, *x.set_quantifier_opt, *x.select_items, *x.from, *x.relations, *x.where_, *x.where_predicate, *x.group, *x.by, *x.group_by, *x.having, *x.having_predicate]);
    if i == 0 {
        assert(decreases_to!(t => *x.select));
    } else if i == 1 {
        assert(decreases_to!(t => *x.set_quantifier_opt));
    } else if i == 2 {
        assert(decreases_to!(t => *x.select_items));
    } else if i == 3 {
        assert(decreases_to!(t => *x.from));
    } else if i == 4 {
        assert(decreases_to!(t => *x.relations));
    } else if i == 5 {
        assert(decreases_to!(t => *x.where_));
    } else if i == 6 {
        assert(decreases_to!(t => *x.where_predicate));
    } else if i == 7 {
        assert(decreases_to!(t => *x.group));
    } else if i == 8 {
        assert(decreases_to!(t => *x.by));
    } else if i == 9 {
        assert(decreases_to!(t => *x.group_by));
    } else if i == 10 {
        assert(decreases_to!(t => *x.having));
    } else {
        assert(decreases_to!(t => *x.having_predicate));
    }
}

/// Each child of a `QualifiedName` tree lies strictly within it, and is well formed where the tree is.
proof fn lemma_qualified_name_child<'a>(t: ParseTree<'a>, i: int)
    requires
        t is QualifiedName,
        0 <= i < children_of(t).len(),
    ensures
        decreases_to!(t => children_of(t)[i]),
        tree_wf(t) ==> tree_wf(children_of(t)[i]),
{
    let x = t->QualifiedName_0;
    assert(tree_wf(t) == (tree_wf(*x.names))) by {
        reveal_with_fuel(tree_wf, 1);
    }
    assert(children_of(t) == seq![*x.names]);
    {
        assert(decreases_to!(t => *x.names));
    }
}

/// Each child of a `SelectAll` tree lies strictly within it, and is well formed where the tree is.
proof fn lemma_select_all_child<'a>(t: ParseTree<'a>, i: int)
    requires
        t is SelectAll,
        0 <= i < children_of(t).len(),
    ensures
        decreases_to!(t => children_of(t)[i]),
        tree_wf(t) ==> tree_wf(children_of(t)[i]),
{
    let x = t->SelectAll_0;
    assert(tree_wf(t) == (tree_wf(*x.asterisk))) by {
        reveal_with_fuel(tree_wf, 1);
    }
    assert(children_of(t) == seq![*x.asterisk]);
    {
        assert(decreases_to!(t => *x.asterisk));
    }
}

/// Each child of a `QualifiedSelectAll` tree lies strictly within it, and is well formed where the tree is.
proof fn lemma_qualified_select_all_child<'a>(t: ParseTree<'a>, i: int)
    requires
        t is QualifiedSelectAll,
        0 <= i < children_of(t).len(),
    ensures
        decreases_to!(t => children_of(t)[i]),
        tree_wf(t) ==> tree_wf(children_of(t)[i]),
{
    let x = t->QualifiedSelectAll_0;
    assert(tree_wf(t) == (tree_wf(*x.qualifier) && tree_wf(*x.period) && tree_wf(*x.asterisk))) by {
        reveal_with_fuel(tree_wf, 1);
    }
    assert(children_of(t) == seq![*x.qualifier, *x.period, *x.asterisk]);
    if i == 0 {
        assert(decreases_to!(t => *x.qualifier));
    } else if i == 1 {
        assert(decreases_to!(t => *x.period));
    } else {
        assert(decreases_to!(t => *x.asterisk));
    }
}

/// Each child of a `SelectItem` tree lies strictly within it, and is well formed where the tree is.
proof fn lemma_select_item_child<'a>(t: ParseTree<'a>, i: int)
    requires
        t is SelectItem,
        0 <= i < children_of(t).len(),
    ensures
        decreases_to!(t => children_of(t)[i]),
        tree_wf(t) ==> tree_wf(children_of(t)[i]),
{
    let x = t->SelectItem_0;
    assert(tree_wf(t) == (tree_wf(*x.expression) && tree_wf(*x.as_) && tree_wf(*x.identifier))) by {
        reveal_with_fuel(tree_wf, 1);
    }
    assert(children_of(t) == seq![*x.expression, *x.as_, *x.identifier]);
    if i == 0 {
        assert(decreases_to!(t => *x.expression));
    } else if i == 1 {
        assert(decreases_to!(t => *x.as_));
    } else {
        assert(decreases_to!(t => *x.identifier));
    }
}

/// Each child of a `SubqueryRelation` tree lies strictly within it, and is well formed where the tree is.
proof fn lemma_subquery_relation_child<'a>(t: ParseTree<'a>, i: int)
    requires
        t is SubqueryRelation,
        0 <= i < children_of(t).len(),
    ensures
        decreases_to!(t => children_of(t)[i]),
        tree_wf(t) ==> tree_wf(children_of(t)[i]),
{
    let x = t->SubqueryRelation_0;
    assert(tree_wf(t) == (tree_wf(*x.open_paren) && tree_wf(*x.query) && tree_wf(*x.close_paren))) by {
        reveal_with_fuel(tree_wf, 1);
    }
    assert(children_of(t) == seq![*x.open_paren, *x.query, *x.close_paren]);
    if i == 0 {
        assert(decreases_to!(t => *x.open_paren));
    } else if i == 1 {
        assert(decreases_to!(t => *x.query));
    } else {
        assert(decreases_to!(t => *x.close_paren));
    }
}

/// Each child of a `ParenthesizedRelation` tree lies strictly within it, and is well formed where the tree is.
proof fn lemma_parenthesized_relation_child<'a>(t: ParseTree<'a>, i: int)
    requires
        t is ParenthesizedRelation,
        0 <= i < children_of(t).len(),
    ensures
        decreases_to!(t => children_of(t)[i]),
        tree_wf(t) ==> tree_wf(children_of(t)[i]),
{
    let x = t->ParenthesizedRelation_0;
    assert(tree_wf(t) == (tree_wf(*x.open_paren) && tree_wf(*x.relation) && tree_wf(*x.close_paren))) by {
        reveal_with_fuel(tree_wf, 1);
    }
    assert(children_of(t) == seq![*x.open_paren, *x.relation, *x.close_paren]);
    if i == 0 {
        assert(decreases_to!(t => *x.open_paren));
    } else if i == 1 {
        assert(decreases_to!(t => *x.relation));
    } else {
        assert(decreases_to!(t => *x.close_paren));
    }
}

/// Each child of a `TableName` tree lies strictly within it, and is well formed where the tree is.
proof fn lemma_table_name_child<'a>(t: ParseTree<'a>, i: int)
    requires
        t is TableName,
        0 <= i < children_of(t).len(),
    ensures
        decreases_to!(t => children_of(t)[i]),
        tree_wf(t) ==> tree_wf(children_of(t)[i]),
{
    let x = t->TableName_0;
    assert(tree_wf(t) == (tree_wf(*x.name))) by {
        reveal_with_fuel(tree_wf, 1);
    }
    assert(children_of(t) == seq![*x.name]);
    {
        assert(decreases_to!(t => *x.name));
    }
}

/// Each child of a `Lateral` tree lies strictly within it, and is well formed where the tree is.
proof fn lemma_lateral_child<'a>(t: ParseTree<'a>, i: int)
    requires
        t is Lateral,
        0 <= i < children_of(t).len(),
    ensures
        decreases_to!(t => children_of(t)[i]),
        tree_wf(t) ==> tree_wf(children_of(t)[i]),
{
    let x = t->Lateral_0;
    assert(tree_wf(t) == (tree_wf(*x.lateral) && tree_wf(*x.open_paren) && tree_wf(*x.query) && tree_wf(*x.close_paren))) by {
        reveal_with_fuel(tree_wf, 1);
    }
    assert(children_of(t) == seq![*x.lateral, *x.open_paren, *x.query, *x.close_paren]);
    if i == 0 {
        assert(decreases_to!(t => *x.lateral));
    } else if i == 1 {
        assert(decreases_to!(t => *x.open_paren));
    } else if i == 2 {
        assert(decreases_to!(t => *x.query));
    } else {
        assert(decreases_to!(t => *x.close_paren));
    }
}

/// Each child of a `Unnest` tree lies strictly within it, and is well formed where the tree is.
proof fn lemma_unnest_child<'a>(t: ParseTree<'a>, i: int)
    requires
        t is Unnest,
        0 <= i < children_of(t).len(),
    ensures
        decreases_to!(t => children_of(t)[i]),
        tree_wf(t) ==> tree_wf(children_of(t)[i]),
{
    let x = t->Unnest_0;
    assert(tree_wf(t) == (tree_wf(*x.unnest) && tree_wf(*x.expressions) && tree_wf(*x.with) && tree_wf(*x.ordinality))) by {
        reveal_with_fuel(tree_wf, 1);
    }
    assert(children_of(t) == seq![*x.unnest, *x.expressions, *x.with, *x.ordinality]);
    if i == 0 {
        assert(decreases_to!(t => *x.unnest));
    } else if i == 1 {
        assert(decreases_to!(t => *x.expressions));
    } else if i == 2 {
        assert(decreases_to!(t => *x.with));
    } else {
        assert(decreases_to!(t => *x.ordinality));
    }
}

/// Each child of a `SampledRelation` tree lies strictly within it, and is well formed where the tree is.
proof fn lemma_sampled_relation_child<'a>(t: ParseTree<'a>, i: int)
    requires
        t is SampledRelation,
        0 <= i < children_of(t).len(),
    ensures
        decreases_to!(t => children_of(t)[i]),
        tree_wf(t) ==> tree_wf(children_of(t)[i]),
{
    let x = t->SampledRelation_0;
    assert(tree_wf(t) == (tree_wf(*x.aliased_relation) && tree_wf(*x.tablesample) && tree_wf(*x.sample_type) && tree_wf(*x.open_paren) && tree_wf(*x.expression) && tree_wf(*x.close_paren))) by {
        reveal_with_fuel(tree_wf, 1);
    }
    assert(children_of(t) == seq![*x.aliased_relation, *x.tablesample, *x.sample_type, *x.open_paren, *x.expression, *x.close_paren]);
    if i == 0 {
        assert(decreases_to!(t => *x.aliased_relation));
    } else if i == 1 {
        assert(decreases_to!(t => *x.tablesample));
    } else if i == 2 {
        assert(decreases_to!(t => *x.sample_type));
    } else if i == 3 {
        assert(decreases_to!(t => *x.open_paren));
    } else if i == 4 {
        assert(decreases_to!(t => *x.expression));
    } else {
        assert(decreases_to!(t => *x.close_paren));
    }
}

/// Each child of a `AliasedRelation` tree lies strictly within it, and is well formed where the tree is.
proof fn lemma_aliased_relation_child<'a>(t: ParseTree<'a>, i: int)
    requires
        t is AliasedRelation,
        0 <= i < children_of(t).len(),
    ensures
        decreases_to!(t => children_of(t)[i]),
        tree_wf(t) ==> tree_wf(children_of(t)[i]),
{
    let x = t->AliasedRelation_0;
    assert(tree_wf(t) == (tree_wf(*x.relation_primary) && tree_wf(*x.as_opt) && tree_wf(*x.identifier) && tree_wf(*x.column_aliases_opt))) by {
        reveal_with_fuel(tree_wf, 1);
    }
    assert(children_of(t) == seq![*x.relation_primary, *x.as_opt, *x.identifier, *x.column_aliases_opt]);
    if i == 0 {
        assert(decreases_to!(t => *x.relation_primary));
    } else if i == 1 {
        assert(decreases_to!(t => *x.as_opt));
    } else if i == 2 {
        assert(decreases_to!(t => *x.identifier));
    } else {
        assert(decreases_to!(t => *x.column_aliases_opt));
    }
}

/// Each child of a `CrossJoin` tree lies strictly within it, and is well formed where the tree is.
proof fn lemma_cross_join_child<'a>(t: ParseTree<'a>, i: int)
    requires
        t is CrossJoin,
        0 <= i < children_of(t).len(),
    ensures
        decreases_to!(t => children_of(t)[i]),
        tree_wf(t) ==> tree_wf(children_of(t)[i]),
{
    let x = t->CrossJoin_0;
    assert(tree_wf(t) == (tree_wf(*x.left) && tree_wf(*x.cross) && tree_wf(*x.join) && tree_wf(*x.right))) by {
        reveal_with_fuel(tree_wf, 1);
    }
    assert(children_of(t) == seq![*x.left, *x.cross, *x.join, *x.right]);
    if i == 0 {
        assert(decreases_to!(t => *x.left));
    } else if i == 1 {
        assert(decreases_to!(t => *x.cross));
    } else if i == 2 {
        assert(decreases_to!(t => *x.join));
    } else {
        assert(decreases_to!(t => *x.right));
    }
}

/// Each child of a `Join` tree lies strictly within it, and is well formed where the tree is.
proof fn lemma_join_child<'a>(t: ParseTree<'a>, i: int)
    requires
        t is Join,
        0 <= i < children_of(t).len(),
    ensures
        decreases_to!(t => children_of(t)[i]),
        tree_wf(t) ==> tree_wf(children_of(t)[i]),
{
    let x = t->Join_0;
    assert(tree_wf(t) == (tree_wf(*x.left) && tree_wf(*x.join_type) && tree_wf(*x.join) && tree_wf(*x.right) && tree_wf(*x.join_criteria))) by {
        reveal_with_fuel(tree_wf, 1);
    }
    assert(children_of(t) == seq![*x.left, *x.join_type, *x.join, *x.right, *x.join_criteria]);
    if i == 0 {
        assert(decreases_to!(t => *x.left));
    } else if i == 1 {
        assert(decreases_to!(t => *x.join_type));
    } else if i == 2 {
        assert(decreases_to!(t => *x.join));
    } else if i == 3 {
        assert(decreases_to!(t => *x.right));
    } else {
        assert(decreases_to!(t => *x.join_criteria));
    }
}

/// Each child of a `NaturalJoin` tree lies strictly within it, and is well formed where the tree is.
proof fn lemma_natural_join_child<'a>(t: ParseTree<'a>, i: int)
    requires
        t is NaturalJoin,
        0 <= i < children_of(t).len(),
    ensures
        decreases_to!(t => children_of(t)[i]),
        tree_wf(t) ==> tree_wf(children_of(t)[i]),
{
    let x = t->NaturalJoin_0;
    assert(tree_wf(t) == (tree_wf(*x.left) && tree_wf(*x.natural) && tree_wf(*x.join_type) && tree_wf(*x.join) && tree_wf(*x.right))) by {
        reveal_with_fuel(tree_wf, 1);
    }
    assert(children_of(t) == seq![*x.left, *x.natural, *x.join_type, *x.join, *x.right]);
    if i == 0 {
        assert(decreases_to!(t => *x.left));
    } else if i == 1 {
        assert(decreases_to!(t => *x.natural));
    } else if i == 2 {
        assert(decreases_to!(t => *x.join_type));
    } else if i == 3 {
        assert(decreases_to!(t => *x.join));
    } else {
        assert(decreases_to!(t => *x.right));
    }
}

/// Each child of a `OuterJoinKind` tree lies strictly within it, and is well formed where the tree is.
proof fn lemma_outer_join_kind_child<'a>(t: ParseTree<'a>, i: int)
    requires
        t is OuterJoinKind,
        0 <= i < children_of(t).len(),
    ensures
        decreases_to!(t => children_of(t)[i]),
        tree_wf(t) ==> tree_wf(children_of(t)[i]),
{
    let x = t->OuterJoinKind_0;
    assert(tree_wf(t) == (tree_wf(*x.kind) && tree_wf(*x.outer_opt))) by {
        reveal_with_fuel(tree_wf, 1);
    }
    assert(children_of(t) == seq![*x.kind, *x.outer_opt]);
    if i == 0 {
        assert(decreases_to!(t => *x.kind));
    } else {
        assert(decreases_to!(t => *x.outer_opt));
    }
}

/// Each child of a `OnJoinCriteria` tree lies strictly within it, and is well formed where the tree is.
proof fn lemma_on_join_criteria_child<'a>(t: ParseTree<'a>, i: int)
    requires
        t is OnJoinCriteria,
        0 <= i < children_of(t).len(),
    ensures
        decreases_to!(t => children_of(t)[i]),
        tree_wf(t) ==> tree_wf(children_of(t)[i]),
{
    let x = t->OnJoinCriteria_0;
    assert(tree_wf(t) == (tree_wf(*x.on) && tree_wf(*x.predicate))) by {
        reveal_with_fuel(tree_wf, 1);
    }
    assert(children_of(t) == seq![*x.on, *x.predicate]);
    if i == 0 {
        assert(decreases_to!(t => *x.on));
    } else {
        assert(decreases_to!(t => *x.predicate));
    }
}

/// Each child of a `UsingJoinCriteria` tree lies strictly within it, and is well formed where the tree is.
proof fn lemma_using_join_criteria_child<'a>(t: ParseTree<'a>, i: int)
    requires
        t is UsingJoinCriteria,
        0 <= i < children_of(t).len(),
    ensures
        decreases_to!(t => children_of(t)[i]),
        tree_wf(t) ==> tree_wf(children_of(t)[i]),
{
    let x = t->UsingJoinCriteria_0;
    assert(tree_wf(t) == (tree_wf(*x.using) && tree_wf(*x.names))) by {
        reveal_with_fuel(tree_wf, 1);
    }
    assert(children_of(t) == seq![*x.using, *x.names]);
    if i == 0 {
        assert(decreases_to!(t => *x.using));
    } else {
        assert(decreases_to!(t => *x.names));
    }
}

/// Each child of a `GroupBy` tree lies strictly within it, and is well formed where the tree is.
proof fn lemma_group_by_child<'a>(t: ParseTree<'a>, i: int)
    requires
        t is GroupBy,
        0 <= i < children_of(t).len(),
    ensures
        decreases_to!(t => children_of(t)[i]),
        tree_wf(t) ==> tree_wf(children_of(t)[i]),
{
    let x = t->GroupBy_0;
    assert(tree_wf(t) == (tree_wf(*x.set_quantifier_opt) && tree_wf(*x.grouping_elements))) by {
        reveal_with_fuel(tree_wf, 1);
    }
    assert(children_of(t) == seq![*x.set_quantifier_opt, *x.grouping_elements]);
    if i == 0 {
        assert(decreases_to!(t => *x.set_quantifier_opt));
    } else {
        assert(decreases_to!(t => *x.grouping_elements));
    }
}

/// Each child of a `Rollup` tree lies strictly within it, and is well formed where the tree is.
proof fn lemma_rollup_child<'a>(t: ParseTree<'a>, i: int)
    requires
        t is Rollup,
        0 <= i < children_of(t).len(),
    ensures
        decreases_to!(t => children_of(t)[i]),
        tree_wf(t) ==> tree_wf(children_of(t)[i]),
{
    let x = t->Rollup_0;
    assert(tree_wf(t) == (tree_wf(*x.rollup) && tree_wf(*x.expressions))) by {
        reveal_with_fuel(tree_wf, 1);
    }
    assert(children_of(t) == seq![*x.rollup, *x.expressions]);
    if i == 0 {
        assert(decreases_to!(t => *x.rollup));
    } else {
        assert(decreases_to!(t => *x.expressions));
    }
}

/// Each child of a `Cube` tree lies strictly within it, and is well formed where the tree is.
proof fn lemma_cube_child<'a>(t: ParseTree<'a>, i: int)
    requires
        t is Cube,
        0 <= i < children_of(t).len(),
    ensures
        decreases_to!(t => children_of(t)[i]),
        tree_wf(t) ==> tree_wf(children_of(t)[i]),
{
    let x = t->Cube_0;
    assert(tree_wf(t) == (tree_wf(*x.cube) && tree_wf(*x.expressions))) by {
        reveal_with_fuel(tree_wf, 1);
    }
    assert(children_of(t) == seq![*x.cube, *x.expressions]);
    if i == 0 {
        assert(decreases_to!(t => *x.cube));
    } else {
        assert(decreases_to!(t => *x.expressions));
    }
}

/// Each child of a `GroupingSets` tree lies strictly within it, and is well formed where the tree is.
proof fn lemma_grouping_sets_child<'a>(t: ParseTree<'a>, i: int)
    requires
        t is GroupingSets,
        0 <= i < children_of(t).len(),
    ensures
        decreases_to!(t => children_of(t)[i]),
        tree_wf(t) ==> tree_wf(children_of(t)[i]),
{
    let x = t->GroupingSets_0;
    assert(tree_wf(t) == (tree_wf(*x.grouping) && tree_wf(*x.sets) && tree_wf(*x.grouping_sets))) by {
        reveal_with_fuel(tree_wf, 1);
    }
    assert(children_of(t) == seq![*x.grouping, *x.sets, *x.grouping_sets]);
    if i == 0 {
        assert(decreases_to!(t => *x.grouping));
    } else if i == 1 {
        assert(decreases_to!(t => *x.sets));
    } else {
        assert(decreases_to!(t => *x.grouping_sets));
    }
}

/// Each child of a `BinaryExpression` tree lies strictly within it, and is well formed where the tree is.
proof fn lemma_binary_expression_child<'a>(t: ParseTree<'a>, i: int)
    requires
        t is BinaryExpression,
        0 <= i < children_of(t).len(),
    ensures
        decreases_to!(t => children_of(t)[i]),
        tree_wf(t) ==> tree_wf(children_of(t)[i]),
{
    let x = t->BinaryExpression_0;
    assert(tree_wf(t) == (tree_wf(*x.left) && tree_wf(*x.operator) && tree_wf(*x.right))) by {
        reveal_with_fuel(tree_wf, 1);
    }
    assert(children_of(t) == seq![*x.left, *x.operator, *x.right]);
    if i == 0 {
        assert(decreases_to!(t => *x.left));
    } else if i == 1 {
        assert(decreases_to!(t => *x.operator));
    } else {
        assert(decreases_to!(t => *x.right));
    }
}

/// Each child of a `UnaryExpression` tree lies strictly within it, and is well formed where the tree is.
proof fn lemma_unary_expression_child<'a>(t: ParseTree<'a>, i: int)
    requires
        t is UnaryExpression,
        0 <= i < children_of(t).len(),
    ensures
        decreases_to!(t => children_of(t)[i]),
        tree_wf(t) ==> tree_wf(children_of(t)[i]),
{
    let x = t->UnaryExpression_0;
    assert(tree_wf(t) == (tree_wf(*x.operator) && tree_wf(*x.operand))) by {
        reveal_with_fuel(tree_wf, 1);
    }
    assert(children_of(t) == seq![*x.operator, *x.operand]);
    if i == 0 {
        assert(decreases_to!(t => *x.operator));
    } else {
        assert(decreases_to!(t => *x.operand));
    }
}

/// Each child of a `QuantifiedComparison` tree lies strictly within it, and is well formed where the tree is.
proof fn lemma_quantified_comparison_child<'a>(t: ParseTree<'a>, i: int)
    requires
        t is QuantifiedComparison,
        0 <= i < children_of(t).len(),
    ensures
        decreases_to!(t => children_of(t)[i]),
        tree_wf(t) ==> tree_wf(children_of(t)[i]),
{
    let x = t->QuantifiedComparison_0;
    assert(tree_wf(t) == (tree_wf(*x.operand) && tree_wf(*x.operator) && tree_wf(*x.comparison_quantifier) && tree_wf(*x.open_paren) && tree_wf(*x.query) && tree_wf(*x.close_paren))) by {
        reveal_with_fuel(tree_wf, 1);
    }
    assert(children_of(t) == seq![*x.operand, *x.operator, *x.comparison_quantifier, *x.open_paren, *x.query, *x.close_paren]);
    if i == 0 {
        assert(decreases_to!(t => *x.operand));
    } else if i == 1 {
        assert(decreases_to!(t => *x.operator));
    } else if i == 2 {
        assert(decreases_to!(t => *x.comparison_quantifier));
    } else if i == 3 {
        assert(decreases_to!(t => *x.open_paren));
    } else if i == 4 {
        assert(decreases_to!(t => *x.query));
    } else {
        assert(decreases_to!(t => *x.close_paren));
    }
}

/// Each child of a `NullPredicate` tree lies strictly within it, and is well formed where the tree is.
proof fn lemma_null_predicate_child<'a>(t: ParseTree<'a>, i: int)
    requires
        t is NullPredicate,
        0 <= i < children_of(t).len(),
    ensures
        decreases_to!(t => children_of(t)[i]),
        tree_wf(t) ==> tree_wf(children_of(t)[i]),
{
    let x = t->NullPredicate_0;
    assert(tree_wf(t) == (tree_wf(*x.value) && tree_wf(*x.is) && tree_wf(*x.not_opt) && tree_wf(*x.null))) by {
        reveal_with_fuel(tree_wf, 1);
    }
    assert(children_of(t) == seq![*x.value, *x.is, *x.not_opt, *x.null]);
    if i == 0 {
        assert(decreases_to!(t => *x.value));
    } else if i == 1 {
        assert(decreases_to!(t => *x.is));
    } else if i == 2 {
        assert(decreases_to!(t => *x.not_opt));
    } else {
        assert(decreases_to!(t => *x.null));
    }
}

/// Each child of a `DistinctFrom` tree lies strictly within it, and is well formed where the tree is.
proof fn lemma_distinct_from_child<'a>(t: ParseTree<'a>, i: int)
    requires
        t is DistinctFrom,
        0 <= i < children_of(t).len(),
    ensures
        decreases_to!(t => children_of(t)[i]),
        tree_wf(t) ==> tree_wf(children_of(t)[i]),
{
    let x = t->DistinctFrom_0;
    assert(tree_wf(t) == (tree_wf(*x.left) && tree_wf(*x.is) && tree_wf(*x.not_opt) && tree_wf(*x.distinct) && tree_wf(*x.from) && tree_wf(*x.right))) by {
        reveal_with_fuel(tree_wf, 1);
    }
    assert(children_of(t) == seq![*x.left, *x.is, *x.not_opt, *x.distinct, *x.from, *x.right]);
    if i == 0 {
        assert(decreases_to!(t => *x.left));
    } else if i == 1 {
        assert(decreases_to!(t => *x.is));
    } else if i == 2 {
        assert(decreases_to!(t => *x.not_opt));
    } else if i == 3 {
        assert(decreases_to!(t => *x.distinct));
    } else if i == 4 {
        assert(decreases_to!(t => *x.from));
    } else {
        assert(decreases_to!(t => *x.right));
    }
}

/// Each child of a `Between` tree lies strictly within it, and is well formed where the tree is.
proof fn lemma_between_child<'a>(t: ParseTree<'a>, i: int)
    requires
        t is Between,
        0 <= i < children_of(t).len(),
    ensures
        decreases_to!(t => children_of(t)[i]),
        tree_wf(t) ==> tree_wf(children_of(t)[i]),
{
    let x = t->Between_0;
    assert(tree_wf(t) == (tree_wf(*x.value) && tree_wf(*x.not_opt) && tree_wf(*x.between) && tree_wf(*x.lower) && tree_wf(*x.and) && tree_wf(*x.upper))) by {
        reveal_with_fuel(tree_wf, 1);
    }
    assert(children_of(t) == seq![*x.value, *x.not_opt, *x.between, *x.lower, *x.and, *x.upper]);
    if i == 0 {
        assert(decreases_to!(t => *x.value));
    } else if i == 1 {
        assert(decreases_to!(t => *x.not_opt));
    } else if i == 2 {
        assert(decreases_to!(t => *x.between));
    } else if i == 3 {
        assert(decreases_to!(t => *x.lower));
    } else if i == 4 {
        assert(decreases_to!(t => *x.and));
    } else {
        assert(decreases_to!(t => *x.upper));
    }
}

/// Each child of a `Like` tree lies strictly within it, and is well formed where the tree is.
proof fn lemma_like_child<'a>(t: ParseTree<'a>, i: int)
    requires
        t is Like,
        0 <= i < children_of(t).len(),
    ensures
        decreases_to!(t => children_of(t)[i]),
        tree_wf(t) ==> tree_wf(children_of(t)[i]),
{
    let x = t->Like_0;
    assert(tree_wf(t) == (tree_wf(*x.value) && tree_wf(*x.not_opt) && tree_wf(*x.like) && tree_wf(*x.patrern) && tree_wf(*x.escape_opt) && tree_wf(*x.escape_value_opt))) by {
        reveal_with_fuel(tree_wf, 1);
    }
    assert(children_of(t) == seq![*x.value, *x.not_opt, *x.like, *x.patrern, *x.escape_opt, *x.escape_value_opt]);
    if i == 0 {
        assert(decreases_to!(t => *x.value));
    } else if i == 1 {
        assert(decreases_to!(t => *x.not_opt));
    } else if i == 2 {
        assert(decreases_to!(t => *x.like));
    } else if i == 3 {
        assert(decreases_to!(t => *x.patrern));
    } else if i == 4 {
        assert(decreases_to!(t => *x.escape_opt));
    } else {
        assert(decreases_to!(t => *x.escape_value_opt));
    }
}

/// Each child of a `InSubquery` tree lies strictly within it, and is well formed where the tree is.
proof fn lemma_in_subquery_child<'a>(t: ParseTree<'a>, i: int)
    requires
        t is InSubquery,
        0 <= i < children_of(t).len(),
    ensures
        decreases_to!(t => children_of(t)[i]),
        tree_wf(t) ==> tree_wf(children_of(t)[i]),
{
    let x = t->InSubquery_0;
    assert(tree_wf(t) == (tree_wf(*x.value) && tree_wf(*x.not_opt) && tree_wf(*x.in_) && tree_wf(*x.open_paren) && tree_wf(*x.query) && tree_wf(*x.close_paren))) by {
        reveal_with_fuel(tree_wf, 1);
    }
    assert(children_of(t) == seq![*x.value, *x.not_opt, *x.in_, *x.open_paren, *x.query, *x.close_paren]);
    if i == 0 {
        assert(decreases_to!(t => *x.value));
    } else if i == 1 {
        assert(decreases_to!(t => *x.not_opt));
    } else if i == 2 {
        assert(decreases_to!(t => *x.in_));
    } else if i == 3 {
        assert(decreases_to!(t => *x.open_paren));
    } else if i == 4 {
        assert(decreases_to!(t => *x.query));
    } else {
        assert(decreases_to!(t => *x.close_paren));
    }
}

/// Each child of a `InList` tree lies strictly within it, and is well formed where the tree is.
proof fn lemma_in_list_child<'a>(t: ParseTree<'a>, i: int)
    requires
        t is InList,
        0 <= i < children_of(t).len(),
    ensures
        decreases_to!(t => children_of(t)[i]),
        tree_wf(t) ==> tree_wf(children_of(t)[i]),
{
    let x = t->InList_0;
    assert(tree_wf(t) == (tree_wf(*x.value) && tree_wf(*x.not_opt) && tree_wf(*x.in_) && tree_wf(*x.expressions))) by {
        reveal_with_fuel(tree_wf, 1);
    }
    assert(children_of(t) == seq![*x.value, *x.not_opt, *x.in_, *x.expressions]);
    if i == 0 {
        assert(decreases_to!(t => *x.value));
    } else if i == 1 {
        assert(decreases_to!(t => *x.not_opt));
    } else if i == 2 {
        assert(decreases_to!(t => *x.in_));
    } else {
        assert(decreases_to!(t => *x.expressions));
    }
}

/// Each child of a `AtTimeZone` tree lies strictly within it, and is well formed where the tree is.
proof fn lemma_at_time_zone_child<'a>(t: ParseTree<'a>, i: int)
    requires
        t is AtTimeZone,
        0 <= i < children_of(t).len(),
    ensures
        decreases_to!(t => children_of(t)[i]),
        tree_wf(t) ==> tree_wf(children_of(t)[i]),
{
    let x = t->AtTimeZone_0;
    assert(tree_wf(t) == (tree_wf(*x.value) && tree_wf(*x.at) && tree_wf(*x.time) && tree_wf(*x.zone) && tree_wf(*x.specifier))) by {
        reveal_with_fuel(tree_wf, 1);
    }
    assert(children_of(t) == seq![*x.value, *x.at, *x.time, *x.zone, *x.specifier]);
    if i == 0 {
        assert(decreases_to!(t => *x.value));
    } else if i == 1 {
        assert(decreases_to!(t => *x.at));
    } else if i == 2 {
        assert(decreases_to!(t => *x.time));
    } else if i == 3 {
        assert(decreases_to!(t => *x.zone));
    } else {
        assert(decreases_to!(t => *x.specifier));
    }
}

/// Each child of a `Dereference` tree lies strictly within it, and is well formed where the tree is.
proof fn lemma_dereference_child<'a>(t: ParseTree<'a>, i: int)
    requires
        t is Dereference,
        0 <= i < children_of(t).len(),
    ensures
        decreases_to!(t => children_of(t)[i]),
        tree_wf(t) ==> tree_wf(children_of(t)[i]),
{
    let x = t->Dereference_0;
    assert(tree_wf(t) == (tree_wf(*x.object) && tree_wf(*x.period) && tree_wf(*x.field_name))) by {
        reveal_with_fuel(tree_wf, 1);
    }
    assert(children_of(t) == seq![*x.object, *x.period, *x.field_name]);
    if i == 0 {
        assert(decreases_to!(t => *x.object));
    } else if i == 1 {
        assert(decreases_to!(t => *x.period));
    } else {
        assert(decreases_to!(t => *x.field_name));
    }
}

/// Each child of a `Subscript` tree lies strictly within it, and is well formed where the tree is.
proof fn lemma_subscript_child<'a>(t: ParseTree<'a>, i: int)
    requires
        t is Subscript,
        0 <= i < children_of(t).len(),
    ensures
        decreases_to!(t => children_of(t)[i]),
        tree_wf(t) ==> tree_wf(children_of(t)[i]),
{
    let x = t->Subscript_0;
    assert(tree_wf(t) == (tree_wf(*x.operand) && tree_wf(*x.open_square) && tree_wf(*x.index) && tree_wf(*x.close_square))) by {
        reveal_with_fuel(tree_wf, 1);
    }
    assert(children_of(t) == seq![*x.operand, *x.open_square, *x.index, *x.close_square]);
    if i == 0 {
        assert(decreases_to!(t => *x.operand));
    } else if i == 1 {
        assert(decreases_to!(t => *x.open_square));
    } else if i == 2 {
        assert(decreases_to!(t => *x.index));
    } else {
        assert(decreases_to!(t => *x.close_square));
    }
}

/// Each child of a `Lambda` tree lies strictly within it, and is well formed where the tree is.
proof fn lemma_lambda_child<'a>(t: ParseTree<'a>, i: int)
    requires
        t is Lambda,
        0 <= i < children_of(t).len(),
    ensures
        decreases_to!(t => children_of(t)[i]),
        tree_wf(t) ==> tree_wf(children_of(t)[i]),
{
    let x = t->Lambda_0;
    assert(tree_wf(t) == (tree_wf(*x.parameters) && tree_wf(*x.array) && tree_wf(*x.body))) by {
        reveal_with_fuel(tree_wf, 1);
    }
    assert(children_of(t) == seq![*x.parameters, *x.array, *x.body]);
    if i == 0 {
        assert(decreases_to!(t => *x.parameters));
    } else if i == 1 {
        assert(decreases_to!(t => *x.array));
    } else {
        assert(decreases_to!(t => *x.body));
    }
}

/// Each child of a `Literal` tree lies strictly within it, and is well formed where the tree is.
proof fn lemma_literal_child<'a>(t: ParseTree<'a>, i: int)
    requires
        t is Literal,
        0 <= i < children_of(t).len(),
    ensures
        decreases_to!(t => children_of(t)[i]),
        tree_wf(t) ==> tree_wf(children_of(t)[i]),
{
    let x = t->Literal_0;
    assert(tree_wf(t) == (tree_wf(*x.value))) by {
        reveal_with_fuel(tree_wf, 1);
    }
    assert(children_of(t) == seq![*x.value]);
    {
        assert(decreases_to!(t => *x.value));
    }
}

/// Each child of a `RowConstructor` tree lies strictly within it, and is well formed where the tree is.
proof fn lemma_row_constructor_child<'a>(t: ParseTree<'a>, i: int)
    requires
        t is RowConstructor,
        0 <= i < children_of(t).len(),
    ensures
        decreases_to!(t => children_of(t)[i]),
        tree_wf(t) ==> tree_wf(children_of(t)[i]),
{
    let x = t->RowConstructor_0;
    assert(tree_wf(t) == (tree_wf(*x.elements))) by {
        reveal_with_fuel(tree_wf, 1);
    }
    assert(children_of(t) == seq![*x.elements]);
    {
        assert(decreases_to!(t => *x.elements));
    }
}

/// Each child of a `ParenthesizedExpression` tree lies strictly within it, and is well formed where the tree is.
proof fn lemma_parenthesized_expression_child<'a>(t: ParseTree<'a>, i: int)
    requires
        t is ParenthesizedExpression,
        0 <= i < children_of(t).len(),
    ensures
        decreases_to!(t => children_of(t)[i]),
        tree_wf(t) ==> tree_wf(children_of(t)[i]),
{
    let x = t->ParenthesizedExpression_0;
    assert(tree_wf(t) == (tree_wf(*x.open_paren) && tree_wf(*x.value) && tree_wf(*x.close_paren))) by {
        reveal_with_fuel(tree_wf, 1);
    }
    assert(children_of(t) == seq![*x.open_paren, *x.value, *x.close_paren]);
    if i == 0 {
        assert(decreases_to!(t => *x.open_paren));
    } else if i == 1 {
        assert(decreases_to!(t => *x.value));
    } else {
        assert(decreases_to!(t => *x.close_paren));
    }
}

/// Each child of a `Identifier` tree lies strictly within it, and is well formed where the tree is.
proof fn lemma_identifier_child<'a>(t: ParseTree<'a>, i: int)
    requires
        t is Identifier,
        0 <= i < children_of(t).len(),
    ensures
        decreases_to!(t => children_of(t)[i]),
        tree_wf(t) ==> tree_wf(children_of(t)[i]),
{
    let x = t->Identifier_0;
    assert(tree_wf(t) == (tree_wf(*x.value))) by {
        reveal_with_fuel(tree_wf, 1);
    }
    assert(children_of(t) == seq![*x.value]);
    {
        assert(decreases_to!(t => *x.value));
    }
}

/// Each child of a `FunctionCall` tree lies strictly within it, and is well formed where the tree is.
proof fn lemma_function_call_child<'a>(t: ParseTree<'a>, i: int)
    requires
        t is FunctionCall,
        0 <= i < children_of(t).len(),
    ensures
        decreases_to!(t => children_of(t)[i]),
        tree_wf(t) ==> tree_wf(children_of(t)[i]),
{
    let x = t->FunctionCall_0;
    assert(tree_wf(t) == (tree_wf(*x.name) && tree_wf(*x.open_paren) && tree_wf(*x.set_quantifier_opt) && tree_wf(*x.arguments) && tree_wf(*x.order_by_opt) && tree_wf(*x.close_paren) && tree_wf(*x.filter_opt) && tree_wf(*x.null_treatment_opt) && tree_wf(*x.over_opt))) by {
        reveal_with_fuel(tree_wf, 1);
    }
    assert(children_of(t) == seq![*x.name, *x.open_paren, *x.set_quantifier_opt, *x.arguments, *x.order_by_opt, *x.close_paren, *x.filter_opt, *x.null_treatment_opt, *x.over_opt]);
    if i == 0 {
        assert(decreases_to!(t => *x.name));
    } else if i == 1 {
        assert(decreases_to!(t => *x.open_paren));
    } else if i == 2 {
        assert(decreases_to!(t => *x.set_quantifier_opt));
    } else if i == 3 {
        assert(decreases_to!(t => *x.arguments));
    } else if i == 4 {
        assert(decreases_to!(t => *x.order_by_opt));
    } else if i == 5 {
        assert(decreases_to!(t => *x.close_paren));
    } else if i == 6 {
        assert(decreases_to!(t => *x.filter_opt));
    } else if i == 7 {
        assert(decreases_to!(t => *x.null_treatment_opt));
    } else {
        assert(decreases_to!(t => *x.over_opt));
    }
}

/// Each child of a `Filter` tree lies strictly within it, and is well formed where the tree is.
proof fn lemma_filter_child<'a>(t: ParseTree<'a>, i: int)
    requires
        t is Filter,
        0 <= i < children_of(t).len(),
    ensures
        decreases_to!(t => children_of(t)[i]),
        tree_wf(t) ==> tree_wf(children_of(t)[i]),
{
    let x = t->Filter_0;
    assert(tree_wf(t) == (tree_wf(*x.filter) && tree_wf(*x.open_paren) && tree_wf(*x.where_) && tree_wf(*x.predicate) && tree_wf(*x.close_paren))) by {
        reveal_with_fuel(tree_wf, 1);
    }
    assert(children_of(t) == seq![*x.filter, *x.open_paren, *x.where_, *x.predicate, *x.close_paren]);
    if i == 0 {
        assert(decreases_to!(t => *x.filter));
    } else if i == 1 {
        assert(decreases_to!(t => *x.open_paren));
    } else if i == 2 {
        assert(decreases_to!(t => *x.where_));
    } else if i == 3 {
        assert(decreases_to!(t => *x.predicate));
    } else {
        assert(decreases_to!(t => *x.close_paren));
    }
}

/// Each child of a `Over` tree lies strictly within it, and is well formed where the tree is.
proof fn lemma_over_child<'a>(t: ParseTree<'a>, i: int)
    requires
        t is Over,
        0 <= i < children_of(t).len(),
    ensures
        decreases_to!(t => children_of(t)[i]),
        tree_wf(t) ==> tree_wf(children_of(t)[i]),
{
    let x = t->Over_0;
    assert(tree_wf(t) == (tree_wf(*x.over) && tree_wf(*x.open_paren) && tree_wf(*x.partition_opt) && tree_wf(*x.by) && tree_wf(*x.partitions) && tree_wf(*x.order_by_opt) && tree_wf(*x.window_frame) && tree_wf(*x.close_paren))) by {
        reveal_with_fuel(tree_wf, 1);
    }
    assert(children_of(t) == seq![*x.over, *x.open_paren, *x.partition_opt, *x.by, *x.partitions, *x.order_by_opt, *x.window_frame, *x.close_paren]);
    if i == 0 {
        assert(decreases_to!(t => *x.over));
    } else if i == 1 {
        assert(decreases_to!(t => *x.open_paren));
    } else if i == 2 {
        assert(decreases_to!(t => *x.partition_opt));
    } else if i == 3 {
        assert(decreases_to!(t => *x.by));
    } else if i == 4 {
        assert(decreases_to!(t => *x.partitions));
    } else if i == 5 {
        assert(decreases_to!(t => *x.order_by_opt));
    } else if i == 6 {
        assert(decreases_to!(t => *x.window_frame));
    } else {
        assert(decreases_to!(t => *x.close_paren));
    }
}

/// Each child of a `WindowFrame` tree lies strictly within it, and is well formed where the tree is.
proof fn lemma_window_frame_child<'a>(t: ParseTree<'a>, i: int)
    requires
        t is WindowFrame,
        0 <= i < children_of(t).len(),
    ensures
        decreases_to!(t => children_of(t)[i]),
        tree_wf(t) ==> tree_wf(children_of(t)[i]),
{
    let x = t->WindowFrame_0;
    assert(tree_wf(t) == (tree_wf(*x.frame_type) && tree_wf(*x.between_opt) && tree_wf(*x.start) && tree_wf(*x.and) && tree_wf(*x.end))) by {
        reveal_with_fuel(tree_wf, 1);
    }
    assert(children_of(t) == seq![*x.frame_type, *x.between_opt, *x.start, *x.and, *x.end]);
    if i == 0 {
        assert(decreases_to!(t => *x.frame_type));
    } else if i == 1 {
        assert(decreases_to!(t => *x.between_opt));
    } else if i == 2 {
        assert(decreases_to!(t => *x.start));
    } else if i == 3 {
        assert(decreases_to!(t => *x.and));
    } else {
        assert(decreases_to!(t => *x.end));
    }
}

/// Each child of a `UnboundedFrame` tree lies strictly within it, and is well formed where the tree is.
proof fn lemma_unbounded_frame_child<'a>(t: ParseTree<'a>, i: int)
    requires
        t is UnboundedFrame,
        0 <= i < children_of(t).len(),
    ensures
        decreases_to!(t => children_of(t)[i]),
        tree_wf(t) ==> tree_wf(children_of(t)[i]),
{
    let x = t->UnboundedFrame_0;
    assert(tree_wf(t) == (tree_wf(*x.unbounded) && tree_wf(*x.bound_type))) by {
        reveal_with_fuel(tree_wf, 1);
    }
    assert(children_of(t) == seq![*x.unbounded, *x.bound_type]);
    if i == 0 {
        assert(decreases_to!(t => *x.unbounded));
    } else {
        assert(decreases_to!(t => *x.bound_type));
    }
}

/// Each child of a `CurrentRowBound` tree lies strictly within it, and is well formed where the tree is.
proof fn lemma_current_row_bound_child<'a>(t: ParseTree<'a>, i: int)
    requires
        t is CurrentRowBound,
        0 <= i < children_of(t).len(),
    ensures
        decreases_to!(t => children_of(t)[i]),
        tree_wf(t) ==> tree_wf(children_of(t)[i]),
{
    let x = t->CurrentRowBound_0;
    assert(tree_wf(t) == (tree_wf(*x.current) && tree_wf(*x.row))) by {
        reveal_with_fuel(tree_wf, 1);
    }
    assert(children_of(t) == seq![*x.current, *x.row]);
    if i == 0 {
        assert(decreases_to!(t => *x.current));
    } else {
        assert(decreases_to!(t => *x.row));
    }
}

/// Each child of a `BoundedFrame` tree lies strictly within it, and is well formed where the tree is.
proof fn lemma_bounded_frame_child<'a>(t: ParseTree<'a>, i: int)
    requires
        t is BoundedFrame,
        0 <= i < children_of(t).len(),
    ensures
        decreases_to!(t => children_of(t)[i]),
        tree_wf(t) ==> tree_wf(children_of(t)[i]),
{
    let x = t->BoundedFrame_0;
    assert(tree_wf(t) == (tree_wf(*x.bound) && tree_wf(*x.bound_type))) by {
        reveal_with_fuel(tree_wf, 1);
    }
    assert(children_of(t) == seq![*x.bound, *x.bound_type]);
    if i == 0 {
        assert(decreases_to!(t => *x.bound));
    } else {
        assert(decreases_to!(t => *x.bound_type));
    }
}

/// Each child of a `UnicodeString` tree lies strictly within it, and is well formed where the tree is.
proof fn lemma_unicode_string_child<'a>(t: ParseTree<'a>, i: int)
    requires
        t is UnicodeString,
        0 <= i < children_of(t).len(),
    ensures
        decreases_to!(t => children_of(t)[i]),
        tree_wf(t) ==> tree_wf(children_of(t)[i]),
{
    let x = t->UnicodeString_0;
    assert(tree_wf(t) == (tree_wf(*x.string) && tree_wf(*x.uescape_opt) && tree_wf(*x.escape))) by {
        reveal_with_fuel(tree_wf, 1);
    }
    assert(children_of(t) == seq![*x.string, *x.uescape_opt, *x.escape]);
    if i == 0 {
        assert(decreases_to!(t => *x.string));
    } else if i == 1 {
        assert(decreases_to!(t => *x.uescape_opt));
    } else {
        assert(decreases_to!(t => *x.escape));
    }
}

/// Each child of a `ConfigureExpression` tree lies strictly within it, and is well formed where the tree is.
proof fn lemma_configure_expression_child<'a>(t: ParseTree<'a>, i: int)
    requires
        t is ConfigureExpression,
        0 <= i < children_of(t).len(),
    ensures
        decreases_to!(t => children_of(t)[i]),
        tree_wf(t) ==> tree_wf(children_of(t)[i]),
{
    let x = t->ConfigureExpression_0;
    assert(tree_wf(t) == (tree_wf(*x.configure) && tree_wf(*x.open_paren) && tree_wf(*x.identifier) && tree_wf(*x.comma) && tree_wf(*x.value) && tree_wf(*x.close_paren))) by {
        reveal_with_fuel(tree_wf, 1);
    }
    assert(children_of(t) == seq![*x.configure, *x.open_paren, *x.identifier, *x.comma, *x.value, *x.close_paren]);
    if i == 0 {
        assert(decreases_to!(t => *x.configure));
    } else if i == 1 {
        assert(decreases_to!(t => *x.open_paren));
    } else if i == 2 {
        assert(decreases_to!(t => *x.identifier));
    } else if i == 3 {
        assert(decreases_to!(t => *x.comma));
    } else if i == 4 {
        assert(decreases_to!(t => *x.value));
    } else {
        assert(decreases_to!(t => *x.close_paren));
    }
}

/// Each child of a `SubqueryExpression` tree lies strictly within it, and is well formed where the tree is.
proof fn lemma_subquery_expression_child<'a>(t: ParseTree<'a>, i: int)
    requires
        t is SubqueryExpression,
        0 <= i < children_of(t).len(),
    ensures
        decreases_to!(t => children_of(t)[i]),
        tree_wf(t) ==> tree_wf(children_of(t)[i]),
{
    let x = t->SubqueryExpression_0;
    assert(tree_wf(t) == (tree_wf(*x.open_paren) && tree_wf(*x.query) && tree_wf(*x.close_paren))) by {
        reveal_with_fuel(tree_wf, 1);
    }
    assert(children_of(t) == seq![*x.open_paren, *x.query, *x.close_paren]);
    if i == 0 {
        assert(decreases_to!(t => *x.open_paren));
    } else if i == 1 {
        assert(decreases_to!(t => *x.query));
    } else {
        assert(decreases_to!(t => *x.close_paren));
    }
}

/// Each child of a `Grouping` tree lies strictly within it, and is well formed where the tree is.
proof fn lemma_grouping_child<'a>(t: ParseTree<'a>, i: int)
    requires
        t is Grouping,
        0 <= i < children_of(t).len(),
    ensures
        decreases_to!(t => children_of(t)[i]),
        tree_wf(t) ==> tree_wf(children_of(t)[i]),
{
    let x = t->Grouping_0;
    assert(tree_wf(t) == (tree_wf(*x.grouping) && tree_wf(*x.groups))) by {
        reveal_with_fuel(tree_wf, 1);
    }
    assert(children_of(t) == seq![*x.grouping, *x.groups]);
    if i == 0 {
        assert(decreases_to!(t => *x.grouping));
    } else {
        assert(decreases_to!(t => *x.groups));
    }
}

/// Each child of a `Extract` tree lies strictly within it, and is well formed where the tree is.
proof fn lemma_extract_child<'a>(t: ParseTree<'a>, i: int)
    requires
        t is Extract,
        0 <= i < children_of(t).len(),
    ensures
        decreases_to!(t => children_of(t)[i]),
        tree_wf(t) ==> tree_wf(children_of(t)[i]),
{
    let x = t->Extract_0;
    assert(tree_wf(t) == (tree_wf(*x.extract) && tree_wf(*x.open_paren) && tree_wf(*x.identifier) && tree_wf(*x.from) && tree_wf(*x.value) && tree_wf(*x.close_paren))) by {
        reveal_with_fuel(tree_wf, 1);
    }
    assert(children_of(t) == seq![*x.extract, *x.open_paren, *x.identifier, *x.from, *x.value, *x.close_paren]);
    if i == 0 {
        assert(decreases_to!(t => *x.extract));
    } else if i == 1 {
        assert(decreases_to!(t => *x.open_paren));
    } else if i == 2 {
        assert(decreases_to!(t => *x.identifier));
    } else if i == 3 {
        assert(decreases_to!(t => *x.from));
    } else if i == 4 {
        assert(decreases_to!(t => *x.value));
    } else {
        assert(decreases_to!(t => *x.close_paren));
    }
}

/// Each child of a `CurrentTime` tree lies strictly within it, and is well formed where the tree is.
proof fn lemma_current_time_child<'a>(t: ParseTree<'a>, i: int)
    requires
        t is CurrentTime,
        0 <= i < children_of(t).len(),
    ensures
        decreases_to!(t => children_of(t)[i]),
        tree_wf(t) ==> tree_wf(children_of(t)[i]),
{
    let x = t->CurrentTime_0;
    assert(tree_wf(t) == (tree_wf(*x.current_time) && tree_wf(*x.open_paren) && tree_wf(*x.precision) && tree_wf(*x.close_paren))) by {
        reveal_with_fuel(tree_wf, 1);
    }
    assert(children_of(t) == seq![*x.current_time, *x.open_paren, *x.precision, *x.close_paren]);
    if i == 0 {
        assert(decreases_to!(t => *x.current_time));
    } else if i == 1 {
        assert(decreases_to!(t => *x.open_paren));
    } else if i == 2 {
        assert(decreases_to!(t => *x.precision));
    } else {
        assert(decreases_to!(t => *x.close_paren));
    }
}

/// Each child of a `CurrentTimestamp` tree lies strictly within it, and is well formed where the tree is.
proof fn lemma_current_timestamp_child<'a>(t: ParseTree<'a>, i: int)
    requires
        t is CurrentTimestamp,
        0 <= i < children_of(t).len(),
    ensures
        decreases_to!(t => children_of(t)[i]),
        tree_wf(t) ==> tree_wf(children_of(t)[i]),
{
    let x = t->CurrentTimestamp_0;
    assert(tree_wf(t) == (tree_wf(*x.current_timestamp) && tree_wf(*x.open_paren) && tree_wf(*x.precision) && tree_wf(*x.close_paren))) by {
        reveal_with_fuel(tree_wf, 1);
    }
    assert(children_of(t) == seq![*x.current_timestamp, *x.open_paren, *x.precision, *x.close_paren]);
    if i == 0 {
        assert(decreases_to!(t => *x.current_timestamp));
    } else if i == 1 {
        assert(decreases_to!(t => *x.open_paren));
    } else if i == 2 {
        assert(decreases_to!(t => *x.precision));
    } else {
        assert(decreases_to!(t => *x.close_paren));
    }
}

/// Each child of a `Normalize` tree lies strictly within it, and is well formed where the tree is.
proof fn lemma_normalize_child<'a>(t: ParseTree<'a>, i: int)
    requires
        t is Normalize,
        0 <= i < children_of(t).len(),
    ensures
        decreases_to!(t => children_of(t)[i]),
        tree_wf(t) ==> tree_wf(children_of(t)[i]),
{
    let x = t->Normalize_0;
    assert(tree_wf(t) == (tree_wf(*x.normalize) && tree_wf(*x.open_paren) && tree_wf(*x.value) && tree_wf(*x.comma_opt) && tree_wf(*x.normal_form) && tree_wf(*x.close_paren))) by {
        reveal_with_fuel(tree_wf, 1);
    }
    assert(children_of(t) == seq![*x.normalize, *x.open_paren, *x.value, *x.comma_opt, *x.normal_form, *x.close_paren]);
    if i == 0 {
        assert(decreases_to!(t => *x.normalize));
    } else if i == 1 {
        assert(decreases_to!(t => *x.open_paren));
    } else if i == 2 {
        assert(decreases_to!(t => *x.value));
    } else if i == 3 {
        assert(decreases_to!(t => *x.comma_opt));
    } else if i == 4 {
        assert(decreases_to!(t => *x.normal_form));
    } else {
        assert(decreases_to!(t => *x.close_paren));
    }
}

/// Each child of a `Localtime` tree lies strictly within it, and is well formed where the tree is.
proof fn lemma_localtime_child<'a>(t: ParseTree<'a>, i: int)
    requires
        t is Localtime,
        0 <= i < children_of(t).len(),
    ensures
        decreases_to!(t => children_of(t)[i]),
        tree_wf(t) ==> tree_wf(children_of(t)[i]),
{
    let x = t->Localtime_0;
    assert(tree_wf(t) == (tree_wf(*x.localtime) && tree_wf(*x.open_paren) && tree_wf(*x.precision) && tree_wf(*x.close_paren))) by {
        reveal_with_fuel(tree_wf, 1);
    }
    assert(children_of(t) == seq![*x.localtime, *x.open_paren, *x.precision, *x.close_paren]);
    if i == 0 {
        assert(decreases_to!(t => *x.localtime));
    } else if i == 1 {
        assert(decreases_to!(t => *x.open_paren));
    } else if i == 2 {
        assert(decreases_to!(t => *x.precision));
    } else {
        assert(decreases_to!(t => *x.close_paren));
    }
}

/// Each child of a `Localtimestamp` tree lies strictly within it, and is well formed where the tree is.
proof fn lemma_localtimestamp_child<'a>(t: ParseTree<'a>, i: int)
    requires
        t is Localtimestamp,
        0 <= i < children_of(t).len(),
    ensures
        decreases_to!(t => children_of(t)[i]),
        tree_wf(t) ==> tree_wf(children_of(t)[i]),
{
    let x = t->Localtimestamp_0;
    assert(tree_wf(t) == (tree_wf(*x.localtimestamp) && tree_wf(*x.open_paren) && tree_wf(*x.precision) && tree_wf(*x.close_paren))) by {
        reveal_with_fuel(tree_wf, 1);
    }
    assert(children_of(t) == seq![*x.localtimestamp, *x.open_paren, *x.precision, *x.close_paren]);
    if i == 0 {
        assert(decreases_to!(t => *x.localtimestamp));
    } else if i == 1 {
        assert(decreases_to!(t => *x.open_paren));
    } else if i == 2 {
        assert(decreases_to!(t => *x.precision));
    } else {
        assert(decreases_to!(t => *x.close_paren));
    }
}

/// Each child of a `Cast` tree lies strictly within it, and is well formed where the tree is.
proof fn lemma_cast_child<'a>(t: ParseTree<'a>, i: int)
    requires
        t is Cast,
        0 <= i < children_of(t).len(),
    ensures
        decreases_to!(t => children_of(t)[i]),
        tree_wf(t) ==> tree_wf(children_of(t)[i]),
{
    let x = t->Cast_0;
    assert(tree_wf(t) == (tree_wf(*x.cast) && tree_wf(*x.open_paren) && tree_wf(*x.value) && tree_wf(*x.as_) && tree_wf(*x.type_) && tree_wf(*x.close_paren))) by {
        reveal_with_fuel(tree_wf, 1);
    }
    assert(children_of(t) == seq![*x.cast, *x.open_paren, *x.value, *x.as_, *x.type_, *x.close_paren]);
    if i == 0 {
        assert(decreases_to!(t => *x.cast));
    } else if i == 1 {
        assert(decreases_to!(t => *x.open_paren));
    } else if i == 2 {
        assert(decreases_to!(t => *x.value));
    } else if i == 3 {
        assert(decreases_to!(t => *x.as_));
    } else if i == 4 {
        assert(decreases_to!(t => *x.type_));
    } else {
        assert(decreases_to!(t => *x.close_paren));
    }
}

/// Each child of a `WhenClause` tree lies strictly within it, and is well formed where the tree is.
proof fn lemma_when_clause_child<'a>(t: ParseTree<'a>, i: int)
    requires
        t is WhenClause,
        0 <= i < children_of(t).len(),
    ensures
        decreases_to!(t => children_of(t)[i]),
        tree_wf(t) ==> tree_wf(children_of(t)[i]),
{
    let x = t->WhenClause_0;
    assert(tree_wf(t) == (tree_wf(*x.when) && tree_wf(*x.condition) && tree_wf(*x.then_) && tree_wf(*x.result))) by {
        reveal_with_fuel(tree_wf, 1);
    }
    assert(children_of(t) == seq![*x.when, *x.condition, *x.then_, *x.result]);
    if i == 0 {
        assert(decreases_to!(t => *x.when));
    } else if i == 1 {
        assert(decreases_to!(t => *x.condition));
    } else if i == 2 {
        assert(decreases_to!(t => *x.then_));
    } else {
        assert(decreases_to!(t => *x.result));
    }
}

/// Each child of a `Case` tree lies strictly within it, and is well formed where the tree is.
proof fn lemma_case_child<'a>(t: ParseTree<'a>, i: int)
    requires
        t is Case,
        0 <= i < children_of(t).len(),
    ensures
        decreases_to!(t => children_of(t)[i]),
        tree_wf(t) ==> tree_wf(children_of(t)[i]),
{
    let x = t->Case_0;
    assert(tree_wf(t) == (tree_wf(*x.case) && tree_wf(*x.value_opt) && tree_wf(*x.when_clauses) && tree_wf(*x.else_opt) && tree_wf(*x.default) && tree_wf(*x.end))) by {
        reveal_with_fuel(tree_wf, 1);
    }
    assert(children_of(t) == seq![*x.case, *x.value_opt, *x.when_clauses, *x.else_opt, *x.default, *x.end]);
    if i == 0 {
        assert(decreases_to!(t => *x.case));
    } else if i == 1 {
        assert(decreases_to!(t => *x.value_opt));
    } else if i == 2 {
        assert(decreases_to!(t => *x.when_clauses));
    } else if i == 3 {
        assert(decreases_to!(t => *x.else_opt));
    } else if i == 4 {
        assert(decreases_to!(t => *x.default));
    } else {
        assert(decreases_to!(t => *x.end));
    }
}

/// Each child of a `Exists` tree lies strictly within it, and is well formed where the tree is.
proof fn lemma_exists_child<'a>(t: ParseTree<'a>, i: int)
    requires
        t is Exists,
        0 <= i < children_of(t).len(),
    ensures
        decreases_to!(t => children_of(t)[i]),
        tree_wf(t) ==> tree_wf(children_of(t)[i]),
{
    let x = t->Exists_0;
    assert(tree_wf(t) == (tree_wf(*x.exists) && tree_wf(*x.open_paren) && tree_wf(*x.query) && tree_wf(*x.close_paren))) by {
        reveal_with_fuel(tree_wf, 1);
    }
    assert(children_of(t) == seq![*x.exists, *x.open_paren, *x.query, *x.close_paren]);
    if i == 0 {
        assert(decreases_to!(t => *x.exists));
    } else if i == 1 {
        assert(decreases_to!(t => *x.open_paren));
    } else if i == 2 {
        assert(decreases_to!(t => *x.query));
    } else {
        assert(decreases_to!(t => *x.close_paren));
    }
}

/// Each child of a `TypeConstructor` tree lies strictly within it, and is well formed where the tree is.
proof fn lemma_type_constructor_child<'a>(t: ParseTree<'a>, i: int)
    requires
        t is TypeConstructor,
        0 <= i < children_of(t).len(),
    ensures
        decreases_to!(t => children_of(t)[i]),
        tree_wf(t) ==> tree_wf(children_of(t)[i]),
{
    let x = t->TypeConstructor_0;
    assert(tree_wf(t) == (tree_wf(*x.type_) && tree_wf(*x.value))) by {
        reveal_with_fuel(tree_wf, 1);
    }
    assert(children_of(t) == seq![*x.type_, *x.value]);
    if i == 0 {
        assert(decreases_to!(t => *x.type_));
    } else {
        assert(decreases_to!(t => *x.value));
    }
}

/// Each child of a `Array` tree lies strictly within it, and is well formed where the tree is.
proof fn lemma_array_child<'a>(t: ParseTree<'a>, i: int)
    requires
        t is Array,
        0 <= i < children_of(t).len(),
    ensures
        decreases_to!(t => children_of(t)[i]),
        tree_wf(t) ==> tree_wf(children_of(t)[i]),
{
    let x = t->Array_0;
    assert(tree_wf(t) == (tree_wf(*x.array) && tree_wf(*x.elements))) by {
        reveal_with_fuel(tree_wf, 1);
    }
    assert(children_of(t) == seq![*x.array, *x.elements]);
    if i == 0 {
        assert(decreases_to!(t => *x.array));
    } else {
        assert(decreases_to!(t => *x.elements));
    }
}

/// Each child of a `Interval` tree lies strictly within it, and is well formed where the tree is.
proof fn lemma_interval_child<'a>(t: ParseTree<'a>, i: int)
    requires
        t is Interval,
        0 <= i < children_of(t).len(),
    ensures
        decreases_to!(t => children_of(t)[i]),
        tree_wf(t) ==> tree_wf(children_of(t)[i]),
{
    let x = t->Interval_0;
    assert(tree_wf(t) == (tree_wf(*x.interval) && tree_wf(*x.sign_opt) && tree_wf(*x.value) && tree_wf(*x.from) && tree_wf(*x.to_kw_opt) && tree_wf(*x.to))) by {
        reveal_with_fuel(tree_wf, 1);
    }
    assert(children_of(t) == seq![*x.interval, *x.sign_opt, *x.value, *x.from, *x.to_kw_opt, *x.to]);
    if i == 0 {
        assert(decreases_to!(t => *x.interval));
    } else if i == 1 {
        assert(decreases_to!(t => *x.sign_opt));
    } else if i == 2 {
        assert(decreases_to!(t => *x.value));
    } else if i == 3 {
        assert(decreases_to!(t => *x.from));
    } else if i == 4 {
        assert(decreases_to!(t => *x.to_kw_opt));
    } else {
        assert(decreases_to!(t => *x.to));
    }
}

/// Each child of a `Row` tree lies strictly within it, and is well formed where the tree is.
proof fn lemma_row_child<'a>(t: ParseTree<'a>, i: int)
    requires
        t is Row,
        0 <= i < children_of(t).len(),
    ensures
        decreases_to!(t => children_of(t)[i]),
        tree_wf(t) ==> tree_wf(children_of(t)[i]),
{
    let x = t->Row_0;
    assert(tree_wf(t) == (tree_wf(*x.row) && tree_wf(*x.elements))) by {
        reveal_with_fuel(tree_wf, 1);
    }
    assert(children_of(t) == seq![*x.row, *x.elements]);
    if i == 0 {
        assert(decreases_to!(t => *x.row));
    } else {
        assert(decreases_to!(t => *x.elements));
    }
}

/// Each child of a `TryCast` tree lies strictly within it, and is well formed where the tree is.
proof fn lemma_try_cast_child<'a>(t: ParseTree<'a>, i: int)
    requires
        t is TryCast,
        0 <= i < children_of(t).len(),
    ensures
        decreases_to!(t => children_of(t)[i]),
        tree_wf(t) ==> tree_wf(children_of(t)[i]),
{
    let x = t->TryCast_0;
    assert(tree_wf(t) == (tree_wf(*x.try_cast) && tree_wf(*x.open_paren) && tree_wf(*x.value) && tree_wf(*x.as_) && tree_wf(*x.type_) && tree_wf(*x.close_paren))) by {
        reveal_with_fuel(tree_wf, 1);
    }
    assert(children_of(t) == seq![*x.try_cast, *x.open_paren, *x.value, *x.as_, *x.type_, *x.close_paren]);
    if i == 0 {
        assert(decreases_to!(t => *x.try_cast));
    } else if i == 1 {
        assert(decreases_to!(t => *x.open_paren));
    } else if i == 2 {
        assert(decreases_to!(t => *x.value));
    } else if i == 3 {
        assert(decreases_to!(t => *x.as_));
    } else if i == 4 {
        assert(decreases_to!(t => *x.type_));
    } else {
        assert(decreases_to!(t => *x.close_paren));
    }
}

/// Each child of a `Substring` tree lies strictly within it, and is well formed where the tree is.
proof fn lemma_substring_child<'a>(t: ParseTree<'a>, i: int)
    requires
        t is Substring,
        0 <= i < children_of(t).len(),
    ensures
        decreases_to!(t => children_of(t)[i]),
        tree_wf(t) ==> tree_wf(children_of(t)[i]),
{
    let x = t->Substring_0;
    assert(tree_wf(t) == (tree_wf(*x.substring) && tree_wf(*x.open_paren) && tree_wf(*x.value) && tree_wf(*x.from) && tree_wf(*x.from_value) && tree_wf(*x.for_opt) && tree_wf(*x.for_value) && tree_wf(*x.close_paren))) by {
        reveal_with_fuel(tree_wf, 1);
    }
    assert(children_of(t) == seq![*x.substring, *x.open_paren, *x.value, *x.from, *x.from_value, *x.for_opt, *x.for_value, *x.close_paren]);
    if i == 0 {
        assert(decreases_to!(t => *x.substring));
    } else if i == 1 {
        assert(decreases_to!(t => *x.open_paren));
    } else if i == 2 {
        assert(decreases_to!(t => *x.value));
    } else if i == 3 {
        assert(decreases_to!(t => *x.from));
    } else if i == 4 {
        assert(decreases_to!(t => *x.from_value));
    } else if i == 5 {
        assert(decreases_to!(t => *x.for_opt));
    } else if i == 6 {
        assert(decreases_to!(t => *x.for_value));
    } else {
        assert(decreases_to!(t => *x.close_paren));
    }
}

/// Each child of a `Position` tree lies strictly within it, and is well formed where the tree is.
proof fn lemma_position_child<'a>(t: ParseTree<'a>, i: int)
    requires
        t is Position,
        0 <= i < children_of(t).len(),
    ensures
        decreases_to!(t => children_of(t)[i]),
        tree_wf(t) ==> tree_wf(children_of(t)[i]),
{
    let x = t->Position_0;
    assert(tree_wf(t) == (tree_wf(*x.position) && tree_wf(*x.open_paren) && tree_wf(*x.value) && tree_wf(*x.in_) && tree_wf(*x.target) && tree_wf(*x.close_paren))) by {
        reveal_with_fuel(tree_wf, 1);
    }
    assert(children_of(t) == seq![*x.position, *x.open_paren, *x.value, *x.in_, *x.target, *x.close_paren]);
    if i == 0 {
        assert(decreases_to!(t => *x.position));
    } else if i == 1 {
        assert(decreases_to!(t => *x.open_paren));
    } else if i == 2 {
        assert(decreases_to!(t => *x.value));
    } else if i == 3 {
        assert(decreases_to!(t => *x.in_));
    } else if i == 4 {
        assert(decreases_to!(t => *x.target));
    } else {
        assert(decreases_to!(t => *x.close_paren));
    }
}

/// Each child of a `ArrayTypeSuffix` tree lies strictly within it, and is well formed where the tree is.
proof fn lemma_array_type_suffix_child<'a>(t: ParseTree<'a>, i: int)
    requires
        t is ArrayTypeSuffix,
        0 <= i < children_of(t).len(),
    ensures
        decreases_to!(t => children_of(t)[i]),
        tree_wf(t) ==> tree_wf(children_of(t)[i]),
{
    let x = t->ArrayTypeSuffix_0;
    assert(tree_wf(t) == (tree_wf(*x.base_type) && tree_wf(*x.array))) by {
        reveal_with_fuel(tree_wf, 1);
    }
    assert(children_of(t) == seq![*x.base_type, *x.array]);
    if i == 0 {
        assert(decreases_to!(t => *x.base_type));
    } else {
        assert(decreases_to!(t => *x.array));
    }
}

/// Each child of a `NamedType` tree lies strictly within it, and is well formed where the tree is.
proof fn lemma_named_type_child<'a>(t: ParseTree<'a>, i: int)
    requires
        t is NamedType,
        0 <= i < children_of(t).len(),
    ensures
        decreases_to!(t => children_of(t)[i]),
        tree_wf(t) ==> tree_wf(children_of(t)[i]),
{
    let x = t->NamedType_0;
    assert(tree_wf(t) == (tree_wf(*x.name) && tree_wf(*x.type_parameters))) by {
        reveal_with_fuel(tree_wf, 1);
    }
    assert(children_of(t) == seq![*x.name, *x.type_parameters]);
    if i == 0 {
        assert(decreases_to!(t => *x.name));
    } else {
        assert(decreases_to!(t => *x.type_parameters));
    }
}

/// Each child of a `ArrayType` tree lies strictly within it, and is well formed where the tree is.
proof fn lemma_array_type_child<'a>(t: ParseTree<'a>, i: int)
    requires
        t is ArrayType,
        0 <= i < children_of(t).len(),
    ensures
        decreases_to!(t => children_of(t)[i]),
        tree_wf(t) ==> tree_wf(children_of(t)[i]),
{
    let x = t->ArrayType_0;
    assert(tree_wf(t) == (tree_wf(*x.array) && tree_wf(*x.open_angle) && tree_wf(*x.element_type) && tree_wf(*x.close_angle))) by {
        reveal_with_fuel(tree_wf, 1);
    }
    assert(children_of(t) == seq![*x.array, *x.open_angle, *x.element_type, *x.close_angle]);
    if i == 0 {
        assert(decreases_to!(t => *x.array));
    } else if i == 1 {
        assert(decreases_to!(t => *x.open_angle));
    } else if i == 2 {
        assert(decreases_to!(t => *x.element_type));
    } else {
        assert(decreases_to!(t => *x.close_angle));
    }
}

/// Each child of a `MapType` tree lies strictly within it, and is well formed where the tree is.
proof fn lemma_map_type_child<'a>(t: ParseTree<'a>, i: int)
    requires
        t is MapType,
        0 <= i < children_of(t).len(),
    ensures
        decreases_to!(t => children_of(t)[i]),
        tree_wf(t) ==> tree_wf(children_of(t)[i]),
{
    let x = t->MapType_0;
    assert(tree_wf(t) == (tree_wf(*x.map) && tree_wf(*x.open_angle) && tree_wf(*x.key_type) && tree_wf(*x.comma) && tree_wf(*x.value_type) && tree_wf(*x.close_angle))) by {
        reveal_with_fuel(tree_wf, 1);
    }
    assert(children_of(t) == seq![*x.map, *x.open_angle, *x.key_type, *x.comma, *x.value_type, *x.close_angle]);
    if i == 0 {
        assert(decreases_to!(t => *x.map));
    } else if i == 1 {
        assert(decreases_to!(t => *x.open_angle));
    } else if i == 2 {
        assert(decreases_to!(t => *x.key_type));
    } else if i == 3 {
        assert(decreases_to!(t => *x.comma));
    } else if i == 4 {
        assert(decreases_to!(t => *x.value_type));
    } else {
        assert(decreases_to!(t => *x.close_angle));
    }
}

/// Each child of a `RowType` tree lies strictly within it, and is well formed where the tree is.
proof fn lemma_row_type_child<'a>(t: ParseTree<'a>, i: int)
    requires
        t is RowType,
        0 <= i < children_of(t).len(),
    ensures
        decreases_to!(t => children_of(t)[i]),
        tree_wf(t) ==> tree_wf(children_of(t)[i]),
{
    let x = t->RowType_0;
    assert(tree_wf(t) == (tree_wf(*x.row) && tree_wf(*x.element_types))) by {
        reveal_with_fuel(tree_wf, 1);
    }
    assert(children_of(t) == seq![*x.row, *x.element_types]);
    if i == 0 {
        assert(decreases_to!(t => *x.row));
    } else {
        assert(decreases_to!(t => *x.element_types));
    }
}

/// Each child of a `RowTypeElement` tree lies strictly within it, and is well formed where the tree is.
proof fn lemma_row_type_element_child<'a>(t: ParseTree<'a>, i: int)
    requires
        t is RowTypeElement,
        0 <= i < children_of(t).len(),
    ensures
        decreases_to!(t => children_of(t)[i]),
        tree_wf(t) ==> tree_wf(children_of(t)[i]),
{
    let x = t->RowTypeElement_0;
    assert(tree_wf(t) == (tree_wf(*x.identifier) && tree_wf(*x.type_))) by {
        reveal_with_fuel(tree_wf, 1);
    }
    assert(children_of(t) == seq![*x.identifier, *x.type_]);
    if i == 0 {
        assert(decreases_to!(t => *x.identifier));
    } else {
        assert(decreases_to!(t => *x.type_));
    }
}

/// Each child of a `IntervalType` tree lies strictly within it, and is well formed where the tree is.
proof fn lemma_interval_type_child<'a>(t: ParseTree<'a>, i: int)
    requires
        t is IntervalType,
        0 <= i < children_of(t).len(),
    ensures
        decreases_to!(t => children_of(t)[i]),
        tree_wf(t) ==> tree_wf(children_of(t)[i]),
{
    let x = t->IntervalType_0;
    assert(tree_wf(t) == (tree_wf(*x.interval) && tree_wf(*x.from) && tree_wf(*x.to_kw) && tree_wf(*x.to))) by {
        reveal_with_fuel(tree_wf, 1);
    }
    assert(children_of(t) == seq![*x.interval, *x.from, *x.to_kw, *x.to]);
    if i == 0 {
        assert(decreases_to!(t => *x.interval));
    } else if i == 1 {
        assert(decreases_to!(t => *x.from));
    } else if i == 2 {
        assert(decreases_to!(t => *x.to_kw));
    } else {
        assert(decreases_to!(t => *x.to));
    }
}

/// Each child of a `IfNotExists` tree lies strictly within it, and is well formed where the tree is.
proof fn lemma_if_not_exists_child<'a>(t: ParseTree<'a>, i: int)
    requires
        t is IfNotExists,
        0 <= i < children_of(t).len(),
    ensures
        decreases_to!(t => children_of(t)[i]),
        tree_wf(t) ==> tree_wf(children_of(t)[i]),
{
    let x = t->IfNotExists_0;
    assert(tree_wf(t) == (tree_wf(*x.if_) && tree_wf(*x.not) && tree_wf(*x.exists))) by {
        reveal_with_fuel(tree_wf, 1);
    }
    assert(children_of(t) == seq![*x.if_, *x.not, *x.exists]);
    if i == 0 {
        assert(decreases_to!(t => *x.if_));
    } else if i == 1 {
        assert(decreases_to!(t => *x.not));
    } else {
        assert(decreases_to!(t => *x.exists));
    }
}

/// Each child of a `CreateTable` tree lies strictly within it, and is well formed where the tree is.
proof fn lemma_create_table_child<'a>(t: ParseTree<'a>, i: int)
    requires
        t is CreateTable,
        0 <= i < children_of(t).len(),
    ensures
        decreases_to!(t => children_of(t)[i]),
        tree_wf(t) ==> tree_wf(children_of(t)[i]),
{
    let x = t->CreateTable_0;
    assert(tree_wf(t) == (tree_wf(*x.create) && tree_wf(*x.table) && tree_wf(*x.if_not_exists_opt) && tree_wf(*x.table_name) && tree_wf(*x.table_elements) && tree_wf(*x.comment_opt) && tree_wf(*x.with_properties_opt))) by {
        reveal_with_fuel(tree_wf, 1);
    }
    assert(children_of(t) == seq![*x.create, *x.table, *x.if_not_exists_opt, *x.table_name, *x.table_elements, *x.comment_opt, *x.with_properties_opt]);
    if i == 0 {
        assert(decreases_to!(t => *x.create));
    } else if i == 1 {
        assert(decreases_to!(t => *x.table));
    } else if i == 2 {
        assert(decreases_to!(t => *x.if_not_exists_opt));
    } else if i == 3 {
        assert(decreases_to!(t => *x.table_name));
    } else if i == 4 {
        assert(decreases_to!(t => *x.table_elements));
    } else if i == 5 {
        assert(decreases_to!(t => *x.comment_opt));
    } else {
        assert(decreases_to!(t => *x.with_properties_opt));
    }
}

/// Each child of a `CreateView` tree lies strictly within it, and is well formed where the tree is.
proof fn lemma_create_view_child<'a>(t: ParseTree<'a>, i: int)
    requires
        t is CreateView,
        0 <= i < children_of(t).len(),
    ensures
        decreases_to!(t => children_of(t)[i]),
        tree_wf(t) ==> tree_wf(children_of(t)[i]),
{
    let x = t->CreateView_0;
    assert(tree_wf(t) == (tree_wf(*x.create) && tree_wf(*x.or_opt) && tree_wf(*x.replace_opt) && tree_wf(*x.view) && tree_wf(*x.qualified_name) && tree_wf(*x.as_) && tree_wf(*x.query))) by {
        reveal_with_fuel(tree_wf, 1);
    }
    assert(children_of(t) == seq![*x.create, *x.or_opt, *x.replace_opt, *x.view, *x.qualified_name, *x.as_, *x.query]);
    if i == 0 {
        assert(decreases_to!(t => *x.create));
    } else if i == 1 {
        assert(decreases_to!(t => *x.or_opt));
    } else if i == 2 {
        assert(decreases_to!(t => *x.replace_opt));
    } else if i == 3 {
        assert(decreases_to!(t => *x.view));
    } else if i == 4 {
        assert(decreases_to!(t => *x.qualified_name));
    } else if i == 5 {
        assert(decreases_to!(t => *x.as_));
    } else {
        assert(decreases_to!(t => *x.query));
    }
}

/// Each child of a `CreateRole` tree lies strictly within it, and is well formed where the tree is.
proof fn lemma_create_role_child<'a>(t: ParseTree<'a>, i: int)
    requires
        t is CreateRole,
        0 <= i < children_of(t).len(),
    ensures
        decreases_to!(t => children_of(t)[i]),
        tree_wf(t) ==> tree_wf(children_of(t)[i]),
{
    let x = t->CreateRole_0;
    assert(tree_wf(t) == (tree_wf(*x.create) && tree_wf(*x.role) && tree_wf(*x.name) && tree_wf(*x.with_admin_grantor_opt))) by {
        reveal_with_fuel(tree_wf, 1);
    }
    assert(children_of(t) == seq![*x.create, *x.role, *x.name, *x.with_admin_grantor_opt]);
    if i == 0 {
        assert(decreases_to!(t => *x.create));
    } else if i == 1 {
        assert(decreases_to!(t => *x.role));
    } else if i == 2 {
        assert(decreases_to!(t => *x.name));
    } else {
        assert(decreases_to!(t => *x.with_admin_grantor_opt));
    }
}

/// Each child of a `WithAdminGrantor` tree lies strictly within it, and is well formed where the tree is.
proof fn lemma_with_admin_grantor_child<'a>(t: ParseTree<'a>, i: int)
    requires
        t is WithAdminGrantor,
        0 <= i < children_of(t).len(),
    ensures
        decreases_to!(t => children_of(t)[i]),
        tree_wf(t) ==> tree_wf(children_of(t)[i]),
{
    let x = t->WithAdminGrantor_0;
    assert(tree_wf(t) == (tree_wf(*x.with) && tree_wf(*x.admin) && tree_wf(*x.grantor))) by {
        reveal_with_fuel(tree_wf, 1);
    }
    assert(children_of(t) == seq![*x.with, *x.admin, *x.grantor]);
    if i == 0 {
        assert(decreases_to!(t => *x.with));
    } else if i == 1 {
        assert(decreases_to!(t => *x.admin));
    } else {
        assert(decreases_to!(t => *x.grantor));
    }
}

/// Each child of a `UserPrincipal` tree lies strictly within it, and is well formed where the tree is.
proof fn lemma_user_principal_child<'a>(t: ParseTree<'a>, i: int)
    requires
        t is UserPrincipal,
        0 <= i < children_of(t).len(),
    ensures
        decreases_to!(t => children_of(t)[i]),
        tree_wf(t) ==> tree_wf(children_of(t)[i]),
{
    let x = t->UserPrincipal_0;
    assert(tree_wf(t) == (tree_wf(*x.user) && tree_wf(*x.identifier))) by {
        reveal_with_fuel(tree_wf, 1);
    }
    assert(children_of(t) == seq![*x.user, *x.identifier]);
    if i == 0 {
        assert(decreases_to!(t => *x.user));
    } else {
        assert(decreases_to!(t => *x.identifier));
    }
}

/// Each child of a `RolePrincipal` tree lies strictly within it, and is well formed where the tree is.
proof fn lemma_role_principal_child<'a>(t: ParseTree<'a>, i: int)
    requires
        t is RolePrincipal,
        0 <= i < children_of(t).len(),
    ensures
        decreases_to!(t => children_of(t)[i]),
        tree_wf(t) ==> tree_wf(children_of(t)[i]),
{
    let x = t->RolePrincipal_0;
    assert(tree_wf(t) == (tree_wf(*x.role) && tree_wf(*x.identifier))) by {
        reveal_with_fuel(tree_wf, 1);
    }
    assert(children_of(t) == seq![*x.role, *x.identifier]);
    if i == 0 {
        assert(decreases_to!(t => *x.role));
    } else {
        assert(decreases_to!(t => *x.identifier));
    }
}

/// Each child of a `UnspecifiedPrincipal` tree lies strictly within it, and is well formed where the tree is.
proof fn lemma_unspecified_principal_child<'a>(t: ParseTree<'a>, i: int)
    requires
        t is UnspecifiedPrincipal,
        0 <= i < children_of(t).len(),
    ensures
        decreases_to!(t => children_of(t)[i]),
        tree_wf(t) ==> tree_wf(children_of(t)[i]),
{
    let x = t->UnspecifiedPrincipal_0;
    assert(tree_wf(t) == (tree_wf(*x.identifier))) by {
        reveal_with_fuel(tree_wf, 1);
    }
    assert(children_of(t) == seq![*x.identifier]);
    {
        assert(decreases_to!(t => *x.identifier));
    }
}

/// Each child of a `CreateTableAsSelect` tree lies strictly within it, and is well formed where the tree is.
proof fn lemma_create_table_as_select_child<'a>(t: ParseTree<'a>, i: int)
    requires
        t is CreateTableAsSelect,
        0 <= i < children_of(t).len(),
    ensures
        decreases_to!(t => children_of(t)[i]),
        tree_wf(t) ==> tree_wf(children_of(t)[i]),
{
    let x = t->CreateTableAsSelect_0;
    assert(tree_wf(t) == (tree_wf(*x.create) && tree_wf(*x.table) && tree_wf(*x.if_not_exists_opt) && tree_wf(*x.table_name) && tree_wf(*x.column_aliases_opt) && tree_wf(*x.comment_opt) && tree_wf(*x.with_properties_opt) && tree_wf(*x.as_) && tree_wf(*x.open_paren_opt) && tree_wf(*x.query) && tree_wf(*x.close_paren_opt) && tree_wf(*x.with_data_opt))) by {
        reveal_with_fuel(tree_wf, 1);
    }
    assert(children_of(t) == seq![*x.create, *x.table, *x.if_not_exists_opt, *x.table_name, *x.column_aliases_opt, *x.comment_opt, *x.with_properties_opt, *x.as_, *x.open_paren_opt, *x.query, *x.close_paren_opt, *x.with_data_opt]);
    if i == 0 {
        assert(decreases_to!(t => *x.create));
    } else if i == 1 {
        assert(decreases_to!(t => *x.table));
    } else if i == 2 {
        assert(decreases_to!(t => *x.if_not_exists_opt));
    } else if i == 3 {
        assert(decreases_to!(t => *x.table_name));
    } else if i == 4 {
        assert(decreases_to!(t => *x.column_aliases_opt));
    } else if i == 5 {
        assert(decreases_to!(t => *x.comment_opt));
    } else if i == 6 {
        assert(decreases_to!(t => *x.with_properties_opt));
    } else if i == 7 {
        assert(decreases_to!(t => *x.as_));
    } else if i == 8 {
        assert(decreases_to!(t => *x.open_paren_opt));
    } else if i == 9 {
        assert(decreases_to!(t => *x.query));
    } else if i == 10 {
        assert(decreases_to!(t => *x.close_paren_opt));
    } else {
        assert(decreases_to!(t => *x.with_data_opt));
    }
}

/// Each child of a `WithProperties` tree lies strictly within it, and is well formed where the tree is.
proof fn lemma_with_properties_child<'a>(t: ParseTree<'a>, i: int)
    requires
        t is WithProperties,
        0 <= i < children_of(t).len(),
    ensures
        decreases_to!(t => children_of(t)[i]),
        tree_wf(t) ==> tree_wf(children_of(t)[i]),
{
    let x = t->WithProperties_0;
    assert(tree_wf(t) == (tree_wf(*x.with) && tree_wf(*x.properties))) by {
        reveal_with_fuel(tree_wf, 1);
    }
    assert(children_of(t) == seq![*x.with, *x.properties]);
    if i == 0 {
        assert(decreases_to!(t => *x.with));
    } else {
        assert(decreases_to!(t => *x.properties));
    }
}

/// Each child of a `Property` tree lies strictly within it, and is well formed where the tree is.
proof fn lemma_property_child<'a>(t: ParseTree<'a>, i: int)
    requires
        t is Property,
        0 <= i < children_of(t).len(),
    ensures
        decreases_to!(t => children_of(t)[i]),
        tree_wf(t) ==> tree_wf(children_of(t)[i]),
{
    let x = t->Property_0;
    assert(tree_wf(t) == (tree_wf(*x.identifier) && tree_wf(*x.eq) && tree_wf(*x.value))) by {
        reveal_with_fuel(tree_wf, 1);
    }
    assert(children_of(t) == seq![*x.identifier, *x.eq, *x.value]);
    if i == 0 {
        assert(decreases_to!(t => *x.identifier));
    } else if i == 1 {
        assert(decreases_to!(t => *x.eq));
    } else {
        assert(decreases_to!(t => *x.value));
    }
}

/// Each child of a `WithData` tree lies strictly within it, and is well formed where the tree is.
proof fn lemma_with_data_child<'a>(t: ParseTree<'a>, i: int)
    requires
        t is WithData,
        0 <= i < children_of(t).len(),
    ensures
        decreases_to!(t => children_of(t)[i]),
        tree_wf(t) ==> tree_wf(children_of(t)[i]),
{
    let x = t->WithData_0;
    assert(tree_wf(t) == (tree_wf(*x.with) && tree_wf(*x.no_opt) && tree_wf(*x.data))) by {
        reveal_with_fuel(tree_wf, 1);
    }
    assert(children_of(t) == seq![*x.with, *x.no_opt, *x.data]);
    if i == 0 {
        assert(decreases_to!(t => *x.with));
    } else if i == 1 {
        assert(decreases_to!(t => *x.no_opt));
    } else {
        assert(decreases_to!(t => *x.data));
    }
}

/// Each child of a `Comment` tree lies strictly within it, and is well formed where the tree is.
proof fn lemma_comment_child<'a>(t: ParseTree<'a>, i: int)
    requires
        t is Comment,
        0 <= i < children_of(t).len(),
    ensures
        decreases_to!(t => children_of(t)[i]),
        tree_wf(t) ==> tree_wf(children_of(t)[i]),
{
    let x = t->Comment_0;
    assert(tree_wf(t) == (tree_wf(*x.comment) && tree_wf(*x.value))) by {
        reveal_with_fuel(tree_wf, 1);
    }
    assert(children_of(t) == seq![*x.comment, *x.value]);
    if i == 0 {
        assert(decreases_to!(t => *x.comment));
    } else {
        assert(decreases_to!(t => *x.value));
    }
}

/// Each child of a `ColumnDefinition` tree lies strictly within it, and is well formed where the tree is.
proof fn lemma_column_definition_child<'a>(t: ParseTree<'a>, i: int)
    requires
        t is ColumnDefinition,
        0 <= i < children_of(t).len(),
    ensures
        decreases_to!(t => children_of(t)[i]),
        tree_wf(t) ==> tree_wf(children_of(t)[i]),
{
    let x = t->ColumnDefinition_0;
    assert(tree_wf(t) == (tree_wf(*x.identifier) && tree_wf(*x.type_) && tree_wf(*x.not_null_opt) && tree_wf(*x.comment_opt) && tree_wf(*x.with_properties_opt))) by {
        reveal_with_fuel(tree_wf, 1);
    }
    assert(children_of(t) == seq![*x.identifier, *x.type_, *x.not_null_opt, *x.comment_opt, *x.with_properties_opt]);
    if i == 0 {
        assert(decreases_to!(t => *x.identifier));
    } else if i == 1 {
        assert(decreases_to!(t => *x.type_));
    } else if i == 2 {
        assert(decreases_to!(t => *x.not_null_opt));
    } else if i == 3 {
        assert(decreases_to!(t => *x.comment_opt));
    } else {
        assert(decreases_to!(t => *x.with_properties_opt));
    }
}

/// Each child of a `NotNull` tree lies strictly within it, and is well formed where the tree is.
proof fn lemma_not_null_child<'a>(t: ParseTree<'a>, i: int)
    requires
        t is NotNull,
        0 <= i < children_of(t).len(),
    ensures
        decreases_to!(t => children_of(t)[i]),
        tree_wf(t) ==> tree_wf(children_of(t)[i]),
{
    let x = t->NotNull_0;
    assert(tree_wf(t) == (tree_wf(*x.not) && tree_wf(*x.null))) by {
        reveal_with_fuel(tree_wf, 1);
    }
    assert(children_of(t) == seq![*x.not, *x.null]);
    if i == 0 {
        assert(decreases_to!(t => *x.not));
    } else {
        assert(decreases_to!(t => *x.null));
    }
}

/// Each child of a `LikeClause` tree lies strictly within it, and is well formed where the tree is.
proof fn lemma_like_clause_child<'a>(t: ParseTree<'a>, i: int)
    requires
        t is LikeClause,
        0 <= i < children_of(t).len(),
    ensures
        decreases_to!(t => children_of(t)[i]),
        tree_wf(t) ==> tree_wf(children_of(t)[i]),
{
    let x = t->LikeClause_0;
    assert(tree_wf(t) == (tree_wf(*x.like) && tree_wf(*x.name) && tree_wf(*x.option_type_opt) && tree_wf(*x.properties))) by {
        reveal_with_fuel(tree_wf, 1);
    }
    assert(children_of(t) == seq![*x.like, *x.name, *x.option_type_opt, *x.properties]);
    if i == 0 {
        assert(decreases_to!(t => *x.like));
    } else if i == 1 {
        assert(decreases_to!(t => *x.name));
    } else if i == 2 {
        assert(decreases_to!(t => *x.option_type_opt));
    } else {
        assert(decreases_to!(t => *x.properties));
    }
}

/// Each child of a `InsertInto` tree lies strictly within it, and is well formed where the tree is.
proof fn lemma_insert_into_child<'a>(t: ParseTree<'a>, i: int)
    requires
        t is InsertInto,
        0 <= i < children_of(t).len(),
    ensures
        decreases_to!(t => children_of(t)[i]),
        tree_wf(t) ==> tree_wf(children_of(t)[i]),
{
    let x = t->InsertInto_0;
    assert(tree_wf(t) == (tree_wf(*x.insert) && tree_wf(*x.into) && tree_wf(*x.table_name) && tree_wf(*x.column_aliases_opt) && tree_wf(*x.query))) by {
        reveal_with_fuel(tree_wf, 1);
    }
    assert(children_of(t) == seq![*x.insert, *x.into, *x.table_name, *x.column_aliases_opt, *x.query]);
    if i == 0 {
        assert(decreases_to!(t => *x.insert));
    } else if i == 1 {
        assert(decreases_to!(t => *x.into));
    } else if i == 2 {
        assert(decreases_to!(t => *x.table_name));
    } else if i == 3 {
        assert(decreases_to!(t => *x.column_aliases_opt));
    } else {
        assert(decreases_to!(t => *x.query));
    }
}

/// Each child of a `Delete` tree lies strictly within it, and is well formed where the tree is.
proof fn lemma_delete_child<'a>(t: ParseTree<'a>, i: int)
    requires
        t is Delete,
        0 <= i < children_of(t).len(),
    ensures
        decreases_to!(t => children_of(t)[i]),
        tree_wf(t) ==> tree_wf(children_of(t)[i]),
{
    let x = t->Delete_0;
    assert(tree_wf(t) == (tree_wf(*x.delete) && tree_wf(*x.from) && tree_wf(*x.table_name) && tree_wf(*x.where_opt) && tree_wf(*x.predicate))) by {
        reveal_with_fuel(tree_wf, 1);
    }
    assert(children_of(t) == seq![*x.delete, *x.from, *x.table_name, *x.where_opt, *x.predicate]);
    if i == 0 {
        assert(decreases_to!(t => *x.delete));
    } else if i == 1 {
        assert(decreases_to!(t => *x.from));
    } else if i == 2 {
        assert(decreases_to!(t => *x.table_name));
    } else if i == 3 {
        assert(decreases_to!(t => *x.where_opt));
    } else {
        assert(decreases_to!(t => *x.predicate));
    }
}

/// Each child of a `GroupingSet` tree lies strictly within it, and is well formed where the tree is.
proof fn lemma_grouping_set_child<'a>(t: ParseTree<'a>, i: int)
    requires
        t is GroupingSet,
        0 <= i < children_of(t).len(),
    ensures
        decreases_to!(t => children_of(t)[i]),
        tree_wf(t) ==> tree_wf(children_of(t)[i]),
{
    let x = t->GroupingSet_0;
    assert(tree_wf(t) == (tree_wf(*x.elements))) by {
        reveal_with_fuel(tree_wf, 1);
    }
    assert(children_of(t) == seq![*x.elements]);
    {
        assert(decreases_to!(t => *x.elements));
    }
}

/// Each child of a `RelationOrQuery` tree lies strictly within it, and is well formed where the tree is.
proof fn lemma_relation_or_query_child<'a>(t: ParseTree<'a>, i: int)
    requires
        t is RelationOrQuery,
        0 <= i < children_of(t).len(),
    ensures
        decreases_to!(t => children_of(t)[i]),
        tree_wf(t) ==> tree_wf(children_of(t)[i]),
{
    let x = t->RelationOrQuery_0;
    assert(tree_wf(t) == (tree_wf(*x.open_paren) && tree_wf(*x.query_or_relation) && tree_wf(*x.close_paren))) by {
        reveal_with_fuel(tree_wf, 1);
    }
    assert(children_of(t) == seq![*x.open_paren, *x.query_or_relation, *x.close_paren]);
    if i == 0 {
        assert(decreases_to!(t => *x.open_paren));
    } else if i == 1 {
        assert(decreases_to!(t => *x.query_or_relation));
    } else {
        assert(decreases_to!(t => *x.close_paren));
    }
}

/// Each child of a `EmptyGroupingSet` tree lies strictly within it, and is well formed where the tree is.
proof fn lemma_empty_grouping_set_child<'a>(t: ParseTree<'a>, i: int)
    requires
        t is EmptyGroupingSet,
        0 <= i < children_of(t).len(),
    ensures
        decreases_to!(t => children_of(t)[i]),
        tree_wf(t) ==> tree_wf(children_of(t)[i]),
{
    let x = t->EmptyGroupingSet_0;
    assert(tree_wf(t) == (tree_wf(*x.open_paren) && tree_wf(*x.close_paren))) by {
        reveal_with_fuel(tree_wf, 1);
    }
    assert(children_of(t) == seq![*x.open_paren, *x.close_paren]);
    if i == 0 {
        assert(decreases_to!(t => *x.open_paren));
    } else {
        assert(decreases_to!(t => *x.close_paren));
    }
}

/// Each child of a `ExpressionOrQuery` tree lies strictly within it, and is well formed where the tree is.
proof fn lemma_expression_or_query_child<'a>(t: ParseTree<'a>, i: int)
    requires
        t is ExpressionOrQuery,
        0 <= i < children_of(t).len(),
    ensures
        decreases_to!(t => children_of(t)[i]),
        tree_wf(t) ==> tree_wf(children_of(t)[i]),
{
    let x = t->ExpressionOrQuery_0;
    assert(tree_wf(t) == (tree_wf(*x.open_paren) && tree_wf(*x.expression_or_query) && tree_wf(*x.close_paren))) by {
        reveal_with_fuel(tree_wf, 1);
    }
    assert(children_of(t) == seq![*x.open_paren, *x.expression_or_query, *x.close_paren]);
    if i == 0 {
        assert(decreases_to!(t => *x.open_paren));
    } else if i == 1 {
        assert(decreases_to!(t => *x.expression_or_query));
    } else {
        assert(decreases_to!(t => *x.close_paren));
    }
}

/// Each child of a `Entrypoint` tree lies strictly within it, and is well formed where the tree is.
proof fn lemma_entrypoint_child<'a>(t: ParseTree<'a>, i: int)
    requires
        t is Entrypoint,
        0 <= i < children_of(t).len(),
    ensures
        decreases_to!(t => children_of(t)[i]),
        tree_wf(t) ==> tree_wf(children_of(t)[i]),
{
    let x = t->Entrypoint_0;
    assert(tree_wf(t) == (tree_wf(*x.beginning_of_file) && tree_wf(*x.tree) && tree_wf(*x.end_of_file))) by {
        reveal_with_fuel(tree_wf, 1);
    }
    assert(children_of(t) == seq![*x.beginning_of_file, *x.tree, *x.end_of_file]);
    if i == 0 {
        assert(decreases_to!(t => *x.beginning_of_file));
    } else if i == 1 {
        assert(decreases_to!(t => *x.tree));
    } else {
        assert(decreases_to!(t => *x.end_of_file));
    }
}

/// Each child of a `NullTreatment` tree lies strictly within it, and is well formed where the tree is.
proof fn lemma_null_treatment_child<'a>(t: ParseTree<'a>, i: int)
    requires
        t is NullTreatment,
        0 <= i < children_of(t).len(),
    ensures
        decreases_to!(t => children_of(t)[i]),
        tree_wf(t) ==> tree_wf(children_of(t)[i]),
{
    let x = t->NullTreatment_0;
    assert(tree_wf(t) == (tree_wf(*x.treatment) && tree_wf(*x.nulls))) by {
        reveal_with_fuel(tree_wf, 1);
    }
    assert(children_of(t) == seq![*x.treatment, *x.nulls]);
    if i == 0 {
        assert(decreases_to!(t => *x.treatment));
    } else {
        assert(decreases_to!(t => *x.nulls));
    }
}

/// The subtrees of `t`, `t` included, in pre-order: each tree before its children, the
/// children in source order.
pub open spec fn pre_order<'a>(t: ParseTree<'a>) -> Seq<ParseTree<'a>>
    decreases t, 1nat, 0nat,
{
    seq![t] + children_pre_order(t, children_of(t).len())
}

/// The pre-order walks of the first `n` children of `t`, one after the other.
pub open spec fn children_pre_order<'a>(t: ParseTree<'a>, n: nat) -> Seq<ParseTree<'a>>
    decreases t, 0nat, n,
{
    if n == 0 || n > children_of(t).len() {
        Seq::empty()
    } else {
        proof {
            lemma_child_decreases(t, n - 1);
        }
        children_pre_order(t, (n - 1) as nat) + pre_order(children_of(t)[n - 1])
    }
}

/// The subtrees of `t`, `t` included, in post-order: each tree after its children, the
/// children in source order.
pub open spec fn post_order<'a>(t: ParseTree<'a>) -> Seq<ParseTree<'a>>
    decreases t, 1nat, 0nat,
{
    children_post_order(t, children_of(t).len()) + seq![t]
}

/// The post-order walks of the first `n` children of `t`, one after the other.
pub open spec fn children_post_order<'a>(t: ParseTree<'a>, n: nat) -> Seq<ParseTree<'a>>
    decreases t, 0nat, n,
{
    if n == 0 || n > children_of(t).len() {
        Seq::empty()
    } else {
        proof {
            lemma_child_decreases(t, n - 1);
        }
        children_post_order(t, (n - 1) as nat) + post_order(children_of(t)[n - 1])
    }
}

/// The errors a tree holds itself: those of its token, or the error it stands for.
pub open spec fn own_errors<'a>(t: ParseTree<'a>) -> Seq<SyntaxError> {
    match t {
        ParseTree::Token(x) => x.token.errors@,
        ParseTree::Error(x) => seq![x.error],
        _ => Seq::empty(),
    }
}

/// The errors the trees of `ts` hold themselves, tree after tree.
pub open spec fn errors_in<'a>(ts: Seq<ParseTree<'a>>) -> Seq<SyntaxError>
    decreases ts.len(),
{
    if ts.len() == 0 {
        Seq::empty()
    } else {
        errors_in(ts.drop_last()) + own_errors(ts.last())
    }
}

/// The errors within a tree, met in post-order.
pub open spec fn errors_of<'a>(t: ParseTree<'a>) -> Seq<SyntaxError> {
    errors_in(post_order(t))
}

/// Every subtree of a well formed tree is well formed.
pub proof fn lemma_post_order_wf<'a>(t: ParseTree<'a>)
    requires
        tree_wf(t),
    ensures
        forall|k: int| 0 <= k < post_order(t).len() ==> tree_wf(#[trigger] post_order(t)[k]),
    decreases t, 1nat, 0nat,
{
    let a = children_post_order(t, children_of(t).len());
    lemma_children_post_order_wf(t, children_of(t).len());
    assert forall|k: int| 0 <= k < (a + seq![t]).len() implies tree_wf(#[trigger] (a + seq![t])[k]) by {
        if k < a.len() {
            assert((a + seq![t])[k] == a[k]);
        }
    }
}

/// Every subtree of the first `n` children of a well formed tree is well formed.
pub proof fn lemma_children_post_order_wf<'a>(t: ParseTree<'a>, n: nat)
    requires
        tree_wf(t),
    ensures
        forall|k: int|
            0 <= k < children_post_order(t, n).len() ==> tree_wf(
                #[trigger] children_post_order(t, n)[k],
            ),
    decreases t, 0nat, n,
{
    if n > 0 && n <= children_of(t).len() {
        let child = children_of(t)[n - 1];
        lemma_child_decreases(t, n - 1);
        lemma_children_post_order_wf(t, (n - 1) as nat);
        lemma_post_order_wf(child);
        let a = children_post_order(t, (n - 1) as nat);
        let b = post_order(child);
        assert(children_post_order(t, n) == a + b);
        assert forall|k: int| 0 <= k < (a + b).len() implies tree_wf(#[trigger] (a + b)[k]) by {
            if k < a.len() {
                assert((a + b)[k] == a[k]);
            } else {
                assert((a + b)[k] == b[k - a.len()]);
            }
        }
    }
}

/// Appends the subtrees of `tree`, `tree` included, in pre-order.
pub fn collect_pre_order<'a>(tree: &'a ParseTree<'a>, out: &mut Vec<&'a ParseTree<'a>>)
    ensures
        deref_seq(final(out)@) == deref_seq(old(out)@) + pre_order(*tree),
    decreases *tree,
{
    let ghost start = deref_seq(out@);
    out.push(tree);
    assert(deref_seq(out@) =~= start + seq![*tree]);
    let children = tree.children();
    let mut i: usize = 0;
    while i < children.len()
        invariant
            0 <= i <= children.len(),
            deref_seq(children@) == children_of(*tree),
            deref_seq(out@) == start + seq![*tree] + children_pre_order(*tree, i as nat),
        decreases children.len() - i,
    {
        proof {
            lemma_child_decreases(*tree, i as int);
            assert(*children@[i as int] == children_of(*tree)[i as int]);
        }
        collect_pre_order(children[i], out);
        i += 1;
        assert(children_pre_order(*tree, i as nat) == children_pre_order(*tree, (i - 1) as nat)
            + pre_order(children_of(*tree)[i - 1]));
    }
    assert(deref_seq(out@) =~= start + pre_order(*tree));
}

/// Appends the subtrees of `tree`, `tree` included, in post-order.
pub fn collect_post_order<'a>(tree: &'a ParseTree<'a>, out: &mut Vec<&'a ParseTree<'a>>)
    ensures
        deref_seq(final(out)@) == deref_seq(old(out)@) + post_order(*tree),
    decreases *tree,
{
    let ghost start = deref_seq(out@);
    let children = tree.children();
    let mut i: usize = 0;
    while i < children.len()
        invariant
            0 <= i <= children.len(),
            deref_seq(children@) == children_of(*tree),
            deref_seq(out@) == start + children_post_order(*tree, i as nat),
        decreases children.len() - i,
    {
        proof {
            lemma_child_decreases(*tree, i as int);
            assert(*children@[i as int] == children_of(*tree)[i as int]);
        }
        collect_post_order(children[i], out);
        i += 1;
        assert(children_post_order(*tree, i as nat) == children_post_order(*tree, (i - 1) as nat)
            + post_order(children_of(*tree)[i - 1]));
    }
    let ghost before = deref_seq(out@);
    out.push(tree);
    assert(deref_seq(out@) =~= before + seq![*tree]);
    assert(deref_seq(out@) =~= start + post_order(*tree));
}

} // verus!
