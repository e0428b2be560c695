//! A parse that reports no error keeps every token it read.
use super::parse_tree::{children_of, is_leaf, lossless, pair_children, pairs_lossless, ParseTree};
use super::tree_walk::{
    children_post_order, errors_in, errors_of, lemma_child_decreases, lemma_pair_children_index,
    lemma_pair_children_len, own_errors, post_order,
};
use vstd::prelude::*;

verus! {

/// The errors of two walks, one after the other.
proof fn lemma_errors_in_append<'a>(a: Seq<ParseTree<'a>>, b: Seq<ParseTree<'a>>)
    ensures
        errors_in(a + b) == errors_in(a) + errors_in(b),
    decreases b.len(),
{
    if b.len() == 0 {
        assert(a + b =~= a);
        assert(errors_in(a) + errors_in(b) =~= errors_in(a));
    } else {
        lemma_errors_in_append(a, b.drop_last());
        assert((a + b).drop_last() =~= a + b.drop_last());
        assert((a + b).last() == b.last());
        assert(errors_in(a) + errors_in(b) =~= errors_in(a) + errors_in(b.drop_last()) + own_errors(
            b.last(),
        ));
    }
}

/// The trees of a list's elements and separators are lossless when each of them is.
proof fn lemma_pairs_lossless<'a>(ps: Seq<(ParseTree<'a>, ParseTree<'a>)>)
    requires
        forall|k: int| 0 <= k < pair_children(ps).len() ==> lossless(#[trigger] pair_children(ps)[k]),
    ensures
        pairs_lossless(ps),
    decreases ps.len(),
{
    reveal_with_fuel(lossless, 2);
    if ps.len() > 0 {
        let prefix = ps.drop_last();
        lemma_pair_children_len(ps);
        lemma_pair_children_len(prefix);
        assert forall|k: int| 0 <= k < pair_children(prefix).len() implies lossless(
            #[trigger] pair_children(prefix)[k],
        ) by {
            lemma_pair_children_index(prefix, k);
            lemma_pair_children_index(ps, k);
            assert(prefix[k / 2] == ps[k / 2]);
            assert(lossless(pair_children(ps)[k]));
        }
        lemma_pairs_lossless(prefix);
        let n = 2 * ps.len() - 2;
        lemma_pair_children_index(ps, n);
        lemma_pair_children_index(ps, n + 1);
        assert(n / 2 == ps.len() - 1 && n % 2 == 0);
        assert((n + 1) / 2 == ps.len() - 1 && (n + 1) % 2 == 1);
        assert(ps.last() == ps[ps.len() - 1]);
        assert(lossless(pair_children(ps)[n]));
        assert(lossless(pair_children(ps)[n + 1]));
        assert(lossless(ps.last().0) && lossless(ps.last().1));
    }
}

/// A tree whose children are all lossless is lossless.
#[verifier::spinoff_prover]
#[verifier::rlimit(100)]
proof fn lemma_lossless_children<'a>(t: ParseTree<'a>)
    requires
        !is_leaf(t),
        forall|k: int| 0 <= k < children_of(t).len() ==> lossless(#[trigger] children_of(t)[k]),
    ensures
        lossless(t),
{
    reveal_with_fuel(lossless, 1);
    match t {
        ParseTree::Empty(_) => {},
        ParseTree::Token(_) => {},
        ParseTree::Error(_) => {},
        ParseTree::List(x) => {
            let ps = x.elements_and_separators@;
            let cs = children_of(t);
            lemma_pair_children_len(ps);
            assert(lossless(cs[0]));
            assert(lossless(cs[cs.len() - 1]));
            assert forall|k: int| 0 <= k < pair_children(ps).len() implies lossless(
                #[trigger] pair_children(ps)[k],
            ) by {
                assert(pair_children(ps)[k] == cs[k + 1]);
            }
            lemma_pairs_lossless(ps);
        },
        ParseTree::Query(x) => {
            assert(lossless(children_of(t)[0]));
            assert(lossless(children_of(t)[1]));
        },
        ParseTree::With(x) => {
            assert(lossless(children_of(t)[0]));
            assert(lossless(children_of(t)[1]));
            assert(lossless(children_of(t)[2]));
        },
        ParseTree::NamedQuery(x) => {
            assert(lossless(children_of(t)[0]));
            assert(lossless(children_of(t)[1]));
            assert(lossless(children_of(t)[2]));
            assert(lossless(children_of(t)[3]));
            assert(lossless(children_of(t)[4]));
            assert(lossless(children_of(t)[5]));
        },
        ParseTree::QueryNoWith(x) => {
            assert(lossless(children_of(t)[0]));
            assert(lossless(children_of(t)[1]));
            assert(lossless(children_of(t)[2]));
        },
        ParseTree::OrderBy(x) => {
            assert(lossless(children_of(t)[0]));
            assert(lossless(children_of(t)[1]));
            assert(lossless(children_of(t)[2]));
        },
        ParseTree::Limit(x) => {
            assert(lossless(children_of(t)[0]));
            assert(lossless(children_of(t)[1]));
        },
        ParseTree::QuerySetOperation(x) => {
            assert(lossless(children_of(t)[0]));
            assert(lossless(children_of(t)[1]));
            assert(lossless(children_of(t)[2]));
            assert(lossless(children_of(t)[3]));
        },
        ParseTree::SortItem(x) => {
            assert(lossless(children_of(t)[0]));
            assert(lossless(children_of(t)[1]));
            assert(lossless(children_of(t)[2]));
            assert(lossless(children_of(t)[3]));
        },
        ParseTree::Subquery(x) => {
            assert(lossless(children_of(t)[0]));
            assert(lossless(children_of(t)[1]));
            assert(lossless(children_of(t)[2]));
        },
        ParseTree::InlineTable(x) => {
            assert(lossless(children_of(t)[0]));
            assert(lossless(children_of(t)[1]));
        },
        ParseTree::Table(x) => {
            assert(lossless(children_of(t)[0]));
            assert(lossless(children_of(t)[1]));
        },
        ParseTree::QuerySpecification(x) => {
            assert(lossless(children_of(t)[0]));
            assert(lossless(children_of(t)[1]));
            assert(lossless(children_of(t)[2]));
            assert(lossless(children_of(t)[3]));
            assert(lossless(children_of(t)[4]));
            assert(lossless(children_of(t)[5]));
            assert(lossless(children_of(t)[6]));
            assert(lossless(children_of(t)[7]));
            assert(lossless(children_of(t)[8]));
            assert(lossless(children_of(t)[9]));
            assert(lossless(children_of(t)[10]));
            assert(lossless(children_of(t)[11]));
        },
        ParseTree::QualifiedName(x) => {
            assert(lossless(children_of(t)[0]));
        },
        ParseTree::SelectAll(x) => {
            assert(lossless(children_of(t)[0]));
        },
        ParseTree::QualifiedSelectAll(x) => {
            assert(lossless(children_of(t)[0]));
            assert(lossless(children_of(t)[1]));
            assert(lossless(children_of(t)[2]));
        },
        ParseTree::SelectItem(x) => {
            assert(lossless(children_of(t)[0]));
            assert(lossless(children_of(t)[1]));
            assert(lossless(children_of(t)[2]));
        },
        ParseTree::SubqueryRelation(x) => {
            assert(lossless(children_of(t)[0]));
            assert(lossless(children_of(t)[1]));
            assert(lossless(children_of(t)[2]));
        },
        ParseTree::ParenthesizedRelation(x) => {
            assert(lossless(children_of(t)[0]));
            assert(lossless(children_of(t)[1]));
            assert(lossless(children_of(t)[2]));
        },
        ParseTree::TableName(x) => {
            assert(lossless(children_of(t)[0]));
        },
        ParseTree::Lateral(x) => {
            assert(lossless(children_of(t)[0]));
            assert(lossless(children_of(t)[1]));
            assert(lossless(children_of(t)[2]));
            assert(lossless(children_of(t)[3]));
        },
        ParseTree::Unnest(x) => {
            assert(lossless(children_of(t)[0]));
            assert(lossless(children_of(t)[1]));
            assert(lossless(children_of(t)[2]));
            assert(lossless(children_of(t)[3]));
        },
        ParseTree::SampledRelation(x) => {
            assert(lossless(children_of(t)[0]));
            assert(lossless(children_of(t)[1]));
            assert(lossless(children_of(t)[2]));
            assert(lossless(children_of(t)[3]));
            assert(lossless(children_of(t)[4]));
            assert(lossless(children_of(t)[5]));
        },
        ParseTree::AliasedRelation(x) => {
            assert(lossless(children_of(t)[0]));
            assert(lossless(children_of(t)[1]));
            assert(lossless(children_of(t)[2]));
            assert(lossless(children_of(t)[3]));
        },
        ParseTree::CrossJoin(x) => {
            assert(lossless(children_of(t)[0]));
            assert(lossless(children_of(t)[1]));
            assert(lossless(children_of(t)[2]));
            assert(lossless(children_of(t)[3]));
        },
        ParseTree::Join(x) => {
            assert(lossless(children_of(t)[0]));
            assert(lossless(children_of(t)[1]));
            assert(lossless(children_of(t)[2]));
            assert(lossless(children_of(t)[3]));
            assert(lossless(children_of(t)[4]));
        },
        ParseTree::NaturalJoin(x) => {
            assert(lossless(children_of(t)[0]));
            assert(lossless(children_of(t)[1]));
            assert(lossless(children_of(t)[2]));
            assert(lossless(children_of(t)[3]));
            assert(lossless(children_of(t)[4]));
        },
        ParseTree::OuterJoinKind(x) => {
            assert(lossless(children_of(t)[0]));
            assert(lossless(children_of(t)[1]));
        },
        ParseTree::OnJoinCriteria(x) => {
            assert(lossless(children_of(t)[0]));
            assert(lossless(children_of(t)[1]));
        },
        ParseTree::UsingJoinCriteria(x) => {
            assert(lossless(children_of(t)[0]));
            assert(lossless(children_of(t)[1]));
        },
        ParseTree::GroupBy(x) => {
            assert(lossless(children_of(t)[0]));
            assert(lossless(children_of(t)[1]));
        },
        ParseTree::Rollup(x) => {
            assert(lossless(children_of(t)[0]));
            assert(lossless(children_of(t)[1]));
        },
        ParseTree::Cube(x) => {
            assert(lossless(children_of(t)[0]));
            assert(lossless(children_of(t)[1]));
        },
        ParseTree::GroupingSets(x) => {
            assert(lossless(children_of(t)[0]));
            assert(lossless(children_of(t)[1]));
            assert(lossless(children_of(t)[2]));
        },
        ParseTree::BinaryExpression(x) => {
            assert(lossless(children_of(t)[0]));
            assert(lossless(children_of(t)[1]));
            assert(lossless(children_of(t)[2]));
        },
        ParseTree::UnaryExpression(x) => {
            assert(lossless(children_of(t)[0]));
            assert(lossless(children_of(t)[1]));
        },
        ParseTree::QuantifiedComparison(x) => {
            assert(lossless(children_of(t)[0]));
            assert(lossless(children_of(t)[1]));
            assert(lossless(children_of(t)[2]));
            assert(lossless(children_of(t)[3]));
            assert(lossless(children_of(t)[4]));
            assert(lossless(children_of(t)[5]));
        },
        ParseTree::NullPredicate(x) => {
            assert(lossless(children_of(t)[0]));
            assert(lossless(children_of(t)[1]));
            assert(lossless(children_of(t)[2]));
            assert(lossless(children_of(t)[3]));
        },
        ParseTree::DistinctFrom(x) => {
            assert(lossless(children_of(t)[0]));
            assert(lossless(children_of(t)[1]));
            assert(lossless(children_of(t)[2]));
            assert(lossless(children_of(t)[3]));
            assert(lossless(children_of(t)[4]));
            assert(lossless(children_of(t)[5]));
        },
        ParseTree::Between(x) => {
            assert(lossless(children_of(t)[0]));
            assert(lossless(children_of(t)[1]));
            assert(lossless(children_of(t)[2]));
            assert(lossless(children_of(t)[3]));
            assert(lossless(children_of(t)[4]));
            assert(lossless(children_of(t)[5]));
        },
        ParseTree::Like(x) => {
            assert(lossless(children_of(t)[0]));
            assert(lossless(children_of(t)[1]));
            assert(lossless(children_of(t)[2]));
            assert(lossless(children_of(t)[3]));
            assert(lossless(children_of(t)[4]));
            assert(lossless(children_of(t)[5]));
        },
        ParseTree::InSubquery(x) => {
            assert(lossless(children_of(t)[0]));
            assert(lossless(children_of(t)[1]));
            assert(lossless(children_of(t)[2]));
            assert(lossless(children_of(t)[3]));
            assert(lossless(children_of(t)[4]));
            assert(lossless(children_of(t)[5]));
        },
        ParseTree::InList(x) => {
            assert(lossless(children_of(t)[0]));
            assert(lossless(children_of(t)[1]));
            assert(lossless(children_of(t)[2]));
            assert(lossless(children_of(t)[3]));
        },
        ParseTree::AtTimeZone(x) => {
            assert(lossless(children_of(t)[0]));
            assert(lossless(children_of(t)[1]));
            assert(lossless(children_of(t)[2]));
            assert(lossless(children_of(t)[3]));
            assert(lossless(children_of(t)[4]));
        },
        ParseTree::Dereference(x) => {
            assert(lossless(children_of(t)[0]));
            assert(lossless(children_of(t)[1]));
            assert(lossless(children_of(t)[2]));
        },
        ParseTree::Subscript(x) => {
            assert(lossless(children_of(t)[0]));
            assert(lossless(children_of(t)[1]));
            assert(lossless(children_of(t)[2]));
            assert(lossless(children_of(t)[3]));
        },
        ParseTree::Lambda(x) => {
            assert(lossless(children_of(t)[0]));
            assert(lossless(children_of(t)[1]));
            assert(lossless(children_of(t)[2]));
        },
        ParseTree::Literal(x) => {
            assert(lossless(children_of(t)[0]));
        },
        ParseTree::RowConstructor(x) => {
            assert(lossless(children_of(t)[0]));
        },
        ParseTree::ParenthesizedExpression(x) => {
            assert(lossless(children_of(t)[0]));
            assert(lossless(children_of(t)[1]));
            assert(lossless(children_of(t)[2]));
        },
        ParseTree::Identifier(x) => {
            assert(lossless(children_of(t)[0]));
        },
        ParseTree::FunctionCall(x) => {
            assert(lossless(children_of(t)[0]));
            assert(lossless(children_of(t)[1]));
            assert(lossless(children_of(t)[2]));
            assert(lossless(children_of(t)[3]));
            assert(lossless(children_of(t)[4]));
            assert(lossless(children_of(t)[5]));
            assert(lossless(children_of(t)[6]));
            assert(lossless(children_of(t)[7]));
            assert(lossless(children_of(t)[8]));
        },
        ParseTree::Filter(x) => {
            assert(lossless(children_of(t)[0]));
            assert(lossless(children_of(t)[1]));
            assert(lossless(children_of(t)[2]));
            assert(lossless(children_of(t)[3]));
            assert(lossless(children_of(t)[4]));
        },
        ParseTree::Over(x) => {
            assert(lossless(children_of(t)[0]));
            assert(lossless(children_of(t)[1]));
            assert(lossless(children_of(t)[2]));
            assert(lossless(children_of(t)[3]));
            assert(lossless(children_of(t)[4]));
            assert(lossless(children_of(t)[5]));
            assert(lossless(children_of(t)[6]));
            assert(lossless(children_of(t)[7]));
        },
        ParseTree::WindowFrame(x) => {
            assert(lossless(children_of(t)[0]));
            assert(lossless(children_of(t)[1]));
            assert(lossless(children_of(t)[2]));
            assert(lossless(children_of(t)[3]));
            assert(lossless(children_of(t)[4]));
        },
        ParseTree::UnboundedFrame(x) => {
            assert(lossless(children_of(t)[0]));
            assert(lossless(children_of(t)[1]));
        },
        ParseTree::CurrentRowBound(x) => {
            assert(lossless(children_of(t)[0]));
            assert(lossless(children_of(t)[1]));
        },
        ParseTree::BoundedFrame(x) => {
            assert(lossless(children_of(t)[0]));
            assert(lossless(children_of(t)[1]));
        },
        ParseTree::UnicodeString(x) => {
            assert(lossless(children_of(t)[0]));
            assert(lossless(children_of(t)[1]));
            assert(lossless(children_of(t)[2]));
        },
        ParseTree::ConfigureExpression(x) => {
            assert(lossless(children_of(t)[0]));
            assert(lossless(children_of(t)[1]));
            assert(lossless(children_of(t)[2]));
            assert(lossless(children_of(t)[3]));
            assert(lossless(children_of(t)[4]));
            assert(lossless(children_of(t)[5]));
        },
        ParseTree::SubqueryExpression(x) => {
            assert(lossless(children_of(t)[0]));
            assert(lossless(children_of(t)[1]));
            assert(lossless(children_of(t)[2]));
        },
        ParseTree::Grouping(x) => {
            assert(lossless(children_of(t)[0]));
            assert(lossless(children_of(t)[1]));
        },
        ParseTree::Extract(x) => {
            assert(lossless(children_of(t)[0]));
            assert(lossless(children_of(t)[1]));
            assert(lossless(children_of(t)[2]));
            assert(lossless(children_of(t)[3]));
            assert(lossless(children_of(t)[4]));
            assert(lossless(children_of(t)[5]));
        },
        ParseTree::CurrentTime(x) => {
            assert(lossless(children_of(t)[0]));
            assert(lossless(children_of(t)[1]));
            assert(lossless(children_of(t)[2]));
            assert(lossless(children_of(t)[3]));
        },
        ParseTree::CurrentTimestamp(x) => {
            assert(lossless(children_of(t)[0]));
            assert(lossless(children_of(t)[1]));
            assert(lossless(children_of(t)[2]));
            assert(lossless(children_of(t)[3]));
        },
        ParseTree::Normalize(x) => {
            assert(lossless(children_of(t)[0]));
            assert(lossless(children_of(t)[1]));
            assert(lossless(children_of(t)[2]));
            assert(lossless(children_of(t)[3]));
            assert(lossless(children_of(t)[4]));
            assert(lossless(children_of(t)[5]));
        },
        ParseTree::Localtime(x) => {
            assert(lossless(children_of(t)[0]));
            assert(lossless(children_of(t)[1]));
            assert(lossless(children_of(t)[2]));
            assert(lossless(children_of(t)[3]));
        },
        ParseTree::Localtimestamp(x) => {
            assert(lossless(children_of(t)[0]));
            assert(lossless(children_of(t)[1]));
            assert(lossless(children_of(t)[2]));
            assert(lossless(children_of(t)[3]));
        },
        ParseTree::Cast(x) => {
            assert(lossless(children_of(t)[0]));
            assert(lossless(children_of(t)[1]));
            assert(lossless(children_of(t)[2]));
            assert(lossless(children_of(t)[3]));
            assert(lossless(children_of(t)[4]));
            assert(lossless(children_of(t)[5]));
        },
        ParseTree::WhenClause(x) => {
            assert(lossless(children_of(t)[0]));
            assert(lossless(children_of(t)[1]));
            assert(lossless(children_of(t)[2]));
            assert(lossless(children_of(t)[3]));
        },
        ParseTree::Case(x) => {
            assert(lossless(children_of(t)[0]));
            assert(lossless(children_of(t)[1]));
            assert(lossless(children_of(t)[2]));
            assert(lossless(children_of(t)[3]));
            assert(lossless(children_of(t)[4]));
            assert(lossless(children_of(t)[5]));
        },
        ParseTree::Exists(x) => {
            assert(lossless(children_of(t)[0]));
            assert(lossless(children_of(t)[1]));
            assert(lossless(children_of(t)[2]));
            assert(lossless(children_of(t)[3]));
        },
        ParseTree::TypeConstructor(x) => {
            assert(lossless(children_of(t)[0]));
            assert(lossless(children_of(t)[1]));
        },
        ParseTree::Array(x) => {
            assert(lossless(children_of(t)[0]));
            assert(lossless(children_of(t)[1]));
        },
        ParseTree::Interval(x) => {
            assert(lossless(children_of(t)[0]));
            assert(lossless(children_of(t)[1]));
            assert(lossless(children_of(t)[2]));
            assert(lossless(children_of(t)[3]));
            assert(lossless(children_of(t)[4]));
            assert(lossless(children_of(t)[5]));
        },
        ParseTree::Row(x) => {
            assert(lossless(children_of(t)[0]));
            assert(lossless(children_of(t)[1]));
        },
        ParseTree::TryCast(x) => {
            assert(lossless(children_of(t)[0]));
            assert(lossless(children_of(t)[1]));
            assert(lossless(children_of(t)[2]));
            assert(lossless(children_of(t)[3]));
            assert(lossless(children_of(t)[4]));
            assert(lossless(children_of(t)[5]));
        },
        ParseTree::Substring(x) => {
            assert(lossless(children_of(t)[0]));
            assert(lossless(children_of(t)[1]));
            assert(lossless(children_of(t)[2]));
            assert(lossless(children_of(t)[3]));
            assert(lossless(children_of(t)[4]));
            assert(lossless(children_of(t)[5]));
            assert(lossless(children_of(t)[6]));
            assert(lossless(children_of(t)[7]));
        },
        ParseTree::Position(x) => {
            assert(lossless(children_of(t)[0]));
            assert(lossless(children_of(t)[1]));
            assert(lossless(children_of(t)[2]));
            assert(lossless(children_of(t)[3]));
            assert(lossless(children_of(t)[4]));
            assert(lossless(children_of(t)[5]));
        },
        ParseTree::ArrayTypeSuffix(x) => {
            assert(lossless(children_of(t)[0]));
            assert(lossless(children_of(t)[1]));
        },
        ParseTree::NamedType(x) => {
            assert(lossless(children_of(t)[0]));
            assert(lossless(children_of(t)[1]));
        },
        ParseTree::ArrayType(x) => {
            assert(lossless(children_of(t)[0]));
            assert(lossless(children_of(t)[1]));
            assert(lossless(children_of(t)[2]));
            assert(lossless(children_of(t)[3]));
        },
        ParseTree::MapType(x) => {
            assert(lossless(children_of(t)[0]));
            assert(lossless(children_of(t)[1]));
            assert(lossless(children_of(t)[2]));
            assert(lossless(children_of(t)[3]));
            assert(lossless(children_of(t)[4]));
            assert(lossless(children_of(t)[5]));
        },
        ParseTree::RowType(x) => {
            assert(lossless(children_of(t)[0]));
            assert(lossless(children_of(t)[1]));
        },
        ParseTree::RowTypeElement(x) => {
            assert(lossless(children_of(t)[0]));
            assert(lossless(children_of(t)[1]));
        },
        ParseTree::IntervalType(x) => {
            assert(lossless(children_of(t)[0]));
            assert(lossless(children_of(t)[1]));
            assert(lossless(children_of(t)[2]));
            assert(lossless(children_of(t)[3]));
        },
        ParseTree::IfNotExists(x) => {
            assert(lossless(children_of(t)[0]));
            assert(lossless(children_of(t)[1]));
            assert(lossless(children_of(t)[2]));
        },
        ParseTree::CreateTable(x) => {
            assert(lossless(children_of(t)[0]));
            assert(lossless(children_of(t)[1]));
            assert(lossless(children_of(t)[2]));
            assert(lossless(children_of(t)[3]));
            assert(lossless(children_of(t)[4]));
            assert(lossless(children_of(t)[5]));
            assert(lossless(children_of(t)[6]));
        },
        ParseTree::CreateView(x) => {
            assert(lossless(children_of(t)[0]));
            assert(lossless(children_of(t)[1]));
            assert(lossless(children_of(t)[2]));
            assert(lossless(children_of(t)[3]));
            assert(lossless(children_of(t)[4]));
            assert(lossless(children_of(t)[5]));
            assert(lossless(children_of(t)[6]));
        },
        ParseTree::CreateRole(x) => {
            assert(lossless(children_of(t)[0]));
            assert(lossless(children_of(t)[1]));
            assert(lossless(children_of(t)[2]));
            assert(lossless(children_of(t)[3]));
        },
        ParseTree::WithAdminGrantor(x) => {
            assert(lossless(children_of(t)[0]));
            assert(lossless(children_of(t)[1]));
            assert(lossless(children_of(t)[2]));
        },
        ParseTree::UserPrincipal(x) => {
            assert(lossless(children_of(t)[0]));
            assert(lossless(children_of(t)[1]));
        },
        ParseTree::RolePrincipal(x) => {
            assert(lossless(children_of(t)[0]));
            assert(lossless(children_of(t)[1]));
        },
        ParseTree::UnspecifiedPrincipal(x) => {
            assert(lossless(children_of(t)[0]));
        },
        ParseTree::CreateTableAsSelect(x) => {
            assert(lossless(children_of(t)[0]));
            assert(lossless(children_of(t)[1]));
            assert(lossless(children_of(t)[2]));
            assert(lossless(children_of(t)[3]));
            assert(lossless(children_of(t)[4]));
            assert(lossless(children_of(t)[5]));
            assert(lossless(children_of(t)[6]));
            assert(lossless(children_of(t)[7]));
            assert(lossless(children_of(t)[8]));
            assert(lossless(children_of(t)[9]));
            assert(lossless(children_of(t)[10]));
            assert(lossless(children_of(t)[11]));
        },
        ParseTree::WithProperties(x) => {
            assert(lossless(children_of(t)[0]));
            assert(lossless(children_of(t)[1]));
        },
        ParseTree::Property(x) => {
            assert(lossless(children_of(t)[0]));
            assert(lossless(children_of(t)[1]));
            assert(lossless(children_of(t)[2]));
        },
        ParseTree::WithData(x) => {
            assert(lossless(children_of(t)[0]));
            assert(lossless(children_of(t)[1]));
            assert(lossless(children_of(t)[2]));
        },
        ParseTree::Comment(x) => {
            assert(lossless(children_of(t)[0]));
            assert(lossless(children_of(t)[1]));
        },
        ParseTree::ColumnDefinition(x) => {
            assert(lossless(children_of(t)[0]));
            assert(lossless(children_of(t)[1]));
            assert(lossless(children_of(t)[2]));
            assert(lossless(children_of(t)[3]));
            assert(lossless(children_of(t)[4]));
        },
        ParseTree::NotNull(x) => {
            assert(lossless(children_of(t)[0]));
            assert(lossless(children_of(t)[1]));
        },
        ParseTree::LikeClause(x) => {
            assert(lossless(children_of(t)[0]));
            assert(lossless(children_of(t)[1]));
            assert(lossless(children_of(t)[2]));
            assert(lossless(children_of(t)[3]));
        },
        ParseTree::InsertInto(x) => {
            assert(lossless(children_of(t)[0]));
            assert(lossless(children_of(t)[1]));
            assert(lossless(children_of(t)[2]));
            assert(lossless(children_of(t)[3]));
            assert(lossless(children_of(t)[4]));
        },
        ParseTree::Delete(x) => {
            assert(lossless(children_of(t)[0]));
            assert(lossless(children_of(t)[1]));
            assert(lossless(children_of(t)[2]));
            assert(lossless(children_of(t)[3]));
            assert(lossless(children_of(t)[4]));
        },
        ParseTree::GroupingSet(x) => {
            assert(lossless(children_of(t)[0]));
        },
        ParseTree::RelationOrQuery(x) => {
            assert(lossless(children_of(t)[0]));
            assert(lossless(children_of(t)[1]));
            assert(lossless(children_of(t)[2]));
        },
        ParseTree::EmptyGroupingSet(x) => {
            assert(lossless(children_of(t)[0]));
            assert(lossless(children_of(t)[1]));
        },
        ParseTree::ExpressionOrQuery(x) => {
            assert(lossless(children_of(t)[0]));
            assert(lossless(children_of(t)[1]));
            assert(lossless(children_of(t)[2]));
        },
        ParseTree::Entrypoint(x) => {
            assert(lossless(children_of(t)[0]));
            assert(lossless(children_of(t)[1]));
            assert(lossless(children_of(t)[2]));
        },
        ParseTree::NullTreatment(x) => {
            assert(lossless(children_of(t)[0]));
            assert(lossless(children_of(t)[1]));
        },
    }
}

/// A tree whose walk meets no error holds no error tree: it is lossless.
pub proof fn lemma_no_errors_lossless<'a>(t: ParseTree<'a>)
    requires
        errors_of(t).len() == 0,
    ensures
        lossless(t),
    decreases t, 1nat, 0nat,
{
    let n = children_of(t).len();
    let a = children_post_order(t, n);
    lemma_errors_in_append(a, seq![t]);
    assert(errors_in(seq![t]) =~= own_errors(t)) by {
        assert(seq![t].drop_last() =~= Seq::<ParseTree<'a>>::empty());
    }
    if is_leaf(t) {
        reveal_with_fuel(lossless, 1);
    } else {
        lemma_children_no_errors(t, n);
        lemma_lossless_children(t);
    }
}

/// The first `n` children of a tree whose walks meet no error are lossless.
proof fn lemma_children_no_errors<'a>(t: ParseTree<'a>, n: nat)
    requires
        n <= children_of(t).len(),
        errors_in(children_post_order(t, n)).len() == 0,
    ensures
        forall|k: int| 0 <= k < n ==> lossless(#[trigger] children_of(t)[k]),
    decreases t, 0nat, n,
{
    if n > 0 {
        let child = children_of(t)[n - 1];
        lemma_child_decreases(t, n - 1);
        let a = children_post_order(t, (n - 1) as nat);
        assert(children_post_order(t, n) == a + post_order(child));
        lemma_errors_in_append(a, post_order(child));
        lemma_children_no_errors(t, (n - 1) as nat);
        lemma_no_errors_lossless(child);
    }
}

} // verus!
