//! Where a tree starts and ends, with and without the comments around its tokens.
use super::laws::lemma_children_in_source_order;
use super::parse_tree::{
    children_of, end_of, full_end_of, full_start_of, is_leaf, last_child_of,
    lemma_children_decrease, start_of, tokens_of, tokens_of_all, ParseTree,
};
use crate::lexing::token::{spec_full_end, spec_full_start, trivia_around};
use crate::utils::position::position_le;
use vstd::prelude::*;

verus! {

/// The last child of a tree that is not a leaf is the last of its children.
proof fn lemma_last_child_is_last<'a>(t: ParseTree<'a>)
    requires
        !is_leaf(t),
    ensures
        children_of(t).len() > 0,
        children_of(t).last() == last_child_of(t),
{
}

/// A tree without tokens ends at its full end.
proof fn lemma_full_end_without_tokens<'a>(t: ParseTree<'a>)
    requires
        tokens_of(t).len() == 0,
    ensures
        full_end_of(t) == end_of(t),
    decreases t,
{
    if !is_leaf(t) {
        lemma_children_in_source_order(t);
        lemma_last_child_is_last(t);
        lemma_children_decrease(t);
        let cs = children_of(t);
        assert(tokens_of_all(cs) == tokens_of_all(cs.drop_last()) + tokens_of(cs.last()));
        lemma_full_end_without_tokens(last_child_of(t));
    }
}

/// A tree whose tokens have their comments around them starts, with those comments,
/// at or before where it starts without them, and ends, with them, at or after
/// where it ends without them.
pub proof fn lemma_full_extent<'a>(t: ParseTree<'a>)
    requires
        trivia_around(tokens_of(t)),
    ensures
        position_le(full_start_of(t), start_of(t)),
        position_le(end_of(t), full_end_of(t)),
{
    let ts = tokens_of(t);
    if ts.len() > 0 {
        assert(ts[ts.len() - 1] == ts.last());
        assert(position_le(spec_full_start(ts[0]), ts[0].range.start));
        assert(position_le(ts[ts.len() - 1].range.end, spec_full_end(ts[ts.len() - 1])));
    } else {
        lemma_full_end_without_tokens(t);
    }
}

} // verus!
