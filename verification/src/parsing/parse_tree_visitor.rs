//! Visiting the subtrees of a parse tree.
use super::parse_tree::{deref_seq, ParseTree};
use super::tree_walk::{collect_post_order, collect_pre_order, post_order, pre_order};
use vstd::prelude::*;

verus! {

/// The subtrees a visit of `tree` hands out, without `tree` itself: first
/// those handed to the pre-visit step, in the order they are handed (each
/// before its children), then those handed to the post-visit step (each
/// after its children).
pub fn visit_children<'a>(tree: &'a ParseTree<'a>) -> (r: (Vec<&'a ParseTree<'a>>, Vec<&'a ParseTree<'a>>))
    ensures
        deref_seq(r.0@) == pre_order(*tree).drop_first(),
        deref_seq(r.1@) == post_order(*tree).drop_last(),
{
    let (mut pre, mut post) = visit(tree);
    pre.remove(0);
    post.pop();
    proof {
        assert(deref_seq(pre@) =~= pre_order(*tree).drop_first());
        assert(deref_seq(post@) =~= post_order(*tree).drop_last());
    }
    (pre, post)
}

/// The subtrees a visit of `tree` hands out, `tree` included: first those
/// handed to the pre-visit step, in the order they are handed (each before
/// its children, children in source order), then those handed to the
/// post-visit step (each after its children).
pub fn visit<'a>(tree: &'a ParseTree<'a>) -> (r: (Vec<&'a ParseTree<'a>>, Vec<&'a ParseTree<'a>>))
    ensures
        deref_seq(r.0@) == pre_order(*tree),
        deref_seq(r.1@) == post_order(*tree),
        r.0@.len() > 0,
        r.1@.len() > 0,
{
    let pre = visit_pre_order(tree);
    let post = visit_post_order(tree);
    (pre, post)
}

/// The subtrees of `tree`, `tree` included, in post-order: each after its
/// children, children in source order.
pub fn visit_post_order<'a>(tree: &'a ParseTree<'a>) -> (r: Vec<&'a ParseTree<'a>>)
    ensures
        deref_seq(r@) == post_order(*tree),
        r@.len() > 0,
{
    let mut result: Vec<&'a ParseTree<'a>> = Vec::new();
    collect_post_order(tree, &mut result);
    proof {
        assert(deref_seq(Seq::<&ParseTree<'a>>::empty()) =~= Seq::<ParseTree<'a>>::empty());
        assert(deref_seq(result@) =~= post_order(*tree));
        assert(post_order(*tree).len() > 0);
    }
    result
}

/// The subtrees of `tree`, `tree` included, in pre-order: each before its
/// children, children in source order.
pub fn visit_pre_order<'a>(tree: &'a ParseTree<'a>) -> (r: Vec<&'a ParseTree<'a>>)
    ensures
        deref_seq(r@) == pre_order(*tree),
        r@.len() > 0,
{
    let mut result: Vec<&'a ParseTree<'a>> = Vec::new();
    collect_pre_order(tree, &mut result);
    proof {
        assert(deref_seq(Seq::<&ParseTree<'a>>::empty()) =~= Seq::<ParseTree<'a>>::empty());
        assert(deref_seq(result@) =~= pre_order(*tree));
        assert(pre_order(*tree).len() > 0);
    }
    result
}

} // verus!
