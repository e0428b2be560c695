pub mod completeness;
pub mod expression_trees;
pub mod extent;
pub mod laws;
pub mod parse_position;
pub mod parser;
pub mod parse_tree;
pub mod parse_tree_visitor;
pub mod query_trees;
pub mod statement_trees;
pub mod tree_clone;
pub mod tree_walk;

pub use self::parse_tree::ParseTree;
pub use self::parse_tree_visitor::{visit_post_order, visit_pre_order};
pub use self::parser::Parser;
