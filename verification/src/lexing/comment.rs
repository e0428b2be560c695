//! Comments found in source text.
use crate::utils::text::{append_chars, append_str};
use crate::utils::text_range::range_text;
use crate::utils::TextRange;
use vstd::prelude::*;
use vstd::string::*;

verus! {

/// The kinds of comment trivia.
#[derive(Copy, Clone, Debug, PartialEq, Eq, Structural)]
pub enum CommentKind {
    LineComment,
    DelimitedComment,
}

/// The name of a kind of comment.
pub open spec fn comment_kind_text(kind: CommentKind) -> Seq<char> {
    match kind {
        CommentKind::LineComment => "LineComment"@,
        CommentKind::DelimitedComment => "DelimitedComment"@,
    }
}

impl CommentKind {
    /// The name of this kind of comment.
    pub fn to_text(&self) -> (r: String)
        ensures
            r@ == comment_kind_text(*self),
    {
        let mut s = String::new();
        match self {
            CommentKind::LineComment => append_str(&mut s, "LineComment"),
            CommentKind::DelimitedComment => append_str(&mut s, "DelimitedComment"),
        }
        s
    }
}

/// The text of a comment: `comment(kind,range,value)`.
pub open spec fn comment_text(c: Comment) -> Seq<char> {
    "comment("@ + comment_kind_text(c.kind) + ","@ + range_text(c.range) + ","@ + c.value@ + ")"@
}

/// A comment from source text.
///
/// The lifetime of a Comment is typically scoped to the
/// lifetime of the source text being lexed.
///
/// For range and value, includes leading/trailing --, /*, */.
/// Includes trailing NewLine for line comments if present.
#[derive(Copy, Clone, Debug)]
pub struct Comment<'a> {
    pub kind: CommentKind,
    pub range: TextRange,
    pub value: &'a [char],
}

impl<'a> Comment<'a> {
    /// The text of this comment: `comment(kind,range,value)`.
    pub fn to_text(&self) -> (r: String)
        ensures
            r@ == comment_text(*self),
    {
        let mut s = String::new();
        append_str(&mut s, "comment(");
        let kind = self.kind.to_text();
        append_str(&mut s, kind.as_str());
        append_str(&mut s, ",");
        let range = self.range.to_text();
        append_str(&mut s, range.as_str());
        append_str(&mut s, ",");
        append_chars(&mut s, self.value);
        append_str(&mut s, ")");
        s
    }
}

} // verus!
