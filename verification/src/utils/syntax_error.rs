//! Syntax errors reported by the lexer and the parser.
use crate::utils::text::{append_decimal, append_str, decimal_of, joined};
use crate::utils::text_range::{range_text, TextRange};
use vstd::prelude::*;
use vstd::string::*;

verus! {

#[derive(Clone, Debug, PartialEq, Eq, Hash)]
pub struct Message {
    pub range: TextRange,
    pub message: String,
}

/// The text of a message: its range, then the message.
pub open spec fn message_text(m: Message) -> Seq<char> {
    range_text(m.range) + ": "@ + m.message@
}

/// The text of an error: its code, then its messages, one per line.
pub open spec fn error_text(e: SyntaxError) -> Seq<char> {
    "Error "@ + decimal_of(e.error_code as int) + " @"@ + joined(
        e.messages@.map_values(|m: Message| message_text(m)),
        "\n"@,
    )
}

impl Message {
    /// The text of this message: its range, then the message.
    pub fn to_text(&self) -> (r: String)
        ensures
            r@ == message_text(*self),
    {
        let mut s = self.range.to_text();
        append_str(&mut s, ": ");
        append_str(&mut s, self.message.as_str());
        s
    }

    pub fn new(range: TextRange, message: String) -> (r: Message)
        ensures
            r.range == range,
            r.message@ == message@,
    {
        Message { range, message }
    }

    /// A copy of this message.
    pub fn duplicate(&self) -> (r: Message)
        ensures
            r == *self,
    {
        Message { range: self.range, message: self.message.clone() }
    }
}

#[derive(Clone, Debug, PartialEq, Eq, Hash)]
pub struct SyntaxError {
    pub error_code: i32,
    pub messages: Vec<Message>,
}

impl SyntaxError {
    pub fn new(error_code: i32, messages: Vec<Message>) -> (r: SyntaxError)
        ensures
            r.error_code == error_code,
            r.messages@ == messages@,
    {
        SyntaxError { error_code, messages }
    }

    pub fn from_message(error_code: i32, message: Message) -> (r: SyntaxError)
        ensures
            r.error_code == error_code,
            r.messages@ == seq![message],
    {
        let mut messages = Vec::new();
        messages.push(message);
        SyntaxError::new(error_code, messages)
    }

    /// A copy of this error: the same code and the same messages.
    pub fn duplicate(&self) -> (r: SyntaxError)
        ensures
            r.error_code == self.error_code,
            r.messages@ == self.messages@,
    {
        let mut messages: Vec<Message> = Vec::new();
        let mut i: usize = 0;
        while i < self.messages.len()
            invariant
                i <= self.messages@.len(),
                messages@ == self.messages@.take(i as int),
            decreases self.messages@.len() - i,
        {
            messages.push(self.messages[i].duplicate());
            i += 1;
            assert(messages@ =~= self.messages@.take(i as int));
        }
        assert(self.messages@.take(self.messages@.len() as int) =~= self.messages@);
        SyntaxError { error_code: self.error_code, messages }
    }

    /// The text of this error: its code, then its messages, one per line.
    pub fn to_text(&self) -> (r: String)
        ensures
            r@ == error_text(*self),
    {
        let ghost texts = self.messages@.map_values(|m: Message| message_text(m));
        let mut s = String::new();
        append_str(&mut s, "Error ");
        append_decimal(&mut s, self.error_code);
        append_str(&mut s, " @");
        let ghost head = s@;
        let mut i: usize = 0;
        while i < self.messages.len()
            invariant
                i <= self.messages@.len(),
                texts == self.messages@.map_values(|m: Message| message_text(m)),
                s@ == head + joined(texts.take(i as int), "\n"@),
            decreases self.messages@.len() - i,
        {
            let ghost before = s@;
            if i > 0 {
                append_str(&mut s, "\n");
            }
            let text = self.messages[i].to_text();
            append_str(&mut s, text.as_str());
            proof {
                let parts = texts.take(i + 1);
                assert(parts.drop_last() =~= texts.take(i as int));
                assert(parts.last() == message_text(self.messages@[i as int]));
                if i > 0 {
                    assert(s@ =~= head + (joined(texts.take(i as int), "\n"@) + "\n"@
                        + parts.last()));
                } else {
                    assert(joined(texts.take(i as int), "\n"@) =~= Seq::<char>::empty());
                    assert(s@ =~= head + parts[0]);
                }
            }
            i += 1;
        }
        assert(texts.take(i as int) =~= texts);
        s
    }

    /// The range of the first message.
    pub fn get_range(&self) -> (r: TextRange)
        requires
            self.messages.len() > 0,
        ensures
            r == self.messages@[0].range,
    {
        self.messages[0].range
    }
}

// lex errors 100-199
pub const ERROR_EXPECTED_CHAR: i32 = 101;
pub const ERROR_UNTERMINATED_DELIMITED_COMMENT: i32 = 102;
pub const ERROR_INVALID_TOKEN_START: i32 = 103;
pub const ERROR_UNTERMINATED_STRING_LITERAL: i32 = 104;
pub const ERROR_UNTERMINATED_QUOTED_IDENTIFIER: i32 = 105;
pub const ERROR_UNTERMINATED_BACK_QUOTED_IDENTIFIER: i32 = 106;

// parse errors 200-299
pub const ERROR_SYNTAX_ERROR: i32 = 201;

} // verus!
