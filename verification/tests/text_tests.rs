use presto_parser::lexing::{Comment, CommentKind};
use presto_parser::utils::syntax_error::{Message, SyntaxError};
use presto_parser::utils::{Position, TextRange};

fn range(a: (i32, i32), b: (i32, i32)) -> TextRange {
    TextRange {
        start: Position { line: a.0, column: a.1 },
        end: Position { line: b.0, column: b.1 },
    }
}

#[test]
fn positions_print_as_line_and_column() {
    assert_eq!(Position { line: 1, column: 2 }.to_text(), "(1, 2)");
    assert_eq!(Position { line: 0, column: 1234 }.to_text(), "(0, 1234)");
    assert_eq!(Position { line: -5, column: 10 }.to_text(), "(-5, 10)");
    assert_eq!(
        Position { line: i32::MIN, column: i32::MAX }.to_text(),
        "(-2147483648, 2147483647)"
    );
}

#[test]
fn ranges_print_start_and_end() {
    assert_eq!(range((0, 1), (2, 30)).to_text(), "(0, 1)-(2, 30)");
}

#[test]
fn messages_print_range_and_text() {
    let message = Message::new(range((0, 1), (0, 4)), String::from("oops"));
    assert_eq!(message.to_text(), "(0, 1)-(0, 4): oops");
}

#[test]
fn errors_print_code_and_messages_one_per_line() {
    let error = SyntaxError::new(
        201,
        vec![
            Message::new(range((0, 0), (0, 0)), String::from("a")),
            Message::new(range((1, 2), (1, 3)), String::from("b")),
        ],
    );
    assert_eq!(error.to_text(), "Error 201 @(0, 0)-(0, 0): a\n(1, 2)-(1, 3): b");
    let single = SyntaxError::from_message(104, Message::new(range((3, 4), (3, 9)), String::from("x")));
    assert_eq!(single.to_text(), "Error 104 @(3, 4)-(3, 9): x");
    assert_eq!(SyntaxError::new(7, Vec::new()).to_text(), "Error 7 @");
}

#[test]
fn comments_print_kind_range_and_value() {
    let value: Vec<char> = "/* x */".chars().collect();
    let comment = Comment {
        kind: CommentKind::DelimitedComment,
        range: range((0, 0), (0, 7)),
        value: &value,
    };
    assert_eq!(comment.to_text(), "comment(DelimitedComment,(0, 0)-(0, 7),/* x */)");
    assert_eq!(CommentKind::LineComment.to_text(), "LineComment");
}

#[test]
fn positions_and_ranges_order_by_line_then_column() {
    assert!(Position { line: 0, column: 5 } < Position { line: 1, column: 0 });
    assert!(Position { line: 1, column: 2 } < Position { line: 1, column: 3 });
    assert!(range((0, 1), (0, 2)) < range((0, 1), (0, 3)));
}
