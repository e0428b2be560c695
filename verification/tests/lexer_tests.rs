use presto_parser::lexing::token_stream::lex_all;
use presto_parser::lexing::{Lexer, TokenKind};
use presto_parser::utils::syntax_error;

fn chars(text: &str) -> Vec<char> {
    text.chars().collect()
}

fn kinds(text: &str) -> Vec<TokenKind> {
    let input = chars(text);
    lex_all(&input).iter().map(|t| t.kind).collect()
}

#[test]
fn lexes_a_simple_select() {
    assert_eq!(
        kinds("SELECT a FROM t"),
        vec![
            TokenKind::SELECT,
            TokenKind::Identifier,
            TokenKind::FROM,
            TokenKind::Identifier,
            TokenKind::EndOfFile
        ]
    );
}

#[test]
fn keywords_ignore_case() {
    assert_eq!(kinds("select"), vec![TokenKind::SELECT, TokenKind::EndOfFile]);
    assert_eq!(kinds("SeLeCt"), vec![TokenKind::SELECT, TokenKind::EndOfFile]);
}

#[test]
fn predefined_names_are_identifiers() {
    assert_eq!(kinds("limit"), vec![TokenKind::Identifier, TokenKind::EndOfFile]);
}

#[test]
fn lexes_numbers() {
    assert_eq!(kinds("123"), vec![TokenKind::Integer, TokenKind::EndOfFile]);
    assert_eq!(kinds("1.5"), vec![TokenKind::Decimal, TokenKind::EndOfFile]);
    assert_eq!(kinds("1e10"), vec![TokenKind::Double, TokenKind::EndOfFile]);
}

#[test]
fn lexes_operators() {
    assert_eq!(
        kinds("<> <= >= != = < >"),
        vec![
            TokenKind::LessGreater,
            TokenKind::LessEqual,
            TokenKind::GreaterEqual,
            TokenKind::BangEqual,
            TokenKind::Equal,
            TokenKind::OpenAngle,
            TokenKind::CloseAngle,
            TokenKind::EndOfFile
        ]
    );
}

#[test]
fn lexes_strings_and_their_values() {
    let input = chars("'abc' x");
    let tokens = lex_all(&input);
    assert_eq!(tokens[0].kind, TokenKind::String);
    assert_eq!(tokens[0].value.iter().collect::<String>(), "'abc'");
    assert!(tokens[0].errors.is_empty());
    assert_eq!(tokens[1].value.iter().collect::<String>(), "x");
}

#[test]
fn unterminated_string_reports_an_error() {
    let input = chars("'abc");
    let tokens = lex_all(&input);
    assert!(!tokens[0].errors.is_empty());
    assert_eq!(
        tokens[0].errors[0].error_code,
        syntax_error::ERROR_UNTERMINATED_STRING_LITERAL
    );
}

#[test]
fn unterminated_quoted_identifier_reports_an_error() {
    let input = chars("\"abc");
    let tokens = lex_all(&input);
    assert!(!tokens[0].errors.is_empty());
    assert_eq!(
        tokens[0].errors[0].error_code,
        syntax_error::ERROR_UNTERMINATED_QUOTED_IDENTIFIER
    );
}

#[test]
fn unterminated_back_quoted_identifier_reports_an_error() {
    let input = chars("`abc");
    let tokens = lex_all(&input);
    assert!(!tokens[0].errors.is_empty());
    assert_eq!(
        tokens[0].errors[0].error_code,
        syntax_error::ERROR_UNTERMINATED_BACK_QUOTED_IDENTIFIER
    );
}

#[test]
fn unterminated_comment_reports_an_error() {
    let input = chars("/* abc");
    let tokens = lex_all(&input);
    let errors: Vec<i32> = tokens
        .iter()
        .flat_map(|t| t.errors.iter().map(|e| e.error_code))
        .collect();
    assert!(errors.contains(&syntax_error::ERROR_UNTERMINATED_DELIMITED_COMMENT));
}

#[test]
fn invalid_character_gives_an_error_token() {
    let input = chars("#");
    let tokens = lex_all(&input);
    assert_eq!(tokens[0].kind, TokenKind::Error);
    assert_eq!(tokens[0].errors[0].error_code, syntax_error::ERROR_INVALID_TOKEN_START);
}

#[test]
fn comments_become_trivia() {
    let input = chars("-- note\nSELECT");
    let tokens = lex_all(&input);
    assert_eq!(tokens[0].kind, TokenKind::SELECT);
    assert_eq!(tokens[0].leading_comments.len(), 1);
    assert_eq!(tokens[0].range.start.line, 1);
    assert_eq!(tokens[0].range.start.column, 0);
}

#[test]
fn positions_count_lines_and_columns() {
    let input = chars("a\n  b\r\nc");
    let tokens = lex_all(&input);
    assert_eq!((tokens[0].range.start.line, tokens[0].range.start.column), (0, 0));
    assert_eq!((tokens[1].range.start.line, tokens[1].range.start.column), (1, 2));
    assert_eq!((tokens[2].range.start.line, tokens[2].range.start.column), (2, 0));
}

#[test]
fn the_end_of_file_repeats() {
    let input = chars("a");
    let mut lexer = Lexer::new(&input);
    assert_eq!(lexer.lex_token().kind, TokenKind::Identifier);
    assert_eq!(lexer.lex_token().kind, TokenKind::EndOfFile);
    assert!(lexer.at_end());
    assert_eq!(lexer.lex_token().kind, TokenKind::EndOfFile);
}

#[test]
fn empty_input_is_just_the_end_of_file() {
    assert_eq!(kinds(""), vec![TokenKind::EndOfFile]);
    assert_eq!(kinds("   "), vec![TokenKind::EndOfFile]);
}

#[test]
fn a_lone_bang_expects_an_equal_sign() {
    let input = chars("!x");
    let tokens = lex_all(&input);
    assert_eq!(tokens[0].kind, TokenKind::Error);
    assert_eq!(tokens[0].errors[0].error_code, syntax_error::ERROR_EXPECTED_CHAR);
    assert_eq!(tokens[0].errors[0].messages[0].message, "Expected '='; got 'x'");
    assert_eq!(tokens[1].kind, TokenKind::Identifier);
}

fn texts(text: &str) -> Vec<(TokenKind, String)> {
    let input = chars(text);
    lex_all(&input)
        .iter()
        .map(|t| (t.kind, t.value.iter().collect()))
        .collect()
}

#[test]
fn a_null_character_inside_the_input_is_not_the_end() {
    let input = chars("\0x");
    let lexer = Lexer::new(&input);
    assert!(!lexer.at_end());
    let tokens = lex_all(&input);
    assert_eq!(tokens[0].kind, TokenKind::Error);
    assert_eq!(tokens[0].errors[0].error_code, syntax_error::ERROR_INVALID_TOKEN_START);
    assert_eq!(tokens[1].kind, TokenKind::Identifier);
    assert_eq!(tokens[2].kind, TokenKind::EndOfFile);
    assert_eq!(tokens.len(), 3);
}

#[test]
fn a_new_lexer_is_at_its_end_only_on_empty_input() {
    let empty: Vec<char> = Vec::new();
    assert!(Lexer::new(&empty).at_end());
    let input = chars(" ");
    let mut lexer = Lexer::new(&input);
    assert!(!lexer.at_end());
    assert_eq!(lexer.lex_token().kind, TokenKind::EndOfFile);
    assert!(lexer.at_end());
}

#[test]
fn the_full_start_is_the_start_of_the_first_leading_comment() {
    let input = chars("-- a\n-- b\nx");
    let tokens = lex_all(&input);
    assert_eq!(tokens[0].value.iter().collect::<String>(), "x");
    assert_eq!(tokens[0].leading_comments.len(), 2);
    let start = tokens[0].full_start();
    assert_eq!((start.line, start.column), (0, 0));
    assert_eq!((tokens[0].range.start.line, tokens[0].range.start.column), (2, 0));
}

#[test]
fn lexing_resumes_at_the_next_token() {
    assert_eq!(
        texts("time with x"),
        vec![
            (TokenKind::Identifier, "time".to_string()),
            (TokenKind::WITH, "with".to_string()),
            (TokenKind::Identifier, "x".to_string()),
            (TokenKind::EndOfFile, String::new())
        ]
    );
    assert_eq!(
        texts("timestamp with time zone x"),
        vec![
            (TokenKind::TimestampWithTimeZone, "timestamp with time zone".to_string()),
            (TokenKind::Identifier, "x".to_string()),
            (TokenKind::EndOfFile, String::new())
        ]
    );
    assert_eq!(
        texts("a b"),
        vec![
            (TokenKind::Identifier, "a".to_string()),
            (TokenKind::Identifier, "b".to_string()),
            (TokenKind::EndOfFile, String::new())
        ]
    );
}

#[test]
fn a_comment_before_a_token_on_the_same_line_leads_that_token() {
    let input = chars("a /* c */ b");
    let tokens = lex_all(&input);
    assert!(tokens[0].trailing_comments.is_empty());
    assert_eq!(tokens[1].leading_comments.len(), 1);
    assert_eq!(tokens[1].leading_comments[0].value.iter().collect::<String>(), "/* c */");
}

#[test]
fn a_comment_ending_its_line_trails_the_token() {
    let input = chars("a /* c */\nb");
    let tokens = lex_all(&input);
    assert_eq!(tokens[0].trailing_comments.len(), 1);
    assert!(tokens[1].leading_comments.is_empty());
}

#[test]
fn numbers_have_no_errors() {
    for (text, kind) in [
        ("123", TokenKind::Integer),
        ("1.5", TokenKind::Decimal),
        ("12.", TokenKind::Decimal),
        (".5", TokenKind::Decimal),
        ("1e5", TokenKind::Double),
        (".5e+2", TokenKind::Double),
        ("12abc", TokenKind::DigitIdentifier),
    ] {
        let input = chars(text);
        let tokens = lex_all(&input);
        assert_eq!(tokens[0].kind, kind, "{}", text);
        assert_eq!(tokens[0].value.iter().collect::<String>(), text);
        assert!(tokens[0].errors.is_empty());
        assert_eq!(tokens.len(), 2);
    }
}

#[test]
fn well_formed_operators_have_no_errors() {
    let input = chars("<> <= >= != =>");
    let tokens = lex_all(&input);
    let kinds: Vec<TokenKind> = tokens.iter().map(|t| t.kind).collect();
    assert_eq!(
        kinds,
        vec![
            TokenKind::LessGreater,
            TokenKind::LessEqual,
            TokenKind::GreaterEqual,
            TokenKind::BangEqual,
            TokenKind::DoubleArrow,
            TokenKind::EndOfFile
        ]
    );
    assert!(tokens.iter().all(|t| t.errors.is_empty()));
}

fn one_token(text: &str) -> presto_parser::lexing::Token<'static> {
    let input: &'static [char] = Box::leak(chars(text).into_boxed_slice());
    Lexer::new(input).lex_token()
}

#[test]
fn an_unterminated_string_has_one_error_over_its_text() {
    let t = one_token("'abc");
    assert_eq!(t.kind, TokenKind::Error);
    assert_eq!(t.value.iter().collect::<String>(), "'abc");
    assert_eq!(t.errors.len(), 1);
    assert_eq!(t.errors[0].error_code, syntax_error::ERROR_UNTERMINATED_STRING_LITERAL);
    assert_eq!(t.errors[0].messages[0].message, "Unterminated string literal");
    let r = t.errors[0].get_range();
    assert_eq!((r.start.line, r.start.column, r.end.line, r.end.column), (0, 0, 0, 4));
}

#[test]
fn a_doubled_quote_stays_inside_a_string() {
    let t = one_token("'it''s'");
    assert_eq!(t.kind, TokenKind::String);
    assert_eq!(t.value.iter().collect::<String>(), "'it''s'");
    assert!(t.errors.is_empty());
}

#[test]
fn an_unterminated_back_quoted_identifier_has_one_error_over_its_text() {
    let t = one_token("`ab");
    assert_eq!(t.kind, TokenKind::Error);
    assert_eq!(t.errors.len(), 1);
    assert_eq!(t.errors[0].error_code, syntax_error::ERROR_UNTERMINATED_BACK_QUOTED_IDENTIFIER);
    assert_eq!(t.errors[0].messages[0].message, "Unterminated back quoted identifier");
    let r = t.errors[0].get_range();
    assert_eq!((r.start.line, r.start.column, r.end.line, r.end.column), (0, 0, 0, 3));
}

#[test]
fn an_unterminated_comment_leads_the_end_of_file() {
    let t = one_token("/* abc");
    assert_eq!(t.kind, TokenKind::EndOfFile);
    assert_eq!(t.leading_comments.len(), 1);
    assert_eq!(t.leading_comments[0].value.iter().collect::<String>(), "/* abc");
    assert_eq!(t.errors.len(), 1);
    assert_eq!(t.errors[0].error_code, syntax_error::ERROR_UNTERMINATED_DELIMITED_COMMENT);
    assert_eq!(t.errors[0].messages[0].message, "Unterminated delimited comment.");
    let r = t.errors[0].get_range();
    assert_eq!((r.start.line, r.start.column, r.end.line, r.end.column), (0, 0, 0, 6));
}

#[test]
fn the_full_end_is_the_end_of_the_last_trailing_comment() {
    let t = one_token("a -- c\nb");
    assert_eq!(t.value.iter().collect::<String>(), "a");
    assert_eq!(t.trailing_comments.len(), 1);
    assert_eq!(t.trailing_comments[0].value.iter().collect::<String>(), "-- c\n");
    assert_eq!((t.range.end.line, t.range.end.column), (0, 1));
    let end = t.full_end();
    assert_eq!((end.line, end.column), (1, 0));
}

#[test]
fn a_comment_between_tokens_on_one_line_leads_the_second() {
    let input: &'static [char] = Box::leak(chars("a /* c */ b").into_boxed_slice());
    let mut lexer = Lexer::new(input);
    let first = lexer.lex_token();
    assert_eq!(first.value.iter().collect::<String>(), "a");
    assert!(first.trailing_comments.is_empty());
    let second = lexer.lex_token();
    assert_eq!(second.value.iter().collect::<String>(), "b");
    assert_eq!(second.leading_comments.len(), 1);
    assert_eq!(second.leading_comments[0].value.iter().collect::<String>(), "/* c */");
}

#[test]
fn a_lone_bang_or_bar_expects_its_second_character() {
    for (text, expected) in [("!x", "Expected '='; got 'x'"), ("|x", "Expected '|'; got 'x'")] {
        let t = one_token(text);
        assert_eq!(t.kind, TokenKind::Error);
        assert_eq!(t.errors.len(), 1);
        assert_eq!(t.errors[0].error_code, syntax_error::ERROR_EXPECTED_CHAR);
        assert_eq!(t.errors[0].messages[0].message, expected);
        let r = t.errors[0].get_range();
        assert_eq!((r.start.line, r.start.column, r.end.line, r.end.column), (0, 1, 0, 1));
    }
}

#[test]
fn an_invalid_character_has_one_error_over_it() {
    let t = one_token("#");
    assert_eq!(t.kind, TokenKind::Error);
    assert_eq!(t.errors.len(), 1);
    assert_eq!(t.errors[0].error_code, syntax_error::ERROR_INVALID_TOKEN_START);
    assert_eq!(t.errors[0].messages[0].message, "Invalid token start character.");
    let r = t.errors[0].get_range();
    assert_eq!((r.start.line, r.start.column, r.end.line, r.end.column), (0, 0, 0, 1));
}
