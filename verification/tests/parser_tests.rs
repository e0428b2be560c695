use presto_parser::lexing::token_stream::lex_all;
use presto_parser::lexing::TokenKind;
use presto_parser::parsing::parser::{errors_of_tree, parse_statement, sort_errors_by_range};
use presto_parser::parsing::{visit_post_order, visit_pre_order, ParseTree};
use presto_parser::parsing::parse_tree_visitor::{visit, visit_children};
use presto_parser::utils::syntax_error::{self, Message, SyntaxError};
use presto_parser::utils::{Position, TextRange};

fn chars(text: &str) -> Vec<char> {
    text.chars().collect()
}

/// The tokens held by a tree, in source order, as (kind, text).
fn leaf_tokens(tree: &ParseTree) -> Vec<(TokenKind, String)> {
    visit_pre_order(tree)
        .iter()
        .filter_map(|t| match t {
            ParseTree::Token(token) => Some((token.token.kind, token.token.value.iter().collect())),
            _ => None,
        })
        .collect()
}

fn lexed_tokens(input: &[char]) -> Vec<(TokenKind, String)> {
    let mut result = vec![(TokenKind::BeginningOfFile, String::new())];
    for token in lex_all(input) {
        result.push((token.kind, token.value.iter().collect()));
    }
    result
}

fn first_message(errors: &[SyntaxError]) -> String {
    errors[0].messages[0].message.clone()
}

#[test]
fn parses_a_simple_select() {
    let input = chars("SELECT a FROM t");
    let (tree, errors) = parse_statement(&input);
    assert!(errors.is_empty());
    assert!(tree.is_entrypoint());
    let entry = tree.as_entrypoint();
    assert!(entry.tree.is_query());
    assert!(entry.end_of_file.is_token());
}

#[test]
fn a_parse_without_errors_holds_every_token() {
    for text in [
        "SELECT a, b + 1 AS c FROM t WHERE x > 2 ORDER BY a LIMIT 10",
        "SELECT count(*) FROM t GROUP BY a HAVING count(*) > 1",
        "WITH q AS (SELECT 1) SELECT * FROM q",
        "SELECT CASE WHEN a THEN 1 ELSE 2 END FROM t",
        "SELECT a FROM t1 JOIN t2 ON t1.x = t2.y",
        "INSERT INTO t SELECT 1",
        "DELETE FROM t WHERE a = 1",
        "CREATE TABLE t (a int, b varchar)",
        "CREATE VIEW v AS SELECT 1",
        "SELECT cast(a AS bigint), x IN (1, 2), y BETWEEN 1 AND 2 FROM t",
    ] {
        let input = chars(text);
        let (tree, errors) = parse_statement(&input);
        assert!(errors.is_empty(), "{}: {:?}", text, errors);
        assert_eq!(leaf_tokens(&tree), lexed_tokens(&input), "{}", text);
    }
}

#[test]
fn is_distinct_from_keeps_every_token() {
    for text in ["SELECT a IS DISTINCT FROM b", "SELECT a IS NOT DISTINCT FROM b"] {
        let input = chars(text);
        let (tree, errors) = parse_statement(&input);
        assert!(errors.is_empty());
        assert_eq!(leaf_tokens(&tree), lexed_tokens(&input), "{}", text);
    }
}

#[test]
fn missing_expression_is_an_error() {
    let input = chars("SELECT");
    let (_tree, errors) = parse_statement(&input);
    assert!(!errors.is_empty());
    assert_eq!(errors[0].error_code, syntax_error::ERROR_SYNTAX_ERROR);
    assert_eq!(first_message(&errors), "Expected Expected expression., found EndOfFile.");
}

#[test]
fn unknown_statement_is_an_error() {
    let input = chars("FOO");
    let (tree, errors) = parse_statement(&input);
    assert_eq!(errors.len(), 2);
    assert_eq!(first_message(&errors), "Expected statement, found Identifier.");
    assert!(tree.as_entrypoint().tree.is_error());
}

#[test]
fn missing_end_of_file_is_an_error() {
    let input = chars("SELECT 1 2");
    let (tree, errors) = parse_statement(&input);
    assert_eq!(errors.len(), 1);
    assert_eq!(first_message(&errors), "Expected EndOfFile, found Integer.");
    assert!(tree.as_entrypoint().end_of_file.is_error());
}

#[test]
fn create_schema_is_not_supported() {
    let input = chars("CREATE SCHEMA s");
    let (tree, errors) = parse_statement(&input);
    assert!(!errors.is_empty());
    assert!(tree.as_entrypoint().tree.is_error());
}

#[test]
fn natural_join_holds_natural() {
    let input = chars("SELECT a FROM t NATURAL JOIN u");
    let (tree, errors) = parse_statement(&input);
    assert!(errors.is_empty(), "{:?}", errors);
    assert_eq!(leaf_tokens(&tree), lexed_tokens(&input));
}

#[test]
fn a_query_used_as_an_expression_is_reported() {
    let input = chars("SELECT (TABLE t, 1)");
    let (_tree, errors) = parse_statement(&input);
    assert_eq!(errors.len(), 1);
    assert_eq!(first_message(&errors), "Expected expression, found query.");
}

#[test]
fn lexer_errors_are_reported_by_the_parser() {
    let input = chars("SELECT a /* never closed");
    let (tree, errors) = parse_statement(&input);
    assert_eq!(errors.len(), 1);
    assert_eq!(errors[0].error_code, syntax_error::ERROR_UNTERMINATED_DELIMITED_COMMENT);
    assert_eq!(errors_of_tree(&tree).len(), errors.len());
}

#[test]
fn errors_come_sorted_by_range() {
    let input = chars("SELECT (TABLE t, 1) FROM t /* open");
    let (_tree, errors) = parse_statement(&input);
    assert_eq!(errors.len(), 2);
    assert_eq!(first_message(&errors), "Expected expression, found query.");
    assert_eq!(errors[1].error_code, syntax_error::ERROR_UNTERMINATED_DELIMITED_COMMENT);
    for pair in errors.windows(2) {
        let (a, b) = (pair[0].messages[0].range, pair[1].messages[0].range);
        assert!((a.start.line, a.start.column, a.end.line, a.end.column)
            <= (b.start.line, b.start.column, b.end.line, b.end.column));
    }
}

fn error_at(line: i32, column: i32, code: i32) -> SyntaxError {
    let position = Position::new(line, column);
    SyntaxError::from_message(code, Message::new(TextRange::empty(position), String::from("e")))
}

#[test]
fn sorting_errors_keeps_equal_ranges_in_order() {
    let errors = vec![error_at(2, 0, 1), error_at(1, 5, 2), error_at(1, 5, 3), error_at(0, 9, 4)];
    let sorted = sort_errors_by_range(errors);
    let codes: Vec<i32> = sorted.iter().map(|e| e.error_code).collect();
    assert_eq!(codes, vec![4, 2, 3, 1]);
}

#[test]
fn visits_list_trees_in_pre_and_post_order() {
    let input = chars("SELECT a");
    let (tree, _errors) = parse_statement(&input);
    let pre = visit_pre_order(&tree);
    let post = visit_post_order(&tree);
    assert!(std::ptr::eq(pre[0], &tree));
    assert!(std::ptr::eq(*post.last().unwrap(), &tree));
    assert_eq!(pre.len(), post.len());
    let (pre2, post2) = visit(&tree);
    assert_eq!(pre2.len(), pre.len());
    assert_eq!(post2.len(), post.len());
    let (children_pre, children_post) = visit_children(&tree);
    assert_eq!(children_pre.len(), pre.len() - 1);
    assert_eq!(children_post.len(), post.len() - 1);
    assert!(std::ptr::eq(children_pre[0], pre[1]));
}

#[test]
fn qualified_names_and_dereferences() {
    let input = chars("SELECT a.b.c, f(x).y[1] FROM s.t");
    let (tree, errors) = parse_statement(&input);
    assert!(errors.is_empty(), "{:?}", errors);
    assert_eq!(leaf_tokens(&tree), lexed_tokens(&input));
}

#[test]
fn lambdas_and_types() {
    for text in [
        "SELECT transform(a, x -> x + 1) FROM t",
        "SELECT transform(a, (x, y) -> x + y) FROM t",
        "SELECT cast(a AS array<map<varchar, row(x int, y double)>>)",
        "SELECT try_cast(a AS decimal(10, 2))",
    ] {
        let input = chars(text);
        let (tree, errors) = parse_statement(&input);
        assert!(errors.is_empty(), "{}: {:?}", text, errors);
        assert_eq!(leaf_tokens(&tree), lexed_tokens(&input), "{}", text);
    }
}

#[test]
fn undelimited_lists_have_empty_delimiters_and_a_last_empty_separator() {
    let input = chars("SELECT a, b FROM t");
    let (tree, errors) = parse_statement(&input);
    assert!(errors.is_empty());
    let query = tree.as_entrypoint().tree.as_query();
    let specification = query.query_no_with.as_query_no_with().query_term.as_query_specification();
    let items = specification.select_items.as_list();
    assert!(items.start_delimiter.is_empty());
    assert!(items.end_delimiter.is_empty());
    assert_eq!(items.elements_and_separators.len(), 2);
    assert!(items.elements_and_separators[0].1.is_token());
    assert_eq!(items.elements_and_separators[0].1.as_token().token.kind, TokenKind::Comma);
    assert!(items.elements_and_separators[1].1.is_empty());
}

#[test]
fn children_are_in_source_order() {
    let input = chars("SELECT a + 1 AS x FROM t WHERE b IN (1, 2)");
    let (tree, errors) = parse_statement(&input);
    assert!(errors.is_empty());
    for subtree in visit_pre_order(&tree) {
        match subtree {
            ParseTree::Token(_) | ParseTree::Empty(_) | ParseTree::Error(_) => {}
            _ => {
                let mut from_children = Vec::new();
                for child in subtree.children() {
                    from_children.extend(leaf_tokens(child));
                }
                assert_eq!(leaf_tokens(subtree), from_children);
            }
        }
    }
}

fn statement_kind(tree: &ParseTree) -> &'static str {
    if tree.is_query() {
        "query"
    } else if tree.is_insert_into() {
        "insert"
    } else if tree.is_delete() {
        "delete"
    } else if tree.is_create_role() {
        "create role"
    } else if tree.is_create_view() {
        "create view"
    } else if tree.is_error() {
        "error"
    } else {
        "other"
    }
}

#[test]
fn statements_take_the_kind_their_first_token_gives() {
    for (text, kind) in [
        ("SELECT 1", "query"),
        ("VALUES 1", "query"),
        ("INSERT INTO t SELECT 1", "insert"),
        ("DELETE FROM t", "delete"),
        ("CREATE ROLE r", "create role"),
        ("CREATE VIEW v AS SELECT 1", "create view"),
        ("GRANT x", "error"),
    ] {
        let input = chars(text);
        let (tree, _errors) = parse_statement(&input);
        assert_eq!(statement_kind(&tree.as_entrypoint().tree), kind, "{}", text);
    }
}

#[test]
fn a_literal_expression_is_its_token() {
    let input = chars("SELECT 'x'");
    let (tree, errors) = parse_statement(&input);
    assert!(errors.is_empty());
    let query = tree.as_entrypoint().tree.as_query();
    let specification = query.query_no_with.as_query_no_with().query_term.as_query_specification();
    let item = specification.select_items.as_list().elements_and_separators[0].0.as_select_item();
    let literal = item.expression.as_literal();
    assert_eq!(literal.value.as_token().token.kind, TokenKind::String);
}

#[test]
fn create_statements_take_the_kind_the_second_token_gives() {
    for (text, kind) in [
        ("CREATE TABLE t (a bigint)", "create table"),
        ("CREATE TABLE t AS SELECT 1", "create table as select"),
        ("CREATE OR REPLACE VIEW v AS SELECT 1", "create view"),
        ("CREATE VIEW v AS SELECT 1", "create view"),
        ("CREATE ROLE r", "create role"),
        ("CREATE SCHEMA s", "error"),
        ("CREATE INDEX i", "error"),
    ] {
        let input = chars(text);
        let (tree, _errors) = parse_statement(&input);
        let statement = &tree.as_entrypoint().tree;
        let found = if statement.is_create_table() {
            "create table"
        } else if statement.is_create_table_as_select() {
            "create table as select"
        } else {
            statement_kind(statement)
        };
        assert_eq!(found, kind, "{}", text);
    }
}

#[test]
fn primary_expressions_take_the_form_their_first_token_gives() {
    for (text, expected) in [
        ("SELECT CURRENT_DATE", "literal"),
        ("SELECT CURRENT_USER", "literal"),
        ("SELECT (1, 2)", "row constructor"),
        ("SELECT (1)", "parenthesized"),
        ("SELECT (SELECT 1)", "subquery"),
        ("SELECT (a) -> a", "lambda"),
        ("SELECT x", "identifier"),
        ("SELECT \"x\"", "identifier"),
        ("SELECT f(x)", "function call"),
        ("SELECT ARRAY[1]", "array"),
        ("SELECT TRY_CAST(1 AS bigint)", "try cast"),
    ] {
        let input = chars(text);
        let (tree, errors) = parse_statement(&input);
        assert!(errors.is_empty(), "{}", text);
        let query = tree.as_entrypoint().tree.as_query();
        assert!(query.query_no_with.is_query_no_with());
        let specification = query.query_no_with.as_query_no_with().query_term.as_query_specification();
        let e = &specification.select_items.as_list().elements_and_separators[0].0.as_select_item().expression;
        let found = if e.is_literal() {
            "literal"
        } else if e.is_row_constructor() {
            "row constructor"
        } else if e.is_parenthesized_expression() {
            "parenthesized"
        } else if e.is_subquery_expression() {
            "subquery"
        } else if e.is_lambda() {
            "lambda"
        } else if e.is_identifier() {
            "identifier"
        } else if e.is_function_call() {
            "function call"
        } else if e.is_array() {
            "array"
        } else if e.is_try_cast() {
            "try cast"
        } else {
            "other"
        };
        assert_eq!(found, expected, "{}", text);
    }
}

#[test]
fn special_forms_and_lambdas_follow_the_tokens_ahead() {
    for (text, expected) in [
        ("SELECT POSITION('a' IN 'b')", "position"),
        ("SELECT position", "identifier"),
        ("SELECT ROW(1, 2)", "row"),
        ("SELECT SUBSTRING('a' FROM 1)", "substring"),
        ("SELECT INTERVAL '1' DAY", "interval"),
        ("SELECT (a, b) -> a", "lambda"),
        ("SELECT () -> 1", "lambda"),
        ("SELECT a -> a", "lambda"),
        ("SELECT x.y.f(1)", "function call"),
        ("SELECT x.y", "other"),
    ] {
        let input = chars(text);
        let (tree, errors) = parse_statement(&input);
        assert!(errors.is_empty(), "{}", text);
        let query = tree.as_entrypoint().tree.as_query();
        let specification = query.query_no_with.as_query_no_with().query_term.as_query_specification();
        let e = &specification.select_items.as_list().elements_and_separators[0].0.as_select_item().expression;
        let found = if e.is_position() {
            "position"
        } else if e.is_identifier() {
            "identifier"
        } else if e.is_row() {
            "row"
        } else if e.is_substring() {
            "substring"
        } else if e.is_interval() {
            "interval"
        } else if e.is_lambda() {
            "lambda"
        } else if e.is_function_call() {
            "function call"
        } else {
            "other"
        };
        assert_eq!(found, expected, "{}", text);
    }
}

#[test]
fn a_cloned_tree_holds_the_same_tokens() {
    let input = chars("SELECT a, f(b) FROM t WHERE x IS NOT DISTINCT FROM y");
    let (tree, _errors) = parse_statement(&input);
    let copy = tree.clone();
    assert_eq!(leaf_tokens(&copy), leaf_tokens(&tree));
    assert_eq!(visit_pre_order(&copy).len(), visit_pre_order(&tree).len());
}

#[test]
fn query_terms_take_the_form_their_first_token_gives() {
    for (text, expected) in [
        ("SELECT 1", "specification"),
        ("TABLE t", "table"),
        ("VALUES 1, 2", "inline table"),
        ("(SELECT 1)", "subquery"),
        ("SELECT 1 UNION SELECT 2", "set operation"),
        ("VALUES 1 INTERSECT VALUES 2", "set operation"),
    ] {
        let input = chars(text);
        let (tree, errors) = parse_statement(&input);
        assert!(errors.is_empty(), "{}", text);
        let query = tree.as_entrypoint().tree.as_query();
        let term = &query.query_no_with.as_query_no_with().query_term;
        let found = if term.is_query_specification() {
            "specification"
        } else if term.is_table() {
            "table"
        } else if term.is_inline_table() {
            "inline table"
        } else if term.is_subquery() {
            "subquery"
        } else if term.is_query_set_operation() {
            "set operation"
        } else {
            "other"
        };
        assert_eq!(found, expected, "{}", text);
    }
}
