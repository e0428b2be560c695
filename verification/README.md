# presto_parser

A lexer and a recursive descent parser for the Presto SQL dialect, written in
Verus and proved correct against contracts.

## Layout

- `src/utils`: positions, text ranges, syntax errors and string building.
- `src/lexing`: characters, token kinds, keywords and predefined names, the
  lexical grammar as spec functions (`grammar.rs`), and the lexer, whose
  `lex_token` is proved to produce the lexeme that the grammar describes.
- `src/parsing`: the parse trees (`parse_tree.rs` and the three tree modules),
  the token stream a parser reads (`parse_position.rs`), the parser
  (`parser.rs`), walks over trees (`tree_walk.rs`,
  `parse_tree_visitor.rs`), laws of trees (`laws.rs`), where trees start
  and end with their comments (`extent.rs`), and why a parse without errors
  keeps every token (`completeness.rs`).
- `tests`: tests of the lexer and the parser.
- `app`: the command line driver, which reads files and prints results.

## What is proved

- Every parse function terminates: recursion is bounded by what is left to
  read and by the nesting of the grammar's productions.
- The tokens a parse consumes are exactly the tokens of the tree it returns,
  in order, whenever the tree holds no error tree. For such a tree,
  `parse_statement` returns every token of the input: after the beginning of
  file, the tree's tokens are the tokens the lexical grammar reads from the
  input, one after the other, up to the end of file. A parse that reports no
  error returns such a tree.
- Which primary expression is built follows from the tokens ahead, as the
  lexical grammar reads them: the special forms (POSITION, ROW, TRY_CAST,
  SUBSTRING, ARRAY, INTERVAL), lambdas, type constructors, function calls and
  plain identifiers.
- `parse_statement` builds the statement its first token calls for: a query
  built on the query term that token starts (a query specification, a table,
  an inline table, a subquery, or a set operation over them), a create
  statement of the kind the token after CREATE calls for (an error only where
  that token starts no create statement that is parsed), an insert, a delete,
  or else an error.
- Parse trees can be copied (`clone_tree`).
- Looking ahead never consumes input.
- The children of a tree are in source order: the tokens of a tree are the
  tokens of its children, one child after the other.
- The visitors hand out every subtree once, in pre-order or in post-order.
- The errors `parse_statement` returns include every error within the tree,
  and are sorted by range; errors with equal ranges keep their order.
- The lexer yields, at each step, the lexeme that the lexical grammar
  specifies, with the source text at its range as its value, and resumes at
  the next token. `lex_all` returns exactly the lexemes the grammar reads
  from the input, one after another, up to the end of file.
- Comments attach as the grammar says: a token's trailing comments are those
  that finish its line; the others lead the next token. A token's full start
  is at or before its start and its full end at or after its end, and so for
  every tree whose tokens the lexer made.
- Unterminated strings, quoted identifiers, back-quoted identifiers and
  delimited comments, a lone `!` or `|`, and characters that start no token
  each report one error, with its code, its message and its range.
