//! The kinds of lexical tokens.
use vstd::prelude::*;

verus! {

/// The kind of a lexical token.
#[allow(non_camel_case_types)]
#[derive(Clone, Copy, Debug, PartialEq, Eq, Structural, Hash)]
pub enum TokenKind {
    // Common kinds
    BeginningOfFile,
    EndOfFile,
    Error,
    // operators and punctuators
    OpenParen,
    CloseParen,
    Comma,
    Period,
    OpenAngle,
    CloseAngle,
    OpenSquare,
    CloseSquare,
    Equal,
    LessGreater,
    BangEqual,
    LessEqual,
    GreaterEqual,
    Plus,
    Minus,
    Asterisk,
    Slash,
    Percent,
    BarBar,
    DoubleArrow,
    Arrow,
    Question,
    // literals
    String,
    UnicodeString,
    BinaryLiteral,
    Integer,
    Decimal,
    Double,
    // identifiers
    Identifier,
    QuotedIdentifier,
    BackquotedIdentifier,
    DigitIdentifier,
    // multi-word type names
    DoublePrecision,
    TimeWithTimeZone,
    TimestampWithTimeZone,
    // reserved words
    ALTER,
    AND,
    AS,
    BETWEEN,
    BY,
    CASE,
    CAST,
    CONFIGURE,
    CONSTRAINT,
    CREATE,
    CROSS,
    CUBE,
    CURRENT_DATE,
    CURRENT_PATH,
    CURRENT_TIME,
    CURRENT_TIMESTAMP,
    CURRENT_USER,
    DEALLOCATE,
    DELETE,
    DESCRIBE,
    DISTINCT,
    DROP,
    ELSE,
    END,
    ESCAPE,
    EXCEPT,
    EXECUTE,
    EXISTS,
    EXTRACT,
    FALSE,
    FOR,
    FROM,
    FULL,
    GROUP,
    GROUPING,
    HAVING,
    IN,
    INNER,
    INSERT,
    INTERSECT,
    INTO,
    IS,
    JOIN,
    LEFT,
    LIKE,
    LOCALTIME,
    LOCALTIMESTAMP,
    NATURAL,
    NORMALIZE,
    NOT,
    NULL,
    ON,
    OR,
    ORDER,
    OUTER,
    PREPARE,
    RECURSIVE,
    RIGHT,
    ROLLUP,
    SELECT,
    TABLE,
    THEN,
    TRUE,
    UESCAPE,
    UNION,
    UNNEST,
    USING,
    VALUES,
    WHEN,
    WHERE,
    WITH,
}

/// The text of a reserved word kind, in upper case; empty for other kinds.
pub open spec fn spec_keyword_text(kind: TokenKind) -> Seq<char> {
    match kind {
        TokenKind::ALTER => seq!['A', 'L', 'T', 'E', 'R'],
        TokenKind::AND => seq!['A', 'N', 'D'],
        TokenKind::AS => seq!['A', 'S'],
        TokenKind::BETWEEN => seq!['B', 'E', 'T', 'W', 'E', 'E', 'N'],
        TokenKind::BY => seq!['B', 'Y'],
        TokenKind::CASE => seq!['C', 'A', 'S', 'E'],
        TokenKind::CAST => seq!['C', 'A', 'S', 'T'],
        TokenKind::CONFIGURE => seq!['C', 'O', 'N', 'F', 'I', 'G', 'U', 'R', 'E'],
        TokenKind::CONSTRAINT => seq!['C', 'O', 'N', 'S', 'T', 'R', 'A', 'I', 'N', 'T'],
        TokenKind::CREATE => seq!['C', 'R', 'E', 'A', 'T', 'E'],
        TokenKind::CROSS => seq!['C', 'R', 'O', 'S', 'S'],
        TokenKind::CUBE => seq!['C', 'U', 'B', 'E'],
        TokenKind::CURRENT_DATE => seq!['C', 'U', 'R', 'R', 'E', 'N', 'T', '_', 'D', 'A', 'T', 'E'],
        TokenKind::CURRENT_PATH => seq!['C', 'U', 'R', 'R', 'E', 'N', 'T', '_', 'P', 'A', 'T', 'H'],
        TokenKind::CURRENT_TIME => seq!['C', 'U', 'R', 'R', 'E', 'N', 'T', '_', 'T', 'I', 'M', 'E'],
        TokenKind::CURRENT_TIMESTAMP => seq!['C', 'U', 'R', 'R', 'E', 'N', 'T', '_', 'T', 'I', 'M', 'E', 'S', 'T', 'A', 'M', 'P'],
        TokenKind::CURRENT_USER => seq!['C', 'U', 'R', 'R', 'E', 'N', 'T', '_', 'U', 'S', 'E', 'R'],
        TokenKind::DEALLOCATE => seq!['D', 'E', 'A', 'L', 'L', 'O', 'C', 'A', 'T', 'E'],
        TokenKind::DELETE => seq!['D', 'E', 'L', 'E', 'T', 'E'],
        TokenKind::DESCRIBE => seq!['D', 'E', 'S', 'C', 'R', 'I', 'B', 'E'],
        TokenKind::DISTINCT => seq!['D', 'I', 'S', 'T', 'I', 'N', 'C', 'T'],
        TokenKind::DROP => seq!['D', 'R', 'O', 'P'],
        TokenKind::ELSE => seq!['E', 'L', 'S', 'E'],
        TokenKind::END => seq!['E', 'N', 'D'],
        TokenKind::ESCAPE => seq!['E', 'S', 'C', 'A', 'P', 'E'],
        TokenKind::EXCEPT => seq!['E', 'X', 'C', 'E', 'P', 'T'],
        TokenKind::EXECUTE => seq!['E', 'X', 'E', 'C', 'U', 'T', 'E'],
        TokenKind::EXISTS => seq!['E', 'X', 'I', 'S', 'T', 'S'],
        TokenKind::EXTRACT => seq!['E', 'X', 'T', 'R', 'A', 'C', 'T'],
        TokenKind::FALSE => seq!['F', 'A', 'L', 'S', 'E'],
        TokenKind::FOR => seq!['F', 'O', 'R'],
        TokenKind::FROM => seq!['F', 'R', 'O', 'M'],
        TokenKind::FULL => seq!['F', 'U', 'L', 'L'],
        TokenKind::GROUP => seq!['G', 'R', 'O', 'U', 'P'],
        TokenKind::GROUPING => seq!['G', 'R', 'O', 'U', 'P', 'I', 'N', 'G'],
        TokenKind::HAVING => seq!['H', 'A', 'V', 'I', 'N', 'G'],
        TokenKind::IN => seq!['I', 'N'],
        TokenKind::INNER => seq!['I', 'N', 'N', 'E', 'R'],
        TokenKind::INSERT => seq!['I', 'N', 'S', 'E', 'R', 'T'],
        TokenKind::INTERSECT => seq!['I', 'N', 'T', 'E', 'R', 'S', 'E', 'C', 'T'],
        TokenKind::INTO => seq!['I', 'N', 'T', 'O'],
        TokenKind::IS => seq!['I', 'S'],
        TokenKind::JOIN => seq!['J', 'O', 'I', 'N'],
        TokenKind::LEFT => seq!['L', 'E', 'F', 'T'],
        TokenKind::LIKE => seq!['L', 'I', 'K', 'E'],
        TokenKind::LOCALTIME => seq!['L', 'O', 'C', 'A', 'L', 'T', 'I', 'M', 'E'],
        TokenKind::LOCALTIMESTAMP => seq!['L', 'O', 'C', 'A', 'L', 'T', 'I', 'M', 'E', 'S', 'T', 'A', 'M', 'P'],
        TokenKind::NATURAL => seq!['N', 'A', 'T', 'U', 'R', 'A', 'L'],
        TokenKind::NORMALIZE => seq!['N', 'O', 'R', 'M', 'A', 'L', 'I', 'Z', 'E'],
        TokenKind::NOT => seq!['N', 'O', 'T'],
        TokenKind::NULL => seq!['N', 'U', 'L', 'L'],
        TokenKind::ON => seq!['O', 'N'],
        TokenKind::OR => seq!['O', 'R'],
        TokenKind::ORDER => seq!['O', 'R', 'D', 'E', 'R'],
        TokenKind::OUTER => seq!['O', 'U', 'T', 'E', 'R'],
        TokenKind::PREPARE => seq!['P', 'R', 'E', 'P', 'A', 'R', 'E'],
        TokenKind::RECURSIVE => seq!['R', 'E', 'C', 'U', 'R', 'S', 'I', 'V', 'E'],
        TokenKind::RIGHT => seq!['R', 'I', 'G', 'H', 'T'],
        TokenKind::ROLLUP => seq!['R', 'O', 'L', 'L', 'U', 'P'],
        TokenKind::SELECT => seq!['S', 'E', 'L', 'E', 'C', 'T'],
        TokenKind::TABLE => seq!['T', 'A', 'B', 'L', 'E'],
        TokenKind::THEN => seq!['T', 'H', 'E', 'N'],
        TokenKind::TRUE => seq!['T', 'R', 'U', 'E'],
        TokenKind::UESCAPE => seq!['U', 'E', 'S', 'C', 'A', 'P', 'E'],
        TokenKind::UNION => seq!['U', 'N', 'I', 'O', 'N'],
        TokenKind::UNNEST => seq!['U', 'N', 'N', 'E', 'S', 'T'],
        TokenKind::USING => seq!['U', 'S', 'I', 'N', 'G'],
        TokenKind::VALUES => seq!['V', 'A', 'L', 'U', 'E', 'S'],
        TokenKind::WHEN => seq!['W', 'H', 'E', 'N'],
        TokenKind::WHERE => seq!['W', 'H', 'E', 'R', 'E'],
        TokenKind::WITH => seq!['W', 'I', 'T', 'H'],
        _ => Seq::empty(),
    }
}

/// The reserved words, in the order in which they are looked up.
pub open spec fn keyword_kinds() -> Seq<TokenKind> {
    seq![
        TokenKind::ALTER,
        TokenKind::AND,
        TokenKind::AS,
        TokenKind::BETWEEN,
        TokenKind::BY,
        TokenKind::CASE,
        TokenKind::CAST,
        TokenKind::CONFIGURE,
        TokenKind::CONSTRAINT,
        TokenKind::CREATE,
        TokenKind::CROSS,
        TokenKind::CUBE,
        TokenKind::CURRENT_DATE,
        TokenKind::CURRENT_PATH,
        TokenKind::CURRENT_TIME,
        TokenKind::CURRENT_TIMESTAMP,
        TokenKind::CURRENT_USER,
        TokenKind::DEALLOCATE,
        TokenKind::DELETE,
        TokenKind::DESCRIBE,
        TokenKind::DISTINCT,
        TokenKind::DROP,
        TokenKind::ELSE,
        TokenKind::END,
        TokenKind::ESCAPE,
        TokenKind::EXCEPT,
        TokenKind::EXECUTE,
        TokenKind::EXISTS,
        TokenKind::EXTRACT,
        TokenKind::FALSE,
        TokenKind::FOR,
        TokenKind::FROM,
        TokenKind::FULL,
        TokenKind::GROUP,
        TokenKind::GROUPING,
        TokenKind::HAVING,
        TokenKind::IN,
        TokenKind::INNER,
        TokenKind::INSERT,
        TokenKind::INTERSECT,
        TokenKind::INTO,
        TokenKind::IS,
        TokenKind::JOIN,
        TokenKind::LEFT,
        TokenKind::LIKE,
        TokenKind::LOCALTIME,
        TokenKind::LOCALTIMESTAMP,
        TokenKind::NATURAL,
        TokenKind::NORMALIZE,
        TokenKind::NOT,
        TokenKind::NULL,
        TokenKind::ON,
        TokenKind::OR,
        TokenKind::ORDER,
        TokenKind::OUTER,
        TokenKind::PREPARE,
        TokenKind::RECURSIVE,
        TokenKind::RIGHT,
        TokenKind::ROLLUP,
        TokenKind::SELECT,
        TokenKind::TABLE,
        TokenKind::THEN,
        TokenKind::TRUE,
        TokenKind::UESCAPE,
        TokenKind::UNION,
        TokenKind::UNNEST,
        TokenKind::USING,
        TokenKind::VALUES,
        TokenKind::WHEN,
        TokenKind::WHERE,
        TokenKind::WITH,
    ]
}

/// The name of a token kind as used in messages.
pub open spec fn spec_kind_name(kind: TokenKind) -> Seq<char> {
    match kind {
        TokenKind::BeginningOfFile => seq!['B', 'e', 'g', 'i', 'n', 'n', 'i', 'n', 'g', 'O', 'f', 'F', 'i', 'l', 'e'],
        TokenKind::EndOfFile => seq!['E', 'n', 'd', 'O', 'f', 'F', 'i', 'l', 'e'],
        TokenKind::Error => seq!['E', 'r', 'r', 'o', 'r'],
        TokenKind::OpenParen => seq!['O', 'p', 'e', 'n', 'P', 'a', 'r', 'e', 'n'],
        TokenKind::CloseParen => seq!['C', 'l', 'o', 's', 'e', 'P', 'a', 'r', 'e', 'n'],
        TokenKind::Comma => seq!['C', 'o', 'm', 'm', 'a'],
        TokenKind::Period => seq!['P', 'e', 'r', 'i', 'o', 'd'],
        TokenKind::OpenAngle => seq!['O', 'p', 'e', 'n', 'A', 'n', 'g', 'l', 'e'],
        TokenKind::CloseAngle => seq!['C', 'l', 'o', 's', 'e', 'A', 'n', 'g', 'l', 'e'],
        TokenKind::OpenSquare => seq!['O', 'p', 'e', 'n', 'S', 'q', 'u', 'a', 'r', 'e'],
        TokenKind::CloseSquare => seq!['C', 'l', 'o', 's', 'e', 'S', 'q', 'u', 'a', 'r', 'e'],
        TokenKind::Equal => seq!['E', 'q', 'u', 'a', 'l'],
        TokenKind::LessGreater => seq!['L', 'e', 's', 's', 'G', 'r', 'e', 'a', 't', 'e', 'r'],
        TokenKind::BangEqual => seq!['B', 'a', 'n', 'g', 'E', 'q', 'u', 'a', 'l'],
        TokenKind::LessEqual => seq!['L', 'e', 's', 's', 'E', 'q', 'u', 'a', 'l'],
        TokenKind::GreaterEqual => seq!['G', 'r', 'e', 'a', 't', 'e', 'r', 'E', 'q', 'u', 'a', 'l'],
        TokenKind::Plus => seq!['P', 'l', 'u', 's'],
        TokenKind::Minus => seq!['M', 'i', 'n', 'u', 's'],
        TokenKind::Asterisk => seq!['A', 's', 't', 'e', 'r', 'i', 's', 'k'],
        TokenKind::Slash => seq!['S', 'l', 'a', 's', 'h'],
        TokenKind::Percent => seq!['P', 'e', 'r', 'c', 'e', 'n', 't'],
        TokenKind::BarBar => seq!['B', 'a', 'r', 'B', 'a', 'r'],
        TokenKind::DoubleArrow => seq!['D', 'o', 'u', 'b', 'l', 'e', 'A', 'r', 'r', 'o', 'w'],
        TokenKind::Arrow => seq!['A', 'r', 'r', 'o', 'w'],
        TokenKind::Question => seq!['Q', 'u', 'e', 's', 't', 'i', 'o', 'n'],
        TokenKind::String => seq!['S', 't', 'r', 'i', 'n', 'g'],
        TokenKind::UnicodeString => seq!['U', 'n', 'i', 'c', 'o', 'd', 'e', 'S', 't', 'r', 'i', 'n', 'g'],
        TokenKind::BinaryLiteral => seq!['B', 'i', 'n', 'a', 'r', 'y', 'L', 'i', 't', 'e', 'r', 'a', 'l'],
        TokenKind::Integer => seq!['I', 'n', 't', 'e', 'g', 'e', 'r'],
        TokenKind::Decimal => seq!['D', 'e', 'c', 'i', 'm', 'a', 'l'],
        TokenKind::Double => seq!['D', 'o', 'u', 'b', 'l', 'e'],
        TokenKind::Identifier => seq!['I', 'd', 'e', 'n', 't', 'i', 'f', 'i', 'e', 'r'],
        TokenKind::QuotedIdentifier => seq!['Q', 'u', 'o', 't', 'e', 'd', 'I', 'd', 'e', 'n', 't', 'i', 'f', 'i', 'e', 'r'],
        TokenKind::BackquotedIdentifier => seq!['B', 'a', 'c', 'k', 'q', 'u', 'o', 't', 'e', 'd', 'I', 'd', 'e', 'n', 't', 'i', 'f', 'i', 'e', 'r'],
        TokenKind::DigitIdentifier => seq!['D', 'i', 'g', 'i', 't', 'I', 'd', 'e', 'n', 't', 'i', 'f', 'i', 'e', 'r'],
        TokenKind::DoublePrecision => seq!['D', 'o', 'u', 'b', 'l', 'e', 'P', 'r', 'e', 'c', 'i', 's', 'i', 'o', 'n'],
        TokenKind::TimeWithTimeZone => seq!['T', 'i', 'm', 'e', 'W', 'i', 't', 'h', 'T', 'i', 'm', 'e', 'Z', 'o', 'n', 'e'],
        TokenKind::TimestampWithTimeZone => seq!['T', 'i', 'm', 'e', 's', 't', 'a', 'm', 'p', 'W', 'i', 't', 'h', 'T', 'i', 'm', 'e', 'Z', 'o', 'n', 'e'],
        TokenKind::ALTER => seq!['A', 'L', 'T', 'E', 'R'],
        TokenKind::AND => seq!['A', 'N', 'D'],
        TokenKind::AS => seq!['A', 'S'],
        TokenKind::BETWEEN => seq!['B', 'E', 'T', 'W', 'E', 'E', 'N'],
        TokenKind::BY => seq!['B', 'Y'],
        TokenKind::CASE => seq!['C', 'A', 'S', 'E'],
        TokenKind::CAST => seq!['C', 'A', 'S', 'T'],
        TokenKind::CONFIGURE => seq!['C', 'O', 'N', 'F', 'I', 'G', 'U', 'R', 'E'],
        TokenKind::CONSTRAINT => seq!['C', 'O', 'N', 'S', 'T', 'R', 'A', 'I', 'N', 'T'],
        TokenKind::CREATE => seq!['C', 'R', 'E', 'A', 'T', 'E'],
        TokenKind::CROSS => seq!['C', 'R', 'O', 'S', 'S'],
        TokenKind::CUBE => seq!['C', 'U', 'B', 'E'],
        TokenKind::CURRENT_DATE => seq!['C', 'U', 'R', 'R', 'E', 'N', 'T', '_', 'D', 'A', 'T', 'E'],
        TokenKind::CURRENT_PATH => seq!['C', 'U', 'R', 'R', 'E', 'N', 'T', '_', 'P', 'A', 'T', 'H'],
        TokenKind::CURRENT_TIME => seq!['C', 'U', 'R', 'R', 'E', 'N', 'T', '_', 'T', 'I', 'M', 'E'],
        TokenKind::CURRENT_TIMESTAMP => seq!['C', 'U', 'R', 'R', 'E', 'N', 'T', '_', 'T', 'I', 'M', 'E', 'S', 'T', 'A', 'M', 'P'],
        TokenKind::CURRENT_USER => seq!['C', 'U', 'R', 'R', 'E', 'N', 'T', '_', 'U', 'S', 'E', 'R'],
        TokenKind::DEALLOCATE => seq!['D', 'E', 'A', 'L', 'L', 'O', 'C', 'A', 'T', 'E'],
        TokenKind::DELETE => seq!['D', 'E', 'L', 'E', 'T', 'E'],
        TokenKind::DESCRIBE => seq!['D', 'E', 'S', 'C', 'R', 'I', 'B', 'E'],
        TokenKind::DISTINCT => seq!['D', 'I', 'S', 'T', 'I', 'N', 'C', 'T'],
        TokenKind::DROP => seq!['D', 'R', 'O', 'P'],
        TokenKind::ELSE => seq!['E', 'L', 'S', 'E'],
        TokenKind::END => seq!['E', 'N', 'D'],
        TokenKind::ESCAPE => seq!['E', 'S', 'C', 'A', 'P', 'E'],
        TokenKind::EXCEPT => seq!['E', 'X', 'C', 'E', 'P', 'T'],
        TokenKind::EXECUTE => seq!['E', 'X', 'E', 'C', 'U', 'T', 'E'],
        TokenKind::EXISTS => seq!['E', 'X', 'I', 'S', 'T', 'S'],
        TokenKind::EXTRACT => seq!['E', 'X', 'T', 'R', 'A', 'C', 'T'],
        TokenKind::FALSE => seq!['F', 'A', 'L', 'S', 'E'],
        TokenKind::FOR => seq!['F', 'O', 'R'],
        TokenKind::FROM => seq!['F', 'R', 'O', 'M'],
        TokenKind::FULL => seq!['F', 'U', 'L', 'L'],
        TokenKind::GROUP => seq!['G', 'R', 'O', 'U', 'P'],
        TokenKind::GROUPING => seq!['G', 'R', 'O', 'U', 'P', 'I', 'N', 'G'],
        TokenKind::HAVING => seq!['H', 'A', 'V', 'I', 'N', 'G'],
        TokenKind::IN => seq!['I', 'N'],
        TokenKind::INNER => seq!['I', 'N', 'N', 'E', 'R'],
        TokenKind::INSERT => seq!['I', 'N', 'S', 'E', 'R', 'T'],
        TokenKind::INTERSECT => seq!['I', 'N', 'T', 'E', 'R', 'S', 'E', 'C', 'T'],
        TokenKind::INTO => seq!['I', 'N', 'T', 'O'],
        TokenKind::IS => seq!['I', 'S'],
        TokenKind::JOIN => seq!['J', 'O', 'I', 'N'],
        TokenKind::LEFT => seq!['L', 'E', 'F', 'T'],
        TokenKind::LIKE => seq!['L', 'I', 'K', 'E'],
        TokenKind::LOCALTIME => seq!['L', 'O', 'C', 'A', 'L', 'T', 'I', 'M', 'E'],
        TokenKind::LOCALTIMESTAMP => seq!['L', 'O', 'C', 'A', 'L', 'T', 'I', 'M', 'E', 'S', 'T', 'A', 'M', 'P'],
        TokenKind::NATURAL => seq!['N', 'A', 'T', 'U', 'R', 'A', 'L'],
        TokenKind::NORMALIZE => seq!['N', 'O', 'R', 'M', 'A', 'L', 'I', 'Z', 'E'],
        TokenKind::NOT => seq!['N', 'O', 'T'],
        TokenKind::NULL => seq!['N', 'U', 'L', 'L'],
        TokenKind::ON => seq!['O', 'N'],
        TokenKind::OR => seq!['O', 'R'],
        TokenKind::ORDER => seq!['O', 'R', 'D', 'E', 'R'],
        TokenKind::OUTER => seq!['O', 'U', 'T', 'E', 'R'],
        TokenKind::PREPARE => seq!['P', 'R', 'E', 'P', 'A', 'R', 'E'],
        TokenKind::RECURSIVE => seq!['R', 'E', 'C', 'U', 'R', 'S', 'I', 'V', 'E'],
        TokenKind::RIGHT => seq!['R', 'I', 'G', 'H', 'T'],
        TokenKind::ROLLUP => seq!['R', 'O', 'L', 'L', 'U', 'P'],
        TokenKind::SELECT => seq!['S', 'E', 'L', 'E', 'C', 'T'],
        TokenKind::TABLE => seq!['T', 'A', 'B', 'L', 'E'],
        TokenKind::THEN => seq!['T', 'H', 'E', 'N'],
        TokenKind::TRUE => seq!['T', 'R', 'U', 'E'],
        TokenKind::UESCAPE => seq!['U', 'E', 'S', 'C', 'A', 'P', 'E'],
        TokenKind::UNION => seq!['U', 'N', 'I', 'O', 'N'],
        TokenKind::UNNEST => seq!['U', 'N', 'N', 'E', 'S', 'T'],
        TokenKind::USING => seq!['U', 'S', 'I', 'N', 'G'],
        TokenKind::VALUES => seq!['V', 'A', 'L', 'U', 'E', 'S'],
        TokenKind::WHEN => seq!['W', 'H', 'E', 'N'],
        TokenKind::WHERE => seq!['W', 'H', 'E', 'R', 'E'],
        TokenKind::WITH => seq!['W', 'I', 'T', 'H'],
    }
}

/// Is the kind one whose text varies from token to token?
pub open spec fn spec_is_complex(kind: TokenKind) -> bool {
    match kind {
        TokenKind::String
        | TokenKind::UnicodeString
        | TokenKind::BinaryLiteral
        | TokenKind::Decimal
        | TokenKind::Double
        | TokenKind::Identifier
        | TokenKind::QuotedIdentifier
        | TokenKind::BackquotedIdentifier => true,
        _ => false,
    }
}

impl TokenKind {
    /// Is this kind a reserved word?
    pub fn is_keyword(&self) -> (r: bool)
        ensures
            r == (spec_keyword_text(*self).len() > 0),
    {
        match self {
            TokenKind::ALTER
            | TokenKind::AND
            | TokenKind::AS
            | TokenKind::BETWEEN
            | TokenKind::BY
            | TokenKind::CASE
            | TokenKind::CAST
            | TokenKind::CONFIGURE
            | TokenKind::CONSTRAINT
            | TokenKind::CREATE
            | TokenKind::CROSS
            | TokenKind::CUBE
            | TokenKind::CURRENT_DATE
            | TokenKind::CURRENT_PATH
            | TokenKind::CURRENT_TIME
            | TokenKind::CURRENT_TIMESTAMP
            | TokenKind::CURRENT_USER
            | TokenKind::DEALLOCATE
            | TokenKind::DELETE
            | TokenKind::DESCRIBE
            | TokenKind::DISTINCT
            | TokenKind::DROP
            | TokenKind::ELSE
            | TokenKind::END
            | TokenKind::ESCAPE
            | TokenKind::EXCEPT
            | TokenKind::EXECUTE
            | TokenKind::EXISTS
            | TokenKind::EXTRACT
            | TokenKind::FALSE
            | TokenKind::FOR
            | TokenKind::FROM
            | TokenKind::FULL
            | TokenKind::GROUP
            | TokenKind::GROUPING
            | TokenKind::HAVING
            | TokenKind::IN
            | TokenKind::INNER
            | TokenKind::INSERT
            | TokenKind::INTERSECT
            | TokenKind::INTO
            | TokenKind::IS
            | TokenKind::JOIN
            | TokenKind::LEFT
            | TokenKind::LIKE
            | TokenKind::LOCALTIME
            | TokenKind::LOCALTIMESTAMP
            | TokenKind::NATURAL
            | TokenKind::NORMALIZE
            | TokenKind::NOT
            | TokenKind::NULL
            | TokenKind::ON
            | TokenKind::OR
            | TokenKind::ORDER
            | TokenKind::OUTER
            | TokenKind::PREPARE
            | TokenKind::RECURSIVE
            | TokenKind::RIGHT
            | TokenKind::ROLLUP
            | TokenKind::SELECT
            | TokenKind::TABLE
            | TokenKind::THEN
            | TokenKind::TRUE
            | TokenKind::UESCAPE
            | TokenKind::UNION
            | TokenKind::UNNEST
            | TokenKind::USING
            | TokenKind::VALUES
            | TokenKind::WHEN
            | TokenKind::WHERE
            | TokenKind::WITH => true,
            _ => false,
        }
    }

    /// Is this a kind whose text varies from token to token?
    pub fn is_complex(&self) -> (r: bool)
        ensures
            r == spec_is_complex(*self),
    {
        match self {
            TokenKind::String
            | TokenKind::UnicodeString
            | TokenKind::BinaryLiteral
            | TokenKind::Decimal
            | TokenKind::Double
            | TokenKind::Identifier
            | TokenKind::QuotedIdentifier
            | TokenKind::BackquotedIdentifier => true,
            _ => false,
        }
    }

    /// Is this a kind whose text is fixed?
    pub fn is_simple(&self) -> (r: bool)
        ensures
            r == !spec_is_complex(*self),
    {
        return !self.is_complex();
    }

    /// The text of a reserved word, in upper case; empty for other kinds.
    pub fn keyword_text(&self) -> (r: &'static [char])
        ensures
            r@ == spec_keyword_text(*self),
    {
        match self {
            TokenKind::ALTER => &['A', 'L', 'T', 'E', 'R'],
            TokenKind::AND => &['A', 'N', 'D'],
            TokenKind::AS => &['A', 'S'],
            TokenKind::BETWEEN => &['B', 'E', 'T', 'W', 'E', 'E', 'N'],
            TokenKind::BY => &['B', 'Y'],
            TokenKind::CASE => &['C', 'A', 'S', 'E'],
            TokenKind::CAST => &['C', 'A', 'S', 'T'],
            TokenKind::CONFIGURE => &['C', 'O', 'N', 'F', 'I', 'G', 'U', 'R', 'E'],
            TokenKind::CONSTRAINT => &['C', 'O', 'N', 'S', 'T', 'R', 'A', 'I', 'N', 'T'],
            TokenKind::CREATE => &['C', 'R', 'E', 'A', 'T', 'E'],
            TokenKind::CROSS => &['C', 'R', 'O', 'S', 'S'],
            TokenKind::CUBE => &['C', 'U', 'B', 'E'],
            TokenKind::CURRENT_DATE => &['C', 'U', 'R', 'R', 'E', 'N', 'T', '_', 'D', 'A', 'T', 'E'],
            TokenKind::CURRENT_PATH => &['C', 'U', 'R', 'R', 'E', 'N', 'T', '_', 'P', 'A', 'T', 'H'],
            TokenKind::CURRENT_TIME => &['C', 'U', 'R', 'R', 'E', 'N', 'T', '_', 'T', 'I', 'M', 'E'],
            TokenKind::CURRENT_TIMESTAMP => &['C', 'U', 'R', 'R', 'E', 'N', 'T', '_', 'T', 'I', 'M', 'E', 'S', 'T', 'A', 'M', 'P'],
            TokenKind::CURRENT_USER => &['C', 'U', 'R', 'R', 'E', 'N', 'T', '_', 'U', 'S', 'E', 'R'],
            TokenKind::DEALLOCATE => &['D', 'E', 'A', 'L', 'L', 'O', 'C', 'A', 'T', 'E'],
            TokenKind::DELETE => &['D', 'E', 'L', 'E', 'T', 'E'],
            TokenKind::DESCRIBE => &['D', 'E', 'S', 'C', 'R', 'I', 'B', 'E'],
            TokenKind::DISTINCT => &['D', 'I', 'S', 'T', 'I', 'N', 'C', 'T'],
            TokenKind::DROP => &['D', 'R', 'O', 'P'],
            TokenKind::ELSE => &['E', 'L', 'S', 'E'],
            TokenKind::END => &['E', 'N', 'D'],
            TokenKind::ESCAPE => &['E', 'S', 'C', 'A', 'P', 'E'],
            TokenKind::EXCEPT => &['E', 'X', 'C', 'E', 'P', 'T'],
            TokenKind::EXECUTE => &['E', 'X', 'E', 'C', 'U', 'T', 'E'],
            TokenKind::EXISTS => &['E', 'X', 'I', 'S', 'T', 'S'],
            TokenKind::EXTRACT => &['E', 'X', 'T', 'R', 'A', 'C', 'T'],
            TokenKind::FALSE => &['F', 'A', 'L', 'S', 'E'],
            TokenKind::FOR => &['F', 'O', 'R'],
            TokenKind::FROM => &['F', 'R', 'O', 'M'],
            TokenKind::FULL => &['F', 'U', 'L', 'L'],
            TokenKind::GROUP => &['G', 'R', 'O', 'U', 'P'],
            TokenKind::GROUPING => &['G', 'R', 'O', 'U', 'P', 'I', 'N', 'G'],
            TokenKind::HAVING => &['H', 'A', 'V', 'I', 'N', 'G'],
            TokenKind::IN => &['I', 'N'],
            TokenKind::INNER => &['I', 'N', 'N', 'E', 'R'],
            TokenKind::INSERT => &['I', 'N', 'S', 'E', 'R', 'T'],
            TokenKind::INTERSECT => &['I', 'N', 'T', 'E', 'R', 'S', 'E', 'C', 'T'],
            TokenKind::INTO => &['I', 'N', 'T', 'O'],
            TokenKind::IS => &['I', 'S'],
            TokenKind::JOIN => &['J', 'O', 'I', 'N'],
            TokenKind::LEFT => &['L', 'E', 'F', 'T'],
            TokenKind::LIKE => &['L', 'I', 'K', 'E'],
            TokenKind::LOCALTIME => &['L', 'O', 'C', 'A', 'L', 'T', 'I', 'M', 'E'],
            TokenKind::LOCALTIMESTAMP => &['L', 'O', 'C', 'A', 'L', 'T', 'I', 'M', 'E', 'S', 'T', 'A', 'M', 'P'],
            TokenKind::NATURAL => &['N', 'A', 'T', 'U', 'R', 'A', 'L'],
            TokenKind::NORMALIZE => &['N', 'O', 'R', 'M', 'A', 'L', 'I', 'Z', 'E'],
            TokenKind::NOT => &['N', 'O', 'T'],
            TokenKind::NULL => &['N', 'U', 'L', 'L'],
            TokenKind::ON => &['O', 'N'],
            TokenKind::OR => &['O', 'R'],
            TokenKind::ORDER => &['O', 'R', 'D', 'E', 'R'],
            TokenKind::OUTER => &['O', 'U', 'T', 'E', 'R'],
            TokenKind::PREPARE => &['P', 'R', 'E', 'P', 'A', 'R', 'E'],
            TokenKind::RECURSIVE => &['R', 'E', 'C', 'U', 'R', 'S', 'I', 'V', 'E'],
            TokenKind::RIGHT => &['R', 'I', 'G', 'H', 'T'],
            TokenKind::ROLLUP => &['R', 'O', 'L', 'L', 'U', 'P'],
            TokenKind::SELECT => &['S', 'E', 'L', 'E', 'C', 'T'],
            TokenKind::TABLE => &['T', 'A', 'B', 'L', 'E'],
            TokenKind::THEN => &['T', 'H', 'E', 'N'],
            TokenKind::TRUE => &['T', 'R', 'U', 'E'],
            TokenKind::UESCAPE => &['U', 'E', 'S', 'C', 'A', 'P', 'E'],
            TokenKind::UNION => &['U', 'N', 'I', 'O', 'N'],
            TokenKind::UNNEST => &['U', 'N', 'N', 'E', 'S', 'T'],
            TokenKind::USING => &['U', 'S', 'I', 'N', 'G'],
            TokenKind::VALUES => &['V', 'A', 'L', 'U', 'E', 'S'],
            TokenKind::WHEN => &['W', 'H', 'E', 'N'],
            TokenKind::WHERE => &['W', 'H', 'E', 'R', 'E'],
            TokenKind::WITH => &['W', 'I', 'T', 'H'],
            _ => &[],
        }
    }

    /// The name of this kind as used in messages.
    pub fn name(&self) -> (r: &'static [char])
        ensures
            r@ == spec_kind_name(*self),
    {
        match self {
            TokenKind::BeginningOfFile => &['B', 'e', 'g', 'i', 'n', 'n', 'i', 'n', 'g', 'O', 'f', 'F', 'i', 'l', 'e'],
            TokenKind::EndOfFile => &['E', 'n', 'd', 'O', 'f', 'F', 'i', 'l', 'e'],
            TokenKind::Error => &['E', 'r', 'r', 'o', 'r'],
            TokenKind::OpenParen => &['O', 'p', 'e', 'n', 'P', 'a', 'r', 'e', 'n'],
            TokenKind::CloseParen => &['C', 'l', 'o', 's', 'e', 'P', 'a', 'r', 'e', 'n'],
            TokenKind::Comma => &['C', 'o', 'm', 'm', 'a'],
            TokenKind::Period => &['P', 'e', 'r', 'i', 'o', 'd'],
            TokenKind::OpenAngle => &['O', 'p', 'e', 'n', 'A', 'n', 'g', 'l', 'e'],
            TokenKind::CloseAngle => &['C', 'l', 'o', 's', 'e', 'A', 'n', 'g', 'l', 'e'],
            TokenKind::OpenSquare => &['O', 'p', 'e', 'n', 'S', 'q', 'u', 'a', 'r', 'e'],
            TokenKind::CloseSquare => &['C', 'l', 'o', 's', 'e', 'S', 'q', 'u', 'a', 'r', 'e'],
            TokenKind::Equal => &['E', 'q', 'u', 'a', 'l'],
            TokenKind::LessGreater => &['L', 'e', 's', 's', 'G', 'r', 'e', 'a', 't', 'e', 'r'],
            TokenKind::BangEqual => &['B', 'a', 'n', 'g', 'E', 'q', 'u', 'a', 'l'],
            TokenKind::LessEqual => &['L', 'e', 's', 's', 'E', 'q', 'u', 'a', 'l'],
            TokenKind::GreaterEqual => &['G', 'r', 'e', 'a', 't', 'e', 'r', 'E', 'q', 'u', 'a', 'l'],
            TokenKind::Plus => &['P', 'l', 'u', 's'],
            TokenKind::Minus => &['M', 'i', 'n', 'u', 's'],
            TokenKind::Asterisk => &['A', 's', 't', 'e', 'r', 'i', 's', 'k'],
            TokenKind::Slash => &['S', 'l', 'a', 's', 'h'],
            TokenKind::Percent => &['P', 'e', 'r', 'c', 'e', 'n', 't'],
            TokenKind::BarBar => &['B', 'a', 'r', 'B', 'a', 'r'],
            TokenKind::DoubleArrow => &['D', 'o', 'u', 'b', 'l', 'e', 'A', 'r', 'r', 'o', 'w'],
            TokenKind::Arrow => &['A', 'r', 'r', 'o', 'w'],
            TokenKind::Question => &['Q', 'u', 'e', 's', 't', 'i', 'o', 'n'],
            TokenKind::String => &['S', 't', 'r', 'i', 'n', 'g'],
            TokenKind::UnicodeString => &['U', 'n', 'i', 'c', 'o', 'd', 'e', 'S', 't', 'r', 'i', 'n', 'g'],
            TokenKind::BinaryLiteral => &['B', 'i', 'n', 'a', 'r', 'y', 'L', 'i', 't', 'e', 'r', 'a', 'l'],
            TokenKind::Integer => &['I', 'n', 't', 'e', 'g', 'e', 'r'],
            TokenKind::Decimal => &['D', 'e', 'c', 'i', 'm', 'a', 'l'],
            TokenKind::Double => &['D', 'o', 'u', 'b', 'l', 'e'],
            TokenKind::Identifier => &['I', 'd', 'e', 'n', 't', 'i', 'f', 'i', 'e', 'r'],
            TokenKind::QuotedIdentifier => &['Q', 'u', 'o', 't', 'e', 'd', 'I', 'd', 'e', 'n', 't', 'i', 'f', 'i', 'e', 'r'],
            TokenKind::BackquotedIdentifier => &['B', 'a', 'c', 'k', 'q', 'u', 'o', 't', 'e', 'd', 'I', 'd', 'e', 'n', 't', 'i', 'f', 'i', 'e', 'r'],
            TokenKind::DigitIdentifier => &['D', 'i', 'g', 'i', 't', 'I', 'd', 'e', 'n', 't', 'i', 'f', 'i', 'e', 'r'],
            TokenKind::DoublePrecision => &['D', 'o', 'u', 'b', 'l', 'e', 'P', 'r', 'e', 'c', 'i', 's', 'i', 'o', 'n'],
            TokenKind::TimeWithTimeZone => &['T', 'i', 'm', 'e', 'W', 'i', 't', 'h', 'T', 'i', 'm', 'e', 'Z', 'o', 'n', 'e'],
            TokenKind::TimestampWithTimeZone => &['T', 'i', 'm', 'e', 's', 't', 'a', 'm', 'p', 'W', 'i', 't', 'h', 'T', 'i', 'm', 'e', 'Z', 'o', 'n', 'e'],
            TokenKind::ALTER => &['A', 'L', 'T', 'E', 'R'],
            TokenKind::AND => &['A', 'N', 'D'],
            TokenKind::AS => &['A', 'S'],
            TokenKind::BETWEEN => &['B', 'E', 'T', 'W', 'E', 'E', 'N'],
            TokenKind::BY => &['B', 'Y'],
            TokenKind::CASE => &['C', 'A', 'S', 'E'],
            TokenKind::CAST => &['C', 'A', 'S', 'T'],
            TokenKind::CONFIGURE => &['C', 'O', 'N', 'F', 'I', 'G', 'U', 'R', 'E'],
            TokenKind::CONSTRAINT => &['C', 'O', 'N', 'S', 'T', 'R', 'A', 'I', 'N', 'T'],
            TokenKind::CREATE => &['C', 'R', 'E', 'A', 'T', 'E'],
            TokenKind::CROSS => &['C', 'R', 'O', 'S', 'S'],
            TokenKind::CUBE => &['C', 'U', 'B', 'E'],
            TokenKind::CURRENT_DATE => &['C', 'U', 'R', 'R', 'E', 'N', 'T', '_', 'D', 'A', 'T', 'E'],
            TokenKind::CURRENT_PATH => &['C', 'U', 'R', 'R', 'E', 'N', 'T', '_', 'P', 'A', 'T', 'H'],
            TokenKind::CURRENT_TIME => &['C', 'U', 'R', 'R', 'E', 'N', 'T', '_', 'T', 'I', 'M', 'E'],
            TokenKind::CURRENT_TIMESTAMP => &['C', 'U', 'R', 'R', 'E', 'N', 'T', '_', 'T', 'I', 'M', 'E', 'S', 'T', 'A', 'M', 'P'],
            TokenKind::CURRENT_USER => &['C', 'U', 'R', 'R', 'E', 'N', 'T', '_', 'U', 'S', 'E', 'R'],
            TokenKind::DEALLOCATE => &['D', 'E', 'A', 'L', 'L', 'O', 'C', 'A', 'T', 'E'],
            TokenKind::DELETE => &['D', 'E', 'L', 'E', 'T', 'E'],
            TokenKind::DESCRIBE => &['D', 'E', 'S', 'C', 'R', 'I', 'B', 'E'],
            TokenKind::DISTINCT => &['D', 'I', 'S', 'T', 'I', 'N', 'C', 'T'],
            TokenKind::DROP => &['D', 'R', 'O', 'P'],
            TokenKind::ELSE => &['E', 'L', 'S', 'E'],
            TokenKind::END => &['E', 'N', 'D'],
            TokenKind::ESCAPE => &['E', 'S', 'C', 'A', 'P', 'E'],
            TokenKind::EXCEPT => &['E', 'X', 'C', 'E', 'P', 'T'],
            TokenKind::EXECUTE => &['E', 'X', 'E', 'C', 'U', 'T', 'E'],
            TokenKind::EXISTS => &['E', 'X', 'I', 'S', 'T', 'S'],
            TokenKind::EXTRACT => &['E', 'X', 'T', 'R', 'A', 'C', 'T'],
            TokenKind::FALSE => &['F', 'A', 'L', 'S', 'E'],
            TokenKind::FOR => &['F', 'O', 'R'],
            TokenKind::FROM => &['F', 'R', 'O', 'M'],
            TokenKind::FULL => &['F', 'U', 'L', 'L'],
            TokenKind::GROUP => &['G', 'R', 'O', 'U', 'P'],
            TokenKind::GROUPING => &['G', 'R', 'O', 'U', 'P', 'I', 'N', 'G'],
            TokenKind::HAVING => &['H', 'A', 'V', 'I', 'N', 'G'],
            TokenKind::IN => &['I', 'N'],
            TokenKind::INNER => &['I', 'N', 'N', 'E', 'R'],
            TokenKind::INSERT => &['I', 'N', 'S', 'E', 'R', 'T'],
            TokenKind::INTERSECT => &['I', 'N', 'T', 'E', 'R', 'S', 'E', 'C', 'T'],
            TokenKind::INTO => &['I', 'N', 'T', 'O'],
            TokenKind::IS => &['I', 'S'],
            TokenKind::JOIN => &['J', 'O', 'I', 'N'],
            TokenKind::LEFT => &['L', 'E', 'F', 'T'],
            TokenKind::LIKE => &['L', 'I', 'K', 'E'],
            TokenKind::LOCALTIME => &['L', 'O', 'C', 'A', 'L', 'T', 'I', 'M', 'E'],
            TokenKind::LOCALTIMESTAMP => &['L', 'O', 'C', 'A', 'L', 'T', 'I', 'M', 'E', 'S', 'T', 'A', 'M', 'P'],
            TokenKind::NATURAL => &['N', 'A', 'T', 'U', 'R', 'A', 'L'],
            TokenKind::NORMALIZE => &['N', 'O', 'R', 'M', 'A', 'L', 'I', 'Z', 'E'],
            TokenKind::NOT => &['N', 'O', 'T'],
            TokenKind::NULL => &['N', 'U', 'L', 'L'],
            TokenKind::ON => &['O', 'N'],
            TokenKind::OR => &['O', 'R'],
            TokenKind::ORDER => &['O', 'R', 'D', 'E', 'R'],
            TokenKind::OUTER => &['O', 'U', 'T', 'E', 'R'],
            TokenKind::PREPARE => &['P', 'R', 'E', 'P', 'A', 'R', 'E'],
            TokenKind::RECURSIVE => &['R', 'E', 'C', 'U', 'R', 'S', 'I', 'V', 'E'],
            TokenKind::RIGHT => &['R', 'I', 'G', 'H', 'T'],
            TokenKind::ROLLUP => &['R', 'O', 'L', 'L', 'U', 'P'],
            TokenKind::SELECT => &['S', 'E', 'L', 'E', 'C', 'T'],
            TokenKind::TABLE => &['T', 'A', 'B', 'L', 'E'],
            TokenKind::THEN => &['T', 'H', 'E', 'N'],
            TokenKind::TRUE => &['T', 'R', 'U', 'E'],
            TokenKind::UESCAPE => &['U', 'E', 'S', 'C', 'A', 'P', 'E'],
            TokenKind::UNION => &['U', 'N', 'I', 'O', 'N'],
            TokenKind::UNNEST => &['U', 'N', 'N', 'E', 'S', 'T'],
            TokenKind::USING => &['U', 'S', 'I', 'N', 'G'],
            TokenKind::VALUES => &['V', 'A', 'L', 'U', 'E', 'S'],
            TokenKind::WHEN => &['W', 'H', 'E', 'N'],
            TokenKind::WHERE => &['W', 'H', 'E', 'R', 'E'],
            TokenKind::WITH => &['W', 'I', 'T', 'H'],
        }
    }
}

/// The reserved words, in the order in which they are looked up.
pub fn all_keyword_kinds() -> (r: Vec<TokenKind>)
    ensures
        r@ == keyword_kinds(),
{
    vec![
        TokenKind::ALTER,
        TokenKind::AND,
        TokenKind::AS,
        TokenKind::BETWEEN,
        TokenKind::BY,
        TokenKind::CASE,
        TokenKind::CAST,
        TokenKind::CONFIGURE,
        TokenKind::CONSTRAINT,
        TokenKind::CREATE,
        TokenKind::CROSS,
        TokenKind::CUBE,
        TokenKind::CURRENT_DATE,
        TokenKind::CURRENT_PATH,
        TokenKind::CURRENT_TIME,
        TokenKind::CURRENT_TIMESTAMP,
        TokenKind::CURRENT_USER,
        TokenKind::DEALLOCATE,
        TokenKind::DELETE,
        TokenKind::DESCRIBE,
        TokenKind::DISTINCT,
        TokenKind::DROP,
        TokenKind::ELSE,
        TokenKind::END,
        TokenKind::ESCAPE,
        TokenKind::EXCEPT,
        TokenKind::EXECUTE,
        TokenKind::EXISTS,
        TokenKind::EXTRACT,
        TokenKind::FALSE,
        TokenKind::FOR,
        TokenKind::FROM,
        TokenKind::FULL,
        TokenKind::GROUP,
        TokenKind::GROUPING,
        TokenKind::HAVING,
        TokenKind::IN,
        TokenKind::INNER,
        TokenKind::INSERT,
        TokenKind::INTERSECT,
        TokenKind::INTO,
        TokenKind::IS,
        TokenKind::JOIN,
        TokenKind::LEFT,
        TokenKind::LIKE,
        TokenKind::LOCALTIME,
        TokenKind::LOCALTIMESTAMP,
        TokenKind::NATURAL,
        TokenKind::NORMALIZE,
        TokenKind::NOT,
        TokenKind::NULL,
        TokenKind::ON,
        TokenKind::OR,
        TokenKind::ORDER,
        TokenKind::OUTER,
        TokenKind::PREPARE,
        TokenKind::RECURSIVE,
        TokenKind::RIGHT,
        TokenKind::ROLLUP,
        TokenKind::SELECT,
        TokenKind::TABLE,
        TokenKind::THEN,
        TokenKind::TRUE,
        TokenKind::UESCAPE,
        TokenKind::UNION,
        TokenKind::UNNEST,
        TokenKind::USING,
        TokenKind::VALUES,
        TokenKind::WHEN,
        TokenKind::WHERE,
        TokenKind::WITH,
    ]
}

} // verus!
