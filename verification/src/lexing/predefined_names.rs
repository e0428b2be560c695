//! Names that have a meaning in some contexts but are not reserved.
use vstd::prelude::*;

verus! {

/// A name with a meaning in some syntactic contexts which is lexed as an identifier.
#[allow(non_camel_case_types)]
#[derive(Clone, Copy, Debug, PartialEq, Eq, Structural, Hash)]
pub enum PredefinedName {
    ADMIN,
    ALL,
    ANY,
    ARRAY,
    ASC,
    AT,
    BERNOULLI,
    COMMENT,
    CURRENT,
    CURRENT_ROLE,
    DATA,
    DAY,
    DESC,
    DOUBLE,
    EXCLUDING,
    FILTER,
    FIRST,
    FOLLOWING,
    HOUR,
    IF,
    IGNORE,
    INCLUDING,
    INTERVAL,
    LAST,
    LATERAL,
    LIMIT,
    MAP,
    MINUTE,
    MONTH,
    NFC,
    NFD,
    NFKC,
    NFKD,
    NO,
    NULLS,
    ORDINALITY,
    OVER,
    PARTITION,
    POSITION,
    PRECEDING,
    PRECISION,
    PROPERTIES,
    RANGE,
    REPLACE,
    RESPECT,
    ROLE,
    ROW,
    ROWS,
    SCHEMA,
    SECOND,
    SETS,
    SOME,
    SUBSTRING,
    SYSTEM,
    TABLESAMPLE,
    TIME,
    TIMESTAMP,
    TO,
    TRY_CAST,
    UNBOUNDED,
    USER,
    VIEW,
    YEAR,
    ZONE,
}

/// The text of a predefined name, in upper case.
pub open spec fn spec_name_text(name: PredefinedName) -> Seq<char> {
    match name {
        PredefinedName::ADMIN => seq!['A', 'D', 'M', 'I', 'N'],
        PredefinedName::ALL => seq!['A', 'L', 'L'],
        PredefinedName::ANY => seq!['A', 'N', 'Y'],
        PredefinedName::ARRAY => seq!['A', 'R', 'R', 'A', 'Y'],
        PredefinedName::ASC => seq!['A', 'S', 'C'],
        PredefinedName::AT => seq!['A', 'T'],
        PredefinedName::BERNOULLI => seq!['B', 'E', 'R', 'N', 'O', 'U', 'L', 'L', 'I'],
        PredefinedName::COMMENT => seq!['C', 'O', 'M', 'M', 'E', 'N', 'T'],
        PredefinedName::CURRENT => seq!['C', 'U', 'R', 'R', 'E', 'N', 'T'],
        PredefinedName::CURRENT_ROLE => seq!['C', 'U', 'R', 'R', 'E', 'N', 'T', '_', 'R', 'O', 'L', 'E'],
        PredefinedName::DATA => seq!['D', 'A', 'T', 'A'],
        PredefinedName::DAY => seq!['D', 'A', 'Y'],
        PredefinedName::DESC => seq!['D', 'E', 'S', 'C'],
        PredefinedName::DOUBLE => seq!['D', 'O', 'U', 'B', 'L', 'E'],
        PredefinedName::EXCLUDING => seq!['E', 'X', 'C', 'L', 'U', 'D', 'I', 'N', 'G'],
        PredefinedName::FILTER => seq!['F', 'I', 'L', 'T', 'E', 'R'],
        PredefinedName::FIRST => seq!['F', 'I', 'R', 'S', 'T'],
        PredefinedName::FOLLOWING => seq!['F', 'O', 'L', 'L', 'O', 'W', 'I', 'N', 'G'],
        PredefinedName::HOUR => seq!['H', 'O', 'U', 'R'],
        PredefinedName::IF => seq!['I', 'F'],
        PredefinedName::IGNORE => seq!['I', 'G', 'N', 'O', 'R', 'E'],
        PredefinedName::INCLUDING => seq!['I', 'N', 'C', 'L', 'U', 'D', 'I', 'N', 'G'],
        PredefinedName::INTERVAL => seq!['I', 'N', 'T', 'E', 'R', 'V', 'A', 'L'],
        PredefinedName::LAST => seq!['L', 'A', 'S', 'T'],
        PredefinedName::LATERAL => seq!['L', 'A', 'T', 'E', 'R', 'A', 'L'],
        PredefinedName::LIMIT => seq!['L', 'I', 'M', 'I', 'T'],
        PredefinedName::MAP => seq!['M', 'A', 'P'],
        PredefinedName::MINUTE => seq!['M', 'I', 'N', 'U', 'T', 'E'],
        PredefinedName::MONTH => seq!['M', 'O', 'N', 'T', 'H'],
        PredefinedName::NFC => seq!['N', 'F', 'C'],
        PredefinedName::NFD => seq!['N', 'F', 'D'],
        PredefinedName::NFKC => seq!['N', 'F', 'K', 'C'],
        PredefinedName::NFKD => seq!['N', 'F', 'K', 'D'],
        PredefinedName::NO => seq!['N', 'O'],
        PredefinedName::NULLS => seq!['N', 'U', 'L', 'L', 'S'],
        PredefinedName::ORDINALITY => seq!['O', 'R', 'D', 'I', 'N', 'A', 'L', 'I', 'T', 'Y'],
        PredefinedName::OVER => seq!['O', 'V', 'E', 'R'],
        PredefinedName::PARTITION => seq!['P', 'A', 'R', 'T', 'I', 'T', 'I', 'O', 'N'],
        PredefinedName::POSITION => seq!['P', 'O', 'S', 'I', 'T', 'I', 'O', 'N'],
        PredefinedName::PRECEDING => seq!['P', 'R', 'E', 'C', 'E', 'D', 'I', 'N', 'G'],
        PredefinedName::PRECISION => seq!['P', 'R', 'E', 'C', 'I', 'S', 'I', 'O', 'N'],
        PredefinedName::PROPERTIES => seq!['P', 'R', 'O', 'P', 'E', 'R', 'T', 'I', 'E', 'S'],
        PredefinedName::RANGE => seq!['R', 'A', 'N', 'G', 'E'],
        PredefinedName::REPLACE => seq!['R', 'E', 'P', 'L', 'A', 'C', 'E'],
        PredefinedName::RESPECT => seq!['R', 'E', 'S', 'P', 'E', 'C', 'T'],
        PredefinedName::ROLE => seq!['R', 'O', 'L', 'E'],
        PredefinedName::ROW => seq!['R', 'O', 'W'],
        PredefinedName::ROWS => seq!['R', 'O', 'W', 'S'],
        PredefinedName::SCHEMA => seq!['S', 'C', 'H', 'E', 'M', 'A'],
        PredefinedName::SECOND => seq!['S', 'E', 'C', 'O', 'N', 'D'],
        PredefinedName::SETS => seq!['S', 'E', 'T', 'S'],
        PredefinedName::SOME => seq!['S', 'O', 'M', 'E'],
        PredefinedName::SUBSTRING => seq!['S', 'U', 'B', 'S', 'T', 'R', 'I', 'N', 'G'],
        PredefinedName::SYSTEM => seq!['S', 'Y', 'S', 'T', 'E', 'M'],
        PredefinedName::TABLESAMPLE => seq!['T', 'A', 'B', 'L', 'E', 'S', 'A', 'M', 'P', 'L', 'E'],
        PredefinedName::TIME => seq!['T', 'I', 'M', 'E'],
        PredefinedName::TIMESTAMP => seq!['T', 'I', 'M', 'E', 'S', 'T', 'A', 'M', 'P'],
        PredefinedName::TO => seq!['T', 'O'],
        PredefinedName::TRY_CAST => seq!['T', 'R', 'Y', '_', 'C', 'A', 'S', 'T'],
        PredefinedName::UNBOUNDED => seq!['U', 'N', 'B', 'O', 'U', 'N', 'D', 'E', 'D'],
        PredefinedName::USER => seq!['U', 'S', 'E', 'R'],
        PredefinedName::VIEW => seq!['V', 'I', 'E', 'W'],
        PredefinedName::YEAR => seq!['Y', 'E', 'A', 'R'],
        PredefinedName::ZONE => seq!['Z', 'O', 'N', 'E'],
    }
}

/// The predefined names, in the order in which they are looked up.
pub open spec fn predefined_names() -> Seq<PredefinedName> {
    seq![
        PredefinedName::ADMIN,
        PredefinedName::ALL,
        PredefinedName::ANY,
        PredefinedName::ARRAY,
        PredefinedName::ASC,
        PredefinedName::AT,
        PredefinedName::BERNOULLI,
        PredefinedName::COMMENT,
        PredefinedName::CURRENT,
        PredefinedName::CURRENT_ROLE,
        PredefinedName::DATA,
        PredefinedName::DAY,
        PredefinedName::DESC,
        PredefinedName::DOUBLE,
        PredefinedName::EXCLUDING,
        PredefinedName::FILTER,
        PredefinedName::FIRST,
        PredefinedName::FOLLOWING,
        PredefinedName::HOUR,
        PredefinedName::IF,
        PredefinedName::IGNORE,
        PredefinedName::INCLUDING,
        PredefinedName::INTERVAL,
        PredefinedName::LAST,
        PredefinedName::LATERAL,
        PredefinedName::LIMIT,
        PredefinedName::MAP,
        PredefinedName::MINUTE,
        PredefinedName::MONTH,
        PredefinedName::NFC,
        PredefinedName::NFD,
        PredefinedName::NFKC,
        PredefinedName::NFKD,
        PredefinedName::NO,
        PredefinedName::NULLS,
        PredefinedName::ORDINALITY,
        PredefinedName::OVER,
        PredefinedName::PARTITION,
        PredefinedName::POSITION,
        PredefinedName::PRECEDING,
        PredefinedName::PRECISION,
        PredefinedName::PROPERTIES,
        PredefinedName::RANGE,
        PredefinedName::REPLACE,
        PredefinedName::RESPECT,
        PredefinedName::ROLE,
        PredefinedName::ROW,
        PredefinedName::ROWS,
        PredefinedName::SCHEMA,
        PredefinedName::SECOND,
        PredefinedName::SETS,
        PredefinedName::SOME,
        PredefinedName::SUBSTRING,
        PredefinedName::SYSTEM,
        PredefinedName::TABLESAMPLE,
        PredefinedName::TIME,
        PredefinedName::TIMESTAMP,
        PredefinedName::TO,
        PredefinedName::TRY_CAST,
        PredefinedName::UNBOUNDED,
        PredefinedName::USER,
        PredefinedName::VIEW,
        PredefinedName::YEAR,
        PredefinedName::ZONE,
    ]
}

impl PredefinedName {
    /// The text of this name, in upper case.
    pub fn text(&self) -> (r: &'static [char])
        ensures
            r@ == spec_name_text(*self),
    {
        match self {
            PredefinedName::ADMIN => &['A', 'D', 'M', 'I', 'N'],
            PredefinedName::ALL => &['A', 'L', 'L'],
            PredefinedName::ANY => &['A', 'N', 'Y'],
            PredefinedName::ARRAY => &['A', 'R', 'R', 'A', 'Y'],
            PredefinedName::ASC => &['A', 'S', 'C'],
            PredefinedName::AT => &['A', 'T'],
            PredefinedName::BERNOULLI => &['B', 'E', 'R', 'N', 'O', 'U', 'L', 'L', 'I'],
            PredefinedName::COMMENT => &['C', 'O', 'M', 'M', 'E', 'N', 'T'],
            PredefinedName::CURRENT => &['C', 'U', 'R', 'R', 'E', 'N', 'T'],
            PredefinedName::CURRENT_ROLE => &['C', 'U', 'R', 'R', 'E', 'N', 'T', '_', 'R', 'O', 'L', 'E'],
            PredefinedName::DATA => &['D', 'A', 'T', 'A'],
            PredefinedName::DAY => &['D', 'A', 'Y'],
            PredefinedName::DESC => &['D', 'E', 'S', 'C'],
            PredefinedName::DOUBLE => &['D', 'O', 'U', 'B', 'L', 'E'],
            PredefinedName::EXCLUDING => &['E', 'X', 'C', 'L', 'U', 'D', 'I', 'N', 'G'],
            PredefinedName::FILTER => &['F', 'I', 'L', 'T', 'E', 'R'],
            PredefinedName::FIRST => &['F', 'I', 'R', 'S', 'T'],
            PredefinedName::FOLLOWING => &['F', 'O', 'L', 'L', 'O', 'W', 'I', 'N', 'G'],
            PredefinedName::HOUR => &['H', 'O', 'U', 'R'],
            PredefinedName::IF => &['I', 'F'],
            PredefinedName::IGNORE => &['I', 'G', 'N', 'O', 'R', 'E'],
            PredefinedName::INCLUDING => &['I', 'N', 'C', 'L', 'U', 'D', 'I', 'N', 'G'],
            PredefinedName::INTERVAL => &['I', 'N', 'T', 'E', 'R', 'V', 'A', 'L'],
            PredefinedName::LAST => &['L', 'A', 'S', 'T'],
            PredefinedName::LATERAL => &['L', 'A', 'T', 'E', 'R', 'A', 'L'],
            PredefinedName::LIMIT => &['L', 'I', 'M', 'I', 'T'],
            PredefinedName::MAP => &['M', 'A', 'P'],
            PredefinedName::MINUTE => &['M', 'I', 'N', 'U', 'T', 'E'],
            PredefinedName::MONTH => &['M', 'O', 'N', 'T', 'H'],
            PredefinedName::NFC => &['N', 'F', 'C'],
            PredefinedName::NFD => &['N', 'F', 'D'],
            PredefinedName::NFKC => &['N', 'F', 'K', 'C'],
            PredefinedName::NFKD => &['N', 'F', 'K', 'D'],
            PredefinedName::NO => &['N', 'O'],
            PredefinedName::NULLS => &['N', 'U', 'L', 'L', 'S'],
            PredefinedName::ORDINALITY => &['O', 'R', 'D', 'I', 'N', 'A', 'L', 'I', 'T', 'Y'],
            PredefinedName::OVER => &['O', 'V', 'E', 'R'],
            PredefinedName::PARTITION => &['P', 'A', 'R', 'T', 'I', 'T', 'I', 'O', 'N'],
            PredefinedName::POSITION => &['P', 'O', 'S', 'I', 'T', 'I', 'O', 'N'],
            PredefinedName::PRECEDING => &['P', 'R', 'E', 'C', 'E', 'D', 'I', 'N', 'G'],
            PredefinedName::PRECISION => &['P', 'R', 'E', 'C', 'I', 'S', 'I', 'O', 'N'],
            PredefinedName::PROPERTIES => &['P', 'R', 'O', 'P', 'E', 'R', 'T', 'I', 'E', 'S'],
            PredefinedName::RANGE => &['R', 'A', 'N', 'G', 'E'],
            PredefinedName::REPLACE => &['R', 'E', 'P', 'L', 'A', 'C', 'E'],
            PredefinedName::RESPECT => &['R', 'E', 'S', 'P', 'E', 'C', 'T'],
            PredefinedName::ROLE => &['R', 'O', 'L', 'E'],
            PredefinedName::ROW => &['R', 'O', 'W'],
            PredefinedName::ROWS => &['R', 'O', 'W', 'S'],
            PredefinedName::SCHEMA => &['S', 'C', 'H', 'E', 'M', 'A'],
            PredefinedName::SECOND => &['S', 'E', 'C', 'O', 'N', 'D'],
            PredefinedName::SETS => &['S', 'E', 'T', 'S'],
            PredefinedName::SOME => &['S', 'O', 'M', 'E'],
            PredefinedName::SUBSTRING => &['S', 'U', 'B', 'S', 'T', 'R', 'I', 'N', 'G'],
            PredefinedName::SYSTEM => &['S', 'Y', 'S', 'T', 'E', 'M'],
            PredefinedName::TABLESAMPLE => &['T', 'A', 'B', 'L', 'E', 'S', 'A', 'M', 'P', 'L', 'E'],
            PredefinedName::TIME => &['T', 'I', 'M', 'E'],
            PredefinedName::TIMESTAMP => &['T', 'I', 'M', 'E', 'S', 'T', 'A', 'M', 'P'],
            PredefinedName::TO => &['T', 'O'],
            PredefinedName::TRY_CAST => &['T', 'R', 'Y', '_', 'C', 'A', 'S', 'T'],
            PredefinedName::UNBOUNDED => &['U', 'N', 'B', 'O', 'U', 'N', 'D', 'E', 'D'],
            PredefinedName::USER => &['U', 'S', 'E', 'R'],
            PredefinedName::VIEW => &['V', 'I', 'E', 'W'],
            PredefinedName::YEAR => &['Y', 'E', 'A', 'R'],
            PredefinedName::ZONE => &['Z', 'O', 'N', 'E'],
        }
    }
}

/// The predefined names, in the order in which they are looked up.
pub fn all_predefined_names() -> (r: Vec<PredefinedName>)
    ensures
        r@ == predefined_names(),
{
    vec![
        PredefinedName::ADMIN,
        PredefinedName::ALL,
        PredefinedName::ANY,
        PredefinedName::ARRAY,
        PredefinedName::ASC,
        PredefinedName::AT,
        PredefinedName::BERNOULLI,
        PredefinedName::COMMENT,
        PredefinedName::CURRENT,
        PredefinedName::CURRENT_ROLE,
        PredefinedName::DATA,
        PredefinedName::DAY,
        PredefinedName::DESC,
        PredefinedName::DOUBLE,
        PredefinedName::EXCLUDING,
        PredefinedName::FILTER,
        PredefinedName::FIRST,
        PredefinedName::FOLLOWING,
        PredefinedName::HOUR,
        PredefinedName::IF,
        PredefinedName::IGNORE,
        PredefinedName::INCLUDING,
        PredefinedName::INTERVAL,
        PredefinedName::LAST,
        PredefinedName::LATERAL,
        PredefinedName::LIMIT,
        PredefinedName::MAP,
        PredefinedName::MINUTE,
        PredefinedName::MONTH,
        PredefinedName::NFC,
        PredefinedName::NFD,
        PredefinedName::NFKC,
        PredefinedName::NFKD,
        PredefinedName::NO,
        PredefinedName::NULLS,
        PredefinedName::ORDINALITY,
        PredefinedName::OVER,
        PredefinedName::PARTITION,
        PredefinedName::POSITION,
        PredefinedName::PRECEDING,
        PredefinedName::PRECISION,
        PredefinedName::PROPERTIES,
        PredefinedName::RANGE,
        PredefinedName::REPLACE,
        PredefinedName::RESPECT,
        PredefinedName::ROLE,
        PredefinedName::ROW,
        PredefinedName::ROWS,
        PredefinedName::SCHEMA,
        PredefinedName::SECOND,
        PredefinedName::SETS,
        PredefinedName::SOME,
        PredefinedName::SUBSTRING,
        PredefinedName::SYSTEM,
        PredefinedName::TABLESAMPLE,
        PredefinedName::TIME,
        PredefinedName::TIMESTAMP,
        PredefinedName::TO,
        PredefinedName::TRY_CAST,
        PredefinedName::UNBOUNDED,
        PredefinedName::USER,
        PredefinedName::VIEW,
        PredefinedName::YEAR,
        PredefinedName::ZONE,
    ]
}

} // verus!
