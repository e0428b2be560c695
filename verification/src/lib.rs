//! A lexer and parser for the Presto SQL dialect.
pub mod lexing;
pub mod parsing;
pub mod utils;

use vstd::prelude::*;

verus! {

} // verus!
