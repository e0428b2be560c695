//! Type tests for characters.
use vstd::prelude::*;

verus! {

pub const NULL: char = '\0';
pub const TAB: char = '\t';
pub const LINE_FEED: char = '\n';
pub const CARRIAGE_RETURN: char = '\r';
pub const SPACE: char = ' ';

pub open spec fn spec_is_whitespace(ch: char) -> bool {
    ch == '\t' || ch == '\n' || ch == '\r' || ch == ' '
}

pub open spec fn spec_is_digit(ch: char) -> bool {
    '0' <= ch <= '9'
}

pub open spec fn spec_is_sign(ch: char) -> bool {
    ch == '-' || ch == '+'
}

pub open spec fn spec_is_identifier_start(ch: char) -> bool {
    ('a' <= ch <= 'z') || ('A' <= ch <= 'Z') || ch == '_'
}

pub open spec fn spec_is_identifier_part(ch: char) -> bool {
    spec_is_identifier_start(ch) || spec_is_digit(ch) || ch == '@' || ch == ':'
}

/// The ASCII upper case form of a character; other characters are unchanged.
pub open spec fn spec_to_upper(ch: char) -> char {
    if 'a' <= ch <= 'z' {
        ((ch as u32) - 32) as char
    } else {
        ch
    }
}

/// Are two characters equal when ASCII letters are compared without case?
pub open spec fn spec_eq_ignore_case(a: char, b: char) -> bool {
    spec_to_upper(a) == spec_to_upper(b)
}

/// Is `ch` a whitespace character (tab, line feed, carriage return or space)?
pub fn is_whitespace(ch: char) -> (r: bool)
    ensures
        r == spec_is_whitespace(ch),
{
    match ch {
        TAB | LINE_FEED | CARRIAGE_RETURN | SPACE => true,
        _ => false,
    }
}

pub fn is_digit(ch: char) -> (r: bool)
    ensures
        r == spec_is_digit(ch),
{
    ch >= '0' && ch <= '9'
}

pub fn is_sign(ch: char) -> (r: bool)
    ensures
        r == spec_is_sign(ch),
{
    ch == '-' || ch == '+'
}

pub fn is_identifier_start(ch: char) -> (r: bool)
    ensures
        r == spec_is_identifier_start(ch),
{
    match ch {
        'a'..='z' | 'A'..='Z' | '_' => true,
        _ => false,
    }
}

pub fn is_identifier_part(ch: char) -> (r: bool)
    ensures
        r == spec_is_identifier_part(ch),
{
    match ch {
        'a'..='z' | 'A'..='Z' | '_' | '0'..='9' | '@' | ':' => true,
        _ => false,
    }
}

/// The ASCII upper case form of a character; other characters are unchanged.
pub fn to_upper(ch: char) -> (r: char)
    ensures
        r == spec_to_upper(ch),
{
    if 'a' <= ch && ch <= 'z' {
        let b: u8 = (ch as u32 - 32) as u8;
        b as char
    } else {
        ch
    }
}

/// Compares two characters, ignoring the case of ASCII letters.
pub fn eq_ignore_case(a: char, b: char) -> (r: bool)
    ensures
        r == spec_eq_ignore_case(a, b),
{
    to_upper(a) == to_upper(b)
}

} // verus!
