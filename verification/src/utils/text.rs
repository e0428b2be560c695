//! Building strings and character sequences.
use vstd::prelude::*;
use vstd::string::*;

verus! {

/// Calls `String::push`, which appends `ch` to the end of `s`.
#[verifier::external_body]
pub(crate) fn push_char(s: &mut String, ch: char)
    ensures
        final(s)@ == old(s)@.push(ch),
{
    s.push(ch);
}

/// Appends the characters of `chars` to `s`.
pub fn append_chars(s: &mut String, chars: &[char])
    ensures
        final(s)@ == old(s)@ + chars@,
{
    let mut i: usize = 0;
    while i < chars.len()
        invariant
            i <= chars@.len(),
            s@ == old(s)@ + chars@.subrange(0, i as int),
        decreases chars@.len() - i,
    {
        push_char(s, chars[i]);
        i += 1;
        assert(chars@.subrange(0, i as int) =~= chars@.subrange(0, i - 1).push(chars@[i - 1]));
    }
    assert(chars@.subrange(0, chars@.len() as int) =~= chars@);
}

/// A string holding the characters of `chars`.
pub fn string_of(chars: &[char]) -> (r: String)
    ensures
        r@ == chars@,
{
    let mut r = String::new();
    append_chars(&mut r, chars);
    assert(r@ =~= chars@);
    r
}

/// Appends the characters of `t` to `s`.
pub fn append_str(s: &mut String, t: &str)
    ensures
        final(s)@ == old(s)@ + t@,
{
    let chars = chars_of(t);
    append_chars(s, chars.as_slice());
}

/// The character of the decimal digit `d`.
pub open spec fn digit_char(d: int) -> char {
    seq!['0', '1', '2', '3', '4', '5', '6', '7', '8', '9'][d]
}

/// The decimal digits of `n`, most significant first, without leading zeros.
pub open spec fn digits_of(n: nat) -> Seq<char>
    decreases n,
{
    if n < 10 {
        seq![digit_char(n as int)]
    } else {
        digits_of(n / 10).push(digit_char((n % 10) as int))
    }
}

/// The decimal text of `n`, with a minus sign in front when it is negative.
pub open spec fn decimal_of(n: int) -> Seq<char> {
    if n < 0 {
        seq!['-'] + digits_of((-n) as nat)
    } else {
        digits_of(n as nat)
    }
}

/// The character of the decimal digit `d`.
fn digit(d: u64) -> (r: char)
    requires
        d < 10,
    ensures
        r == digit_char(d as int),
{
    match d {
        0 => '0',
        1 => '1',
        2 => '2',
        3 => '3',
        4 => '4',
        5 => '5',
        6 => '6',
        7 => '7',
        8 => '8',
        _ => '9',
    }
}

/// Appends the decimal text of `n` to `s`.
pub fn append_decimal(s: &mut String, n: i32)
    ensures
        final(s)@ == old(s)@ + decimal_of(n as int),
{
    let wide: i64 = n as i64;
    let mut v: u64 = if wide < 0 {
        (0 - wide) as u64
    } else {
        wide as u64
    };
    let ghost magnitude: nat = v as nat;
    let mut digits: Vec<char> = Vec::new();
    while v >= 10
        invariant
            digits_of(magnitude) == digits_of(v as nat) + digits@,
        decreases v,
    {
        let c = digit(v % 10);
        let ghost rest = digits@;
        digits.insert(0, c);
        assert(digits_of(v as nat) == digits_of((v / 10) as nat).push(c));
        assert(digits_of((v / 10) as nat).push(c) + rest =~= digits_of((v / 10) as nat) + digits@);
        v = v / 10;
    }
    let ghost rest = digits@;
    digits.insert(0, digit(v));
    assert(digits@ =~= digits_of(v as nat) + rest);
    if n < 0 {
        push_char(s, '-');
    }
    append_chars(s, digits.as_slice());
    assert(decimal_of(n as int) =~= if n < 0 {
        seq!['-'] + digits_of(magnitude)
    } else {
        digits_of(magnitude)
    });
}

/// The parts, one after the other, with `separator` between each two.
pub open spec fn joined(parts: Seq<Seq<char>>, separator: Seq<char>) -> Seq<char>
    decreases parts.len(),
{
    if parts.len() == 0 {
        Seq::empty()
    } else if parts.len() == 1 {
        parts[0]
    } else {
        joined(parts.drop_last(), separator) + separator + parts.last()
    }
}

/// The characters of a string.
pub fn chars_of(s: &str) -> (r: Vec<char>)
    ensures
        r@ == s@,
{
    broadcast use vstd::string::group_string_axioms;
    let mut r: Vec<char> = Vec::new();
    for c in it: s.chars()
        invariant
            r@ == it.seq().take(it.index() as int),
    {
        r.push(c);
    }
    r
}

} // verus!
