//! Text primitives shared by the lexer, the parser and the executor.
//!
//! The Unicode-aware operations of the standard library are used as they are.
//! Their results are given names here, so that the contracts of the verified
//! code can speak of them exactly without restating the Unicode tables.

use vstd::prelude::*;

verus! {

/// The Unicode "alphabetic or numeric" property of a character.
pub uninterp spec fn alphanumeric(c: char) -> bool;

/// The Unicode "numeric" property (general categories Nd, Nl and No) of a character.
pub uninterp spec fn numeric(c: char) -> bool;

/// The Unicode "white space" property of a character.
pub uninterp spec fn whitespace(c: char) -> bool;

/// The Unicode upper-case mapping of a text.
pub uninterp spec fn uppercase(s: Seq<char>) -> Seq<char>;

/// A text without its leading and trailing Unicode white space.
pub uninterp spec fn trimmed(s: Seq<char>) -> Seq<char>;

/// `char::is_alphanumeric` of the standard library. Not proved: its answer
/// depends on the character alone; that answer is named [`alphanumeric`].
pub assume_specification[ char::is_alphanumeric ](c: char) -> (r: bool)
    ensures
        r == alphanumeric(c),
;

/// `char::is_numeric` of the standard library. Not proved: its answer depends
/// on the character alone; that answer is named [`numeric`].
pub assume_specification[ char::is_numeric ](c: char) -> (r: bool)
    ensures
        r == numeric(c),
;

/// `char::is_whitespace` of the standard library. Not proved: its answer
/// depends on the character alone; that answer is named [`whitespace`].
pub assume_specification[ char::is_whitespace ](c: char) -> (r: bool)
    ensures
        r == whitespace(c),
;

/// `str::to_uppercase` of the standard library. Not proved: the returned
/// string depends on the characters of `s` alone; it is named [`uppercase`].
pub assume_specification[ str::to_uppercase ](s: &str) -> (r: String)
    ensures
        r@ == uppercase(s@),
;

/// `str::trim` of the standard library. Not proved: the returned slice
/// depends on the characters of `s` alone; it is named [`trimmed`].
pub assume_specification<'a>[ str::trim ](s: &'a str) -> (r: &'a str)
    ensures
        r@ == trimmed(s@),
;

/// `String::push` of the standard library. Not proved: it appends the one
/// character `ch` at the end of the string and changes nothing else.
pub assume_specification[ String::push ](s: &mut String, ch: char)
    ensures
        final(s)@ == old(s)@.push(ch),
;

/// Equality of string slices in the standard library. Not proved: two slices
/// are equal exactly when they hold the same characters in the same order.
pub assume_specification[ <str as PartialEq>::eq ](a: &str, b: &str) -> (r: bool)
    ensures
        r == (a@ == b@),
;

/// The decimal digit for a value below ten.
pub open spec fn digit(d: int) -> char {
    seq!['0', '1', '2', '3', '4', '5', '6', '7', '8', '9'][d]
}

/// The decimal numeral of `n`, without leading zeros.
pub open spec fn decimal(n: nat) -> Seq<char>
    decreases n,
{
    if n < 10 {
        seq![digit(n as int)]
    } else {
        decimal(n / 10).push(digit((n % 10) as int))
    }
}

fn digit_char(d: usize) -> (c: char)
    requires
        d < 10,
    ensures
        c == digit(d as int),
{
    match d {
        0 => '0',
        1 => '1',
        2 => '2',
        3 => '3',
        4 => '4',
        5 => '5',
        6 => '6',
        7 => '7',
        8 => '8',
        _ => '9',
    }
}

/// Appends the decimal numeral of `n` to `out`.
pub fn push_decimal(out: &mut String, n: usize)
    ensures
        final(out)@ == old(out)@ + decimal(n as nat),
    decreases n,
{
    if n >= 10 {
        push_decimal(out, n / 10);
    }
    out.push(digit_char(n % 10));
}

} // verus!
