//! The 64-character alphabet: lower case first, then upper case, the digits,
//! `+` and `/`. There is no padding character.

use vstd::prelude::*;
use crate::error::DecodeError;

verus! {

/// Whether `c` is one of the 64 characters of the alphabet.
pub open spec fn in_alphabet(c: char) -> bool {
    ('a' <= c && c <= 'z') || ('A' <= c && c <= 'Z') || ('0' <= c && c <= '9') || c == '+'
        || c == '/'
}

/// The 6-bit value of a character of the alphabet: `a`..`z` are 0..25,
/// `A`..`Z` are 26..51, `0`..`9` are 52..61, `+` is 62 and `/` is 63.
pub open spec fn value_of(c: char) -> int
    recommends
        in_alphabet(c),
{
    if 'a' <= c && c <= 'z' {
        c as int - 'a' as int
    } else if 'A' <= c && c <= 'Z' {
        c as int - 'A' as int + 26
    } else if '0' <= c && c <= '9' {
        c as int - '0' as int + 52
    } else if c == '+' {
        62
    } else {
        63
    }
}

/// Every character of the alphabet has a value below 64.
pub proof fn value_of_is_six_bits(c: char)
    requires
        in_alphabet(c),
    ensures
        0 <= value_of(c) < 64,
{
}

/// Two characters of the alphabet with the same value are the same character.
pub proof fn value_of_is_injective(c: char, d: char)
    requires
        in_alphabet(c),
        in_alphabet(d),
        value_of(c) == value_of(d),
    ensures
        c == d,
{
}

/// Every character of the alphabet is an ASCII character.
pub proof fn alphabet_is_ascii(c: char)
    requires
        in_alphabet(c),
    ensures
        (c as u32) < 128,
{
}

/// Looks up the 6-bit value of `c`, or reports `c` as invalid.
pub fn char_to_value(c: char) -> (result: Result<u8, DecodeError>)
    ensures
        in_alphabet(c) ==> result == Ok::<u8, DecodeError>(value_of(c) as u8),
        !in_alphabet(c) ==> result == Err::<u8, DecodeError>(DecodeError::InvalidCharacter(c)),
{
    let code: u32 = c as u32;
    if 97 <= code && code <= 122 {
        Ok((code - 97) as u8)
    } else if 65 <= code && code <= 90 {
        Ok((code - 65 + 26) as u8)
    } else if 48 <= code && code <= 57 {
        Ok((code - 48 + 52) as u8)
    } else if code == 43 {
        Ok(62)
    } else if code == 47 {
        Ok(63)
    } else {
        Err(DecodeError::InvalidCharacter(c))
    }
}

} // verus!
