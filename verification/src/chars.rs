//! Conversions between strings and character vectors, and character
//! construction from code points. These lean on the standard library.

use vstd::prelude::*;

verus! {

/// Relies on str::chars and Vec::from_iter: the characters of the string,
/// in order.
#[verifier::external_body]
pub(crate) fn str_chars(s: &str) -> (r: Vec<char>)
    ensures
        r@ == s@,
{
    s.chars().collect()
}

/// Relies on String::from_iter: the string with exactly the given
/// characters, in order.
#[verifier::external_body]
pub(crate) fn chars_to_string(v: &Vec<char>) -> (r: String)
    ensures
        r@ == v@,
{
    v.iter().collect()
}

/// Relies on char::from_u32: the character with the given code point;
/// `None` exactly on surrogate code points and values beyond the last
/// Unicode scalar value.
#[verifier::external_body]
pub(crate) fn char_from_u32(n: u32) -> (r: Option<char>)
    ensures
        r matches Some(c) ==> c as u32 == n,
        r is Some <==> (n < 0xD800 || (0xE000 <= n && n <= 0x10FFFF)),
{
    char::from_u32(n)
}

} // verus!
