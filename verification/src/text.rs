//! Text helpers: equality, slicing and joining of strings over their characters.

use vstd::prelude::*;
use vstd::string::*;

verus! {

/// `str` equality (`core::str`, `PartialEq for str`): two strings are equal when they
/// hold the same characters.
pub assume_specification[ <str as PartialEq>::eq ](a: &str, b: &str) -> (same: bool)
    ensures
        same == (a@ == b@),
;

/// Whether `text` begins with `prefix`.
pub fn starts_with(text: &str, prefix: &str) -> (found: bool)
    ensures
        found == prefix@.is_prefix_of(text@),
{
    let prefix_len: usize = prefix.unicode_len();
    if text.unicode_len() < prefix_len {
        return false;
    }
    let head = text.substring_char(0, prefix_len);
    *head == *prefix
}

/// The two texts one after the other.
pub fn join2(a: &str, b: &str) -> (joined: String)
    ensures
        joined@ == a@ + b@,
{
    let mut joined = a.to_owned();
    joined.append(b);
    joined
}

/// Four texts one after the other.
pub fn join4(a: &str, b: &str, c: &str, d: &str) -> (joined: String)
    ensures
        joined@ == a@ + b@ + c@ + d@,
{
    let mut joined = a.to_owned();
    joined.append(b);
    joined.append(c);
    joined.append(d);
    joined
}

} // verus!
