//! The characters an identifier is made of.

use vstd::prelude::*;

verus! {

/// `c` is one of `0` to `9`.
pub open spec fn is_digit(c: char) -> bool {
    '0' <= c <= '9'
}

/// `c` is one of `a` to `z`.
pub open spec fn is_lower(c: char) -> bool {
    'a' <= c <= 'z'
}

/// `c` is one of `A` to `Z`.
pub open spec fn is_upper(c: char) -> bool {
    'A' <= c <= 'Z'
}

/// `c` is an ASCII letter or digit.
pub open spec fn is_alphanumeric(c: char) -> bool {
    is_digit(c) || is_lower(c) || is_upper(c)
}

/// Every character of `s` is an ASCII letter or digit.
pub open spec fn all_alphanumeric(s: Seq<char>) -> bool {
    forall|i: int| 0 <= i < s.len() ==> is_alphanumeric(#[trigger] s[i])
}

/// The digit that stands for `d` in a base up to 36: `0` to `9`, then `a` to `z`.
pub open spec fn digit(d: nat) -> char
    recommends
        d < 36,
{
    if d < 10 {
        (d + 48) as char
    } else {
        (d + 87) as char
    }
}

/// Computes the digit that stands for `d`.
pub fn digit_char(d: u8) -> (c: char)
    requires
        d < 36,
    ensures
        c == digit(d as nat),
        is_digit(c) || is_lower(c),
{
    if d < 10 {
        (d + 48) as char
    } else {
        (d + 87) as char
    }
}

/// Tells whether the byte `b` is the code of an ASCII letter or digit.
pub fn is_alphanumeric_byte(b: u8) -> (yes: bool)
    ensures
        yes == is_alphanumeric(b as char),
{
    (48 <= b && b <= 57) || (97 <= b && b <= 122) || (65 <= b && b <= 90)
}

} // verus!
