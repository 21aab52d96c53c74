//! Small string helpers shared across the library.

use vstd::prelude::*;

verus! {

/// Whether `c` is an ASCII alphanumeric character (the alphabet of the
/// generated tokens and codes).
pub open spec fn alphanumeric_char(c: char) -> bool {
    ||| ('A' <= c && c <= 'Z')
    ||| ('a' <= c && c <= 'z')
    ||| ('0' <= c && c <= '9')
}

/// Whether `c` is a lowercase hexadecimal digit (the alphabet of minted
/// object ids).
pub open spec fn hex_digit_char(c: char) -> bool {
    ||| ('0' <= c && c <= '9')
    ||| ('a' <= c && c <= 'f')
}

/// Character-exact equality of two string slices.
pub fn str_eq(a: &str, b: &str) -> (r: bool)
    ensures
        r == (a@ == b@),
{
    let x: String = a.to_owned();
    let y: String = b.to_owned();
    x == y
}

} // verus!
