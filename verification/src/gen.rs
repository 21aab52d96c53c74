//! Generation of random tokens and record identifiers.
//!
//! Both generators draw on process-wide randomness, so nothing relates two
//! calls: callers may rely only on the shape of each result.

use vstd::prelude::*;

use rand::distr::SampleString;

use crate::strutil::{alphanumeric_char, hex_digit_char};

verus! {

/// Relies on rand's `Alphanumeric` distribution with `SampleString`: every
/// sampled character is one of `A-Z`, `a-z`, `0-9` (each a one-byte char),
/// and exactly `len` of them are appended to the fresh string.
#[verifier::external_body]
pub(crate) fn random_alphanumeric(len: usize) -> (r: String)
    ensures
        r@.len() == len,
        forall|i: int| 0 <= i < r@.len() ==> alphanumeric_char(#[trigger] r@[i]),
{
    rand::distr::Alphanumeric.sample_string(&mut rand::rng(), len)
}

/// Relies on bson's `ObjectId::new` and `ObjectId::to_hex`: a fresh 12-byte
/// identifier, rendered as its 24-character lowercase hexadecimal string.
#[verifier::external_body]
pub(crate) fn object_id_hex() -> (r: String)
    ensures
        r@.len() == 24,
        forall|i: int| 0 <= i < r@.len() ==> hex_digit_char(#[trigger] r@[i]),
{
    bson::oid::ObjectId::new().to_hex()
}

} // verus!
