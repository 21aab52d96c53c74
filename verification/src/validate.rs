//! Syntactic validation of email addresses.

use vstd::prelude::*;

use validator::ValidateEmail;

verus! {

/// Whether `s` is a syntactically valid email address in the HTML5 sense.
/// The outcome is a function of the string alone.
pub uninterp spec fn valid_email(s: Seq<char>) -> bool;

/// Relies on validator's `ValidateEmail` for `&str`: the HTML5
/// valid-email-address check, a pure function of the string.
#[verifier::external_body]
pub fn email_is_valid(s: &str) -> (r: bool)
    ensures
        r == valid_email(s@),
{
    s.validate_email()
}

} // verus!
