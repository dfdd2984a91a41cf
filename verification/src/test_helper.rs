//! Helpers for tests that need fresh names.

use vstd::prelude::*;

verus! {

/// The length of the names made by [`random_string`].
pub const RANDOM_STRING_LEN: usize = 16;

/// Whether `c` is an ASCII letter or digit.
pub open spec fn is_ascii_alphanumeric(c: char) -> bool {
    ('0' <= c <= '9') || ('a' <= c <= 'z') || ('A' <= c <= 'Z')
}

/// Calls `rand::distr::Alphanumeric.sample_string(&mut rand::rng(), len)`,
/// which appends `len` characters drawn at random from the ASCII letters
/// and digits to an empty string.
#[verifier::external_body]
fn sample_alphanumeric(len: usize) -> (r: String)
    ensures
        r@.len() == len,
        forall|i: int| 0 <= i < r@.len() ==> is_ascii_alphanumeric(#[trigger] r@[i]),
{
    rand::distr::SampleString::sample_string(&rand::distr::Alphanumeric, &mut rand::rng(), len)
}

/// A random name of 16 ASCII letters and digits.
pub fn random_string() -> (r: String)
    ensures
        r@.len() == RANDOM_STRING_LEN,
        forall|i: int| 0 <= i < r@.len() ==> is_ascii_alphanumeric(#[trigger] r@[i]),
{
    sample_alphanumeric(RANDOM_STRING_LEN)
}

} // verus!
