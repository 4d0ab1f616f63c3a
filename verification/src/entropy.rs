use vstd::prelude::*;
use rand::distributions::{Alphanumeric, DistString};

verus! {

/// ASCII letters and digits.
pub open spec fn is_ascii_alphanumeric(c: char) -> bool {
    ('A' <= c && c <= 'Z') || ('a' <= c && c <= 'z') || ('0' <= c && c <= '9')
}

/// `Alphanumeric.sample_string(&mut rand::thread_rng(), len)`: `len` random characters,
/// each drawn from `A-Z`, `a-z`, `0-9` (the distribution's charset in the source).
#[verifier::external_body]
pub(crate) fn random_alphanumeric(len: usize) -> (s: String)
    ensures
        s@.len() == len,
        forall|i: int| 0 <= i < s@.len() ==> is_ascii_alphanumeric(#[trigger] s@[i]),
{
    Alphanumeric.sample_string(&mut rand::thread_rng(), len)
}

/// `rand::random::<[u8; 16]>()`: sixteen random bytes.
#[verifier::external_body]
pub(crate) fn random_bytes_16() -> (bytes: Vec<u8>)
    ensures
        bytes@.len() == 16,
{
    rand::random::<[u8; 16]>().to_vec()
}

/// Characters of Crockford's base 32 as ULIDs are written.
pub open spec fn is_crockford_digit(c: char) -> bool {
    ('0' <= c && c <= '9') || ('A' <= c && c <= 'Z' && c != 'I' && c != 'L' && c != 'O' && c != 'U')
}

/// `Ulid::new().to_string()`: a fresh identifier of 26 Crockford base-32 characters.
/// Its value depends on the clock and on chance, and is not stated.
#[verifier::external_body]
pub(crate) fn new_ulid() -> (id: String)
    ensures
        id@.len() == 26,
        forall|i: int| 0 <= i < id@.len() ==> is_crockford_digit(#[trigger] id@[i]),
{
    ulid::Ulid::new().to_string()
}

/// `chrono::Utc::now().timestamp_micros()`: the current time in microseconds since
/// the Unix epoch. Nothing is stated of the value.
#[verifier::external_body]
pub(crate) fn now_micros() -> (t: i64) {
    chrono::Utc::now().timestamp_micros()
}

} // verus!
