//! Message-id tags and login tokens: an HMAC over the message id guards the
//! status query, and a random token is an account's permanent login link.

use crate::text::str_eq;
use hmac::{KeyInit, Mac};
use vstd::prelude::*;

verus! {

/// The hex HMAC-SHA-256 tag of a text under a key.
pub uninterp spec fn hmac_sha256_hex_of(key: Seq<char>, text: Seq<char>) -> Seq<char>;

/// A lowercase hexadecimal digit.
pub open spec fn is_lower_hex_digit(c: char) -> bool {
    ('0' <= c && c <= '9') || ('a' <= c && c <= 'f')
}

/// Relies on the hmac crate's `Hmac<Sha256>` (`new_from_slice`, `update`,
/// `finalize`) and `hex::encode`: the 32-byte MAC rendered as 64 lowercase
/// hex digits, a function of key and text alone.  `new_from_slice` accepts
/// keys of any length for HMAC.
#[verifier::external_body]
pub fn generate_hash(text: &str, hash_key: &str) -> (r: String)
    ensures
        r@ == hmac_sha256_hex_of(hash_key@, text@),
        r@.len() == 64,
        forall|i: int| 0 <= i < r@.len() ==> is_lower_hex_digit(#[trigger] r@[i]),
{
    let mut mac = <hmac::Hmac<sha2::Sha256> as KeyInit>::new_from_slice(hash_key.as_bytes())
        .expect("HMAC accepts keys of any size");
    mac.update(text.as_bytes());
    hex::encode(mac.finalize().into_bytes())
}

/// A provided tag passes exactly when it equals the freshly computed tag of
/// the same text under the same key.
pub fn check_hash(text: &str, provided_hash: &str, hash_key: &str) -> (r: bool)
    ensures
        r == (hmac_sha256_hex_of(hash_key@, text@) == provided_hash@),
{
    let expected_hash = generate_hash(text, hash_key);
    str_eq(expected_hash.as_str(), provided_hash)
}

/// A character of the 62-letter ASCII alphanumeric alphabet.
pub open spec fn is_ascii_alphanumeric_char(c: char) -> bool {
    ('a' <= c && c <= 'z') || ('A' <= c && c <= 'Z') || ('0' <= c && c <= '9')
}

/// Relies on rand's `Alphanumeric` distribution through `SampleString`: 32
/// characters, each drawn from a-z, A-Z, 0-9.  Nothing more can be promised
/// of a random value.
#[verifier::external_body]
pub fn generate_random_token() -> (r: String)
    ensures
        r@.len() == 32,
        forall|i: int| 0 <= i < r@.len() ==> is_ascii_alphanumeric_char(#[trigger] r@[i]),
{
    rand::distr::SampleString::sample_string(&rand::distr::Alphanumeric, &mut rand::rng(), 32)
}

} // verus!
