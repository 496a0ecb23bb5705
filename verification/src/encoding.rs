//! The outside encodings the authentication core leans on: SHA-256 and the
//! two base64 engines. Each result is a function of the input bytes alone;
//! their exact values are named, not restated, and the tests exercise them
//! against known vectors through the public functions built on top.

use vstd::prelude::*;

use base64::Engine;
use sha2::Digest;

verus! {

/// The SHA-256 digest of a byte string.
pub uninterp spec fn sha256_of(bytes: Seq<u8>) -> Seq<u8>;

/// The base64 encoding of a byte string over the URL-safe alphabet,
/// unpadded.
pub uninterp spec fn base64url_nopad(bytes: Seq<u8>) -> Seq<char>;

/// The base64 encoding of a byte string over the standard alphabet,
/// unpadded.
pub uninterp spec fn base64_nopad(bytes: Seq<u8>) -> Seq<char>;

/// Relies on sha2's `Sha256::digest`: the digest depends on the input bytes
/// alone and is exactly 32 bytes long.
#[verifier::external_body]
pub fn sha256(bytes: &[u8]) -> (r: Vec<u8>)
    ensures
        r@ == sha256_of(bytes@),
        r@.len() == 32,
{
    sha2::Sha256::digest(bytes).to_vec()
}

/// Relies on base64's `URL_SAFE_NO_PAD` engine: the encoding depends on the
/// input bytes alone; without padding it spells ceil(4n/3) characters.
#[verifier::external_body]
pub fn encode_base64url(bytes: &[u8]) -> (r: String)
    ensures
        r@ == base64url_nopad(bytes@),
        r@.len() == (bytes@.len() * 4 + 2) / 3,
{
    base64::prelude::BASE64_URL_SAFE_NO_PAD.encode(bytes)
}

/// Relies on base64's `STANDARD_NO_PAD` engine: the encoding depends on the
/// input bytes alone; without padding it spells ceil(4n/3) characters.
#[verifier::external_body]
pub fn encode_base64(bytes: &[u8]) -> (r: String)
    ensures
        r@ == base64_nopad(bytes@),
        r@.len() == (bytes@.len() * 4 + 2) / 3,
{
    base64::prelude::BASE64_STANDARD_NO_PAD.encode(bytes)
}

/// Relies on rand's `random`: one byte from the thread-local
/// cryptographically secure generator. Nothing is promised of its value.
#[verifier::external_body]
pub fn random_byte() -> u8 {
    rand::random()
}

} // verus!
