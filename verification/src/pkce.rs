//! Opening a browser-delegated login: a fresh random code verifier, its
//! SHA-256-based challenge, and the provider authorization URL that carries
//! the challenge. Building the URL is local and cannot fail; no network
//! call happens here. The verifier and the challenge travel together in one
//! `LoginAttempt`, so the verifier presented at code-exchange time is by
//! construction the one whose challenge went into the authorization request.

use vstd::prelude::*;

use crate::encoding::{base64url_nopad, encode_base64url, random_byte, sha256, sha256_of};
use crate::errors::AuthError;
use crate::strutil::str_eq;

verus! {

/// The challenge that belongs to a verifier: the unpadded URL-safe base64
/// of the SHA-256 digest of the verifier's bytes.
pub open spec fn challenge_of(verifier: Seq<char>) -> Seq<char> {
    base64url_nopad(sha256_of(vstd::utf8::encode_utf8(verifier)))
}

/// One login attempt's ephemeral state: held in memory only, never
/// persisted, fresh for every attempt.
pub struct LoginAttempt {
    /// The random secret presented at code-exchange time.
    pub verifier: String,
    /// Its derived challenge, as sent in the authorization request.
    pub challenge: String,
    /// The authorization URL surfaced to the user.
    pub url: String,
}

/// The provider authorization URL: code response type, the challenge and
/// its method, the provider, the flag suppressing the provider-side
/// redirect, and the fixed local callback as the redirect target.
pub open spec fn spec_authorize_url(base: Seq<char>, provider: Seq<char>, challenge: Seq<char>)
    -> Seq<char> {
    base + "/auth/v1/authorize?provider="@ + provider + "&response_type=code&code_challenge="@
        + challenge
        + "&code_challenge_method=S256&skip_http_redirect=true&redirect_to=http%3A%2F%2Flocalhost%3A8976%2Fauth%2Fcallback"@
}

/// Builds the authorization URL for this provider and challenge.
pub fn authorize_url(base: &str, provider: &str, challenge: &str) -> (r: String)
    ensures
        r@ == spec_authorize_url(base@, provider@, challenge@),
{
    let mut url = base.to_owned();
    url.append("/auth/v1/authorize?provider=");
    url.append(provider);
    url.append("&response_type=code&code_challenge=");
    url.append(challenge);
    url.append(
        "&code_challenge_method=S256&skip_http_redirect=true&redirect_to=http%3A%2F%2Flocalhost%3A8976%2Fauth%2Fcallback",
    );
    proof {
        assert(url@ =~= spec_authorize_url(base@, provider@, challenge@));
    }
    url
}

/// Derives the challenge belonging to a verifier.
pub fn derive_challenge(verifier: &str) -> (c: String)
    ensures
        c@ == challenge_of(verifier@),
        c@.len() == 43,
{
    let digest = sha256(verifier.as_bytes());
    encode_base64url(digest.as_slice())
}

/// Starts a login attempt: 32 fresh random bytes become a 43-character
/// verifier, its challenge is derived, and the authorization URL is built
/// around the challenge. Every field is pinned to the verifier: whoever
/// completes this attempt presents the verifier of the URL that was shown.
pub fn begin_login(base: &str, provider: &str) -> (a: LoginAttempt)
    ensures
        a.verifier@.len() == 43,
        a.challenge@ == challenge_of(a.verifier@),
        a.challenge@.len() == 43,
        a.url@ == spec_authorize_url(base@, provider@, a.challenge@),
{
    let mut bytes: Vec<u8> = Vec::new();
    let mut i: usize = 0;
    while i < 32
        invariant
            i <= 32,
            bytes@.len() == i,
        decreases 32 - i,
    {
        bytes.push(random_byte());
        i = i + 1;
    }
    let verifier = encode_base64url(bytes.as_slice());
    let challenge = derive_challenge(verifier.as_str());
    let url = authorize_url(base, provider, challenge.as_str());
    LoginAttempt { verifier, challenge, url }
}

/// The provider's PKCE acceptance rule: a code exchange presenting
/// `verifier` against an authorization request that carried `challenge`
/// succeeds only when the challenge derived from the verifier is that very
/// challenge.
pub open spec fn spec_exchange_accepts(verifier: Seq<char>, challenge: Seq<char>) -> bool {
    challenge_of(verifier) == challenge
}

/// The verifier check a provider applies at code-exchange time, stated over
/// this library's values: a verifier that does not match the challenge is
/// rejected as `ExchangeFailed`, never silently accepted.
pub fn check_verifier_binding(verifier: &str, challenge: &str) -> (r: Result<(), AuthError>)
    ensures
        spec_exchange_accepts(verifier@, challenge@) ==> r == Result::<(), AuthError>::Ok(()),
        !spec_exchange_accepts(verifier@, challenge@) ==> r == Result::<(), AuthError>::Err(
            AuthError::ExchangeFailed,
        ),
{
    let derived = derive_challenge(verifier);
    if str_eq(derived.as_str(), challenge) {
        Result::Ok(())
    } else {
        Result::Err(AuthError::ExchangeFailed)
    }
}

/// Verifier binding: against the challenge of a given attempt, only a
/// verifier whose derived challenge is that challenge can pass the
/// provider's check.
pub proof fn lemma_verifier_binding(verifier: Seq<char>, challenge: Seq<char>)
    requires
        challenge_of(verifier) != challenge,
    ensures
        !spec_exchange_accepts(verifier, challenge),
{
}

} // verus!
