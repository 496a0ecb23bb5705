use base64::Engine;
use sha2::Digest;

use pyrite_cli::callback::{extract_code, CallbackAction, CallbackPhase, CallbackServer};
use pyrite_cli::credentials::attach;
use pyrite_cli::codec::encode_session;
use pyrite_cli::errors::AuthError;
use pyrite_cli::manager::ProviderOutcome;
use pyrite_cli::pkce::{begin_login, check_verifier_binding, derive_challenge};
use pyrite_cli::session::Session;
use pyrite_cli::store::SessionStore;

#[test]
fn extract_code_finds_the_code_parameter() {
    assert_eq!(extract_code("code=abc123"), Some("abc123".to_owned()));
    assert_eq!(extract_code("state=x&code=y"), Some("y".to_owned()));
    assert_eq!(extract_code("code=first&code=second"), Some("first".to_owned()));
    assert_eq!(extract_code("code="), Some("".to_owned()));
}

#[test]
fn extract_code_rejects_everything_else() {
    assert_eq!(extract_code(""), None);
    assert_eq!(extract_code("error=access_denied"), None);
    assert_eq!(extract_code("codex=1"), None);
    assert_eq!(extract_code("code"), None);
    assert_eq!(extract_code("a=b&c=d"), None);
}

#[test]
fn verifier_matches_its_own_challenge() {
    let attempt = begin_login("http://localhost:54321", "github");
    assert!(check_verifier_binding(&attempt.verifier, &attempt.challenge).is_ok());
}

#[test]
fn mismatched_verifier_fails_the_exchange() {
    // A verifier that does not match the challenge sent in the
    // authorization URL fails with ExchangeFailed, never silently passes.
    let attempt = begin_login("http://localhost:54321", "github");
    let other = begin_login("http://localhost:54321", "github");
    assert_ne!(attempt.verifier, other.verifier);
    assert_eq!(
        check_verifier_binding(&other.verifier, &attempt.challenge),
        Err(AuthError::ExchangeFailed)
    );
    assert_eq!(
        check_verifier_binding("AAAAAAAAAAAAAAAAAAAAAAAAAAAAAAAAAAAAAAAAAAA", &attempt.challenge),
        Err(AuthError::ExchangeFailed)
    );
}

#[test]
fn challenge_is_the_base64url_sha256_of_the_verifier() {
    // The trusted digest and encoding wrappers against known outside code:
    // this fails if either handed its input back unchanged.
    let c = derive_challenge("test-verifier");
    let expected = base64::prelude::BASE64_URL_SAFE_NO_PAD
        .encode(sha2::Sha256::digest("test-verifier".as_bytes()));
    assert_eq!(c, expected);
    assert_eq!(c.len(), 43);
    assert_ne!(c, "test-verifier");
}

#[test]
fn verifier_is_43_characters_and_fresh() {
    let a = begin_login("http://localhost:54321", "github");
    let b = begin_login("http://localhost:54321", "github");
    assert_eq!(a.verifier.len(), 43);
    assert_eq!(b.verifier.len(), 43);
    assert_ne!(a.verifier, b.verifier);
}

#[test]
fn authorization_url_spells_out_every_parameter() {
    let attempt = begin_login("https://auth.example", "github");
    assert_eq!(
        attempt.url,
        format!(
            "https://auth.example/auth/v1/authorize?provider=github&response_type=code\
             &code_challenge={}&code_challenge_method=S256&skip_http_redirect=true\
             &redirect_to=http%3A%2F%2Flocalhost%3A8976%2Fauth%2Fcallback",
            attempt.challenge
        )
    );
}

#[test]
fn second_request_is_ignored() {
    // After the first request: no second exchange and no second write.
    let mut server = CallbackServer::new();
    let mut store = SessionStore::new_empty();
    match server.on_request("code=abc123") {
        CallbackAction::ExchangeCode(code) => assert_eq!(code, "abc123"),
        _ => panic!("the first request starts the exchange"),
    }
    assert_eq!(server.phase, CallbackPhase::Exchanging);
    assert!(matches!(server.on_request("code=zzz"), CallbackAction::Ignore));
    assert_eq!(server.phase, CallbackPhase::Exchanging);

    let session = Session {
        access_token: "a".to_owned(),
        refresh_token: "r".to_owned(),
        expires_at: 10,
        user_email: "e".to_owned(),
    };
    server
        .on_exchange(&mut store, ProviderOutcome::Granted(session.clone()))
        .unwrap();
    let persisted = store.record_text().cloned();
    assert!(matches!(server.on_request("code=later"), CallbackAction::Ignore));
    assert_eq!(server.phase, CallbackPhase::Completed);
    assert_eq!(store.record_text().cloned(), persisted);
}

#[test]
fn request_without_code_fails_with_missing_code() {
    let mut server = CallbackServer::new();
    match server.on_request("error=access_denied") {
        CallbackAction::RespondErrorAndShutdown(e) => assert_eq!(e, AuthError::MissingCode),
        _ => panic!("a request without a code fails the attempt"),
    }
    assert_eq!(server.phase, CallbackPhase::Failed);
}

#[test]
fn rejected_exchange_leaves_no_session_behind() {
    let mut server = CallbackServer::new();
    let mut store = SessionStore::new_empty();
    server.on_request("code=abc");
    let r = server.on_exchange(&mut store, ProviderOutcome::Rejected);
    assert_eq!(r.unwrap_err(), AuthError::ExchangeFailed);
    assert_eq!(server.phase, CallbackPhase::Failed);
    assert_eq!(store.read().unwrap(), None);

    let mut server = CallbackServer::new();
    server.on_request("code=abc");
    let r = server.on_exchange(&mut store, ProviderOutcome::TransportFailed);
    assert_eq!(r.unwrap_err(), AuthError::Network);
}

#[test]
fn credentials_are_the_tagged_base64_of_the_record() {
    let session = Session {
        access_token: "at".to_owned(),
        refresh_token: "rt".to_owned(),
        expires_at: 42,
        user_email: "user@pyrite.cloud".to_owned(),
    };
    let (name, value) = attach(&session);
    assert_eq!(name, "sb-127-auth-token");
    let record = encode_session(&session);
    let expected = format!(
        "base64-{}",
        base64::prelude::BASE64_STANDARD_NO_PAD.encode(record.as_bytes())
    );
    assert_eq!(value, expected);
    assert_ne!(value, format!("base64-{record}"));

    // Deterministic: the same session content yields the same credentials.
    let again = attach(&session.clone());
    assert_eq!(again.0, name);
    assert_eq!(again.1, value);
}
