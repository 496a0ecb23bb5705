use pyrite_cli::errors::AuthError;
use pyrite_cli::manager::{LoginStep, ProviderOutcome, SessionDecision, SessionManager};
use pyrite_cli::pkce::{begin_login, check_verifier_binding};
use pyrite_cli::session::Session;
use pyrite_cli::store::SessionStore;
use pyrite_cli::callback::{CallbackAction, CallbackPhase, CallbackServer};
use pyrite_cli::codec::encode_session;

fn sample_session(expires_at: u64) -> Session {
    Session {
        access_token: "at-123".to_owned(),
        refresh_token: "rt-456".to_owned(),
        expires_at,
        user_email: "user@pyrite.cloud".to_owned(),
    }
}

fn store_with(session: &Session) -> SessionStore {
    SessionStore::from_record(Some(encode_session(session)))
}

#[test]
fn current_session_without_record_is_not_authenticated() {
    let store = SessionStore::new_empty();
    match SessionManager::evaluate_session(&store, 1000) {
        SessionDecision::Failed(AuthError::NotAuthenticated) => {}
        _ => panic!("expected NotAuthenticated"),
    }
}

#[test]
fn current_session_with_corrupt_record_is_storage_error() {
    let store = SessionStore::from_record(Some("not a session".to_owned()));
    match SessionManager::evaluate_session(&store, 1000) {
        SessionDecision::Failed(AuthError::StorageError) => {}
        _ => panic!("expected StorageError"),
    }
}

#[test]
fn valid_session_is_used_without_refresh() {
    let session = sample_session(2000);
    let store = store_with(&session);
    match SessionManager::evaluate_session(&store, 1999) {
        SessionDecision::UseStored(s) => assert_eq!(s, session),
        _ => panic!("expected the stored session"),
    }
}

#[test]
fn expiry_boundary_is_strict() {
    // expires_at == now is already expired; one second earlier is valid.
    let session = sample_session(1000);
    let store = store_with(&session);
    match SessionManager::evaluate_session(&store, 1000) {
        SessionDecision::Refresh(tok) => assert_eq!(tok, "rt-456"),
        _ => panic!("a session expiring exactly now must be refreshed"),
    }
    match SessionManager::evaluate_session(&store, 999) {
        SessionDecision::UseStored(s) => assert_eq!(s, session),
        _ => panic!("a session expiring one second later is still valid"),
    }
}

#[test]
fn refresh_success_persists_the_new_session() {
    let old = sample_session(1000);
    let mut store = store_with(&old);
    let new = sample_session(5000);
    let r = SessionManager::finish_refresh(&mut store, ProviderOutcome::Granted(new.clone()));
    assert_eq!(r.unwrap(), new);
    assert_eq!(store.read().unwrap(), Some(new));
}

#[test]
fn refresh_failure_keeps_the_stale_session() {
    let old = sample_session(1000);
    let mut store = store_with(&old);
    let r = SessionManager::finish_refresh(&mut store, ProviderOutcome::Rejected);
    assert_eq!(r.unwrap_err(), AuthError::RefreshFailed);
    // The stale record is left on disk untouched.
    assert_eq!(store.read().unwrap(), Some(old));
}

#[test]
fn login_returns_existing_valid_session_unchanged() {
    // Login with a non-expired session returns it as stored, no network.
    let session = sample_session(9000);
    let store = store_with(&session);
    match SessionManager::evaluate_login(&store, 100) {
        LoginStep::AlreadyLoggedIn(s) => assert_eq!(s, session),
        LoginStep::StartLogin => panic!("login must short-circuit on a valid session"),
    }
}

#[test]
fn login_starts_flow_when_session_expired_or_missing() {
    let store = SessionStore::new_empty();
    assert!(matches!(
        SessionManager::evaluate_login(&store, 100),
        LoginStep::StartLogin
    ));
    let expired = sample_session(50);
    let store = store_with(&expired);
    assert!(matches!(
        SessionManager::evaluate_login(&store, 100),
        LoginStep::StartLogin
    ));
}

#[test]
fn logout_twice_succeeds_both_times() {
    // The second logout is a no-op that still succeeds.
    let mut store = store_with(&sample_session(1000));
    assert!(SessionManager::logout(&mut store).is_ok());
    assert!(SessionManager::logout(&mut store).is_ok());
    assert_eq!(store.read().unwrap(), None);
}

#[test]
fn full_login_scenario() {
    // No record -> NotAuthenticated -> authorization URL with a
    // 43-character challenge and the fixed local redirect -> simulated
    // callback with code=abc123 and the matching verifier -> persisted
    // session -> current_session returns it without any further step.
    let mut store = SessionStore::new_empty();
    let now: u64 = 1_700_000_000;

    match SessionManager::evaluate_session(&store, now) {
        SessionDecision::Failed(AuthError::NotAuthenticated) => {}
        _ => panic!("expected NotAuthenticated"),
    }

    let attempt = begin_login("http://localhost:54321", "github");
    assert_eq!(attempt.challenge.len(), 43);
    assert!(attempt.url.contains(&format!("code_challenge={}", attempt.challenge)));
    assert!(attempt.url.contains("response_type=code"));
    assert!(attempt.url.contains("code_challenge_method=S256"));
    assert!(attempt.url.contains("skip_http_redirect=true"));
    assert!(attempt
        .url
        .contains("redirect_to=http%3A%2F%2Flocalhost%3A8976%2Fauth%2Fcallback"));

    let mut server = CallbackServer::new();
    let code = match server.on_request("code=abc123") {
        CallbackAction::ExchangeCode(code) => code,
        _ => panic!("the first request must start the exchange"),
    };
    assert_eq!(code, "abc123");

    // The provider checks the verifier against the challenge it saw.
    assert!(check_verifier_binding(&attempt.verifier, &attempt.challenge).is_ok());

    let granted = sample_session(now + 3600);
    let r = server.on_exchange(&mut store, ProviderOutcome::Granted(granted.clone()));
    assert_eq!(r.unwrap(), granted);
    assert_eq!(server.phase, CallbackPhase::Completed);
    server.terminate();
    assert_eq!(server.phase, CallbackPhase::Terminated);

    match SessionManager::evaluate_session(&store, now) {
        SessionDecision::UseStored(s) => assert_eq!(s, granted),
        _ => panic!("the persisted session must be returned without a refresh"),
    }
}
