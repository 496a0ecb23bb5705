//! The session façade: decides, for one CLI invocation, whether the stored
//! session can be used as it stands, must be refreshed first, or is missing
//! altogether, and applies the provider's answer to the store. The network
//! round-trips themselves (refresh, code exchange) are suspension points of
//! the surrounding binary; every decision around them is made here.

use vstd::prelude::*;

use crate::codec::spec_encode_session;
use crate::errors::AuthError;
use crate::session::Session;
use crate::store::{spec_read, SessionStore, StoreV};

verus! {

/// What an authenticated call must do to obtain a session.
pub enum SessionDecision {
    /// The stored session is still valid: use it, with no network call.
    UseStored(Session),
    /// The stored session has expired: refresh it with this refresh token.
    Refresh(String),
    /// No usable session; the failure to surface.
    Failed(AuthError),
}

/// First step of an interactive login.
pub enum LoginStep {
    /// A valid session already exists: it is returned unchanged and no
    /// network interaction takes place.
    AlreadyLoggedIn(Session),
    /// No valid session: run the browser-delegated flow.
    StartLogin,
}

/// The provider's answer to a refresh or code-exchange call, as observed by
/// the caller that performed the round-trip.
pub enum ProviderOutcome {
    /// The provider issued this session.
    Granted(Session),
    /// The provider answered and said no.
    Rejected,
    /// The provider could not be reached.
    TransportFailed,
}

/// Logout replaces the store state with the empty one and always succeeds.
pub open spec fn spec_logout(st: StoreV) -> (StoreV, Result<(), AuthError>) {
    (StoreV { record: Option::None, staged: Option::None }, Result::Ok(()))
}

pub struct SessionManager;

impl SessionManager {
    /// The `current_session` decision: a missing record fails with
    /// `NotAuthenticated`, an unreadable record surfaces its storage error,
    /// a session expiring strictly after `now` is returned unchanged, and an
    /// expired one asks for a refresh with its refresh token. Expiry is
    /// strict: `expires_at == now` is already expired.
    pub fn evaluate_session(store: &SessionStore, now: u64) -> (d: SessionDecision)
        ensures
            match spec_read(store@) {
                Result::Ok(Option::None) => d == SessionDecision::Failed(
                    AuthError::NotAuthenticated,
                ),
                Result::Ok(Option::Some(s)) => if s.valid_at(now) {
                    d matches SessionDecision::UseStored(t) && t@ == s
                } else {
                    d matches SessionDecision::Refresh(tok) && tok@ == s.refresh_token
                },
                Result::Err(e) => d == SessionDecision::Failed(e),
            },
    {
        match store.read() {
            Result::Err(e) => SessionDecision::Failed(e),
            Result::Ok(Option::None) => SessionDecision::Failed(AuthError::NotAuthenticated),
            Result::Ok(Option::Some(s)) => {
                if s.is_valid_at(now) {
                    SessionDecision::UseStored(s)
                } else {
                    SessionDecision::Refresh(s.refresh_token)
                }
            },
        }
    }

    /// Applies the provider's answer to a refresh. A granted session is
    /// persisted atomically and returned; any failure leaves the stale
    /// record on disk untouched and surfaces `RefreshFailed` — this module
    /// never deletes a session because a refresh failed.
    pub fn finish_refresh(store: &mut SessionStore, outcome: ProviderOutcome) -> (r: Result<
        Session,
        AuthError,
    >)
        ensures
            match outcome {
                ProviderOutcome::Granted(s) => final(store)@.record == Option::Some(
                    spec_encode_session(s@),
                ) && final(store)@.staged is None && r == Result::<Session, AuthError>::Ok(s),
                ProviderOutcome::Rejected | ProviderOutcome::TransportFailed => final(store)@
                    == old(store)@ && r == Result::<Session, AuthError>::Err(
                    AuthError::RefreshFailed,
                ),
            },
    {
        match outcome {
            ProviderOutcome::Granted(s) => {
                store.write(&s);
                Result::Ok(s)
            },
            ProviderOutcome::Rejected => Result::Err(AuthError::RefreshFailed),
            ProviderOutcome::TransportFailed => Result::Err(AuthError::RefreshFailed),
        }
    }

    /// The idempotent short-circuit of `login`: when a non-expired session
    /// is already stored, it is returned exactly as stored and the step
    /// carries no further action, so no network call is made. In every
    /// other case — no record, unreadable record, expired session — the
    /// browser-delegated flow is started.
    pub fn evaluate_login(store: &SessionStore, now: u64) -> (step: LoginStep)
        ensures
            match spec_read(store@) {
                Result::Ok(Option::Some(s)) => if s.valid_at(now) {
                    step matches LoginStep::AlreadyLoggedIn(t) && t@ == s
                } else {
                    step == LoginStep::StartLogin
                },
                Result::Ok(Option::None) => step == LoginStep::StartLogin,
                Result::Err(e) => step == LoginStep::StartLogin,
            },
    {
        match store.read() {
            Result::Ok(Option::Some(s)) => {
                if s.is_valid_at(now) {
                    LoginStep::AlreadyLoggedIn(s)
                } else {
                    LoginStep::StartLogin
                }
            },
            Result::Ok(Option::None) => LoginStep::StartLogin,
            Result::Err(_) => LoginStep::StartLogin,
        }
    }

    /// Deletes the persisted session; an absent session is not an error, so
    /// logging out never fails.
    pub fn logout(store: &mut SessionStore) -> (r: Result<(), AuthError>)
        ensures
            (final(store)@, r) == spec_logout(old(store)@),
    {
        store.delete();
        Result::Ok(())
    }
}

/// Logging out twice in a row succeeds both times: logout succeeds from
/// every store state, in particular from the empty state the first call
/// leaves behind, which it leaves unchanged.
pub proof fn lemma_logout_idempotent(st: StoreV)
    ensures
        spec_logout(st).1 is Ok,
        spec_logout(spec_logout(st).0).1 is Ok,
        spec_logout(spec_logout(st).0).0 == spec_logout(st).0,
{
}

/// The expiry boundary: a session whose `expires_at` equals the current
/// time is treated as expired, while one second earlier it is still valid.
pub proof fn lemma_expiry_boundary(s: crate::session::SessionV, now: u64)
    requires
        s.expires_at == now,
    ensures
        !s.valid_at(now),
        now >= 1 ==> s.valid_at((now - 1) as u64),
{
}

} // verus!
