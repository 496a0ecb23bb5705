//! The error taxonomy of the authentication core. Every failure is reported
//! upward under exactly one of these variants; none is ever swallowed.

use vstd::prelude::*;

verus! {

/// Why an authentication operation failed.
#[derive(Debug, Clone, Copy, PartialEq, Eq, Structural)]
pub enum AuthError {
    /// No session record is persisted locally.
    NotAuthenticated,
    /// The provider rejected the stored refresh token; the stale session is
    /// left on disk untouched.
    RefreshFailed,
    /// The provider rejected the authorization code during a login attempt.
    ExchangeFailed,
    /// The callback redirect carried no `code` query parameter.
    MissingCode,
    /// A transport-level failure reaching the provider.
    Network,
    /// The persisted record could not be read, written or deleted.
    StorageError,
}

impl AuthError {
    /// The user-facing message for this failure; distinct per variant so
    /// callers can react differently to each.
    pub open spec fn spec_message(self) -> Seq<char> {
        match self {
            AuthError::NotAuthenticated => "no session found, please log in"@,
            AuthError::RefreshFailed => "session expired, re-login required"@,
            AuthError::ExchangeFailed => "the provider rejected the login attempt"@,
            AuthError::MissingCode => "the login redirect carried no authorization code"@,
            AuthError::Network => "could not reach the auth provider"@,
            AuthError::StorageError => "could not access the stored session"@,
        }
    }

    /// Renders the message shown to the user for this failure.
    pub fn message(&self) -> (r: String)
        ensures
            r@ == self.spec_message(),
    {
        match self {
            AuthError::NotAuthenticated => "no session found, please log in".to_owned(),
            AuthError::RefreshFailed => "session expired, re-login required".to_owned(),
            AuthError::ExchangeFailed => "the provider rejected the login attempt".to_owned(),
            AuthError::MissingCode => "the login redirect carried no authorization code".to_owned(),
            AuthError::Network => "could not reach the auth provider".to_owned(),
            AuthError::StorageError => "could not access the stored session".to_owned(),
        }
    }
}

} // verus!
