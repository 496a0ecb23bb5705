//! The central entity: a persisted login session. A session is either wholly
//! present (all fields populated) or absent; expiry is decided strictly, so a
//! record whose `expires_at` equals the current time is already expired.

use vstd::prelude::*;

verus! {

/// Mathematical view of a [`Session`].
pub struct SessionV {
    pub access_token: Seq<char>,
    pub refresh_token: Seq<char>,
    pub expires_at: u64,
    pub user_email: Seq<char>,
}

/// A login session: short-lived bearer token, the refresh token that can mint
/// a new one, the absolute UNIX timestamp (seconds) after which the access
/// token is invalid, and the identity it belongs to.
#[derive(Debug, Clone, PartialEq, Eq)]
pub struct Session {
    pub access_token: String,
    pub refresh_token: String,
    pub expires_at: u64,
    pub user_email: String,
}

impl View for Session {
    type V = SessionV;

    open spec fn view(&self) -> SessionV {
        SessionV {
            access_token: self.access_token@,
            refresh_token: self.refresh_token@,
            expires_at: self.expires_at,
            user_email: self.user_email@,
        }
    }
}

impl SessionV {
    /// A session is valid at `now` only while its expiry lies strictly in the
    /// future: `expires_at == now` counts as expired.
    pub open spec fn valid_at(self, now: u64) -> bool {
        self.expires_at > now
    }
}

impl Session {
    /// Decides whether this session may still be used at time `now`, with the
    /// strict boundary: a session expiring exactly now is already expired.
    pub fn is_valid_at(&self, now: u64) -> (r: bool)
        ensures
            r == self@.valid_at(now),
    {
        self.expires_at > now
    }
}

} // verus!
