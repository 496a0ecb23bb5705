//! The single-use local callback listener, as a state machine: it accepts
//! exactly one terminating request, exchanges the authorization code it
//! carried, persists the session before signalling its own shutdown, and
//! ignores every request after the first. The listening socket itself lives
//! in the surrounding binary, which feeds each request into `on_request`
//! and performs the one action handed back.

use vstd::prelude::*;

use crate::codec::spec_encode_session;
use crate::errors::AuthError;
use crate::manager::ProviderOutcome;
use crate::session::Session;
use crate::store::SessionStore;
use crate::strutil::{chars_to_string, str_to_chars};

verus! {

// ---------------------------------------------------------------------------
// Query-string parsing
// ---------------------------------------------------------------------------
/// Index of the first occurrence of `c` in `s`, or `s.len()` if absent.
pub open spec fn idx_of(s: Seq<char>, c: char) -> int
    decreases s.len(),
{
    if s.len() == 0 {
        0
    } else if s[0] == c {
        0
    } else {
        1 + idx_of(s.drop_first(), c)
    }
}

proof fn lemma_idx_of_bounds(s: Seq<char>, c: char)
    ensures
        0 <= idx_of(s, c) <= s.len(),
        idx_of(s, c) < s.len() ==> s[idx_of(s, c)] == c,
    decreases s.len(),
{
    if s.len() > 0 && s[0] != c {
        lemma_idx_of_bounds(s.drop_first(), c);
    }
}

/// The value of the first `code` parameter of a query string: parameters
/// are separated by `&`, a parameter is `key=value`, and a parameter
/// without `=` carries no value. A query with an `error` parameter and no
/// code simply has no code: it is treated as failure by the caller. The
/// value is taken as it stands — authorization codes are URL-safe, so no
/// percent-decoding applies.
pub open spec fn extract_code_spec(q: Seq<char>) -> Option<Seq<char>>
    decreases q.len(),
    via extract_code_spec_decreases
{
    let amp = idx_of(q, '&');
    let p = q.take(amp);
    let eq = idx_of(p, '=');
    if eq < p.len() && p.take(eq) == "code"@ {
        Option::Some(p.skip(eq + 1))
    } else if amp < q.len() {
        extract_code_spec(q.skip(amp + 1))
    } else {
        Option::None
    }
}

#[via_fn]
proof fn extract_code_spec_decreases(q: Seq<char>) {
    lemma_idx_of_bounds(q, '&');
}

/// Finds `c` within `v[from..to]`: the answer is `from` plus the index the
/// specification assigns within that range.
fn find_in_range(v: &Vec<char>, from: usize, to: usize, c: char) -> (j: usize)
    requires
        from <= to <= v@.len(),
    ensures
        from <= j <= to,
        j - from == idx_of(v@.subrange(from as int, to as int), c),
        j < to ==> v@[j as int] == c,
{
    let mut t: usize = from;
    loop
        invariant
            from <= t <= to <= v@.len(),
            idx_of(v@.subrange(from as int, to as int), c) == t - from + idx_of(
                v@.subrange(t as int, to as int),
                c,
            ),
        ensures
            from <= t <= to,
            idx_of(v@.subrange(from as int, to as int), c) == t - from,
            t < to ==> v@[t as int] == c,
        decreases to - t,
    {
        if t >= to {
            proof {
                assert(v@.subrange(t as int, to as int) =~= Seq::<char>::empty());
            }
            break;
        }
        if v[t] == c {
            proof {
                assert(v@.subrange(t as int, to as int)[0] == v@[t as int]);
            }
            break;
        }
        proof {
            assert(v@.subrange(t as int, to as int)[0] == v@[t as int]);
            assert(v@.subrange(t as int, to as int).drop_first() =~= v@.subrange(
                t + 1,
                to as int,
            ));
        }
        t = t + 1;
    }
    t
}

/// Pulls the first `code` parameter's value out of a query string.
pub fn extract_code(query: &str) -> (r: Option<String>)
    ensures
        match r {
            Option::Some(code) => extract_code_spec(query@) == Option::Some(code@),
            Option::None => extract_code_spec(query@) is None,
        },
{
    let v = str_to_chars(query);
    let n = v.len();
    let mut i: usize = 0;
    proof {
        assert(v@.subrange(0, n as int) =~= v@);
    }
    loop
        invariant
            i <= n,
            n == v@.len(),
            v@ == query@,
            extract_code_spec(query@) == extract_code_spec(
                v@.subrange(i as int, n as int),
            ),
        decreases n - i,
    {
        let ghost q = v@.subrange(i as int, n as int);
        let amp = find_in_range(&v, i, n, '&');
        let eq = find_in_range(&v, i, amp, '=');
        proof {
            lemma_idx_of_bounds(q, '&');
            assert(q.take(amp - i) =~= v@.subrange(i as int, amp as int));
            lemma_idx_of_bounds(q.take(amp - i), '=');
        }
        let ghost p = q.take(amp - i);
        if eq < amp && eq - i == 4 {
            proof {
                assert(p.take(eq - i) =~= v@.subrange(i as int, eq as int));
            }
            if v[i] == 'c' && v[i + 1] == 'o' && v[i + 2] == 'd' && v[i + 3] == 'e' {
                proof {
                    reveal_strlit("code");
                    assert(p.take(eq - i) =~= "code"@);
                    assert(p.skip(eq - i + 1) =~= v@.subrange(eq + 1, amp as int));
                }
                let code = chars_to_string(&v, eq + 1, amp);
                return Option::Some(code);
            }
            proof {
                reveal_strlit("code");
                assert(p.take(eq - i) != "code"@) by {
                    if p.take(eq - i) == "code"@ {
                        assert(v@.subrange(i as int, eq as int)[0] == v@[i as int]);
                        assert(v@.subrange(i as int, eq as int)[1] == v@[i + 1]);
                        assert(v@.subrange(i as int, eq as int)[2] == v@[i + 2]);
                        assert(v@.subrange(i as int, eq as int)[3] == v@[i + 3]);
                    }
                }
            }
        } else {
            proof {
                reveal_strlit("code");
                if eq - i < p.len() && p.take(eq - i) == "code"@ {
                    assert("code"@.len() == 4);
                }
            }
        }
        if amp < n {
            proof {
                assert(q.skip(amp - i + 1) =~= v@.subrange(amp + 1, n as int));
            }
            i = amp + 1;
        } else {
            return Option::None;
        }
    }
}

// ---------------------------------------------------------------------------
// The listener state machine
// ---------------------------------------------------------------------------
/// Where the listener stands in its life.
#[derive(Debug, Clone, Copy, PartialEq, Eq, Structural)]
pub enum CallbackPhase {
    /// Bound and waiting for the one terminating request.
    Listening,
    /// A code arrived; the exchange round-trip is in flight.
    Exchanging,
    /// Exchange succeeded and the session is persisted.
    Completed,
    /// The request carried no code, or the exchange failed.
    Failed,
    /// The listener has released its port.
    Terminated,
}

/// What the surrounding binary must do after feeding in a request.
pub enum CallbackAction {
    /// Call the provider's code-exchange endpoint with this code (and the
    /// login attempt's verifier), then report back via `on_exchange`.
    ExchangeCode(String),
    /// Answer the browser with this failure and fire the shutdown signal.
    RespondErrorAndShutdown(AuthError),
    /// Do nothing: the one terminating request was already handled.
    Ignore,
}

/// The request transition, and whether it triggers a code exchange.
pub open spec fn spec_on_request(phase: CallbackPhase, q: Seq<char>) -> (CallbackPhase, bool) {
    if phase is Listening {
        match extract_code_spec(q) {
            Option::Some(c) => (CallbackPhase::Exchanging, true),
            Option::None => (CallbackPhase::Failed, false),
        }
    } else {
        (phase, false)
    }
}

/// The single-use listener. It holds no store handle: only `on_exchange`
/// can persist anything, and only from the `Exchanging` phase, which no two
/// requests can both reach.
pub struct CallbackServer {
    pub phase: CallbackPhase,
}

impl CallbackServer {
    /// A freshly bound listener.
    pub fn new() -> (s: Self)
        ensures
            s.phase is Listening,
    {
        CallbackServer { phase: CallbackPhase::Listening }
    }

    /// Handles one inbound request, given the query part of its target.
    /// Only the first request does anything: it either starts the exchange
    /// with the code it carried, or fails the attempt with `MissingCode`.
    /// Every later request is ignored: no second exchange, no state change.
    pub fn on_request(&mut self, query: &str) -> (a: CallbackAction)
        ensures
            final(self).phase == spec_on_request(old(self).phase, query@).0,
            (a matches CallbackAction::ExchangeCode(_)) == spec_on_request(
                old(self).phase,
                query@,
            ).1,
            old(self).phase is Listening ==> match extract_code_spec(query@) {
                Option::Some(c) => a matches CallbackAction::ExchangeCode(code) && code@ == c,
                Option::None => a == CallbackAction::RespondErrorAndShutdown(
                    AuthError::MissingCode,
                ),
            },
            !(old(self).phase is Listening) ==> a is Ignore,
    {
        match self.phase {
            CallbackPhase::Listening => match extract_code(query) {
                Option::Some(code) => {
                    self.phase = CallbackPhase::Exchanging;
                    CallbackAction::ExchangeCode(code)
                },
                Option::None => {
                    self.phase = CallbackPhase::Failed;
                    CallbackAction::RespondErrorAndShutdown(AuthError::MissingCode)
                },
            },
            _ => CallbackAction::Ignore,
        }
    }

    /// Applies the provider's answer to the code exchange. A granted
    /// session is persisted first — so a caller that sees the listener
    /// complete knows the record is already durably readable — and only
    /// then does the phase advance to the one that fires the shutdown
    /// signal. A rejection surfaces `ExchangeFailed`, an unreachable
    /// provider `Network`; both still move to `Failed`, so a failed login
    /// never leaves the listener hanging.
    pub fn on_exchange(&mut self, store: &mut SessionStore, outcome: ProviderOutcome) -> (r:
        Result<Session, AuthError>)
        requires
            old(self).phase is Exchanging,
        ensures
            match outcome {
                ProviderOutcome::Granted(s) => final(self).phase is Completed
                    && final(store)@.record == Option::Some(spec_encode_session(s@))
                    && final(store)@.staged is None
                    && r == Result::<Session, AuthError>::Ok(s),
                ProviderOutcome::Rejected => final(self).phase is Failed
                    && final(store)@ == old(store)@
                    && r == Result::<Session, AuthError>::Err(AuthError::ExchangeFailed),
                ProviderOutcome::TransportFailed => final(self).phase is Failed
                    && final(store)@ == old(store)@
                    && r == Result::<Session, AuthError>::Err(AuthError::Network),
            },
    {
        match outcome {
            ProviderOutcome::Granted(s) => {
                store.write(&s);
                self.phase = CallbackPhase::Completed;
                Result::Ok(s)
            },
            ProviderOutcome::Rejected => {
                self.phase = CallbackPhase::Failed;
                Result::Err(AuthError::ExchangeFailed)
            },
            ProviderOutcome::TransportFailed => {
                self.phase = CallbackPhase::Failed;
                Result::Err(AuthError::Network)
            },
        }
    }

    /// Releases the port once the one request has been answered.
    pub fn terminate(&mut self)
        requires
            old(self).phase is Completed || old(self).phase is Failed,
        ensures
            final(self).phase is Terminated,
    {
        self.phase = CallbackPhase::Terminated;
    }
}

/// Exactly-once: whatever the first request did from `Listening`, a second
/// request triggers no code exchange and leaves the phase where it was.
/// Since requests can only reach the store through the exchange they
/// trigger, there is no second persisted write either.
pub proof fn lemma_exactly_once_callback(q1: Seq<char>, q2: Seq<char>)
    ensures
        ({
            let first = spec_on_request(CallbackPhase::Listening, q1);
            let second = spec_on_request(first.0, q2);
            !second.1 && second.0 == first.0
        }),
{
}

} // verus!
