//! Credential injection: a valid session becomes the one metadata entry
//! every outbound authenticated call carries. The value is deterministic in
//! the session's content — the same session always yields the same header.

use vstd::prelude::*;

use crate::codec::{encode_session, spec_encode_session};
use crate::encoding::{base64_nopad, encode_base64};
use crate::session::{Session, SessionV};

verus! {

/// The header entry's fixed name.
pub open spec fn spec_credential_name() -> Seq<char> {
    "sb-127-auth-token"@
}

/// The header entry's value: the encoded session record, base64 without
/// padding, behind a `base64-` tag.
pub open spec fn spec_credential_value(s: SessionV) -> Seq<char> {
    "base64-"@ + base64_nopad(vstd::utf8::encode_utf8(spec_encode_session(s)))
}

/// Encodes a session into the transport-level credential entry: a pure
/// function of the session's content, no I/O, no failure path.
pub fn attach(session: &Session) -> (r: (String, String))
    ensures
        r.0@ == spec_credential_name(),
        r.1@ == spec_credential_value(session@),
{
    let name = "sb-127-auth-token".to_owned();
    let record = encode_session(session);
    let b64 = encode_base64(record.as_str().as_bytes());
    let mut value = "base64-".to_owned();
    value.append(b64.as_str());
    (name, value)
}

} // verus!
