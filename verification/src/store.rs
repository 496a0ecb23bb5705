//! The session store: the single persisted record at the fixed per-user
//! path, modelled as the record file plus the staging file that an atomic
//! replacement (write-new-then-rename) goes through. The surrounding binary
//! mirrors every transition here onto the real files, in the same order, so
//! a crash between the two phases leaves the record file untouched.

use vstd::prelude::*;

use crate::codec::{
    encode_session, parse_session, spec_encode_session, spec_parse_session,
    lemma_session_roundtrip,
};
use crate::errors::AuthError;
use crate::session::{Session, SessionV};

verus! {

/// Mathematical view of the store: what the record file and the staging
/// file hold, if they exist.
pub struct StoreV {
    pub record: Option<Seq<char>>,
    pub staged: Option<Seq<char>>,
}

/// The on-disk session record and its staging companion.
#[derive(Debug)]
pub struct SessionStore {
    record: Option<String>,
    staged: Option<String>,
}

impl View for SessionStore {
    type V = StoreV;

    closed spec fn view(&self) -> StoreV {
        StoreV {
            record: match self.record {
                Option::Some(c) => Option::Some(c@),
                Option::None => Option::None,
            },
            staged: match self.staged {
                Option::Some(c) => Option::Some(c@),
                Option::None => Option::None,
            },
        }
    }
}

/// What reading the store yields: no file means no session, a decodable file
/// means that session, and anything else is a storage failure — never a
/// panic.
pub open spec fn spec_read(st: StoreV) -> Result<Option<SessionV>, AuthError> {
    match st.record {
        Option::None => Result::Ok(Option::None),
        Option::Some(c) => match spec_parse_session(c) {
            Option::Some(s) => Result::Ok(Option::Some(s)),
            Option::None => Result::Err(AuthError::StorageError),
        },
    }
}

/// Lifts an executable read result to the view level, for contracts.
pub open spec fn read_result_view(r: Result<Option<Session>, AuthError>) -> Result<
    Option<SessionV>,
    AuthError,
> {
    match r {
        Result::Ok(Option::None) => Result::Ok(Option::None),
        Result::Ok(Option::Some(s)) => Result::Ok(Option::Some(s@)),
        Result::Err(e) => Result::Err(e),
    }
}

impl SessionStore {
    /// A store whose record file does not exist.
    pub fn new_empty() -> (st: Self)
        ensures
            st@.record is None,
            st@.staged is None,
    {
        SessionStore { record: Option::None, staged: Option::None }
    }

    /// A store as found on disk: the record file's text if the file exists.
    pub fn from_record(content: Option<String>) -> (st: Self)
        ensures
            st@.staged is None,
            match content {
                Option::Some(c) => st@.record == Option::Some(c@),
                Option::None => st@.record is None,
            },
    {
        SessionStore { record: content, staged: Option::None }
    }

    /// The record file's current text, for mirroring onto the real disk.
    pub fn record_text(&self) -> (r: Option<&String>)
        ensures
            match r {
                Option::Some(c) => self@.record == Option::Some(c@),
                Option::None => self@.record is None,
            },
    {
        match &self.record {
            Option::Some(c) => Option::Some(c),
            Option::None => Option::None,
        }
    }

    /// The staging file's current text, for mirroring onto the real disk.
    pub fn staged_text(&self) -> (r: Option<&String>)
        ensures
            match r {
                Option::Some(c) => self@.staged == Option::Some(c@),
                Option::None => self@.staged is None,
            },
    {
        match &self.staged {
            Option::Some(c) => Option::Some(c),
            Option::None => Option::None,
        }
    }

    /// Reads the persisted session: absent file, decoded record, or storage
    /// failure on a record that does not decode.
    pub fn read(&self) -> (r: Result<Option<Session>, AuthError>)
        ensures
            read_result_view(r) == spec_read(self@),
    {
        match &self.record {
            Option::None => Result::Ok(Option::None),
            Option::Some(text) => match parse_session(text.as_str()) {
                Option::Some(s) => Result::Ok(Option::Some(s)),
                Option::None => Result::Err(AuthError::StorageError),
            },
        }
    }

    /// First phase of the atomic replacement: stages the new record without
    /// touching the current one.
    pub fn begin_write(&mut self, s: &Session)
        ensures
            final(self)@.record == old(self)@.record,
            final(self)@.staged == Option::Some(spec_encode_session(s@)),
    {
        self.staged = Option::Some(encode_session(s));
    }

    /// Second phase: the staged text becomes the record in one step.
    pub fn commit_write(&mut self)
        requires
            old(self)@.staged is Some,
        ensures
            final(self)@.record == old(self)@.staged,
            final(self)@.staged is None,
    {
        let staged = self.staged.take();
        match staged {
            Option::Some(c) => {
                self.record = Option::Some(c);
            },
            Option::None => {
                proof {
                    assert(false);
                }
            },
        }
    }

    /// Replaces the record as a whole: stage, then commit.
    pub fn write(&mut self, s: &Session)
        ensures
            final(self)@.record == Option::Some(spec_encode_session(s@)),
            final(self)@.staged is None,
    {
        self.begin_write(s);
        self.commit_write();
    }

    /// Removes the record; removing an absent record is not an error.
    pub fn delete(&mut self)
        ensures
            final(self)@.record is None,
            final(self)@.staged is None,
    {
        self.record = Option::None;
        self.staged = Option::None;
    }
}

/// The record file's path relative to the invoking user's home directory:
/// fixed, not configurable at runtime.
pub fn session_file_rel_path() -> (r: String)
    ensures
        r@ == ".pyrite/session.json"@,
{
    ".pyrite/session.json".to_owned()
}

/// The staging file the atomic replacement writes first, beside the record.
pub fn staging_file_rel_path() -> (r: String)
    ensures
        r@ == ".pyrite/session.json.tmp"@,
{
    ".pyrite/session.json.tmp".to_owned()
}

/// A crash after the first write phase is invisible to readers: as long as
/// the record file is untouched — which `begin_write` guarantees — a read
/// sees exactly what it saw before, old session or none.
pub proof fn lemma_staged_write_invisible(pre: StoreV, post: StoreV)
    requires
        post.record == pre.record,
    ensures
        spec_read(post) == spec_read(pre),
{
}

/// Once the replacement commits, a read returns exactly the written session.
pub proof fn lemma_committed_write_readable(s: SessionV)
    ensures
        spec_read(
            StoreV { record: Option::Some(spec_encode_session(s)), staged: Option::None },
        ) == Result::<Option<SessionV>, AuthError>::Ok(Option::Some(s)),
{
    lemma_session_roundtrip(s);
}

} // verus!
