//! The remote journal: the Lago daemon's HTTP API, addressed under a base
//! URL.
//!
//! The HTTP requests, the event stream and the JSON bodies are the
//! caller's part; this module builds the endpoints and reads the statuses.
use vstd::prelude::*;

use crate::provider_config::{strip_trailing_slashes, trim_trailing_slashes};
use crate::text::{decimal, push_str, u64_to_decimal};

verus! {

/// A journal served by a remote Lago daemon.
pub struct RemoteLagoJournal {
    base_url: String,
}

/// How a journal read is asked for: the session, the branch (`main` when
/// none), the sequence to read after (0 when none) and a limit.
pub struct ReadQuery {
    pub session_id: Option<String>,
    pub branch_id: Option<String>,
    pub after_seq: Option<u64>,
    pub limit: Option<u64>,
}

/// What a response status means for a read of something that may be
/// missing: found, missing (404), or an error.
pub enum Lookup {
    Found,
    Missing,
    Failed,
}

impl RemoteLagoJournal {
    /// The base URL, without trailing slashes.
    pub closed spec fn base(&self) -> Seq<char> {
        self.base_url@
    }

    /// A journal at `base_url`; trailing slashes are dropped.
    pub fn new(base_url: &str) -> (j: Self)
        ensures
            j.base() == trim_trailing_slashes(base_url@),
    {
        RemoteLagoJournal { base_url: strip_trailing_slashes(base_url) }
    }

    /// The API URL of `path`.
    pub fn url(&self, path: &str) -> (u: String)
        ensures
            u@ == self.base() + "/v1"@ + path@,
    {
        let mut u = self.base_url.clone();
        push_str(&mut u, "/v1");
        push_str(&mut u, path);
        u
    }

    /// The URL a session's event is appended to.
    pub fn append_url(&self, session_id: &str) -> (u: String)
        ensures
            u@ == self.base() + "/v1"@ + "/sessions/"@ + session_id@ + "/events"@,
    {
        let mut p = "/sessions/".to_owned();
        push_str(&mut p, session_id);
        push_str(&mut p, "/events");
        self.url(p.as_str())
    }

    /// The URL of a batch read, or the error text when no session is
    /// given.
    pub fn read_url(&self, query: &ReadQuery) -> (r: Result<String, String>)
        ensures
            match &query.session_id {
                None => r matches Err(m) && m@ == "session_id required for read"@,
                Some(s) => r matches Ok(u) && u@ == self.base() + "/v1"@ + "/sessions/"@ + s@ + "/events/read"@
                    + "?branch="@ + match &query.branch_id { Some(b) => b@, None => "main"@ }
                    + "&after_seq="@ + decimal(match query.after_seq { Some(a) => a as nat, None => 0nat })
                    + match query.limit { Some(l) => "&limit="@ + decimal(l as nat), None => Seq::empty() },
            },
    {
        let session_id = match &query.session_id {
            None => return Err("session_id required for read".to_owned()),
            Some(s) => s,
        };
        let mut p = "/sessions/".to_owned();
        push_str(&mut p, session_id.as_str());
        push_str(&mut p, "/events/read");
        let mut u = self.url(p.as_str());
        push_str(&mut u, "?branch=");
        match &query.branch_id {
            Some(b) => push_str(&mut u, b.as_str()),
            None => push_str(&mut u, "main"),
        }
        push_str(&mut u, "&after_seq=");
        let after = match query.after_seq { Some(a) => a, None => 0 };
        push_str(&mut u, u64_to_decimal(after).as_str());
        match query.limit {
            Some(l) => {
                push_str(&mut u, "&limit=");
                push_str(&mut u, u64_to_decimal(l).as_str());
            },
            None => {},
        }
        Ok(u)
    }

    /// The URL of a branch's head sequence.
    pub fn head_url(&self, session_id: &str, branch_id: &str) -> (u: String)
        ensures
            u@ == self.base() + "/v1"@ + "/sessions/"@ + session_id@ + "/events/head?branch="@ + branch_id@,
    {
        let mut p = "/sessions/".to_owned();
        push_str(&mut p, session_id);
        push_str(&mut p, "/events/head?branch=");
        push_str(&mut p, branch_id);
        self.url(p.as_str())
    }

    /// The URL of a branch's event stream, in the native format, after
    /// `after_seq`.
    pub fn stream_url(&self, session_id: &str, branch_id: &str, after_seq: u64) -> (u: String)
        ensures
            u@ == self.base() + "/v1"@ + "/sessions/"@ + session_id@ + "/events?format=lago&after_seq="@
                + decimal(after_seq as nat) + "&branch="@ + branch_id@,
    {
        let mut p = "/sessions/".to_owned();
        push_str(&mut p, session_id);
        push_str(&mut p, "/events?format=lago&after_seq=");
        push_str(&mut p, u64_to_decimal(after_seq).as_str());
        push_str(&mut p, "&branch=");
        push_str(&mut p, branch_id);
        self.url(p.as_str())
    }

    /// The URL of a session.
    pub fn session_url(&self, session_id: &str) -> (u: String)
        ensures
            u@ == self.base() + "/v1"@ + "/sessions/"@ + session_id@,
    {
        let mut p = "/sessions/".to_owned();
        push_str(&mut p, session_id);
        self.url(p.as_str())
    }

    /// The URL listing the sessions.
    pub fn sessions_url(&self) -> (u: String)
        ensures
            u@ == self.base() + "/v1"@ + "/sessions"@,
    {
        self.url("/sessions")
    }
}

/// What a status means for a read of something that may be missing.
pub fn lookup_status(status: u16) -> (r: Lookup)
    ensures
        status == 404 ==> r is Missing,
        status != 404 && 200 <= status < 300 ==> r is Found,
        status != 404 && !(200 <= status < 300) ==> r is Failed,
{
    if status == 404 {
        Lookup::Missing
    } else if 200 <= status && status < 300 {
        Lookup::Found
    } else {
        Lookup::Failed
    }
}

/// The head sequence a status and a read body give: 0 for a missing
/// session; the body's sequence on success; `None` (an error) otherwise.
pub fn head_seq_of(status: u16, body_seq: Option<u64>) -> (r: Option<u64>)
    ensures
        status == 404 ==> r == Some(0u64),
        status != 404 && 200 <= status < 300 ==> r == body_seq,
        status != 404 && !(200 <= status < 300) ==> r is None,
{
    match lookup_status(status) {
        Lookup::Missing => Some(0),
        Lookup::Found => body_seq,
        Lookup::Failed => None,
    }
}

/// The error text of a failed request.
pub fn http_error_message(status: &str, body: &str) -> (m: String)
    ensures
        m@ == "lago HTTP "@ + status@ + ": "@ + body@,
{
    let mut m = "lago HTTP ".to_owned();
    push_str(&mut m, status);
    push_str(&mut m, ": ");
    push_str(&mut m, body);
    m
}

/// Whether a stream message carries an event (`event`), ends the stream
/// (`done`) or is skipped.
pub enum StreamMessage {
    Event,
    Done,
    Skip,
}

/// Classifies a stream message by its event name.
pub fn classify_stream_message(event: &str) -> (r: StreamMessage)
    ensures
        event@ == "event"@ ==> r is Event,
        event@ == "done"@ ==> r is Done,
        event@ != "event"@ && event@ != "done"@ ==> r is Skip,
{
    proof {
        reveal_strlit("event");
        reveal_strlit("done");
        assert("event"@.len() != "done"@.len());
    }
    if crate::text::str_eq(event, "event") {
        StreamMessage::Event
    } else if crate::text::str_eq(event, "done") {
        StreamMessage::Done
    } else {
        StreamMessage::Skip
    }
}

} // verus!
