//! Write tracking for the workspace file system: each write becomes a
//! journal event carrying the written file's workspace path.
//!
//! The write itself, storing the content and the event channel are the
//! caller's part.
use vstd::prelude::*;

use crate::event_map::{EventEnvelope, EventPayload};
use crate::fs::{path_strip_prefix, strip_prefix_of};
use crate::text::push_str;

verus! {

/// The path a write is tracked under: `/` and its path relative to the
/// workspace root, when the written path resolved inside the root; else
/// the path as given.
pub open spec fn tracked_path_of(root: Seq<char>, resolved: Option<Seq<char>>, path: Seq<char>) -> Seq<char> {
    match resolved {
        Some(r) => match path_strip_prefix(r, root) {
            Some(rel) => "/"@ + rel,
            None => path,
        },
        None => path,
    }
}

/// The path a write is tracked under; `resolved` is the written path
/// resolved in the workspace, when it could be.
pub fn tracked_path(root: &str, resolved: Option<&str>, path: &str) -> (r: String)
    ensures
        r@ == tracked_path_of(root@, match resolved { Some(x) => Some(x@), None => None }, path@),
{
    match resolved {
        Some(res) => match strip_prefix_of(res, root) {
            Some(rel) => {
                let mut r = "/".to_owned();
                push_str(&mut r, rel.as_str());
                r
            },
            None => path.to_owned(),
        },
        None => path.to_owned(),
    }
}

/// The journal envelope of a tracked write's event; `event_id` and
/// `timestamp` are fresh values supplied by the caller.
pub fn write_event_envelope(payload: EventPayload, session_id: &str, branch_id: &str, event_id: String, timestamp: u64) -> (e: EventEnvelope)
    ensures
        e.event_id == event_id,
        e.session_id@ == session_id@,
        e.branch_id@ == branch_id@,
        e.run_id is None,
        e.seq == 0,
        e.timestamp == timestamp,
        e.parent_id is None,
        e.payload == payload,
        e.metadata@.len() == 0,
        e.schema_version == 1,
{
    EventEnvelope {
        event_id,
        session_id: session_id.to_owned(),
        branch_id: branch_id.to_owned(),
        run_id: None,
        seq: 0,
        timestamp,
        parent_id: None,
        payload,
        metadata: Vec::new(),
        schema_version: 1,
    }
}

} // verus!
