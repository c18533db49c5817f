//! A session store over the journal: agent events are appended on the
//! `main` branch, and read back as records.
//!
//! Reading the journal head, appending and reading envelopes are the
//! caller's part; this module numbers, builds and selects.
use vstd::prelude::*;

use crate::event_map::{arcan_to_lago, journals, json_readback, lago_to_arcan, lemma_events_survive_journal, normalized, opt_view, patch_well_formed, AgentEvent, AgentEventV, EventEnvelope};
use crate::keyed::{find_key, lookup};
use crate::state_projection::event_of;
use crate::text::str_eq;

verus! {

/// A request to append an event to a session.
pub struct AppendEvent {
    pub session_id: String,
    pub parent_id: Option<String>,
    pub event: AgentEvent,
}

/// A stored event: its id, session, parent, time (microseconds since the
/// UNIX epoch) and the event.
pub struct EventRecord {
    pub id: String,
    pub session_id: String,
    pub parent_id: Option<String>,
    pub timestamp: u64,
    pub event: AgentEvent,
}

/// A record as plain values.
pub open spec fn record_view(r: EventRecord) -> (Seq<char>, Seq<char>, Option<Seq<char>>, u64, AgentEventV) {
    (r.id@, r.session_id@, opt_view(r.parent_id), r.timestamp, r.event@)
}

/// The records as plain values.
pub open spec fn records_view(v: Seq<EventRecord>) -> Seq<(Seq<char>, Seq<char>, Option<Seq<char>>, u64, AgentEventV)> {
    v.map_values(|r: EventRecord| record_view(r))
}

/// The run an event belongs to.
pub open spec fn run_of(e: AgentEventV) -> Seq<char> {
    match e {
        AgentEventV::TextDelta { run_id, .. } => run_id,
        AgentEventV::ToolCallRequested { run_id, .. } => run_id,
        AgentEventV::ToolCallCompleted { run_id, .. } => run_id,
        AgentEventV::ToolCallFailed { run_id, .. } => run_id,
        AgentEventV::RunFinished { run_id, .. } => run_id,
        AgentEventV::RunStarted { run_id, .. } => run_id,
        AgentEventV::IterationStarted { run_id, .. } => run_id,
        AgentEventV::ModelOutput { run_id, .. } => run_id,
        AgentEventV::StatePatched { run_id, .. } => run_id,
        AgentEventV::ContextCompacted { run_id, .. } => run_id,
        AgentEventV::ApprovalRequested { run_id, .. } => run_id,
        AgentEventV::ApprovalResolved { run_id, .. } => run_id,
        AgentEventV::RunErrored { run_id, .. } => run_id,
    }
}

/// The run id carried by an event.
pub fn extract_run_id(event: &AgentEvent) -> (r: String)
    ensures
        r@ == run_of(event@),
{
    match event {
        AgentEvent::RunStarted { run_id, .. } => run_id.clone(),
        AgentEvent::IterationStarted { run_id, .. } => run_id.clone(),
        AgentEvent::ModelOutput { run_id, .. } => run_id.clone(),
        AgentEvent::TextDelta { run_id, .. } => run_id.clone(),
        AgentEvent::ToolCallRequested { run_id, .. } => run_id.clone(),
        AgentEvent::ToolCallCompleted { run_id, .. } => run_id.clone(),
        AgentEvent::ToolCallFailed { run_id, .. } => run_id.clone(),
        AgentEvent::StatePatched { run_id, .. } => run_id.clone(),
        AgentEvent::ContextCompacted { run_id, .. } => run_id.clone(),
        AgentEvent::ApprovalRequested { run_id, .. } => run_id.clone(),
        AgentEvent::ApprovalResolved { run_id, .. } => run_id.clone(),
        AgentEvent::RunErrored { run_id, .. } => run_id.clone(),
        AgentEvent::RunFinished { run_id, .. } => run_id.clone(),
    }
}

/// The id a journaled event is known by: its `arcan_event_id` metadata,
/// else the envelope's id.
pub open spec fn record_id(e: EventEnvelope) -> Seq<char> {
    match lookup(e.metadata@, "arcan_event_id"@) {
        Some(v) => v@,
        None => e.event_id@,
    }
}

/// The records of a session's envelopes: those that are agent events.
pub open spec fn session_records(session_id: Seq<char>, envs: Seq<EventEnvelope>) -> Seq<(Seq<char>, Seq<char>, Option<Seq<char>>, u64, AgentEventV)>
    decreases envs.len(),
{
    if envs.len() == 0 {
        Seq::empty()
    } else {
        let e = envs.last();
        let prev = session_records(session_id, envs.drop_last());
        match event_of(e) {
            Some(ev) => prev.push((record_id(e), session_id, opt_view(e.parent_id), e.timestamp, ev)),
            None => prev,
        }
    }
}

/// The records of the children of `parent_id` among envelopes.
pub open spec fn child_records(parent_id: Seq<char>, envs: Seq<EventEnvelope>) -> Seq<(Seq<char>, Seq<char>, Option<Seq<char>>, u64, AgentEventV)>
    decreases envs.len(),
{
    if envs.len() == 0 {
        Seq::empty()
    } else {
        let e = envs.last();
        let prev = child_records(parent_id, envs.drop_last());
        if opt_view(e.parent_id) == Some(parent_id) {
            match event_of(e) {
                Some(ev) => prev.push((record_id(e), e.session_id@, Some(parent_id), e.timestamp, ev)),
                None => prev,
            }
        } else {
            prev
        }
    }
}

fn record_id_of(e: &EventEnvelope) -> (r: String)
    ensures
        r@ == record_id(*e),
{
    match find_key(&e.metadata, "arcan_event_id") {
        Some(i) => e.metadata[i].1.clone(),
        None => e.event_id.clone(),
    }
}

fn clone_opt(o: &Option<String>) -> (r: Option<String>)
    ensures
        opt_view(r) == opt_view(*o),
{
    match o {
        Some(s) => Some(s.clone()),
        None => None,
    }
}

/// Stores agent events on the `main` branch of the journal.
pub struct LagoSessionRepository {}

impl LagoSessionRepository {
    pub fn new() -> (r: Self) {
        LagoSessionRepository {}
    }

    /// The branch events are stored on.
    pub fn default_branch(&self) -> (b: &'static str)
        ensures
            b@ == "main"@,
    {
        "main"
    }

    /// Appends an event after the journal head `head_seq`: the envelope to
    /// write, and the record it is known by.  The event's id, the
    /// envelope's id, a tool completion's span id and the time are fresh
    /// values supplied by the caller.
    pub fn append(
        &self,
        request: AppendEvent,
        head_seq: u64,
        arcan_event_id: &str,
        envelope_id: String,
        tool_run_id: String,
        timestamp: u64,
    ) -> (r: (EventEnvelope, EventRecord))
        requires
            head_seq < u64::MAX,
        ensures
            journals(r.0, request.session_id@, "main"@, (head_seq + 1) as u64, run_of(request.event@), request.event@,
                arcan_event_id@, envelope_id@, tool_run_id@, timestamp),
            record_view(r.1) == (arcan_event_id@, request.session_id@, opt_view(request.parent_id), timestamp, request.event@),
    {
        let run_id = extract_run_id(&request.event);
        let envelope = arcan_to_lago(
            request.session_id.as_str(),
            "main",
            head_seq + 1,
            run_id.as_str(),
            &request.event,
            arcan_event_id,
            envelope_id,
            tool_run_id,
            timestamp,
        );
        let record = EventRecord {
            id: arcan_event_id.to_owned(),
            session_id: request.session_id,
            parent_id: request.parent_id,
            timestamp,
            event: request.event,
        };
        (envelope, record)
    }

    /// The records of a session, from its envelopes on the `main` branch
    /// in journal order.
    pub fn load_session(&self, session_id: &str, envelopes: &Vec<EventEnvelope>) -> (r: Vec<EventRecord>)
        ensures
            records_view(r@) == session_records(session_id@, envelopes@),
    {
        let mut records: Vec<EventRecord> = Vec::new();
        let mut i: usize = 0;
        while i < envelopes.len()
            invariant
                i <= envelopes@.len(),
                records_view(records@) == session_records(session_id@, envelopes@.take(i as int)),
            decreases envelopes.len() - i,
        {
            let e = &envelopes[i];
            assert(envelopes@.take(i + 1).drop_last() == envelopes@.take(i as int));
            assert(envelopes@.take(i + 1).last() == *e);
            match lago_to_arcan(e) {
                Some(event) => {
                    let ghost before = records@;
                    records.push(EventRecord {
                        id: record_id_of(e),
                        session_id: session_id.to_owned(),
                        parent_id: clone_opt(&e.parent_id),
                        timestamp: e.timestamp,
                        event,
                    });
                    assert(records_view(records@) == records_view(before).push(record_view(records@.last())));
                },
                None => {},
            }
            i = i + 1;
        }
        assert(envelopes@.take(envelopes@.len() as int) == envelopes@);
        records
    }

    /// The records of the events whose parent is `parent_id`, from the
    /// envelopes of the `main` branch in journal order.
    pub fn load_children(&self, parent_id: &str, envelopes: &Vec<EventEnvelope>) -> (r: Vec<EventRecord>)
        ensures
            records_view(r@) == child_records(parent_id@, envelopes@),
    {
        let mut records: Vec<EventRecord> = Vec::new();
        let mut i: usize = 0;
        while i < envelopes.len()
            invariant
                i <= envelopes@.len(),
                records_view(records@) == child_records(parent_id@, envelopes@.take(i as int)),
            decreases envelopes.len() - i,
        {
            let e = &envelopes[i];
            assert(envelopes@.take(i + 1).drop_last() == envelopes@.take(i as int));
            assert(envelopes@.take(i + 1).last() == *e);
            let is_child = match &e.parent_id {
                Some(pid) => str_eq(pid.as_str(), parent_id),
                None => false,
            };
            if is_child {
                match lago_to_arcan(e) {
                    Some(event) => {
                        let ghost before = records@;
                        records.push(EventRecord {
                            id: record_id_of(e),
                            session_id: e.session_id.clone(),
                            parent_id: Some(parent_id.to_owned()),
                            timestamp: e.timestamp,
                            event,
                        });
                        assert(records_view(records@) == records_view(before).push(record_view(records@.last())));
                    },
                    None => {},
                }
            }
            i = i + 1;
        }
        assert(envelopes@.take(envelopes@.len() as int) == envelopes@);
        records
    }

    /// The last record of a session, if any.
    pub fn head(&self, session_id: &str, envelopes: &Vec<EventEnvelope>) -> (r: Option<EventRecord>)
        ensures
            match r {
                Some(x) => session_records(session_id@, envelopes@).len() > 0
                    && record_view(x) == session_records(session_id@, envelopes@).last(),
                None => session_records(session_id@, envelopes@).len() == 0,
            },
    {
        let mut records = self.load_session(session_id, envelopes);
        let ghost all = records@;
        let r = records.pop();
        proof {
            if all.len() > 0 {
                assert(records_view(all).last() == record_view(all.last()));
            }
        }
        r
    }
}

/// What a session read gives back of an append: the envelope an event is
/// appended as reads back as one record, known by the event's id, in the
/// session, without a parent, at the append's time, holding the event as
/// the journal normalizes it for its run and session.
pub proof fn lemma_append_then_load(
    env: EventEnvelope,
    session_id: Seq<char>,
    seq: u64,
    event: AgentEventV,
    arcan_event_id: Seq<char>,
    envelope_id: Seq<char>,
    tool_run_id: Seq<char>,
    timestamp: u64,
)
    requires
        journals(env, session_id, "main"@, seq, run_of(event), event, arcan_event_id, envelope_id, tool_run_id, timestamp),
        json_readback(event),
        patch_well_formed(event),
    ensures
        session_records(session_id, seq![env]) == seq![(arcan_event_id, session_id, None::<Seq<char>>, timestamp,
            normalized(event, run_of(event), session_id))],
{
    lemma_events_survive_journal(event, tool_run_id, run_of(event), session_id);
    assert(seq![env].drop_last() == Seq::<EventEnvelope>::empty());
    assert(env.metadata@.drop_last() == Seq::<(String, String)>::empty());
    assert(lookup(Seq::<(String, String)>::empty(), "arcan_event_id"@) is None);
    assert(lookup(env.metadata@.drop_last(), "arcan_event_id"@) is None);
    assert(env.metadata@.last() == env.metadata@[0]);
    assert(lookup(env.metadata@, "arcan_event_id"@) == Some(env.metadata@[0].1));
    assert(record_id(env) == arcan_event_id);
    assert(session_records(session_id, Seq::<EventEnvelope>::empty()).len() == 0);
}

} // verus!
