//! Learning capture: tool failures and failed or exhausted runs are kept
//! as structured entries during a run, and at its end turned into one
//! `learning_captured` journal event.
//!
//! Appending the event to the journal is the caller's part.
use vstd::prelude::*;

use crate::event_map::{EventEnvelope, EventPayload, RunStopReason};
use crate::json::{json_quoted, json_str_field, json_string_field, quote_json};
use crate::text::{decimal, join_strings, join_with, push_str, u64_to_decimal, views};

verus! {

/// A structured learning entry captured from runtime events.
pub struct LearningEntry {
    /// `tool_failure`, `run_error` or `budget_exceeded`.
    pub category: String,
    pub description: String,
    pub tool_name: Option<String>,
    pub error: Option<String>,
    pub session_id: String,
    pub run_id: String,
}

/// An entry as plain values: category, description, tool, error, session,
/// run.
pub open spec fn entry_view(e: LearningEntry) -> (Seq<char>, Seq<char>, Option<Seq<char>>, Option<Seq<char>>, Seq<char>, Seq<char>) {
    (e.category@, e.description@, opt_text(e.tool_name), opt_text(e.error), e.session_id@, e.run_id@)
}

/// The text of an optional string.
pub open spec fn opt_text(o: Option<String>) -> Option<Seq<char>> {
    match o {
        Some(s) => Some(s@),
        None => None,
    }
}

/// The JSON value of an optional string: its literal, or `null`.
pub open spec fn opt_json(o: Option<Seq<char>>) -> Seq<char> {
    match o {
        Some(s) => json_quoted(s),
        None => "null"@,
    }
}

/// The JSON object of an entry, keys in order.
pub open spec fn entry_json(e: (Seq<char>, Seq<char>, Option<Seq<char>>, Option<Seq<char>>, Seq<char>, Seq<char>)) -> Seq<char> {
    "{\"category\":"@ + json_quoted(e.0) + ",\"description\":"@ + json_quoted(e.1) + ",\"error\":"@ + opt_json(e.3)
        + ",\"run_id\":"@ + json_quoted(e.5) + ",\"session_id\":"@ + json_quoted(e.4) + ",\"tool_name\":"@ + opt_json(e.2) + "}"@
}

/// The entries as JSON objects.
pub open spec fn entries_json(entries: Seq<LearningEntry>) -> Seq<Seq<char>> {
    entries.map_values(|e: LearningEntry| entry_json(entry_view(e)))
}

/// The data of a `learning_captured` event: the entries, their count, and
/// the agent scope.
pub open spec fn learning_data(entries: Seq<LearningEntry>) -> Seq<char> {
    "{\"entries\":["@ + join_with(entries_json(entries), ","@) + "],\"entry_count\":"@ + decimal(entries.len())
        + ",\"scope\":\"agent\"}"@
}

fn opt_json_of(o: &Option<String>) -> (r: String)
    ensures
        r@ == opt_json(opt_text(*o)),
{
    match o {
        Some(s) => quote_json(s.as_str()),
        None => "null".to_owned(),
    }
}

fn entry_json_of(e: &LearningEntry) -> (r: String)
    ensures
        r@ == entry_json(entry_view(*e)),
{
    let mut r = "{\"category\":".to_owned();
    push_str(&mut r, quote_json(e.category.as_str()).as_str());
    push_str(&mut r, ",\"description\":");
    push_str(&mut r, quote_json(e.description.as_str()).as_str());
    push_str(&mut r, ",\"error\":");
    push_str(&mut r, opt_json_of(&e.error).as_str());
    push_str(&mut r, ",\"run_id\":");
    push_str(&mut r, quote_json(e.run_id.as_str()).as_str());
    push_str(&mut r, ",\"session_id\":");
    push_str(&mut r, quote_json(e.session_id.as_str()).as_str());
    push_str(&mut r, ",\"tool_name\":");
    push_str(&mut r, opt_json_of(&e.tool_name).as_str());
    push_str(&mut r, "}");
    r
}

fn learning_data_of(entries: &Vec<LearningEntry>) -> (r: String)
    ensures
        r@ == learning_data(entries@),
{
    let mut parts: Vec<String> = Vec::new();
    let mut i: usize = 0;
    while i < entries.len()
        invariant
            i <= entries@.len(),
            views(parts@) == entries_json(entries@.take(i as int)),
        decreases entries.len() - i,
    {
        let ghost before = parts@;
        parts.push(entry_json_of(&entries[i]));
        assert(views(parts@) == views(before).push(entry_json(entry_view(entries@[i as int]))));
        assert(entries@.take(i + 1) == entries@.take(i as int).push(entries@[i as int]));
        assert(entries_json(entries@.take(i + 1)) == entries_json(entries@.take(i as int)).push(entry_json(entry_view(entries@[i as int]))));
        i = i + 1;
    }
    assert(entries@.take(entries@.len() as int) == entries@);
    let mut r = "{\"entries\":[".to_owned();
    push_str(&mut r, join_strings(&parts, ",").as_str());
    push_str(&mut r, "],\"entry_count\":");
    push_str(&mut r, u64_to_decimal(entries.len() as u64).as_str());
    push_str(&mut r, ",\"scope\":\"agent\"}");
    r
}

/// The description of a failed tool call.
pub open spec fn failure_description(tool: Seq<char>, error: Seq<char>) -> Seq<char> {
    "Tool '"@ + tool + "' failed: "@ + error
}

/// The error text of a failed tool's output: its `error` string, or
/// `unknown error`.
pub open spec fn error_text(output: Seq<char>) -> Seq<char> {
    match json_string_field(output, "error"@) {
        Some(e) => e,
        None => "unknown error"@,
    }
}

/// The entries a finished run adds, by why it stopped.
pub open spec fn run_entries(reason: RunStopReason, session_id: Seq<char>, run_id: Seq<char>)
    -> Seq<(Seq<char>, Seq<char>, Option<Seq<char>>, Option<Seq<char>>, Seq<char>, Seq<char>)>
{
    match reason {
        RunStopReason::Error => seq![("run_error"@, "Run ended with error"@, None, None, session_id, run_id)],
        RunStopReason::BudgetExceeded => seq![(
            "budget_exceeded"@,
            "Run exhausted iteration budget without completing"@,
            None,
            None,
            session_id,
            run_id,
        )],
        _ => Seq::empty(),
    }
}

/// What a finished run records, over every stop reason: a run that ended
/// with an error adds exactly one `run_error` entry, a run that exhausted its
/// budget exactly one `budget_exceeded` entry, and a run that stopped for any
/// other reason (completed, cancelled, waiting for the user, blocked by
/// policy) adds nothing; an entry carries the run's session and run ids and
/// no tool.
pub proof fn lemma_run_entries_by_reason(reason: RunStopReason, session_id: Seq<char>, run_id: Seq<char>)
    ensures
        run_entries(reason, session_id, run_id).len() == (if reason is Error || reason is BudgetExceeded { 1int } else { 0int }),
        forall|k: int| 0 <= k < run_entries(reason, session_id, run_id).len() ==> {
            let e = #[trigger] run_entries(reason, session_id, run_id)[k];
            &&& (e.0 == "run_error"@ <==> reason is Error)
            &&& (e.0 == "budget_exceeded"@ <==> reason is BudgetExceeded)
            &&& (reason is Error ==> e.1 == "Run ended with error"@)
            &&& (reason is BudgetExceeded ==> e.1 == "Run exhausted iteration budget without completing"@)
            &&& e.2 is None && e.3 is None
            &&& e.4 == session_id && e.5 == run_id
        },
{
    reveal_strlit("run_error");
    reveal_strlit("budget_exceeded");
    assert("run_error"@ != "budget_exceeded"@) by { assert("run_error"@[0] != "budget_exceeded"@[0]); }
}

/// Captures learnings during a run.
pub struct LearningMiddleware {
    entries: Vec<LearningEntry>,
    run_id: String,
    session_id: String,
}

impl LearningMiddleware {
    /// The entries captured and not yet drained.
    pub closed spec fn pending(&self) -> Seq<LearningEntry> {
        self.entries@
    }

    /// The run the middleware records for.
    pub closed spec fn run(&self) -> Seq<char> {
        self.run_id@
    }

    /// The session the middleware records for.
    pub closed spec fn session(&self) -> Seq<char> {
        self.session_id@
    }

    /// No entries, and no run yet.
    pub fn new() -> (m: Self)
        ensures
            m.pending().len() == 0,
            m.run().len() == 0,
            m.session().len() == 0,
    {
        LearningMiddleware { entries: Vec::new(), run_id: String::new(), session_id: String::new() }
    }

    /// The entries captured so far.
    pub fn buffered_entries(&self) -> (v: &[LearningEntry])
        ensures
            v@ == self.pending(),
    {
        self.entries.as_slice()
    }

    /// Records an entry.
    pub fn push_entry(&mut self, entry: LearningEntry)
        ensures
            final(self).pending() == old(self).pending().push(entry),
            final(self).run() == old(self).run(),
            final(self).session() == old(self).session(),
    {
        self.entries.push(entry);
    }

    /// Takes the run and session of the first call of a run.
    fn set_context(&mut self, run_id: &str, session_id: &str)
        ensures
            final(self).pending() == old(self).pending(),
            old(self).run().len() == 0 ==> final(self).run() == run_id@ && final(self).session() == session_id@,
            old(self).run().len() > 0 ==> final(self).run() == old(self).run() && final(self).session() == old(self).session(),
    {
        if self.run_id.as_str().as_bytes().len() == 0 {
            self.run_id = run_id.to_owned();
            self.session_id = session_id.to_owned();
        }
    }

    /// Before a model call: takes the request's run and session when none
    /// is set.
    pub fn before_model_call(&mut self, run_id: &str, session_id: &str)
        ensures
            final(self).pending() == old(self).pending(),
            old(self).run().len() == 0 ==> final(self).run() == run_id@ && final(self).session() == session_id@,
            old(self).run().len() > 0 ==> final(self).run() == old(self).run() && final(self).session() == old(self).session(),
    {
        self.set_context(run_id, session_id);
    }

    /// Before a tool call: takes the call's run and session when none is
    /// set.
    pub fn pre_tool_call(&mut self, run_id: &str, session_id: &str)
        ensures
            final(self).pending() == old(self).pending(),
            old(self).run().len() == 0 ==> final(self).run() == run_id@ && final(self).session() == session_id@,
            old(self).run().len() > 0 ==> final(self).run() == old(self).run() && final(self).session() == old(self).session(),
    {
        self.set_context(run_id, session_id);
    }

    /// After a tool call: a failed call (its output the JSON text
    /// `output`) is recorded as a `tool_failure`; a successful one is not.
    pub fn post_tool_call(&mut self, session_id: &str, run_id: &str, tool_name: &str, output: &str, is_error: bool)
        ensures
            final(self).run() == old(self).run(),
            final(self).session() == old(self).session(),
            !is_error ==> final(self).pending() == old(self).pending(),
            is_error ==> final(self).pending().len() == old(self).pending().len() + 1
                && final(self).pending().take(old(self).pending().len() as int) == old(self).pending()
                && entry_view(final(self).pending().last()) == (
                    "tool_failure"@,
                    failure_description(tool_name@, error_text(output@)),
                    Some(tool_name@),
                    Some(error_text(output@)),
                    session_id@,
                    run_id@,
                ),
    {
        if is_error {
            let error = match json_str_field(output, "error") {
                Some(e) => e,
                None => "unknown error".to_owned(),
            };
            let mut description = "Tool '".to_owned();
            push_str(&mut description, tool_name);
            push_str(&mut description, "' failed: ");
            push_str(&mut description, error.as_str());
            let ghost before = self.entries@;
            self.entries.push(LearningEntry {
                category: "tool_failure".to_owned(),
                description,
                tool_name: Some(tool_name.to_owned()),
                error: Some(error),
                session_id: session_id.to_owned(),
                run_id: run_id.to_owned(),
            });
            assert(self.entries@.take(before.len() as int) == before);
        }
    }

    /// Takes the captured entries out: the `learning_captured` event of
    /// the run holding them, when there are any.
    pub fn drain_to_envelope(&mut self, event_id: &str) -> (r: Option<EventEnvelope>)
        ensures
            final(self).pending().len() == 0,
            final(self).run() == old(self).run(),
            final(self).session() == old(self).session(),
            old(self).pending().len() == 0 <==> r is None,
            r matches Some(env) ==> {
                &&& env.event_id@ == event_id@
                &&& env.session_id@ == old(self).session()
                &&& env.branch_id@ == "main"@
                &&& env.run_id matches Some(x) && x@ == old(self).run()
                &&& env.seq == 0
                &&& env.timestamp == 0
                &&& env.parent_id is None
                &&& env.metadata@.len() == 0
                &&& env.schema_version == 1
                &&& env.payload matches EventPayload::Custom { event_type, data }
                    && event_type@ == "learning_captured"@ && data@ == learning_data(old(self).pending())
            },
    {
        let mut entries: Vec<LearningEntry> = Vec::new();
        std::mem::swap(&mut entries, &mut self.entries);
        if entries.len() == 0 {
            return None;
        }
        let data = learning_data_of(&entries);
        Some(EventEnvelope {
            event_id: event_id.to_owned(),
            session_id: self.session_id.clone(),
            branch_id: "main".to_owned(),
            run_id: Some(self.run_id.clone()),
            seq: 0,
            timestamp: 0,
            parent_id: None,
            payload: EventPayload::Custom { event_type: "learning_captured".to_owned(), data },
            metadata: Vec::new(),
            schema_version: 1,
        })
    }

    /// At the end of a run: records a failed or exhausted run, then drains
    /// the entries into the event to persist.
    pub fn on_run_finished(&mut self, reason: RunStopReason, session_id: &str, run_id: &str, event_id: &str) -> (r: Option<EventEnvelope>)
        ensures
            final(self).pending().len() == 0,
            old(self).pending().len() == 0 && run_entries(reason, session_id@, run_id@).len() == 0 <==> r is None,
            old(self).pending().len() == 0 && !(reason is Error) && !(reason is BudgetExceeded) ==> r is None,
            !(reason is Error) && !(reason is BudgetExceeded) ==> match r {
                Some(env) => env.payload matches EventPayload::Custom { data, .. } && data@ == learning_data(old(self).pending()),
                None => true,
            },
            r matches Some(env) ==> env.payload matches EventPayload::Custom { event_type, data }
                && event_type@ == "learning_captured"@
                && exists|added: Seq<LearningEntry>|
                    #![trigger learning_data(old(self).pending() + added)]
                    added.map_values(|e: LearningEntry| entry_view(e)) == run_entries(reason, session_id@, run_id@)
                    && data@ == learning_data(old(self).pending() + added),
    {
        let ghost start = self.entries@;
        match reason {
            RunStopReason::Error => {
                self.push_entry(LearningEntry {
                    category: "run_error".to_owned(),
                    description: "Run ended with error".to_owned(),
                    tool_name: None,
                    error: None,
                    session_id: session_id.to_owned(),
                    run_id: run_id.to_owned(),
                });
            },
            RunStopReason::BudgetExceeded => {
                self.push_entry(LearningEntry {
                    category: "budget_exceeded".to_owned(),
                    description: "Run exhausted iteration budget without completing".to_owned(),
                    tool_name: None,
                    error: None,
                    session_id: session_id.to_owned(),
                    run_id: run_id.to_owned(),
                });
            },
            _ => {},
        }
        let ghost added = self.entries@.skip(start.len() as int);
        assert(self.entries@ == start + added);
        assert(added.map_values(|e: LearningEntry| entry_view(e)) == run_entries(reason, session_id@, run_id@));
        proof {
            lemma_run_entries_by_reason(reason, session_id@, run_id@);
            if !(reason is Error) && !(reason is BudgetExceeded) {
                assert(added.len() == 0);
                assert(self.entries@ == start);
            }
        }
        self.drain_to_envelope(event_id)
    }
}

} // verus!
