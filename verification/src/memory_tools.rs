//! The agent's memory tools: `memory_query` reads the memory projection,
//! `memory_propose` and `memory_commit` record proposals and commitments as
//! journal events.
//!
//! Reading the journal head and appending to it are the caller's part: the
//! tools here check the call, and build the event to append and the answer.
use vstd::prelude::*;

use crate::event_map::{or_default, EventEnvelope, EventPayload, MemoryScope, PayloadV};
use crate::json::{json_array_field, json_array_items, json_str_field, json_string_field, json_u64_field, json_u64_field_of};
use crate::memory_projection::{committed_after, committed_views, lemma_live_excludes_tombstoned, live, tombstones_after, CommittedMemory, MemoryProjection};
use crate::text::{decimal, join_strings, join_with, push_str, str_eq, u64_to_decimal, views};
use crate::tools::{ToolDefinition, ToolError};

verus! {

/// The error of a memory tool with `message`.
pub open spec fn memory_error(e: ToolError, message: Seq<char>) -> bool {
    e.tool_name@ == "memory"@ && e.message@ == message
}

fn memory_err(message: String) -> (e: ToolError)
    ensures
        memory_error(e, message@),
{
    ToolError { tool_name: "memory".to_owned(), message }
}

/// The scope a name stands for.
pub open spec fn scope_named(s: Seq<char>) -> Option<MemoryScope> {
    if s == "session"@ {
        Some(MemoryScope::Session)
    } else if s == "user"@ {
        Some(MemoryScope::User)
    } else if s == "agent"@ {
        Some(MemoryScope::Agent)
    } else if s == "org"@ {
        Some(MemoryScope::Org)
    } else {
        None
    }
}

/// Reads a scope name: `session`, `user`, `agent` or `org`.
pub fn parse_scope(s: &str) -> (r: Result<MemoryScope, ToolError>)
    ensures
        match scope_named(s@) {
            Some(sc) => r matches Ok(x) && x == sc,
            None => r matches Err(e) && memory_error(e, "invalid scope: "@ + s@),
        },
{
    if str_eq(s, "session") {
        Ok(MemoryScope::Session)
    } else if str_eq(s, "user") {
        Ok(MemoryScope::User)
    } else if str_eq(s, "agent") {
        Ok(MemoryScope::Agent)
    } else if str_eq(s, "org") {
        Ok(MemoryScope::Org)
    } else {
        let mut m = "invalid scope: ".to_owned();
        push_str(&mut m, s);
        Err(memory_err(m))
    }
}

/// What the `scope` field of a call's input gives: its scope, or the error.
pub open spec fn scope_of_input(input: Seq<char>) -> Result<MemoryScope, Seq<char>> {
    match json_string_field(input, "scope"@) {
        None => Err("missing 'scope' field"@),
        Some(s) => match scope_named(s) {
            Some(sc) => Ok(sc),
            None => Err("invalid scope: "@ + s),
        },
    }
}

fn input_scope(input: &str) -> (r: Result<MemoryScope, ToolError>)
    ensures
        match scope_of_input(input@) {
            Ok(sc) => r matches Ok(x) && x == sc,
            Err(m) => r matches Err(e) && memory_error(e, m),
        },
{
    match json_str_field(input, "scope") {
        None => Err(memory_err("missing 'scope' field".to_owned())),
        Some(s) => parse_scope(s.as_str()),
    }
}

/// A memory tool's declaration: no title, hints or time limit, category
/// and single tag `memory`.
pub open spec fn memory_tool_declares(d: ToolDefinition, name: Seq<char>, description: Seq<char>, schema: Seq<char>) -> bool {
    &&& d.name@ == name
    &&& d.description@ == description
    &&& d.input_schema@ == schema
    &&& d.title is None
    &&& d.output_schema is None
    &&& d.annotations is None
    &&& d.category matches Some(c) && c@ == "memory"@
    &&& d.tags@.len() == 1 && d.tags@[0]@ == "memory"@
    &&& d.timeout_secs is None
}

fn memory_definition(name: &str, description: &str, schema: &str) -> (d: ToolDefinition)
    ensures
        memory_tool_declares(d, name@, description@, schema@),
{
    let mut tags: Vec<String> = Vec::new();
    tags.push("memory".to_owned());
    ToolDefinition {
        name: name.to_owned(),
        description: description.to_owned(),
        input_schema: schema.to_owned(),
        title: None,
        output_schema: None,
        annotations: None,
        category: Some("memory".to_owned()),
        tags,
        timeout_secs: None,
    }
}

/// The answer of `memory_query`: the scope's observations (at most the
/// limit), their count in words, its latest reflection and its live
/// committed memories.
pub struct MemoryQueryOutput {
    pub entries: Vec<String>,
    pub observation_summary: String,
    pub reflection: Option<String>,
    pub committed: Vec<CommittedMemory>,
}

/// The first `limit` items of `s`, or all of them without a limit.
pub open spec fn limited<T>(s: Seq<T>, limit: Option<u64>) -> Seq<T> {
    match limit {
        Some(l) => if l < s.len() { s.take(l as int) } else { s },
        None => s,
    }
}

/// Queries the memory projection by scope.
pub struct MemoryQueryTool {}

impl MemoryQueryTool {
    pub fn new() -> (t: Self) {
        MemoryQueryTool {}
    }

    pub fn definition(&self) -> (d: ToolDefinition)
        ensures
            memory_tool_declares(d, "memory_query"@,
                "Query agent memory for a given scope. Returns observations, reflections, and committed memories."@,
                "{\"type\":\"object\",\"properties\":{\"scope\":{\"type\":\"string\",\"enum\":[\"session\",\"user\",\"agent\",\"org\"],\"description\":\"Memory scope to query\"},\"limit\":{\"type\":\"integer\",\"description\":\"Maximum number of entries to return\"}},\"required\":[\"scope\"]}"@),
    {
        memory_definition("memory_query",
            "Query agent memory for a given scope. Returns observations, reflections, and committed memories.",
            "{\"type\":\"object\",\"properties\":{\"scope\":{\"type\":\"string\",\"enum\":[\"session\",\"user\",\"agent\",\"org\"],\"description\":\"Memory scope to query\"},\"limit\":{\"type\":\"integer\",\"description\":\"Maximum number of entries to return\"}},\"required\":[\"scope\"]}")
    }

    /// Answers a call whose input is the JSON text `input`, from
    /// `projection`.
    pub fn execute(&self, input: &str, projection: &MemoryProjection) -> (r: Result<MemoryQueryOutput, ToolError>)
        requires
            projection.wf(),
        ensures
            match scope_of_input(input@) {
                Err(m) => r matches Err(e) && memory_error(e, m),
                Ok(sc) => r matches Ok(out) && {
                    let obs = projection.observations_of(sc);
                    &&& views(out.entries@) == limited(obs, json_u64_field(input@, "limit"@))
                    &&& out.observation_summary@ == decimal(obs.len()) + " observations"@
                    &&& match out.reflection {
                        Some(t) => projection.reflection_of(sc) == Some(t@),
                        None => projection.reflection_of(sc) is None,
                    }
                    &&& committed_views(out.committed@) == live(projection.committed_of(sc), projection.tombstones())
                },
            },
    {
        let scope = input_scope(input)?;
        let limit = json_u64_field_of(input, "limit");
        let result = projection.query(scope);
        let ghost obs = projection.observations_of(scope);
        let n = result.observations.len();
        let mut entries: Vec<String> = Vec::new();
        let mut k: usize = 0;
        let cap: u64 = match limit { Some(l) => l, None => u64::MAX };
        while k < n && (k as u64) < cap
            invariant
                cap == match limit { Some(l) => l, None => u64::MAX },
                n == result.observations@.len(),
                views(result.observations@) == obs,
                k <= n,
                match limit { Some(l) => k <= l, None => true },
                views(entries@) == obs.take(k as int),
            decreases n - k,
        {
            let ghost before = entries@;
            entries.push(result.observations[k].clone());
            assert(views(entries@) == views(before).push(result.observations@[k as int]@));
            assert(obs.take(k + 1) == obs.take(k as int).push(obs[k as int]));
            k = k + 1;
        }
        assert(views(entries@) == limited(obs, limit)) by {
            assert(obs.take(n as int) == obs);
        }
        let mut summary = u64_to_decimal(n as u64);
        push_str(&mut summary, " observations");
        Ok(MemoryQueryOutput {
            entries,
            observation_summary: summary,
            reflection: result.reflection,
            committed: result.committed,
        })
    }
}

/// The 64-bit FNV-1a hash of `bytes`.
pub open spec fn fnv1a(bytes: Seq<u8>) -> u64
    decreases bytes.len(),
{
    if bytes.len() == 0 {
        0xcbf29ce484222325u64
    } else {
        vstd::wrapping::u64_specs::wrapping_mul(fnv1a(bytes.drop_last()) ^ (bytes.last() as u64), 0x100000001b3u64)
    }
}

/// Hashes bytes into a blob reference (FNV-1a; not cryptographic).
fn md5_hash(data: &[u8]) -> (h: u64)
    ensures
        h == fnv1a(data@),
{
    let mut hash: u64 = 0xcbf29ce484222325;
    let mut i: usize = 0;
    while i < data.len()
        invariant
            i <= data@.len(),
            hash == fnv1a(data@.take(i as int)),
        decreases data.len() - i,
    {
        assert(data@.take(i + 1).drop_last() == data@.take(i as int));
        hash = (hash ^ (data[i] as u64)).wrapping_mul(0x100000001b3);
        i = i + 1;
    }
    assert(data@.take(data@.len() as int) == data@);
    hash
}

/// The lowercase hexadecimal digit for `d` (`0 <= d < 16`).
pub open spec fn hex_digit(d: nat) -> char {
    if d < 10 {
        decimal(d)[0]
    } else if d == 10 { 'a' }
    else if d == 11 { 'b' }
    else if d == 12 { 'c' }
    else if d == 13 { 'd' }
    else if d == 14 { 'e' }
    else { 'f' }
}

/// The lowercase hexadecimal representation of `n`, without leading zeros
/// (what `format!("{:x}", n)` gives).
pub open spec fn hex(n: nat) -> Seq<char>
    decreases n,
{
    if n < 16 {
        seq![hex_digit(n)]
    } else {
        hex(n / 16).push(hex_digit(n % 16))
    }
}

fn hex_digit_of(d: u64) -> (c: char)
    requires
        d < 16,
    ensures
        c == hex_digit(d as nat),
{
    if d < 10 {
        let s = u64_to_decimal(d);
        proof {
            reveal_with_fuel(decimal, 2);
        }
        let cs = crate::text::chars_vec(s.as_str());
        cs[0]
    } else if d == 10 { 'a' }
    else if d == 11 { 'b' }
    else if d == 12 { 'c' }
    else if d == 13 { 'd' }
    else if d == 14 { 'e' }
    else { 'f' }
}

fn hex_of(n: u64) -> (s: String)
    ensures
        s@ == hex(n as nat),
    decreases n,
{
    let mut s = if n < 16 { String::new() } else { hex_of(n / 16) };
    crate::text::push_char(&mut s, hex_digit_of(n % 16));
    s
}

/// The JSON text of an array with the given items.
pub open spec fn json_array_text(items: Seq<Seq<char>>) -> Seq<char> {
    "["@ + join_with(items, ","@) + "]"@
}

/// Whether each item is an object with a string `content`.
pub open spec fn all_have_content(items: Seq<Seq<char>>) -> bool {
    forall|i: int| 0 <= i < items.len() ==> (#[trigger] json_string_field(items[i], "content"@)) is Some
}

/// A checked proposal: its scope, the reference of its entries and how
/// many there are.
pub struct Proposal {
    pub scope: MemoryScope,
    pub entries_ref: String,
    pub entry_count: usize,
}

/// What a `memory_propose` input gives: the scope, the entries, or the
/// error, checked in this order.
pub open spec fn proposal_of_input(input: Seq<char>) -> Result<(MemoryScope, Seq<Seq<char>>), Seq<char>> {
    match scope_of_input(input) {
        Err(m) => Err(m),
        Ok(sc) => match json_array_field(input, "entries"@) {
            None => Err("missing or invalid 'entries' field"@),
            Some(items) => if items.len() == 0 {
                Err("entries must not be empty"@)
            } else if !all_have_content(items) {
                Err("each entry must have a 'content' string field"@)
            } else {
                Ok((sc, items))
            },
        },
    }
}

/// The answer of `memory_propose`.
pub struct ProposeOutput {
    pub proposal_id: String,
    pub entry_count: usize,
}

/// Proposes new memory entries.
pub struct MemoryProposeTool {
    session_id: Option<String>,
    default_branch_id: String,
}

impl MemoryProposeTool {
    /// The branch proposals go to.
    pub closed spec fn branch(&self) -> Seq<char> {
        self.default_branch_id@
    }

    /// The session fixed at construction, if any; otherwise events go to
    /// the session of the call.
    pub closed spec fn session(&self) -> Option<Seq<char>> {
        match self.session_id {
            Some(s) => Some(s@),
            None => None,
        }
    }

    /// A tool writing to the branch `main` of each call's session.
    pub fn new() -> (t: Self)
        ensures
            t.branch() == "main"@,
            t.session() is None,
    {
        MemoryProposeTool { session_id: None, default_branch_id: "main".to_owned() }
    }

    /// A tool writing to `branch_id` of the session `session_id`.
    pub fn with_session(session_id: &str, branch_id: &str) -> (t: Self)
        ensures
            t.branch() == branch_id@,
            t.session() == Some(session_id@),
    {
        MemoryProposeTool { session_id: Some(session_id.to_owned()), default_branch_id: branch_id.to_owned() }
    }

    pub fn definition(&self) -> (d: ToolDefinition)
        ensures
            memory_tool_declares(d, "memory_propose"@,
                "Propose new memory entries for storage. Creates a MemoryProposed event."@,
                "{\"type\":\"object\",\"properties\":{\"scope\":{\"type\":\"string\",\"enum\":[\"session\",\"user\",\"agent\",\"org\"],\"description\":\"Memory scope for the proposal\"},\"entries\":{\"type\":\"array\",\"items\":{\"type\":\"object\",\"properties\":{\"content\":{\"type\":\"string\"}},\"required\":[\"content\"]},\"description\":\"Memory entries to propose\"}},\"required\":[\"scope\",\"entries\"]}"@),
    {
        memory_definition("memory_propose",
            "Propose new memory entries for storage. Creates a MemoryProposed event.",
            "{\"type\":\"object\",\"properties\":{\"scope\":{\"type\":\"string\",\"enum\":[\"session\",\"user\",\"agent\",\"org\"],\"description\":\"Memory scope for the proposal\"},\"entries\":{\"type\":\"array\",\"items\":{\"type\":\"object\",\"properties\":{\"content\":{\"type\":\"string\"}},\"required\":[\"content\"]},\"description\":\"Memory entries to propose\"}},\"required\":[\"scope\",\"entries\"]}")
    }

    /// Checks a call's input: the proposal, whose entries are referenced by
    /// the FNV-1a hash (in hex) of their JSON array text; or the error.
    pub fn check(&self, input: &str) -> (r: Result<Proposal, ToolError>)
        ensures
            match proposal_of_input(input@) {
                Err(m) => r matches Err(e) && memory_error(e, m),
                Ok((sc, items)) => r matches Ok(p) && p.scope == sc && p.entry_count == items.len()
                    && p.entries_ref@ == hex(fnv1a(vstd::utf8::encode_utf8(json_array_text(items))) as nat),
            },
    {
        let scope = input_scope(input)?;
        let items = match json_array_items(input, "entries") {
            None => return Err(memory_err("missing or invalid 'entries' field".to_owned())),
            Some(v) => v,
        };
        if items.len() == 0 {
            return Err(memory_err("entries must not be empty".to_owned()));
        }
        let mut i: usize = 0;
        while i < items.len()
            invariant
                i <= items@.len(),
                items@.len() > 0,
                json_array_field(input@, "entries"@) == Some(views(items@)),
                scope_of_input(input@) == Ok::<MemoryScope, Seq<char>>(scope),
                forall|k: int| 0 <= k < i ==> (#[trigger] json_string_field(views(items@)[k], "content"@)) is Some,
            decreases items.len() - i,
        {
            if json_str_field(items[i].as_str(), "content").is_none() {
                assert(views(items@)[i as int] == items@[i as int]@);
                assert(json_string_field(views(items@)[i as int], "content"@) is None);
                assert(!all_have_content(views(items@)));
                return Err(memory_err("each entry must have a 'content' string field".to_owned()));
            }
            assert(views(items@)[i as int] == items@[i as int]@);
            i = i + 1;
        }
        let mut text = "[".to_owned();
        let joined = join_strings(&items, ",");
        push_str(&mut text, joined.as_str());
        push_str(&mut text, "]");
        assert(text@ == json_array_text(views(items@)));
        assert(all_have_content(views(items@)));
        let bytes = text.as_str().as_bytes();
        assert(bytes@ == vstd::utf8::encode_utf8(text@));
        let hash = md5_hash(bytes);
        Ok(Proposal { scope, entries_ref: hex_of(hash), entry_count: items.len() })
    }

    /// The `MemoryProposed` event to append after the journal head
    /// `head_seq` of the tool's session (the call's `session_id` when the
    /// tool fixes none), and the answer.
    pub fn proposal_event(
        &self,
        session_id: &str,
        run_id: &str,
        proposal: &Proposal,
        proposal_id: &str,
        event_id: &str,
        head_seq: u64,
        timestamp: u64,
    ) -> (r: (EventEnvelope, ProposeOutput))
        requires
            head_seq < u64::MAX,
        ensures
            r.0.event_id@ == event_id@,
            r.0.session_id@ == or_default(self.session(), session_id@),
            r.0.branch_id@ == self.branch(),
            r.0.run_id matches Some(x) && x@ == run_id@,
            r.0.seq == head_seq + 1,
            r.0.timestamp == timestamp,
            r.0.parent_id is None,
            r.0.metadata@.len() == 0,
            r.0.schema_version == 1,
            r.0.payload matches EventPayload::MemoryProposed { scope, proposal_id: pid, entries_ref, source_run_id }
                && scope == proposal.scope && pid@ == proposal_id@ && entries_ref@ == proposal.entries_ref@
                && (source_run_id matches Some(s) && s@ == run_id@),
            r.1.proposal_id@ == proposal_id@,
            r.1.entry_count == proposal.entry_count,
    {
        let envelope = EventEnvelope {
            event_id: event_id.to_owned(),
            session_id: match &self.session_id {
                Some(s) => s.clone(),
                None => session_id.to_owned(),
            },
            branch_id: self.default_branch_id.clone(),
            run_id: Some(run_id.to_owned()),
            seq: head_seq + 1,
            timestamp,
            parent_id: None,
            payload: EventPayload::MemoryProposed {
                scope: proposal.scope,
                proposal_id: proposal_id.to_owned(),
                entries_ref: proposal.entries_ref.clone(),
                source_run_id: Some(run_id.to_owned()),
            },
            metadata: Vec::new(),
            schema_version: 1,
        };
        (envelope, ProposeOutput { proposal_id: proposal_id.to_owned(), entry_count: proposal.entry_count })
    }
}

/// A checked commitment: the proposal, the memory it replaces, and the
/// reference of the committed content.
pub struct Commitment {
    pub proposal_id: String,
    pub supersedes: Option<String>,
    pub committed_ref: String,
}

/// The answer of `memory_commit`; `committed` is always true.
pub struct CommitOutput {
    pub memory_id: String,
    pub committed: bool,
}

/// Commits a proposed memory.
pub struct MemoryCommitTool {
    session_id: Option<String>,
    default_branch_id: String,
}

impl MemoryCommitTool {
    /// The branch commitments go to.
    pub closed spec fn branch(&self) -> Seq<char> {
        self.default_branch_id@
    }

    /// The session fixed at construction, if any; otherwise events go to
    /// the session of the call.
    pub closed spec fn session(&self) -> Option<Seq<char>> {
        match self.session_id {
            Some(s) => Some(s@),
            None => None,
        }
    }

    /// A tool writing to the branch `main` of each call's session.
    pub fn new() -> (t: Self)
        ensures
            t.branch() == "main"@,
            t.session() is None,
    {
        MemoryCommitTool { session_id: None, default_branch_id: "main".to_owned() }
    }

    /// A tool writing to `branch_id` of the session `session_id`.
    pub fn with_session(session_id: &str, branch_id: &str) -> (t: Self)
        ensures
            t.branch() == branch_id@,
            t.session() == Some(session_id@),
    {
        MemoryCommitTool { session_id: Some(session_id.to_owned()), default_branch_id: branch_id.to_owned() }
    }

    pub fn definition(&self) -> (d: ToolDefinition)
        ensures
            memory_tool_declares(d, "memory_commit"@,
                "Commit a previously proposed memory. Creates a MemoryCommitted event."@,
                "{\"type\":\"object\",\"properties\":{\"proposal_id\":{\"type\":\"string\",\"description\":\"ID of the proposal to commit\"},\"supersedes\":{\"type\":\"string\",\"description\":\"Optional ID of a memory this replaces\"}},\"required\":[\"proposal_id\"]}"@),
    {
        memory_definition("memory_commit",
            "Commit a previously proposed memory. Creates a MemoryCommitted event.",
            "{\"type\":\"object\",\"properties\":{\"proposal_id\":{\"type\":\"string\",\"description\":\"ID of the proposal to commit\"},\"supersedes\":{\"type\":\"string\",\"description\":\"Optional ID of a memory this replaces\"}},\"required\":[\"proposal_id\"]}")
    }

    /// Checks a call's input: a non-empty `proposal_id`, and an optional
    /// `supersedes`; the content is referenced as `committed-` and the
    /// proposal.
    pub fn check(&self, input: &str) -> (r: Result<Commitment, ToolError>)
        ensures
            match json_string_field(input@, "proposal_id"@) {
                None => r matches Err(e) && memory_error(e, "missing 'proposal_id' field"@),
                Some(p) => if p.len() == 0 {
                    r matches Err(e) && memory_error(e, "proposal_id must not be empty"@)
                } else {
                    r matches Ok(c) && c.proposal_id@ == p && c.committed_ref@ == "committed-"@ + p
                        && match c.supersedes {
                            Some(s) => json_string_field(input@, "supersedes"@) == Some(s@),
                            None => json_string_field(input@, "supersedes"@) is None,
                        }
                },
            },
    {
        let proposal_id = match json_str_field(input, "proposal_id") {
            None => return Err(memory_err("missing 'proposal_id' field".to_owned())),
            Some(p) => p,
        };
        if proposal_id.as_str().as_bytes().len() == 0 {
            return Err(memory_err("proposal_id must not be empty".to_owned()));
        }
        let supersedes = json_str_field(input, "supersedes");
        let mut committed_ref = "committed-".to_owned();
        push_str(&mut committed_ref, proposal_id.as_str());
        Ok(Commitment { proposal_id, supersedes, committed_ref })
    }

    /// The `MemoryCommitted` event to append after the journal head
    /// `head_seq` of the tool's session (the call's `session_id` when the
    /// tool fixes none), in the session scope with no run, and the answer.
    pub fn commit_event(
        &self,
        session_id: &str,
        commitment: &Commitment,
        memory_id: &str,
        event_id: &str,
        head_seq: u64,
        timestamp: u64,
    ) -> (r: (EventEnvelope, CommitOutput))
        requires
            head_seq < u64::MAX,
        ensures
            r.0.event_id@ == event_id@,
            r.0.session_id@ == or_default(self.session(), session_id@),
            r.0.branch_id@ == self.branch(),
            r.0.run_id is None,
            r.0.seq == head_seq + 1,
            r.0.timestamp == timestamp,
            r.0.parent_id is None,
            r.0.metadata@.len() == 0,
            r.0.schema_version == 1,
            r.0.payload matches EventPayload::MemoryCommitted { scope, memory_id: mid, committed_ref, supersedes }
                && scope == MemoryScope::Session && mid@ == memory_id@ && committed_ref@ == commitment.committed_ref@
                && match supersedes {
                    Some(s) => (commitment.supersedes matches Some(t) && s@ == t@),
                    None => commitment.supersedes is None,
                },
            r.1.memory_id@ == memory_id@,
            r.1.committed,
    {
        let supersedes = match &commitment.supersedes {
            Some(s) => Some(s.clone()),
            None => None,
        };
        let envelope = EventEnvelope {
            event_id: event_id.to_owned(),
            session_id: match &self.session_id {
                Some(s) => s.clone(),
                None => session_id.to_owned(),
            },
            branch_id: self.default_branch_id.clone(),
            run_id: None,
            seq: head_seq + 1,
            timestamp,
            parent_id: None,
            payload: EventPayload::MemoryCommitted {
                scope: MemoryScope::Session,
                memory_id: memory_id.to_owned(),
                committed_ref: commitment.committed_ref.clone(),
                supersedes,
            },
            metadata: Vec::new(),
            schema_version: 1,
        };
        (envelope, CommitOutput { memory_id: memory_id.to_owned(), committed: true })
    }
}

/// What a query gives back of a commit: once the projection folds the
/// `MemoryCommitted` event of `memory_commit`, the session scope's live
/// memories end with the new memory (unless its id was already
/// tombstoned), and the memory it supersedes is no longer among them.
pub proof fn lemma_commit_then_query(
    committed: Seq<(Seq<char>, Seq<char>, Option<Seq<char>>)>,
    tombstones: Set<Seq<char>>,
    memory_id: Seq<char>,
    committed_ref: Seq<char>,
    supersedes: Option<Seq<char>>,
)
    requires
        !tombstones.contains(memory_id),
        supersedes != Some(memory_id),
    ensures
        ({
            let p = PayloadV::MemoryCommitted { scope: MemoryScope::Session, memory_id, committed_ref, supersedes };
            let after = live(committed_after(committed, p, MemoryScope::Session), tombstones_after(tombstones, p));
            &&& after.len() > 0
            &&& after.last() == (memory_id, committed_ref, supersedes)
            &&& supersedes matches Some(old) ==> forall|i: int| 0 <= i < after.len() ==> (#[trigger] after[i]).0 != old
        }),
{
    let p = PayloadV::MemoryCommitted { scope: MemoryScope::Session, memory_id, committed_ref, supersedes };
    let c2 = committed_after(committed, p, MemoryScope::Session);
    let t2 = tombstones_after(tombstones, p);
    assert(c2 == committed.push((memory_id, committed_ref, supersedes)));
    assert(!t2.contains(memory_id));
    assert(c2.drop_last() == committed);
    lemma_live_excludes_tombstoned(c2, t2);
}

} // verus!
