//! Skill lifecycle events (discovery, activation, deactivation, MCP
//! connections) as journal entries under the `skill.` prefix, and the
//! activation analytics folded from them.
use vstd::prelude::*;

use crate::event_map::{EventEnvelope, EventPayload, PayloadV};
use crate::json::{json_object, json_object_text, json_str_field, json_string_field, JsonScalar, JsonScalarV};
use crate::keyed::{distinct_keys, find_key, lookup, put};
use crate::text::{copy_strings, push_str, str_eq, views};

verus! {

/// The kinds of skill event.
#[derive(Clone, Copy, PartialEq, Eq, Structural)]
pub enum SkillEventType {
    Discovered,
    Activated,
    Deactivated,
    McpConnected,
    McpDisconnected,
}

/// The journal name of a skill event kind.
pub open spec fn skill_event_name(t: SkillEventType) -> Seq<char> {
    match t {
        SkillEventType::Discovered => "skill.discovered"@,
        SkillEventType::Activated => "skill.activated"@,
        SkillEventType::Deactivated => "skill.deactivated"@,
        SkillEventType::McpConnected => "skill.mcp_connected"@,
        SkillEventType::McpDisconnected => "skill.mcp_disconnected"@,
    }
}

/// The journal name of a skill event kind.
pub fn skill_event_type_str(t: SkillEventType) -> (s: &'static str)
    ensures
        s@ == skill_event_name(t),
{
    match t {
        SkillEventType::Discovered => "skill.discovered",
        SkillEventType::Activated => "skill.activated",
        SkillEventType::Deactivated => "skill.deactivated",
        SkillEventType::McpConnected => "skill.mcp_connected",
        SkillEventType::McpDisconnected => "skill.mcp_disconnected",
    }
}

/// Data of a `skill.discovered` event.
pub struct SkillDiscoveredData {
    pub count: usize,
    pub dirs: Vec<String>,
}

/// Data of a `skill.activated` event.
pub struct SkillActivatedData {
    pub name: String,
    pub tags: Vec<String>,
    pub allowed_tools: Option<Vec<String>>,
    pub mcp_servers: Option<Vec<String>>,
}

/// Data of a `skill.deactivated` event.
pub struct SkillDeactivatedData {
    pub name: String,
    pub duration_ms: u64,
    pub reason: String,
}

/// Data of `skill.mcp_connected` and `skill.mcp_disconnected` events.
pub struct SkillMcpData {
    pub skill_name: String,
    pub server_name: String,
    pub tools_count: usize,
}

/// A skill event entry: a custom payload named by the kind, carrying the
/// data document (JSON text), with no run, sequence number 0 (the journal
/// assigns it), no parent and no metadata.  `event_id` and `now` are fresh
/// values supplied by the caller.
pub fn build_skill_event(
    session_id: &str,
    branch_id: &str,
    event_type: SkillEventType,
    data: String,
    event_id: String,
    now: u64,
) -> (e: EventEnvelope)
    ensures
        e.event_id@ == event_id@,
        e.session_id@ == session_id@,
        e.branch_id@ == branch_id@,
        e.run_id is None,
        e.seq == 0,
        e.timestamp == now,
        e.parent_id is None,
        e.payload@ == (PayloadV::Custom { event_type: skill_event_name(event_type), data: data@ }),
        e.metadata@.len() == 0,
        e.schema_version == 1,
{
    EventEnvelope {
        event_id,
        session_id: session_id.to_owned(),
        branch_id: branch_id.to_owned(),
        run_id: None,
        seq: 0,
        timestamp: now,
        parent_id: None,
        payload: EventPayload::Custom { event_type: skill_event_type_str(event_type).to_owned(), data },
        metadata: Vec::new(),
        schema_version: 1,
    }
}

/// The document of a `skill.discovered` event: the count and the
/// directories.
pub open spec fn discovered_json(count: u64, dirs: Seq<Seq<char>>) -> Seq<char> {
    json_object_text(seq![("count"@, JsonScalarV::Num(count)), ("dirs"@, JsonScalarV::Strs(dirs))])
}

/// A list member when the list is present, nothing otherwise.
pub open spec fn optional_list(key: Seq<char>, v: Option<Seq<Seq<char>>>) -> Seq<(Seq<char>, JsonScalarV)> {
    match v {
        Some(items) => seq![(key, JsonScalarV::Strs(items))],
        None => Seq::empty(),
    }
}

/// The document of a `skill.activated` event: the name, the tags when
/// there are any, and the tool allowlist and MCP servers when present.
pub open spec fn activated_json(name: Seq<char>, tags: Seq<Seq<char>>, allowed_tools: Option<Seq<Seq<char>>>, mcp_servers: Option<Seq<Seq<char>>>) -> Seq<char> {
    json_object_text(seq![("name"@, JsonScalarV::Str(name))]
        + (if tags.len() > 0 { seq![("tags"@, JsonScalarV::Strs(tags))] } else { Seq::empty() })
        + optional_list("allowed_tools"@, allowed_tools) + optional_list("mcp_servers"@, mcp_servers))
}

/// The document of a `skill.deactivated` event.
pub open spec fn deactivated_json(name: Seq<char>, duration_ms: u64, reason: Seq<char>) -> Seq<char> {
    json_object_text(seq![("name"@, JsonScalarV::Str(name)), ("duration_ms"@, JsonScalarV::Num(duration_ms)), ("reason"@, JsonScalarV::Str(reason))])
}

/// The document of an MCP connection event.
pub open spec fn mcp_json(skill_name: Seq<char>, server_name: Seq<char>, tools_count: u64) -> Seq<char> {
    json_object_text(seq![("skill_name"@, JsonScalarV::Str(skill_name)), ("server_name"@, JsonScalarV::Str(server_name)),
        ("tools_count"@, JsonScalarV::Num(tools_count))])
}

/// An optional list of strings as plain text.
pub open spec fn opt_views(v: Option<Vec<String>>) -> Option<Seq<Seq<char>>> {
    match v {
        Some(items) => Some(views(items@)),
        None => None,
    }
}

fn copy_list(v: &Option<Vec<String>>) -> (r: Option<Vec<String>>)
    ensures
        opt_views(r) == opt_views(*v),
{
    match v {
        Some(items) => Some(copy_strings(items.as_slice())),
        None => None,
    }
}

fn push_optional_list(members: &mut Vec<(String, JsonScalar)>, key: &str, v: &Option<Vec<String>>)
    ensures
        crate::json::members_view(final(members)@) == crate::json::members_view(old(members)@) + optional_list(key@, opt_views(*v)),
{
    let ghost before = members@;
    match copy_list(v) {
        Some(items) => {
            members.push((key.to_owned(), JsonScalar::Strs(items)));
            assert(crate::json::members_view(members@) == crate::json::members_view(before).push(crate::json::members_view(members@).last()));
        },
        None => {
            assert(crate::json::members_view(members@) == crate::json::members_view(before) + Seq::<(Seq<char>, JsonScalarV)>::empty());
        },
    }
}

impl SkillDiscoveredData {
    /// The event document.
    pub fn to_json(&self) -> (s: String)
        ensures
            s@ == discovered_json(self.count as u64, views(self.dirs@)),
    {
        let mut members: Vec<(String, JsonScalar)> = Vec::new();
        members.push(("count".to_owned(), JsonScalar::Num(self.count as u64)));
        members.push(("dirs".to_owned(), JsonScalar::Strs(copy_strings(self.dirs.as_slice()))));
        assert(crate::json::members_view(members@) == seq![("count"@, JsonScalarV::Num(self.count as u64)), ("dirs"@, JsonScalarV::Strs(views(self.dirs@)))]);
        json_object(&members)
    }
}

impl SkillActivatedData {
    /// The event document.
    pub fn to_json(&self) -> (s: String)
        ensures
            s@ == activated_json(self.name@, views(self.tags@), opt_views(self.allowed_tools), opt_views(self.mcp_servers)),
    {
        let mut members: Vec<(String, JsonScalar)> = Vec::new();
        members.push(("name".to_owned(), JsonScalar::Str(self.name.clone())));
        assert(crate::json::members_view(members@) == seq![("name"@, JsonScalarV::Str(self.name@))]);
        if self.tags.len() > 0 {
            let ghost before = members@;
            members.push(("tags".to_owned(), JsonScalar::Strs(copy_strings(self.tags.as_slice()))));
            assert(crate::json::members_view(members@) == crate::json::members_view(before).push(("tags"@, JsonScalarV::Strs(views(self.tags@)))));
        }
        let ghost tag_part: Seq<(Seq<char>, JsonScalarV)> = if self.tags@.len() > 0 {
            seq![("tags"@, JsonScalarV::Strs(views(self.tags@)))]
        } else {
            Seq::empty()
        };
        assert(crate::json::members_view(members@) == seq![("name"@, JsonScalarV::Str(self.name@))] + tag_part);
        push_optional_list(&mut members, "allowed_tools", &self.allowed_tools);
        push_optional_list(&mut members, "mcp_servers", &self.mcp_servers);
        assert(views(self.tags@).len() == self.tags@.len());
        json_object(&members)
    }
}

impl SkillDeactivatedData {
    /// The event document.
    pub fn to_json(&self) -> (s: String)
        ensures
            s@ == deactivated_json(self.name@, self.duration_ms, self.reason@),
    {
        let mut members: Vec<(String, JsonScalar)> = Vec::new();
        members.push(("name".to_owned(), JsonScalar::Str(self.name.clone())));
        members.push(("duration_ms".to_owned(), JsonScalar::Num(self.duration_ms)));
        members.push(("reason".to_owned(), JsonScalar::Str(self.reason.clone())));
        assert(crate::json::members_view(members@) == seq![("name"@, JsonScalarV::Str(self.name@)),
            ("duration_ms"@, JsonScalarV::Num(self.duration_ms)), ("reason"@, JsonScalarV::Str(self.reason@))]);
        json_object(&members)
    }
}

impl SkillMcpData {
    /// The event document.
    pub fn to_json(&self) -> (s: String)
        ensures
            s@ == mcp_json(self.skill_name@, self.server_name@, self.tools_count as u64),
    {
        let mut members: Vec<(String, JsonScalar)> = Vec::new();
        members.push(("skill_name".to_owned(), JsonScalar::Str(self.skill_name.clone())));
        members.push(("server_name".to_owned(), JsonScalar::Str(self.server_name.clone())));
        members.push(("tools_count".to_owned(), JsonScalar::Num(self.tools_count as u64)));
        assert(crate::json::members_view(members@) == seq![("skill_name"@, JsonScalarV::Str(self.skill_name@)),
            ("server_name"@, JsonScalarV::Str(self.server_name@)), ("tools_count"@, JsonScalarV::Num(self.tools_count as u64))]);
        json_object(&members)
    }
}

/// `e` is the skill event entry of kind `t` with document `data`, for the
/// session and branch, with the given id and time.
pub open spec fn is_skill_entry(e: EventEnvelope, session_id: Seq<char>, branch_id: Seq<char>, t: SkillEventType, data: Seq<char>, event_id: Seq<char>, now: u64) -> bool {
    &&& e.event_id@ == event_id
    &&& e.session_id@ == session_id
    &&& e.branch_id@ == branch_id
    &&& e.run_id is None
    &&& e.seq == 0
    &&& e.timestamp == now
    &&& e.parent_id is None
    &&& e.payload@ == (PayloadV::Custom { event_type: skill_event_name(t), data })
    &&& e.metadata@.len() == 0
    &&& e.schema_version == 1
}

/// The `skill.discovered` entry to append: how many skills were found in
/// which directories.
pub fn emit_skill_discovered(session_id: &str, branch_id: &str, count: usize, dirs: &[String], event_id: String, now: u64) -> (e: EventEnvelope)
    ensures
        is_skill_entry(e, session_id@, branch_id@, SkillEventType::Discovered, discovered_json(count as u64, views(dirs@)), event_id@, now),
{
    let data = SkillDiscoveredData { count, dirs: copy_strings(dirs) };
    build_skill_event(session_id, branch_id, SkillEventType::Discovered, data.to_json(), event_id, now)
}

/// The `skill.activated` entry to append for a skill with its tags, tool
/// allowlist and MCP servers.
pub fn emit_skill_activated(
    session_id: &str,
    branch_id: &str,
    name: &str,
    tags: &[String],
    allowed_tools: Option<&[String]>,
    mcp_server_names: Option<&[String]>,
    event_id: String,
    now: u64,
) -> (e: EventEnvelope)
    ensures
        is_skill_entry(e, session_id@, branch_id@, SkillEventType::Activated,
            activated_json(name@, views(tags@),
                match allowed_tools { Some(a) => Some(views(a@)), None => None },
                match mcp_server_names { Some(m) => Some(views(m@)), None => None }),
            event_id@, now),
{
    let allowed = match allowed_tools {
        Some(a) => Some(copy_strings(a)),
        None => None,
    };
    let servers = match mcp_server_names {
        Some(m) => Some(copy_strings(m)),
        None => None,
    };
    let data = SkillActivatedData { name: name.to_owned(), tags: copy_strings(tags), allowed_tools: allowed, mcp_servers: servers };
    build_skill_event(session_id, branch_id, SkillEventType::Activated, data.to_json(), event_id, now)
}

/// The `skill.deactivated` entry to append: which skill, after how long,
/// and why.
pub fn emit_skill_deactivated(session_id: &str, branch_id: &str, name: &str, duration_ms: u64, reason: &str, event_id: String, now: u64) -> (e: EventEnvelope)
    ensures
        is_skill_entry(e, session_id@, branch_id@, SkillEventType::Deactivated, deactivated_json(name@, duration_ms, reason@), event_id@, now),
{
    let data = SkillDeactivatedData { name: name.to_owned(), duration_ms, reason: reason.to_owned() };
    build_skill_event(session_id, branch_id, SkillEventType::Deactivated, data.to_json(), event_id, now)
}

/// The `skill.mcp_connected` entry to append: the skill, the server and how
/// many tools it offers.
pub fn emit_skill_mcp_connected(session_id: &str, branch_id: &str, skill_name: &str, server_name: &str, tools_count: usize, event_id: String, now: u64) -> (e: EventEnvelope)
    ensures
        is_skill_entry(e, session_id@, branch_id@, SkillEventType::McpConnected, mcp_json(skill_name@, server_name@, tools_count as u64), event_id@, now),
{
    let data = SkillMcpData { skill_name: skill_name.to_owned(), server_name: server_name.to_owned(), tools_count };
    build_skill_event(session_id, branch_id, SkillEventType::McpConnected, data.to_json(), event_id, now)
}

/// Activation analytics folded from skill events.
pub struct SkillProjection {
    /// Activations per skill name.
    pub activations: Vec<(String, u64)>,
    /// Time of the latest activation per skill name.
    pub last_activated: Vec<(String, u64)>,
    /// MCP connections established.
    pub mcp_connections: u64,
}

/// The activation count of a skill (0 when never activated).
pub open spec fn count_of(v: Seq<(String, u64)>, name: Seq<char>) -> u64 {
    match lookup(v, name) {
        Some(n) => n,
        None => 0,
    }
}

impl SkillProjection {
    /// Each skill name occurs at most once in each table.
    pub open spec fn well_formed(&self) -> bool {
        distinct_keys(self.activations@) && distinct_keys(self.last_activated@)
    }

    /// No counter is at its limit, so one more event can be counted.
    pub open spec fn has_room(&self) -> bool {
        &&& self.mcp_connections < u64::MAX
        &&& forall|k: Seq<char>| #[trigger] count_of(self.activations@, k) < u64::MAX
    }

    pub fn new() -> (p: Self)
        ensures
            p.activations@.len() == 0,
            p.last_activated@.len() == 0,
            p.mcp_connections == 0,
            p.well_formed(),
    {
        SkillProjection { activations: Vec::new(), last_activated: Vec::new(), mcp_connections: 0 }
    }

    /// Folds one event: an activation naming a skill counts for that skill
    /// and records its time; an MCP connection is counted; anything else
    /// changes nothing.
    pub fn fold(&mut self, event: &EventEnvelope)
        requires
            old(self).has_room(),
        ensures
            old(self).well_formed() ==> final(self).well_formed(),
            match event.payload@ {
                PayloadV::Custom { event_type, data } => if event_type == skill_event_name(SkillEventType::Activated) {
                    match json_string_field(data, "name"@) {
                        Some(name) => final(self).mcp_connections == old(self).mcp_connections
                            && forall|k: Seq<char>| #[trigger] lookup(final(self).activations@, k) == if k == name {
                                Some((count_of(old(self).activations@, k) + 1) as u64)
                            } else {
                                lookup(old(self).activations@, k)
                            }
                            && forall|k: Seq<char>| #[trigger] lookup(final(self).last_activated@, k) == if k == name {
                                Some(event.timestamp)
                            } else {
                                lookup(old(self).last_activated@, k)
                            },
                        None => final(self).activations == old(self).activations
                            && final(self).last_activated == old(self).last_activated
                            && final(self).mcp_connections == old(self).mcp_connections,
                    }
                } else if event_type == skill_event_name(SkillEventType::McpConnected) {
                    final(self).activations == old(self).activations
                        && final(self).last_activated == old(self).last_activated
                        && final(self).mcp_connections == old(self).mcp_connections + 1
                } else {
                    final(self).activations == old(self).activations
                        && final(self).last_activated == old(self).last_activated
                        && final(self).mcp_connections == old(self).mcp_connections
                },
                _ => final(self).activations == old(self).activations
                    && final(self).last_activated == old(self).last_activated
                    && final(self).mcp_connections == old(self).mcp_connections,
            },
    {
        match &event.payload {
            EventPayload::Custom { event_type, data } => {
                if str_eq(event_type.as_str(), "skill.activated") {
                    match json_str_field(data.as_str(), "name") {
                        Some(name) => {
                            let n = match find_key(&self.activations, name.as_str()) {
                                Some(i) => self.activations[i].1,
                                None => 0,
                            };
                            assert(n == count_of(self.activations@, name@));
                            put(&mut self.activations, name.clone(), n + 1);
                            put(&mut self.last_activated, name, event.timestamp);
                        },
                        None => {},
                    }
                } else if str_eq(event_type.as_str(), "skill.mcp_connected") {
                    self.mcp_connections = self.mcp_connections + 1;
                }
            },
            _ => {},
        }
    }

    /// The most activated skill and its count; `None` before any
    /// activation.  Among skills with equal counts any one may be named.
    pub fn most_activated(&self) -> (r: Option<(String, u64)>)
        ensures
            self.activations@.len() == 0 <==> r is None,
            r matches Some((name, count)) ==> (exists|i: int| 0 <= i < self.activations@.len()
                && #[trigger] self.activations@[i].0@ == name@ && self.activations@[i].1 == count)
                && forall|j: int| 0 <= j < self.activations@.len() ==> #[trigger] self.activations@[j].1 <= count,
            self.well_formed() ==> (r matches Some((name, count)) ==> lookup(self.activations@, name@) == Some(count)),
    {
        if self.activations.len() == 0 {
            return None;
        }
        let mut best: usize = 0;
        let mut i: usize = 1;
        while i < self.activations.len()
            invariant
                1 <= i <= self.activations@.len(),
                best < i,
                forall|j: int| 0 <= j < i ==> #[trigger] self.activations@[j].1 <= self.activations@[best as int].1,
            decreases self.activations.len() - i,
        {
            if self.activations[i].1 >= self.activations[best].1 {
                best = i;
            }
            i = i + 1;
        }
        let name = self.activations[best].0.clone();
        let count = self.activations[best].1;
        assert(self.activations@[best as int].0@ == name@);
        proof {
            if self.well_formed() {
                let v = self.activations@;
                let b = best as int;
                assert forall|j: int| 0 <= j < b implies v[j].0@ != name@ by {
                    assert(v[j].0@ != v[b].0@);
                }
                crate::keyed::lemma_lookup_none_before(v, b, name@);
                assert(v.take(b + 1).drop_last() == v.take(b));
                crate::keyed::lemma_lookup_prefix(v, name@, b + 1);
            }
        }
        Some((name, count))
    }
}

/// The manifest path of a skill: `skills/<name>/SKILL.md`.
pub fn skill_manifest_path(name: &str) -> (p: String)
    ensures
        p@ == "skills/"@ + name@ + "/SKILL.md"@,
{
    let mut p = "skills/".to_owned();
    push_str(&mut p, name);
    push_str(&mut p, "/SKILL.md");
    p
}

/// The manifest entries of ingested skills: for each skill whose content
/// was stored, its manifest path and blob hash, in order.
pub open spec fn manifest_entries(stored: Seq<(String, Option<String>)>) -> Seq<(Seq<char>, Seq<char>)>
    decreases stored.len(),
{
    if stored.len() == 0 {
        Seq::empty()
    } else {
        let prev = manifest_entries(stored.drop_last());
        match stored.last().1 {
            Some(h) => prev.push(("skills/"@ + stored.last().0@ + "/SKILL.md"@, h@)),
            None => prev,
        }
    }
}

/// Builds the manifest entries of skills from what storing each one's
/// content gave (its blob hash, or `None` when the store refused it).
pub fn skills_to_manifest_entries(stored: &Vec<(String, Option<String>)>) -> (r: Vec<(String, String)>)
    ensures
        r@.map_values(|e: (String, String)| (e.0@, e.1@)) == manifest_entries(stored@),
{
    let mut r: Vec<(String, String)> = Vec::new();
    let mut i: usize = 0;
    while i < stored.len()
        invariant
            i <= stored@.len(),
            r@.map_values(|e: (String, String)| (e.0@, e.1@)) == manifest_entries(stored@.take(i as int)),
        decreases stored.len() - i,
    {
        assert(stored@.take(i + 1).drop_last() == stored@.take(i as int));
        assert(stored@.take(i + 1).last() == stored@[i as int]);
        match &stored[i].1 {
            Some(h) => {
                let ghost before = r@;
                r.push((skill_manifest_path(stored[i].0.as_str()), h.clone()));
                assert(r@.map_values(|e: (String, String)| (e.0@, e.1@))
                    == before.map_values(|e: (String, String)| (e.0@, e.1@)).push((r@.last().0@, r@.last().1@)));
            },
            None => {},
        }
        i = i + 1;
    }
    assert(stored@.take(stored@.len() as int) == stored@);
    r
}

} // verus!
