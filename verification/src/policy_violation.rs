//! Policy violation audit events (`policy.violation`): every capability
//! violation, policy gate hit and rate limit becomes a journal entry.
use vstd::prelude::*;

use crate::event_map::{EventEnvelope, EventPayload, PayloadV};
use crate::json::{json_object, json_object_text, members_view, JsonScalar, JsonScalarV};

verus! {

/// Why an enforcement point was triggered.
#[derive(Clone, Copy, PartialEq, Eq, Structural)]
pub enum ViolationType {
    CapabilityBlocked,
    PathTraversal,
    CommandNotAllowed,
    EventBudgetExceeded,
    RateLimitExceeded,
    ModelNotAllowed,
    SkillNotAllowed,
    TokenExpired,
    AuthenticationError,
}

/// The snake_case name of a violation type.
pub open spec fn violation_name(v: ViolationType) -> Seq<char> {
    match v {
        ViolationType::CapabilityBlocked => "capability_blocked"@,
        ViolationType::PathTraversal => "path_traversal"@,
        ViolationType::CommandNotAllowed => "command_not_allowed"@,
        ViolationType::EventBudgetExceeded => "event_budget_exceeded"@,
        ViolationType::RateLimitExceeded => "rate_limit_exceeded"@,
        ViolationType::ModelNotAllowed => "model_not_allowed"@,
        ViolationType::SkillNotAllowed => "skill_not_allowed"@,
        ViolationType::TokenExpired => "token_expired"@,
        ViolationType::AuthenticationError => "authentication_error"@,
    }
}

impl ViolationType {
    /// The canonical name.
    pub fn as_str(self) -> (s: &'static str)
        ensures
            s@ == violation_name(self),
    {
        match self {
            ViolationType::CapabilityBlocked => "capability_blocked",
            ViolationType::PathTraversal => "path_traversal",
            ViolationType::CommandNotAllowed => "command_not_allowed",
            ViolationType::EventBudgetExceeded => "event_budget_exceeded",
            ViolationType::RateLimitExceeded => "rate_limit_exceeded",
            ViolationType::ModelNotAllowed => "model_not_allowed",
            ViolationType::SkillNotAllowed => "skill_not_allowed",
            ViolationType::TokenExpired => "token_expired",
            ViolationType::AuthenticationError => "authentication_error",
        }
    }
}

/// Distinct violation types have distinct names.
pub proof fn lemma_violation_names_distinct(a: ViolationType, b: ViolationType)
    ensures
        violation_name(a) == violation_name(b) ==> a == b,
{
    reveal_strlit("capability_blocked");
    reveal_strlit("path_traversal");
    reveal_strlit("command_not_allowed");
    reveal_strlit("event_budget_exceeded");
    reveal_strlit("rate_limit_exceeded");
    reveal_strlit("model_not_allowed");
    reveal_strlit("skill_not_allowed");
    reveal_strlit("token_expired");
    reveal_strlit("authentication_error");
    assert(violation_name(a).len() == violation_name(b).len() && violation_name(a)[0] == violation_name(b)[0]
        && violation_name(a)[1] == violation_name(b)[1] ==> a == b);
}

/// What a violation record holds: the kind, the capability blocked, the
/// value that triggered it, the tier and the subject.
pub struct PolicyViolationData {
    pub violation_type: ViolationType,
    pub capability: Option<String>,
    pub attempted_value: Option<String>,
    pub tier: String,
    pub subject: String,
}

/// The event type of violation records.
pub open spec fn violation_event_type() -> Seq<char> {
    "policy.violation"@
}

/// A string member when the value is present, nothing otherwise.
pub open spec fn optional_member(key: Seq<char>, value: Option<String>) -> Seq<(Seq<char>, JsonScalarV)> {
    match value {
        Some(v) => seq![(key, JsonScalarV::Str(v@))],
        None => Seq::empty(),
    }
}

/// The JSON document of a violation record: its kind, the capability and
/// the attempted value when present, the tier and the subject.
pub open spec fn violation_json(d: PolicyViolationData) -> Seq<char> {
    json_object_text(seq![("violation_type"@, JsonScalarV::Str(violation_name(d.violation_type)))]
        + optional_member("capability"@, d.capability) + optional_member("attempted_value"@, d.attempted_value)
        + seq![("tier"@, JsonScalarV::Str(d.tier@)), ("subject"@, JsonScalarV::Str(d.subject@))])
}

fn push_optional_member(members: &mut Vec<(String, JsonScalar)>, key: &str, value: &Option<String>)
    ensures
        members_view(final(members)@) == members_view(old(members)@) + optional_member(key@, *value),
{
    let ghost before = members@;
    match value {
        Some(v) => {
            members.push((key.to_owned(), JsonScalar::Str(v.clone())));
            assert(members_view(members@) == members_view(before).push((key@, JsonScalarV::Str(v@))));
        },
        None => {
            assert(members_view(members@) == members_view(before) + Seq::<(Seq<char>, JsonScalarV)>::empty());
        },
    }
}

impl PolicyViolationData {
    /// The record as a JSON document.
    pub fn to_json(&self) -> (s: String)
        ensures
            s@ == violation_json(*self),
    {
        let mut members: Vec<(String, JsonScalar)> = Vec::new();
        let name = self.violation_type.as_str().to_owned();
        members.push(("violation_type".to_owned(), JsonScalar::Str(name)));
        assert(members_view(members@) == seq![("violation_type"@, JsonScalarV::Str(violation_name(self.violation_type)))]);
        push_optional_member(&mut members, "capability", &self.capability);
        push_optional_member(&mut members, "attempted_value", &self.attempted_value);
        let ghost mid = members_view(members@);
        members.push(("tier".to_owned(), JsonScalar::Str(self.tier.clone())));
        members.push(("subject".to_owned(), JsonScalar::Str(self.subject.clone())));
        assert(members_view(members@) == mid + seq![("tier"@, JsonScalarV::Str(self.tier@)), ("subject"@, JsonScalarV::Str(self.subject@))]);
        json_object(&members)
    }
}

/// The custom event of a violation: type `policy.violation`, carrying the
/// record's document.
pub fn event_kind(data: &PolicyViolationData) -> (p: EventPayload)
    ensures
        p@ == (PayloadV::Custom { event_type: violation_event_type(), data: violation_json(*data) }),
{
    EventPayload::Custom { event_type: "policy.violation".to_owned(), data: data.to_json() }
}

/// The journal entry of a violation: a `policy.violation` custom payload
/// carrying the record's document, sequence number 0 (the journal assigns
/// it), no run, parent or metadata.  `event_id` and `now` are fresh values
/// supplied by the caller.
pub fn build_event(session_id: &str, branch_id: &str, data: &PolicyViolationData, event_id: String, now: u64) -> (e: EventEnvelope)
    ensures
        e.event_id@ == event_id@,
        e.session_id@ == session_id@,
        e.branch_id@ == branch_id@,
        e.run_id is None,
        e.seq == 0,
        e.timestamp == now,
        e.parent_id is None,
        e.payload@ == (PayloadV::Custom { event_type: violation_event_type(), data: violation_json(*data) }),
        e.metadata@.len() == 0,
        e.schema_version == 1,
{
    EventEnvelope {
        event_id,
        session_id: session_id.to_owned(),
        branch_id: branch_id.to_owned(),
        run_id: None,
        seq: 0,
        timestamp: now,
        parent_id: None,
        payload: event_kind(data),
        metadata: Vec::new(),
        schema_version: 1,
    }
}

} // verus!
