//! Tool-call gating by policy decisions, with an optional interactive
//! approval step.
//!
//! Calls are evaluated against policy rules by a `lago_policy` engine;
//! given its decision
//! and, where asked for, the approver's answer, this module decides whether
//! the call proceeds, what it is refused with, and which approval events are
//! emitted.
use vstd::prelude::*;

use lago_core::event::{PolicyDecisionKind as LagoDecisionKind, RiskLevel as LagoRisk};
use lago_core::sandbox::SandboxTier as T;
use lago_policy::MatchCondition as M;

use crate::event_map::{approval_decision_name, AgentEvent, ApprovalDecision, AgentEventV, RiskLevel, risk_level_name};
use crate::event_map::{approval_decision_to_str, opt_view, or_default, risk_level_to_str, ToolCall};
use crate::keyed::{find_key, lookup};
use crate::text::push_str;
use crate::tools::ToolAnnotations;

verus! {

/// What the policy engine decided for a call.
#[derive(Clone, Copy, PartialEq, Eq, Structural)]
pub enum PolicyDecisionKind {
    Allow,
    Deny,
    RequireApproval,
}

/// What the policy engine decided: the decision kind, the id of the rule
/// that decided, and its explanation.
pub struct PolicyDecision {
    pub decision: PolicyDecisionKind,
    pub rule_id: Option<String>,
    pub explanation: Option<String>,
}

/// How strongly a sandbox isolates.
#[derive(Clone, Copy, PartialEq, Eq, Structural)]
pub enum IsolationTier {
    NoIsolation,
    Basic,
    Process,
    Container,
}

/// When a policy rule applies to a call.
pub enum RuleCondition {
    /// The tool has exactly this name.
    ToolName(String),
    /// The tool's name matches this pattern (`*` for any text).
    ToolPattern(String),
    /// The tool is of this category.
    Category(String),
    /// The call's risk is at least this.
    RiskAtLeast(RiskLevel),
    /// All of these apply.
    And(Vec<RuleCondition>),
    /// One of these applies.
    Or(Vec<RuleCondition>),
    /// This does not apply.
    Not(Box<RuleCondition>),
    /// The available sandbox isolates at least this strongly.
    SandboxTierAtLeast(IsolationTier),
    /// Always.
    Always,
}

/// A policy rule: its id and name, its priority (lower is tried first),
/// its condition, the decision it gives, its explanation, and the sandbox
/// it requires.
pub struct PolicyRule {
    pub id: String,
    pub name: String,
    pub priority: u32,
    pub condition: RuleCondition,
    pub decision: PolicyDecisionKind,
    pub explanation: Option<String>,
    pub required_sandbox: Option<IsolationTier>,
}

/// A rule condition as plain values.
pub enum ConditionV {
    ToolName(Seq<char>),
    ToolPattern(Seq<char>),
    Category(Seq<char>),
    RiskAtLeast(RiskLevel),
    And(Seq<ConditionV>),
    Or(Seq<ConditionV>),
    Not(Box<ConditionV>),
    SandboxTierAtLeast(IsolationTier),
    Always,
}

/// The plain values of a condition.
pub open spec fn condition_view(c: RuleCondition) -> ConditionV
    decreases c,
{
    match c {
        RuleCondition::ToolName(n) => ConditionV::ToolName(n@),
        RuleCondition::ToolPattern(p) => ConditionV::ToolPattern(p@),
        RuleCondition::Category(k) => ConditionV::Category(k@),
        RuleCondition::RiskAtLeast(r) => ConditionV::RiskAtLeast(r),
        RuleCondition::And(v) => ConditionV::And(Seq::new(v@.len(), |i: int| if 0 <= i < v@.len() {
            proof { assert(decreases_to!(v => v@)); assert(decreases_to!(v@ => v@[i])); }
            condition_view(v@[i])
        } else {
            ConditionV::Always
        })),
        RuleCondition::Or(v) => ConditionV::Or(Seq::new(v@.len(), |i: int| if 0 <= i < v@.len() {
            proof { assert(decreases_to!(v => v@)); assert(decreases_to!(v@ => v@[i])); }
            condition_view(v@[i])
        } else {
            ConditionV::Always
        })),
        RuleCondition::Not(b) => ConditionV::Not(Box::new(condition_view(*b))),
        RuleCondition::SandboxTierAtLeast(t) => ConditionV::SandboxTierAtLeast(t),
        RuleCondition::Always => ConditionV::Always,
    }
}

/// A rule as plain values: id, name, priority, condition, decision,
/// explanation, required sandbox.
pub open spec fn rule_view(r: PolicyRule) -> (Seq<char>, Seq<char>, u32, ConditionV, PolicyDecisionKind, Option<Seq<char>>, Option<IsolationTier>) {
    (r.id@, r.name@, r.priority, condition_view(r.condition), r.decision, opt_view(r.explanation), r.required_sandbox)
}

/// The plain values of a rule list.
pub open spec fn rules_view(v: Seq<PolicyRule>) -> Seq<(Seq<char>, Seq<char>, u32, ConditionV, PolicyDecisionKind, Option<Seq<char>>, Option<IsolationTier>)> {
    v.map_values(|r: PolicyRule| rule_view(r))
}

/// The decision kind, rule id and explanation that a `lago_policy` engine
/// holding `rules` gives for a call of `tool` with the arguments `args`
/// (JSON text) at `risk` in `session`.
pub uninterp spec fn policy_decision(
    rules: Seq<(Seq<char>, Seq<char>, u32, ConditionV, PolicyDecisionKind, Option<Seq<char>>, Option<IsolationTier>)>,
    tool: Seq<char>,
    args: Seq<char>,
    risk: RiskLevel,
    session: Seq<char>,
) -> (PolicyDecisionKind, Option<Seq<char>>, Option<Seq<char>>);

/// The rank of a risk level, lowest first.
pub open spec fn risk_rank(r: RiskLevel) -> int {
    match r {
        RiskLevel::Low => 0,
        RiskLevel::Medium => 1,
        RiskLevel::High => 2,
        RiskLevel::Critical => 3,
    }
}

/// Whether a condition that names a tool or a risk threshold applies to a
/// call of `tool` at `risk` (other conditions are left open).
pub open spec fn simple_match(c: ConditionV, tool: Seq<char>, risk: RiskLevel) -> Option<bool> {
    match c {
        ConditionV::ToolName(n) => Some(n == tool),
        ConditionV::RiskAtLeast(t) => Some(risk_rank(risk) >= risk_rank(t)),
        ConditionV::Always => Some(true),
        _ => None,
    }
}

/// A decision as plain values.
pub open spec fn decision_view(d: PolicyDecision) -> (PolicyDecisionKind, Option<Seq<char>>, Option<Seq<char>>) {
    (d.decision, opt_view(d.rule_id), opt_view(d.explanation))
}

/// A match condition of `lago_policy`.
#[verifier::external_type_specification]
#[verifier::external_body]
pub struct ExMatchCondition(lago_policy::MatchCondition);

/// The journal's sandbox tier.
#[verifier::external_type_specification]
#[verifier::external_body]
pub struct ExSandboxTier(lago_core::sandbox::SandboxTier);

/// The engine's form of a condition (a conversion, variant by variant).
#[verifier::external_body]
fn lago_condition(c: &RuleCondition) -> lago_policy::MatchCondition {
    match c {
        RuleCondition::ToolName(n) => M::ToolName(n.clone()),
        RuleCondition::ToolPattern(p) => M::ToolPattern(p.clone()),
        RuleCondition::Category(k) => M::Category(k.clone()),
        RuleCondition::RiskAtLeast(r) => risk_condition(*r),
        RuleCondition::And(v) => M::And(v.iter().map(lago_condition).collect()),
        RuleCondition::Or(v) => M::Or(v.iter().map(lago_condition).collect()),
        RuleCondition::Not(b) => M::Not(Box::new(lago_condition(b))),
        RuleCondition::SandboxTierAtLeast(t) => M::SandboxTierAtLeast(lago_tier(*t)),
        RuleCondition::Always => M::Always,
    }
}

/// The engine's risk threshold condition (a conversion, variant by
/// variant).
#[verifier::external_body]
fn risk_condition(r: RiskLevel) -> lago_policy::MatchCondition {
    M::RiskAtLeast(match r { RiskLevel::Low => LagoRisk::Low, RiskLevel::Medium => LagoRisk::Medium, RiskLevel::High => LagoRisk::High, RiskLevel::Critical => LagoRisk::Critical })
}

/// The engine's form of a sandbox tier (a conversion, variant by variant).
#[verifier::external_body]
fn lago_tier(t: IsolationTier) -> lago_core::sandbox::SandboxTier {
    match t { IsolationTier::NoIsolation => T::None, IsolationTier::Basic => T::Basic, IsolationTier::Process => T::Process, IsolationTier::Container => T::Container }
}

/// A rule of `lago_policy`.
#[verifier::external_type_specification]
#[verifier::external_body]
pub struct ExRule(lago_policy::Rule);

/// The policy context of `lago_core`.
#[verifier::external_type_specification]
#[verifier::external_body]
pub struct ExPolicyContext(lago_core::PolicyContext);

/// The engine's form of a rule (a conversion, field by field).
#[verifier::external_body]
fn lago_rule(r: &PolicyRule) -> lago_policy::Rule {
    let decision = match r.decision { PolicyDecisionKind::Allow => LagoDecisionKind::Allow, PolicyDecisionKind::Deny => LagoDecisionKind::Deny, PolicyDecisionKind::RequireApproval => LagoDecisionKind::RequireApproval };
    lago_policy::Rule { id: r.id.clone(), name: r.name.clone(), priority: r.priority, condition: lago_condition(&r.condition),
        decision, explanation: r.explanation.clone(), required_sandbox: r.required_sandbox.map(lago_tier) }
}

/// The engine's context for a call (a conversion; arguments that do not
/// parse as JSON become null).
#[verifier::external_body]
fn lago_context(tool_name: &str, arguments: &str, risk: RiskLevel, session_id: &str) -> lago_core::PolicyContext {
    let risk = match risk { RiskLevel::Low => LagoRisk::Low, RiskLevel::Medium => LagoRisk::Medium, RiskLevel::High => LagoRisk::High, RiskLevel::Critical => LagoRisk::Critical };
    lago_core::PolicyContext { tool_name: tool_name.to_owned(), arguments: serde_json::from_str(arguments).unwrap_or(serde_json::Value::Null),
        category: None, risk: Some(risk), session_id: session_id.to_owned(), role: None, sandbox_tier: None }
}

/// `PolicyEngine::new`, `add_rule` for each rule, then `evaluate` on the
/// context of a call: the tool, its arguments (JSON text, null when they do
/// not parse), its risk and the session.  Trusted: the decision is named
/// `policy_decision`; as the engine's source shows, with no rules it allows
/// naming no rule; with one rule whose condition names the tool, a risk
/// threshold or always, it gives that rule's decision, id and explanation
/// exactly when the condition holds; and otherwise it gives the decision,
/// id and explanation of one of the rules or that default.  Which rule
/// decides among several is left to the name.
#[verifier::external_body]
fn evaluate_policy(rules: &Vec<PolicyRule>, tool_name: &str, arguments: &str, risk: RiskLevel, session_id: &str) -> (d: PolicyDecision)
    ensures
        decision_view(d) == policy_decision(rules_view(rules@), tool_name@, arguments@, risk, session_id@),
        rules@.len() == 0 ==> decision_view(d) == (PolicyDecisionKind::Allow, None::<Seq<char>>, None::<Seq<char>>),
        rules@.len() == 1 ==> match simple_match(condition_view(rules@[0].condition), tool_name@, risk) {
            Some(true) => decision_view(d) == (rules@[0].decision, Some(rules@[0].id@), opt_view(rules@[0].explanation)),
            Some(false) => decision_view(d) == (PolicyDecisionKind::Allow, None::<Seq<char>>, None::<Seq<char>>),
            None => true,
        },
        decision_view(d) == (PolicyDecisionKind::Allow, None::<Seq<char>>, None::<Seq<char>>)
            || exists|i: int| 0 <= i < rules@.len() && decision_view(d)
                == (#[trigger] rules@[i].decision, Some(rules@[i].id@), opt_view(rules@[i].explanation)),
{
    let mut engine = lago_policy::PolicyEngine::new();
    for r in rules {
        engine.add_rule(lago_rule(r));
    }
    let d = engine.evaluate(&lago_context(tool_name, arguments, risk, session_id));
    let decision = match d.decision { LagoDecisionKind::Allow => PolicyDecisionKind::Allow, LagoDecisionKind::Deny => PolicyDecisionKind::Deny, LagoDecisionKind::RequireApproval => PolicyDecisionKind::RequireApproval };
    PolicyDecision { decision, rule_id: d.rule_id, explanation: d.explanation }
}

/// How an approval request was answered.
pub struct ApprovalOutcome {
    pub decision: ApprovalDecision,
    pub reason: Option<String>,
}

/// What happens to a tool call before it runs.
pub enum PreToolCall {
    /// It runs.
    Proceed,
    /// It is refused with this message.
    Blocked(String),
    /// An approval must be requested at this risk level first.
    AwaitApproval { risk: RiskLevel },
}

/// The risk of a tool from its declared hints: high when it asks for
/// confirmation, medium when destructive, low otherwise (and for unknown
/// tools).
pub open spec fn risk_of(a: Option<ToolAnnotations>) -> RiskLevel {
    match a {
        Some(ann) => if ann.requires_confirmation {
            RiskLevel::High
        } else if ann.destructive {
            RiskLevel::Medium
        } else {
            RiskLevel::Low
        },
        None => RiskLevel::Low,
    }
}

/// `o`'s text, or `d` when absent.
pub open spec fn text_or(o: Option<String>, d: Seq<char>) -> Seq<char> {
    match o {
        Some(s) => s@,
        None => d,
    }
}

/// What a call of `tool_name` comes to given the engine's decision `d`:
/// allowed calls proceed; denied ones are blocked with the explanation (or
/// "denied by policy"); calls that need approval wait for it at the tool's
/// risk when a gate is configured and are blocked otherwise, naming the
/// rule.
pub open spec fn gated(
    annotations: Seq<(String, ToolAnnotations)>,
    has_gate: bool,
    tool_name: Seq<char>,
    d: (PolicyDecisionKind, Option<Seq<char>>, Option<Seq<char>>),
    r: PreToolCall,
) -> bool {
    match d.0 {
        PolicyDecisionKind::Allow => r is Proceed,
        PolicyDecisionKind::Deny => r matches PreToolCall::Blocked(m)
            && m@ == "tool '"@ + tool_name + "' blocked: "@ + or_default(d.2, "denied by policy"@),
        PolicyDecisionKind::RequireApproval => if has_gate {
            r matches PreToolCall::AwaitApproval { risk } && risk == risk_of(lookup(annotations, tool_name))
        } else {
            r matches PreToolCall::Blocked(m)
                && m@ == "tool '"@ + tool_name + "' requires approval (rule: "@ + or_default(d.1, "unknown"@)
                    + ") but no approval gate configured"@
        },
    }
}

/// Gates tool calls on policy decisions.
pub struct LagoPolicyMiddleware {
    /// The rules calls are evaluated against.
    pub rules: Vec<PolicyRule>,
    /// Declared hints per tool name.
    pub tool_annotations: Vec<(String, ToolAnnotations)>,
    /// Whether an approval gate is configured.
    pub has_gate: bool,
}

impl LagoPolicyMiddleware {
    pub fn new(rules: Vec<PolicyRule>, tool_annotations: Vec<(String, ToolAnnotations)>) -> (m: Self)
        ensures
            m.rules@ == rules@,
            m.tool_annotations@ == tool_annotations@,
            !m.has_gate,
    {
        LagoPolicyMiddleware { rules, tool_annotations, has_gate: false }
    }

    /// A middleware whose approval requests go to an approval gate.
    pub fn with_gate(rules: Vec<PolicyRule>, tool_annotations: Vec<(String, ToolAnnotations)>) -> (m: Self)
        ensures
            m.rules@ == rules@,
            m.tool_annotations@ == tool_annotations@,
            m.has_gate,
    {
        LagoPolicyMiddleware { rules, tool_annotations, has_gate: true }
    }

    /// The risk of a tool.
    pub fn risk_level(&self, tool_name: &str) -> (r: RiskLevel)
        ensures
            r == risk_of(lookup(self.tool_annotations@, tool_name@)),
    {
        match find_key(&self.tool_annotations, tool_name) {
            Some(i) => {
                let ann = self.tool_annotations[i].1;
                if ann.requires_confirmation {
                    RiskLevel::High
                } else if ann.destructive {
                    RiskLevel::Medium
                } else {
                    RiskLevel::Low
                }
            },
            None => RiskLevel::Low,
        }
    }

    /// The risk of a tool, by name.
    pub fn risk_level_str(&self, tool_name: &str) -> (s: &'static str)
        ensures
            s@ == risk_level_name(risk_of(lookup(self.tool_annotations@, tool_name@))),
    {
        risk_level_to_str(self.risk_level(tool_name))
    }

    /// What happens to a call of `tool_name` given the engine's decision.
    pub fn decide(&self, tool_name: &str, decision_in: PolicyDecision) -> (r: PreToolCall)
        ensures
            gated(self.tool_annotations@, self.has_gate, tool_name@, decision_view(decision_in), r),
    {
        match decision_in.decision {
            PolicyDecisionKind::Allow => PreToolCall::Proceed,
            PolicyDecisionKind::Deny => {
                let reason = match decision_in.explanation {
                    Some(e) => e,
                    None => "denied by policy".to_owned(),
                };
                let mut m = "tool '".to_owned();
                push_str(&mut m, tool_name);
                push_str(&mut m, "' blocked: ");
                push_str(&mut m, reason.as_str());
                PreToolCall::Blocked(m)
            },
            PolicyDecisionKind::RequireApproval => {
                if self.has_gate {
                    PreToolCall::AwaitApproval { risk: self.risk_level(tool_name) }
                } else {
                    let rule = match decision_in.rule_id {
                        Some(r) => r,
                        None => "unknown".to_owned(),
                    };
                    let mut m = "tool '".to_owned();
                    push_str(&mut m, tool_name);
                    push_str(&mut m, "' requires approval (rule: ");
                    push_str(&mut m, rule.as_str());
                    push_str(&mut m, ") but no approval gate configured");
                    PreToolCall::Blocked(m)
                }
            },
        }
    }

    /// Evaluates a call in a session against the rules (through a
    /// `lago_policy` engine), at the tool's risk, and gates it on the
    /// decision.
    pub fn pre_tool_call(&self, session_id: &str, call: &ToolCall) -> (r: PreToolCall)
        ensures
            gated(self.tool_annotations@, self.has_gate, call.tool_name@,
                policy_decision(rules_view(self.rules@), call.tool_name@, call.input@,
                    risk_of(lookup(self.tool_annotations@, call.tool_name@)), session_id@), r),
            self.rules@.len() == 0 ==> r is Proceed,
            self.rules@.len() == 1 ==> match simple_match(condition_view(self.rules@[0].condition), call.tool_name@,
                risk_of(lookup(self.tool_annotations@, call.tool_name@))) {
                Some(true) => gated(self.tool_annotations@, self.has_gate, call.tool_name@,
                    (self.rules@[0].decision, Some(self.rules@[0].id@), opt_view(self.rules@[0].explanation)), r),
                Some(false) => r is Proceed,
                None => true,
            },
    {
        let risk = self.risk_level(call.tool_name.as_str());
        let d = evaluate_policy(&self.rules, call.tool_name.as_str(), call.input.as_str(), risk, session_id);
        self.decide(call.tool_name.as_str(), d)
    }
}

/// The event announcing an approval request.
pub fn approval_requested_event(
    run_id: &str,
    session_id: &str,
    approval_id: &str,
    call_id: &str,
    tool_name: &str,
    arguments: &str,
    risk: RiskLevel,
) -> (e: AgentEvent)
    ensures
        e@ == (AgentEventV::ApprovalRequested { run_id: run_id@, session_id: session_id@, approval_id: approval_id@,
            call_id: call_id@, tool_name: tool_name@, arguments: arguments@, risk: risk_level_name(risk) }),
{
    AgentEvent::ApprovalRequested {
        run_id: run_id.to_owned(),
        session_id: session_id.to_owned(),
        approval_id: approval_id.to_owned(),
        call_id: call_id.to_owned(),
        tool_name: tool_name.to_owned(),
        arguments: arguments.to_owned(),
        risk: risk_level_to_str(risk).to_owned(),
    }
}

/// The event recording an approval's answer, and whether the call may
/// proceed: only an approval lets it; a denial or a timeout blocks it with
/// the decision and the reason.
pub fn resolve_approval(
    run_id: &str,
    session_id: &str,
    approval_id: &str,
    tool_name: &str,
    outcome: ApprovalOutcome,
) -> (r: (AgentEvent, Result<(), String>))
    ensures
        r.0@ == (AgentEventV::ApprovalResolved { run_id: run_id@, session_id: session_id@, approval_id: approval_id@,
            decision: approval_decision_name(outcome.decision), reason: opt_view(outcome.reason) }),
        match outcome.decision {
            ApprovalDecision::Approved => r.1 is Ok,
            _ => r.1 matches Err(m) && m@ == "tool '"@ + tool_name@ + "' approval "@ + approval_decision_name(outcome.decision)
                + ": "@ + text_or(outcome.reason, Seq::empty()),
        },
{
    let decision_str = approval_decision_to_str(outcome.decision);
    let reason_copy = match &outcome.reason {
        Some(x) => Some(x.clone()),
        None => None,
    };
    let event = AgentEvent::ApprovalResolved {
        run_id: run_id.to_owned(),
        session_id: session_id.to_owned(),
        approval_id: approval_id.to_owned(),
        decision: decision_str.to_owned(),
        reason: reason_copy,
    };
    let result = match outcome.decision {
        ApprovalDecision::Approved => Ok(()),
        _ => {
            let mut m = "tool '".to_owned();
            push_str(&mut m, tool_name);
            push_str(&mut m, "' approval ");
            push_str(&mut m, decision_str);
            push_str(&mut m, ": ");
            match &outcome.reason {
                Some(x) => push_str(&mut m, x.as_str()),
                None => {},
            }
            Err(m)
        },
    };
    (event, result)
}

} // verus!
